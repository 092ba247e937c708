//! JSON strings, the one part of the wire formats whose text depends on escaping.

use vstd::prelude::*;

verus! {

/// The error of the JSON serializer.
#[verifier::external_type_specification]
#[verifier::external_body]
pub struct ExJsonError(near_sdk::serde_json::Error);

/// A hexadecimal digit in lower case.
pub open spec fn hex_digit(d: nat) -> char {
    if d < 10 {
        (48 + d) as char
    } else {
        (87 + d) as char
    }
}

/// What stands for a character inside a JSON string: the character itself, or its escape
/// sequence where it is a quote, a backslash or a control character below the space.
pub open spec fn json_escape(c: char) -> Seq<char> {
    if c == '"' {
        seq!['\\', '"']
    } else if c == '\\' {
        seq!['\\', '\\']
    } else if c == '\n' {
        seq!['\\', 'n']
    } else if c == '\r' {
        seq!['\\', 'r']
    } else if c == '\t' {
        seq!['\\', 't']
    } else if c as nat == 8 {
        seq!['\\', 'b']
    } else if c as nat == 12 {
        seq!['\\', 'f']
    } else if (c as nat) < 32 {
        seq!['\\', 'u', '0', '0', hex_digit(c as nat / 16), hex_digit(c as nat % 16)]
    } else {
        seq![c]
    }
}

/// The escaped characters of a text, one after the other.
pub open spec fn json_escaped(s: Seq<char>) -> Seq<char>
    decreases s.len(),
{
    if s.len() == 0 {
        Seq::empty()
    } else {
        json_escape(s[0]) + json_escaped(s.skip(1))
    }
}

/// The JSON string that holds a text.
pub open spec fn json_string(s: Seq<char>) -> Seq<char> {
    seq!['"'] + json_escaped(s) + seq!['"']
}

/// The JSON of an optional text: the string, or `null`.
pub open spec fn json_optional_string(s: Option<Seq<char>>) -> Seq<char> {
    match s {
        Some(s) => json_string(s),
        None => "null"@,
    }
}

/// The JSON of texts that stand behind another one in an array.
pub open spec fn json_more_strings(texts: Seq<Seq<char>>) -> Seq<char>
    decreases texts.len(),
{
    if texts.len() == 0 {
        Seq::empty()
    } else {
        ","@ + json_string(texts[0]) + json_more_strings(texts.skip(1))
    }
}

/// The JSON array of some texts.
pub open spec fn json_strings(texts: Seq<Seq<char>>) -> Seq<char> {
    if texts.len() == 0 {
        "[]"@
    } else {
        "["@ + json_string(texts[0]) + json_more_strings(texts.skip(1)) + "]"@
    }
}

/// Calls `serde_json::to_string` on a string slice.
///
/// Claimed of it: it succeeds (the serializer of a string writes into memory and has no way
/// to fail), and the result is the text between quotes, with quotes, backslashes and control
/// characters below the space escaped, the short escapes where JSON has them and `\u00xx` in
/// lower case for the others.
#[verifier::external_body]
fn serialize_string(text: &str) -> (json: Result<String, near_sdk::serde_json::Error>)
    ensures
        json matches Ok(json) && json@ == json_string(text@),
{
    near_sdk::serde_json::to_string(text)
}

/// Appends the JSON string of a text.
pub fn push_json_string(out: &mut String, text: &str)
    ensures
        final(out)@ == old(out)@ + json_string(text@),
{
    match serialize_string(text) {
        Ok(json) => out.append(json.as_str()),
        Err(_) => {},
    }
}

/// Appends the JSON of an optional text.
pub fn push_json_optional_string(out: &mut String, text: &Option<String>)
    ensures
        final(out)@ == old(out)@ + json_optional_string(
            match *text {
                Some(text) => Some(text@),
                None => None,
            },
        ),
{
    match text {
        Some(text) => push_json_string(out, text.as_str()),
        None => out.append("null"),
    }
}

/// The texts of some strings.
pub open spec fn string_texts(strings: Seq<String>) -> Seq<Seq<char>> {
    strings.map_values(|string: String| string@)
}

/// Appends the JSON array of some strings.
pub fn push_json_strings(out: &mut String, strings: &Vec<String>)
    ensures
        final(out)@ == old(out)@ + json_strings(string_texts(strings@)),
{
    let ghost texts = string_texts(strings@);
    if strings.len() == 0 {
        out.append("[]");
        return ;
    }
    out.append("[");
    push_json_string(out, strings[0].as_str());
    let ghost whole = old(out)@ + "["@ + json_string(texts[0]) + json_more_strings(texts.skip(1));
    let mut i: usize = 1;
    while i < strings.len()
        invariant
            1 <= i <= strings@.len(),
            texts == string_texts(strings@),
            out@ + json_more_strings(texts.skip(i as int)) == whole,
        decreases strings@.len() - i,
    {
        let ghost rest = texts.skip(i as int);
        let ghost before = out@;
        out.append(",");
        push_json_string(out, strings[i].as_str());
        assert(rest[0] == strings@[i as int]@);
        assert(rest.skip(1) =~= texts.skip(i + 1));
        assert(out@ + json_more_strings(rest.skip(1)) =~= before + json_more_strings(rest));
        i += 1;
    }
    assert(out@ + json_more_strings(texts.skip(i as int)) =~= out@);
    out.append("]");
    assert(out@ =~= old(out)@ + json_strings(texts));
}

} // verus!
