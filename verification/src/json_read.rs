//! Reading JSON back: what a reader makes of the texts that the library writes.

use vstd::prelude::*;

use crate::json::{
    hex_digit, json_escape, json_escaped, json_more_strings, json_optional_string, json_string,
    json_strings,
};
use crate::text::{decimal, digit, is_digit, lemma_decimal_digits, signed_decimal};

verus! {

/// The JSON values that messages are made of.
#[verifier::ext_equal]
pub enum Json {
    Null,
    Number(nat),
    Text(Seq<char>),
    Array(Seq<Json>),
    /// The members of an object, in the order in which they stand.
    Object(Seq<(Seq<char>, Json)>),
}

/// The value of a hexadecimal digit.
pub open spec fn hex_value(c: char) -> Option<nat> {
    if '0' <= c <= '9' {
        Some((c as nat - 48) as nat)
    } else if 'a' <= c <= 'f' {
        Some((c as nat - 87) as nat)
    } else if 'A' <= c <= 'F' {
        Some((c as nat - 55) as nat)
    } else {
        None
    }
}

/// The character that four hexadecimal digits stand for. Halves of surrogate pairs stand for
/// none.
pub open spec fn read_code(s: Seq<char>) -> Option<char> {
    match (hex_value(s[0]), hex_value(s[1]), hex_value(s[2]), hex_value(s[3])) {
        (Some(a), Some(b), Some(c), Some(d)) => {
            let code = 4096 * a + 256 * b + 16 * c + d;
            if 0xd800 <= code <= 0xdfff {
                None
            } else {
                Some(code as char)
            }
        },
        _ => None,
    }
}

/// The first character that the inside of a string stands for, and how many it is written
/// with.
pub open spec fn read_char(s: Seq<char>) -> Option<(char, int)> {
    if s.len() == 0 || s[0] == '"' || (s[0] as nat) < 32 {
        None
    } else if s[0] != '\\' {
        Some((s[0], 1))
    } else if s.len() < 2 {
        None
    } else if s[1] == '"' || s[1] == '\\' || s[1] == '/' {
        Some((s[1], 2))
    } else if s[1] == 'b' {
        Some((8nat as char, 2))
    } else if s[1] == 'f' {
        Some((12nat as char, 2))
    } else if s[1] == 'n' {
        Some(('\n', 2))
    } else if s[1] == 'r' {
        Some(('\r', 2))
    } else if s[1] == 't' {
        Some(('\t', 2))
    } else if s[1] == 'u' && s.len() >= 6 {
        match read_code(s.subrange(2, 6)) {
            Some(c) => Some((c, 6)),
            None => None,
        }
    } else {
        None
    }
}

/// Reads the inside of a string and the quote that ends it: the text, and what follows.
pub open spec fn read_text(s: Seq<char>) -> Option<(Seq<char>, Seq<char>)>
    decreases s.len(),
{
    if s.len() > 0 && s[0] == '"' {
        Some((Seq::empty(), s.skip(1)))
    } else {
        match read_char(s) {
            Some((c, n)) => match read_text(s.skip(n)) {
                Some((text, rest)) => Some((seq![c] + text, rest)),
                None => None,
            },
            None => None,
        }
    }
}

/// Reads a string: the text that it holds, and what follows.
pub open spec fn read_string(s: Seq<char>) -> Option<(Seq<char>, Seq<char>)> {
    if s.len() > 0 && s[0] == '"' {
        read_text(s.skip(1))
    } else {
        None
    }
}

/// How many digits a text begins with.
pub open spec fn count_digits(s: Seq<char>) -> nat
    decreases s.len(),
{
    if s.len() > 0 && is_digit(s[0]) {
        1 + count_digits(s.skip(1))
    } else {
        0
    }
}

/// The number that digits spell.
pub open spec fn number_value(s: Seq<char>) -> nat
    decreases s.len(),
{
    if s.len() == 0 {
        0
    } else {
        number_value(s.drop_last()) * 10 + (s.last() as nat - 48) as nat
    }
}

/// Reads a natural number, which has no leading zeros, and what follows.
pub open spec fn read_number(s: Seq<char>) -> Option<(nat, Seq<char>)> {
    let n = count_digits(s) as int;
    if n == 0 || (n > 1 && s[0] == '0') {
        None
    } else {
        Some((number_value(s.take(n)), s.skip(n)))
    }
}

/// Reads a value, and what follows.
#[verifier::opaque]
pub open spec fn read_value(s: Seq<char>) -> Option<(Json, Seq<char>)>
    decreases s.len(), 0int,
{
    if s.len() == 0 {
        None
    } else if s[0] == '"' {
        match read_string(s) {
            Some((text, rest)) => Some((Json::Text(text), rest)),
            None => None,
        }
    } else if s[0] == '{' {
        if s.len() > 1 && s[1] == '}' {
            Some((Json::Object(Seq::empty()), s.skip(2)))
        } else {
            match read_members(s.skip(1)) {
                Some((members, rest)) => Some((Json::Object(members), rest)),
                None => None,
            }
        }
    } else if s[0] == '[' {
        if s.len() > 1 && s[1] == ']' {
            Some((Json::Array(Seq::empty()), s.skip(2)))
        } else {
            match read_elements(s.skip(1)) {
                Some((elements, rest)) => Some((Json::Array(elements), rest)),
                None => None,
            }
        }
    } else if s.len() >= 4 && s.take(4) == "null"@ {
        Some((Json::Null, s.skip(4)))
    } else {
        match read_number(s) {
            Some((n, rest)) => Some((Json::Number(n), rest)),
            None => None,
        }
    }
}

/// Reads the elements of an array and the bracket that ends it, and what follows.
#[verifier::opaque]
pub open spec fn read_elements(s: Seq<char>) -> Option<(Seq<Json>, Seq<char>)>
    decreases s.len(), 1int,
{
    match read_value(s) {
        Some((value, rest)) if 0 < rest.len() <= s.len() => {
            if rest[0] == ']' {
                Some((seq![value], rest.skip(1)))
            } else if rest[0] == ',' {
                match read_elements(rest.skip(1)) {
                    Some((elements, rest)) => Some((seq![value] + elements, rest)),
                    None => None,
                }
            } else {
                None
            }
        },
        _ => None,
    }
}

/// Reads the members of an object and the brace that ends it, and what follows. What follows
/// a part of a text is never longer than the text.
#[verifier::opaque]
pub open spec fn read_members(s: Seq<char>) -> Option<(Seq<(Seq<char>, Json)>, Seq<char>)>
    decreases s.len(), 1int,
{
    match read_string(s) {
        Some((name, rest)) if 0 < rest.len() <= s.len() && rest[0] == ':' => {
            match read_value(rest.skip(1)) {
                Some((value, rest)) if 0 < rest.len() <= s.len() => {
                    if rest[0] == '}' {
                        Some((seq![(name, value)], rest.skip(1)))
                    } else if rest[0] == ',' {
                        match read_members(rest.skip(1)) {
                            Some((members, rest)) => Some((seq![(name, value)] + members, rest)),
                            None => None,
                        }
                    } else {
                        None
                    }
                },
                _ => None,
            }
        },
        _ => None,
    }
}

/// The value of the member of a name.
pub open spec fn member(members: Seq<(Seq<char>, Json)>, name: Seq<char>) -> Option<Json>
    decreases members.len(),
{
    if members.len() == 0 {
        None
    } else if members[0].0 == name {
        Some(members[0].1)
    } else {
        member(members.skip(1), name)
    }
}

/// The JSON value of an optional text.
pub open spec fn optional(text: Option<Seq<char>>) -> Json {
    match text {
        Some(text) => Json::Text(text),
        None => Json::Null,
    }
}

proof fn lemma_read_char(c: char, x: Seq<char>)
    ensures
        read_char(json_escape(c) + x) == Some((c, json_escape(c).len() as int)),
        json_escape(c).len() > 0,
        json_escape(c)[0] != '"',
        (json_escape(c) + x).skip(json_escape(c).len() as int) == x,
{
    let s = json_escape(c) + x;
    assert(s.skip(json_escape(c).len() as int) =~= x);
    assert(s[0] == json_escape(c)[0]);
    if json_escape(c).len() > 1 {
        assert(s[1] == json_escape(c)[1]);
    }
    if json_escape(c).len() == 6 {
        let h = c as nat / 16;
        let l = c as nat % 16;
        assert(s.subrange(2, 6) =~= seq!['0', '0', hex_digit(h), hex_digit(l)]);
        assert(hex_digit(h) as nat == 48 + h);
        assert(hex_digit(l) as nat == (if l < 10 { 48 + l } else { 87 + l }));
        assert(hex_value(hex_digit(h)) == Some(h));
        assert(hex_value(hex_digit(l)) == Some(l));
        assert(16 * h + l == c as nat);
    }
}

proof fn lemma_read_text(a: Seq<char>, x: Seq<char>)
    ensures
        read_text(json_escaped(a) + seq!['"'] + x) == Some((a, x)),
    decreases a.len(),
{
    let s = json_escaped(a) + seq!['"'] + x;
    if a.len() == 0 {
        assert(s[0] == '"');
        assert(s.skip(1) =~= x);
        assert(a =~= Seq::empty());
    } else {
        let rest = json_escaped(a.skip(1)) + seq!['"'] + x;
        assert(s =~= json_escape(a[0]) + rest);
        lemma_read_char(a[0], rest);
        assert(s[0] == json_escape(a[0])[0]);
        lemma_read_text(a.skip(1), x);
        assert(seq![a[0]] + a.skip(1) =~= a);
    }
}

/// A string that holds a text reads back as the text, whatever follows it.
pub proof fn lemma_string_reads_back(a: Seq<char>, x: Seq<char>)
    ensures
        read_string(json_string(a) + x) == Some((a, x)),
        read_value(json_string(a) + x) == Some((Json::Text(a), x)),
{
    reveal_with_fuel(read_value, 1);
    let s = json_string(a) + x;
    assert(s[0] == '"');
    assert(s.skip(1) =~= json_escaped(a) + seq!['"'] + x);
    lemma_read_text(a, x);
}

/// An optional text reads back as the text or as nothing, whatever follows it.
pub proof fn lemma_optional_reads_back(a: Option<Seq<char>>, x: Seq<char>)
    ensures
        read_value(json_optional_string(a) + x) == Some((optional(a), x)),
{
    reveal_with_fuel(read_value, 1);
    match a {
        Some(text) => lemma_string_reads_back(text, x),
        None => {
            reveal_strlit("null");
            let s = "null"@ + x;
            assert(s[0] == 'n');
            assert(s.take(4) =~= "null"@);
            assert(s.skip(4) =~= x);
        },
    }
}

proof fn lemma_count_digits(s: Seq<char>, x: Seq<char>)
    requires
        forall|i: int| 0 <= i < s.len() ==> is_digit(#[trigger] s[i]),
        x.len() == 0 || !is_digit(x[0]),
    ensures
        count_digits(s + x) == s.len(),
    decreases s.len(),
{
    if s.len() == 0 {
        assert(s + x =~= x);
    } else {
        assert((s + x)[0] == s[0]);
        assert((s + x).skip(1) =~= s.skip(1) + x);
        lemma_count_digits(s.skip(1), x);
    }
}

/// A numeral spells its number, and begins with no zero but that of zero itself.
pub proof fn lemma_numeral(n: nat)
    ensures
        number_value(decimal(n)) == n,
        decimal(n).len() > 0,
        n > 0 ==> decimal(n)[0] != '0',
        n < 10 ==> decimal(n).len() == 1,
    decreases n,
{
    reveal_with_fuel(number_value, 2);
    assert(digit(n % 10) as nat == 48 + n % 10);
    if n >= 10 {
        lemma_numeral(n / 10);
        assert(decimal(n).drop_last() =~= decimal(n / 10));
        assert(decimal(n)[0] == decimal(n / 10)[0]);
    } else {
        assert(decimal(n).last() == digit(n));
        assert(decimal(n).drop_last().len() == 0);
    }
}

/// A numeral reads back as its number, whatever follows it that is no digit.
pub proof fn lemma_number_reads_back(n: nat, x: Seq<char>)
    requires
        x.len() == 0 || !is_digit(x[0]),
    ensures
        read_number(decimal(n) + x) == Some((n, x)),
        read_value(decimal(n) + x) == Some((Json::Number(n), x)),
{
    reveal_with_fuel(read_value, 1);
    let s = decimal(n) + x;
    lemma_decimal_digits(n);
    lemma_count_digits(decimal(n), x);
    lemma_numeral(n);
    assert(s[0] == decimal(n)[0]);
    assert(is_digit(s[0]));
    assert(s.take(decimal(n).len() as int) =~= decimal(n));
    assert(s.skip(decimal(n).len() as int) =~= x);
    reveal_strlit("null");
    if s.len() >= 4 {
        assert(s.take(4)[0] == s[0]);
    }
}

/// Whether a text is the numeral of a number: digits that spell it.
pub open spec fn spells(text: Seq<char>, n: nat) -> bool {
    &&& text.len() > 0
    &&& forall|i: int| 0 <= i < text.len() ==> is_digit(#[trigger] text[i])
    &&& text[0] == '0' ==> text.len() == 1
    &&& number_value(text) == n
}

/// Whether a text is the numeral of an integer: digits that spell its size, behind a minus
/// sign where it is negative.
pub open spec fn spells_signed(text: Seq<char>, n: int) -> bool {
    if n < 0 {
        text.len() > 0 && text[0] == '-' && spells(text.skip(1), (-n) as nat)
    } else {
        spells(text, n as nat)
    }
}

/// The numeral of a number spells it.
pub proof fn lemma_decimal_spells(n: nat)
    ensures
        spells(decimal(n), n),
{
    lemma_numeral(n);
    lemma_decimal_digits(n);
}

/// The numeral of an integer spells it.
pub proof fn lemma_signed_decimal_spells(n: int)
    ensures
        spells_signed(signed_decimal(n), n),
{
    if n < 0 {
        lemma_decimal_spells((-n) as nat);
        assert(signed_decimal(n).skip(1) =~= decimal((-n) as nat));
    } else {
        lemma_decimal_spells(n as nat);
    }
}

/// A numeral between quotes is the string that holds it.
pub(crate) proof fn lemma_quoted_numeral(n: nat)
    ensures
        json_string(decimal(n)) == seq!['"'] + decimal(n) + seq!['"'],
{
    lemma_decimal_digits(n);
    lemma_plain(decimal(n));
}

/// The last member of an object reads back.
pub(crate) proof fn lemma_last_member(name: Seq<char>, value: Json, text: Seq<char>, x: Seq<char>)
    requires
        read_value(text + (seq!['}'] + x)) == Some((value, seq!['}'] + x)),
    ensures
        read_members(json_string(name) + (seq![':'] + (text + (seq!['}'] + x)))) == Some(
            (seq![(name, value)], x),
        ),
{
    reveal_with_fuel(read_value, 1);
    reveal_with_fuel(read_members, 1);
    let rest = seq![':'] + (text + (seq!['}'] + x));
    lemma_string_reads_back(name, rest);
    assert(rest[0] == ':');
    assert(rest.skip(1) =~= text + (seq!['}'] + x));
    assert((seq!['}'] + x)[0] == '}');
    assert((seq!['}'] + x).skip(1) =~= x);
}

/// A member that others follow reads back with them.
pub(crate) proof fn lemma_first_member(
    name: Seq<char>,
    value: Json,
    text: Seq<char>,
    others: Seq<char>,
    members: Seq<(Seq<char>, Json)>,
    x: Seq<char>,
)
    requires
        read_value(text + (seq![','] + others)) == Some((value, seq![','] + others)),
        read_members(others) == Some((members, x)),
    ensures
        read_members(json_string(name) + (seq![':'] + (text + (seq![','] + others)))) == Some(
            (seq![(name, value)] + members, x),
        ),
{
    reveal_with_fuel(read_value, 1);
    reveal_with_fuel(read_members, 1);
    let rest = seq![':'] + (text + (seq![','] + others));
    lemma_string_reads_back(name, rest);
    assert(rest[0] == ':');
    assert(rest.skip(1) =~= text + (seq![','] + others));
    assert((seq![','] + others)[0] == ',');
    assert((seq![','] + others).skip(1) =~= others);
}

/// An object reads back as its members.
pub(crate) proof fn lemma_object(
    inside: Seq<char>,
    members: Seq<(Seq<char>, Json)>,
    x: Seq<char>,
)
    requires
        inside.len() > 0,
        inside[0] == '"',
        read_members(inside) == Some((members, x)),
    ensures
        read_value(seq!['{'] + inside) == Some((Json::Object(members), x)),
{
    reveal_with_fuel(read_value, 1);
    reveal_with_fuel(read_members, 1);
    let s = seq!['{'] + inside;
    assert(s[0] == '{');
    assert(s[1] == '"');
    assert(s.skip(1) =~= inside);
}

/// An object of one member reads back: the text of the value ends with that of the object.
pub(crate) proof fn lemma_one_member(name: Seq<char>, value: Json, text: Seq<char>, x: Seq<char>)
    requires
        read_value(text) == Some((value, seq!['}'] + x)),
        x.len() < text.len(),
    ensures
        read_value(seq!['{'] + (json_string(name) + (seq![':'] + text))) == Some(
            (Json::Object(seq![(name, value)]), x),
        ),
{
    let inside = json_string(name) + (seq![':'] + text);
    assert(read_members(inside) == Some((seq![(name, value)], x))) by {
        reveal_with_fuel(read_value, 1);
        reveal_with_fuel(read_members, 1);
        lemma_string_reads_back(name, seq![':'] + text);
        assert((seq![':'] + text)[0] == ':');
        assert((seq![':'] + text).skip(1) =~= text);
        assert((seq!['}'] + x)[0] == '}');
        assert((seq!['}'] + x).skip(1) =~= x);
    }
    assert(inside[0] == '"');
    lemma_object(inside, seq![(name, value)], x);
}

/// The last element of an array reads back.
proof fn lemma_last_element(value: Json, text: Seq<char>, x: Seq<char>)
    requires
        read_value(text + (seq![']'] + x)) == Some((value, seq![']'] + x)),
    ensures
        read_elements(text + (seq![']'] + x)) == Some((seq![value], x)),
{
    reveal_with_fuel(read_value, 1);
    reveal_with_fuel(read_elements, 1);
    assert((seq![']'] + x)[0] == ']');
    assert((seq![']'] + x).skip(1) =~= x);
}

/// An element that others follow reads back with them.
proof fn lemma_first_element(
    value: Json,
    text: Seq<char>,
    others: Seq<char>,
    elements: Seq<Json>,
    x: Seq<char>,
)
    requires
        read_value(text + (seq![','] + others)) == Some((value, seq![','] + others)),
        read_elements(others) == Some((elements, x)),
    ensures
        read_elements(text + (seq![','] + others)) == Some((seq![value] + elements, x)),
{
    reveal_with_fuel(read_value, 1);
    reveal_with_fuel(read_elements, 1);
    assert((seq![','] + others)[0] == ',');
    assert((seq![','] + others).skip(1) =~= others);
}

/// The JSON values of some texts.
pub open spec fn text_values(texts: Seq<Seq<char>>) -> Seq<Json> {
    texts.map_values(|text: Seq<char>| Json::Text(text))
}

proof fn lemma_elements_read_back(texts: Seq<Seq<char>>, x: Seq<char>)
    requires
        texts.len() > 0,
    ensures
        read_elements(
            json_string(texts[0]) + (json_more_strings(texts.skip(1)) + (seq![']'] + x)),
        ) == Some((text_values(texts), x)),
    decreases texts.len(),
{
    reveal_strlit(",");
    assert(","@ =~= seq![',']);
    let rest = texts.skip(1);
    let tail = json_more_strings(rest) + (seq![']'] + x);
    lemma_string_reads_back(texts[0], tail);
    if rest.len() == 0 {
        assert(tail =~= seq![']'] + x);
        lemma_last_element(Json::Text(texts[0]), json_string(texts[0]), x);
        assert(seq![Json::Text(texts[0])] =~= text_values(texts));
    } else {
        let others = json_string(rest[0]) + (json_more_strings(rest.skip(1)) + (seq![']'] + x));
        assert(tail =~= seq![','] + others);
        lemma_elements_read_back(rest, x);
        lemma_first_element(
            Json::Text(texts[0]),
            json_string(texts[0]),
            others,
            text_values(rest),
            x,
        );
        assert(seq![Json::Text(texts[0])] + text_values(rest) =~= text_values(texts));
    }
}

/// An array of texts reads back as the texts, whatever follows it.
pub proof fn lemma_strings_read_back(texts: Seq<Seq<char>>, x: Seq<char>)
    ensures
        read_value(json_strings(texts) + x) == Some((Json::Array(text_values(texts)), x)),
{
    reveal_with_fuel(read_value, 1);
    reveal_with_fuel(read_elements, 1);
    let s = json_strings(texts) + x;
    if texts.len() == 0 {
        reveal_strlit("[]");
        assert(s[0] == '[');
        assert(s[1] == ']');
        assert(s.skip(2) =~= x);
        assert(text_values(texts) =~= Seq::empty());
    } else {
        reveal_strlit("[");
        reveal_strlit("]");
        let inside = json_string(texts[0]) + (json_more_strings(texts.skip(1)) + (seq![']'] + x));
        assert("]"@ =~= seq![']']);
        assert(s =~= seq!['['] + inside);
        assert(s[0] == '[');
        assert(inside[0] == '"');
        assert(s[1] == '"');
        assert(s.skip(1) =~= inside);
        lemma_elements_read_back(texts, x);
    }
}

/// Two ways to join three texts.
pub(crate) proof fn lemma_regroup(a: Seq<char>, b: Seq<char>, c: Seq<char>)
    ensures
        a + b + c == a + (b + c),
{
    assert(a + b + c =~= a + (b + c));
}

/// Two ways to join five texts.
pub(crate) proof fn lemma_regroup_all(
    a: Seq<char>,
    b: Seq<char>,
    c: Seq<char>,
    d: Seq<char>,
    rest: Seq<char>,
)
    ensures
        a + b + c + d + rest == a + (b + (c + (d + rest))),
{
    lemma_regroup(a + b + c, d, rest);
    lemma_regroup(a + b, c, d + rest);
    lemma_regroup(a, b, c + (d + rest));
}

/// The text in front of a value in an object is the name of the member.
pub(crate) proof fn lemma_key(key: Seq<char>, open: char, name: Seq<char>, rest: Seq<char>)
    requires
        key == seq![open, '"'] + name + seq!['"', ':'],
        forall|i: int| 0 <= i < name.len() ==> json_escape(#[trigger] name[i]) == seq![name[i]],
    ensures
        key + rest == seq![open] + (json_string(name) + (seq![':'] + rest)),
        json_string(name)[0] == '"',
{
    lemma_plain(name);
    assert(key + rest =~= seq![open] + (json_string(name) + (seq![':'] + rest)));
}

/// A text without characters to escape stands in a string as it is.
proof fn lemma_plain(s: Seq<char>)
    requires
        forall|i: int| 0 <= i < s.len() ==> json_escape(#[trigger] s[i]) == seq![s[i]],
    ensures
        json_escaped(s) == s,
        json_string(s) == seq!['"'] + s + seq!['"'],
    decreases s.len(),
{
    if s.len() > 0 {
        lemma_plain(s.skip(1));
        assert(seq![s[0]] + s.skip(1) =~= s);
    } else {
        assert(json_escaped(s) =~= s);
    }
}

/// A JSON string shows where it ends and which text it holds: where two texts that begin
/// with one agree, the strings hold the same text and are followed by the same rest.
pub proof fn lemma_json_string_decodes(a: Seq<char>, b: Seq<char>, x: Seq<char>, y: Seq<char>)
    requires
        json_string(a) + x == json_string(b) + y,
    ensures
        a == b,
        x == y,
{
    lemma_string_reads_back(a, x);
    lemma_string_reads_back(b, y);
}

/// A numeral that no digit follows shows where it ends and which number it stands for.
pub proof fn lemma_json_number_decodes(m: nat, n: nat, x: Seq<char>, y: Seq<char>)
    requires
        decimal(m) + x == decimal(n) + y,
        x.len() == 0 || !is_digit(x[0]),
        y.len() == 0 || !is_digit(y[0]),
    ensures
        m == n,
        x == y,
{
    lemma_number_reads_back(m, x);
    lemma_number_reads_back(n, y);
}

} // verus!
