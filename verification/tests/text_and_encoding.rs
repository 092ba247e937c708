use near_sdk::serde_json;
use templar_bots::account::{AccountId, InvalidAccountId};
use templar_bots::json::{push_json_optional_string, push_json_string, push_json_strings};
use templar_bots::near::serialize_and_encode;
use templar_bots::text::{decimal_text, signed_decimal_text};

fn json_of(text: &str) -> String {
    let mut out = String::new();
    push_json_string(&mut out, text);
    out
}

#[test]
fn decimals_are_written_like_the_standard_library_writes_them() {
    for n in [0u128, 1, 9, 10, 11, 99, 100, 1_000, 60_000, u64::MAX as u128, u128::MAX] {
        assert_eq!(decimal_text(n), n.to_string());
    }
    assert_eq!(decimal_text(1_020_304), "1020304");
}

#[test]
fn signed_decimals_are_written_like_the_standard_library_writes_them() {
    for n in [0i128, 7, -7, 10, -10, i128::MAX, -i128::MAX, i128::MIN] {
        assert_eq!(signed_decimal_text(n), n.to_string());
    }
    assert_eq!(signed_decimal_text(-120), "-120");
}

#[test]
fn different_numbers_have_different_numerals() {
    assert_ne!(decimal_text(1), decimal_text(10));
    assert_ne!(signed_decimal_text(5), signed_decimal_text(-5));
}

#[test]
fn json_strings_are_escaped() {
    assert_eq!(json_of(""), "\"\"");
    assert_eq!(json_of("plain"), "\"plain\"");
    assert_eq!(json_of("a\"b\\c"), "\"a\\\"b\\\\c\"");
    assert_eq!(json_of("\n\r\t\u{8}\u{c}"), "\"\\n\\r\\t\\b\\f\"");
    assert_eq!(json_of("\u{0}\u{1f}\u{1b}"), "\"\\u0000\\u001f\\u001b\"");
    assert_eq!(json_of("\u{7f}\u{e9}/\u{1f600}"), "\"\u{7f}\u{e9}/\u{1f600}\"");
}

#[test]
fn json_strings_read_back_as_the_text() {
    for text in ["", "quote-a-b", "\"}, {\"", "tab\tline\nbell\u{7}", "\u{fffd}\\u0041"] {
        let back: String = serde_json::from_str(&json_of(text)).unwrap();
        assert_eq!(back, text);
    }
}

#[test]
fn json_optional_strings_and_arrays() {
    let mut out = String::from(">");
    push_json_optional_string(&mut out, &None);
    push_json_optional_string(&mut out, &Some("x".to_string()));
    assert_eq!(out, ">null\"x\"");

    let mut empty = String::new();
    push_json_strings(&mut empty, &vec![]);
    assert_eq!(empty, "[]");
    let mut three = String::new();
    push_json_strings(
        &mut three,
        &vec!["a".to_string(), "b\"".to_string(), "".to_string()],
    );
    assert_eq!(three, "[\"a\",\"b\\\"\",\"\"]");
}

#[test]
fn arguments_are_encoded_in_base64() {
    let encoded = |text: &str| String::from_utf8(serialize_and_encode(text)).unwrap();
    assert_eq!(encoded(""), "");
    assert_eq!(encoded("f"), "Zg==");
    assert_eq!(encoded("fo"), "Zm8=");
    assert_eq!(encoded("foo"), "Zm9v");
    assert_eq!(encoded("foob"), "Zm9vYg==");
    assert_eq!(encoded("fooba"), "Zm9vYmE=");
    assert_eq!(encoded("foobar"), "Zm9vYmFy");
    assert_eq!(encoded("{\"a\":1}"), "eyJhIjoxfQ==");
    assert_eq!(encoded("\u{fb}\u{ff}?>"), "w7vDvz8+");
    assert_eq!(encoded("???"), "Pz8/");
}

#[test]
fn different_arguments_are_encoded_differently() {
    assert_ne!(serialize_and_encode("a"), serialize_and_encode("b"));
    assert_ne!(serialize_and_encode("a"), serialize_and_encode("a\0"));
}

#[test]
fn account_ids_that_the_network_accepts() {
    for text in [
        "aa",
        "near",
        "a-a",
        "a_b.c-d",
        "dclv2.ref-labs.near",
        "100",
        "0o0ooo00oo00o",
        "bowen",
        "b-o_w_e-n",
    ] {
        assert_eq!(AccountId::parse(text).unwrap().as_str(), text);
    }
    let longest = "a".repeat(64);
    assert_eq!(AccountId::parse(&longest).unwrap().as_str(), longest);
}

#[test]
fn account_ids_that_the_network_refuses() {
    for text in [
        "", "a", "A", "Abc", "-near", "near-", "_near", "near.", "ne..ar", "a-_b", "a b", "a|b",
        "\u{e9}t\u{e9}", "near@", "$$$",
    ] {
        assert_eq!(AccountId::parse(text), Err(InvalidAccountId));
    }
    assert!(AccountId::parse(&"a".repeat(65)).is_err());
}

#[test]
fn account_ids_are_compared_by_their_text() {
    let a = AccountId::parse("alice.near").unwrap();
    let b = AccountId::parse("bob.near").unwrap();
    assert!(a.same_as(&a.clone()));
    assert!(!a.same_as(&b));
}
