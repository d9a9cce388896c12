use std::borrow::Cow;
use std::collections::BTreeMap;
use std::fmt;

use serde::de::{self, Visitor};
use serde::{Deserialize, Deserializer};
use serde_utils::detrim;
use serde_utils::detrim::Source;
use serde_utils::error::{Expected, Failure, InvalidValue, Unexpected};

fn field(json: &str) -> serde_json::Value {
    let record: serde_json::Value = serde_json::from_str(json).unwrap();
    record.get("foo").unwrap().clone()
}

fn decode_str(json: &str) -> Result<&str, serde_json::Error> {
    serde_json::from_str::<BTreeMap<&str, &str>>(json).map(|record| record["foo"])
}

fn decode_string(json: &str) -> Result<String, serde_json::Error> {
    String::deserialize(field(json))
}

fn decode_option_string(json: &str) -> Result<Option<String>, serde_json::Error> {
    Option::<String>::deserialize(field(json))
}

fn decode_list(json: &str) -> Result<Vec<String>, serde_json::Error> {
    Vec::<String>::deserialize(field(json))
}

fn members(set: detrim::TrimmedSet) -> Vec<String> {
    let mut items = set.into_vec();
    items.sort();
    items
}

fn strings(items: &[&str]) -> Vec<String> {
    items.iter().map(|item| item.to_string()).collect()
}

/// A field that is decoded as text and handed to `cow_str` as the decoder
/// hands it over.
#[derive(Debug, PartialEq, Eq)]
struct Text<'a>(Cow<'a, str>);

struct TextVisitor;

fn rejected<E: de::Error>(invalid: InvalidValue) -> E {
    match &invalid.unexpected {
        Unexpected::Bytes(bytes) => {
            E::invalid_value(de::Unexpected::Bytes(bytes), &invalid.expected.text())
        }
        other => E::invalid_value(de::Unexpected::Other(other.description()), &invalid.expected.text()),
    }
}

impl<'de> Visitor<'de> for TextVisitor {
    type Value = Text<'de>;

    fn expecting(&self, formatter: &mut fmt::Formatter<'_>) -> fmt::Result {
        formatter.write_str(Expected::AString.text())
    }

    fn visit_str<E: de::Error>(self, val: &str) -> Result<Self::Value, E> {
        detrim::cow_str(Source::Str(val)).map(Text).map_err(rejected)
    }

    fn visit_borrowed_str<E: de::Error>(self, val: &'de str) -> Result<Self::Value, E> {
        detrim::cow_str(Source::BorrowedStr(val)).map(Text).map_err(rejected)
    }

    fn visit_string<E: de::Error>(self, val: String) -> Result<Self::Value, E> {
        detrim::cow_str(Source::String(val)).map(Text).map_err(rejected)
    }

    fn visit_bytes<E: de::Error>(self, val: &[u8]) -> Result<Self::Value, E> {
        detrim::cow_str(Source::Bytes(val)).map(Text).map_err(rejected)
    }

    fn visit_borrowed_bytes<E: de::Error>(self, val: &'de [u8]) -> Result<Self::Value, E> {
        detrim::cow_str(Source::BorrowedBytes(val)).map(Text).map_err(rejected)
    }

    fn visit_byte_buf<E: de::Error>(self, val: Vec<u8>) -> Result<Self::Value, E> {
        detrim::cow_str(Source::ByteBuf(val)).map(Text).map_err(rejected)
    }
}

impl<'de: 'a, 'a> Deserialize<'de> for Text<'a> {
    fn deserialize<D: Deserializer<'de>>(de: D) -> Result<Self, D::Error> {
        de.deserialize_str(TextVisitor).map(|Text(text)| Text(text))
    }
}

fn decode_cow(json: &[u8]) -> Result<Cow<'_, str>, serde_json::Error> {
    serde_json::from_slice::<BTreeMap<&str, Text<'_>>>(json)
        .map(|mut record| record.remove("foo").unwrap().0)
}

fn cow(text: &str) -> Cow<'static, str> {
    Cow::Owned(text.to_string())
}

#[test]
fn cow_str() {
    decode_cow(br#"{ "foo": 1 }"#).unwrap_err();
    decode_cow(br#"{ "foo": true }"#).unwrap_err();

    assert_eq!(cow(""), decode_cow(br#"{ "foo": "" }"#).unwrap());
    assert_eq!(cow(""), decode_cow(br#"{ "foo": " " }"#).unwrap());
    assert_eq!(cow("bar"), decode_cow(br#"{ "foo": "bar" }"#).unwrap());
    assert_eq!(cow("bar"), decode_cow(br#"{ "foo": " bar" }"#).unwrap());
    assert_eq!(cow("bar"), decode_cow(br#"{ "foo": "  bar" }"#).unwrap());
    assert_eq!(cow("bar"), decode_cow(br#"{ "foo": "bar " }"#).unwrap());
    assert_eq!(cow("bar"), decode_cow(br#"{ "foo": "  bar  " }"#).unwrap());
}

#[test]
fn cow_str_allows_borrows() {
    // borrowed when no trimming is needed
    let source = br#"{ "foo": "bar" }"#.to_vec();
    let text = decode_cow(&source).unwrap();
    assert!(matches!(&text, Cow::Borrowed(_)));
    assert_eq!(text, "bar");

    // borrowed and trimmed
    let source = br#"{ "foo": " bar " }"#.to_vec();
    let text = decode_cow(&source).unwrap();
    assert!(matches!(&text, Cow::Borrowed(_)));
    assert_eq!(text, "bar");

    // owned and trimmed when escape sequences need processing
    let source = br#"{ "foo": " b\\ar " }"#.to_vec();
    let text = decode_cow(&source).unwrap();
    assert!(matches!(&text, Cow::Owned(_)));
    assert_eq!(text, "b\\ar");
}

#[test]
fn hashset_string() {
    detrim::hashset_string(decode_list(r#"{ "foo": 1 }"#)).unwrap_err();
    detrim::hashset_string(decode_list(r#"{ "foo": "" }"#)).unwrap_err();

    assert_eq!(
        strings(&[]),
        members(detrim::hashset_string(decode_list(r#"{ "foo": [] }"#)).unwrap()),
    );
    assert_eq!(
        strings(&[""]),
        members(detrim::hashset_string(decode_list(r#"{ "foo": [""] }"#)).unwrap()),
    );
    assert_eq!(
        strings(&[""]),
        members(detrim::hashset_string(decode_list(r#"{ "foo": [" "] }"#)).unwrap()),
    );
    assert_eq!(
        strings(&["bar"]),
        members(detrim::hashset_string(decode_list(r#"{ "foo": ["bar"] }"#)).unwrap()),
    );
    assert_eq!(
        strings(&["bar"]),
        members(detrim::hashset_string(decode_list(r#"{ "foo": [" bar"] }"#)).unwrap()),
    );
    assert_eq!(
        strings(&["bar"]),
        members(detrim::hashset_string(decode_list(r#"{ "foo": ["  bar"] }"#)).unwrap()),
    );
    assert_eq!(
        strings(&["bar"]),
        members(detrim::hashset_string(decode_list(r#"{ "foo": ["bar "] }"#)).unwrap()),
    );
    assert_eq!(
        strings(&["bar"]),
        members(detrim::hashset_string(decode_list(r#"{ "foo": ["  bar  "] }"#)).unwrap()),
    );
    assert_eq!(
        strings(&["bar"]),
        members(
            detrim::hashset_string(decode_list(r#"{ "foo": ["  bar  ", "  bar  "] }"#)).unwrap()
        ),
    );
    assert_eq!(
        strings(&["bar"]),
        members(detrim::hashset_string(decode_list(r#"{ "foo": ["  bar  ", "  bar"] }"#)).unwrap()),
    );
}

#[test]
fn str() {
    detrim::str(decode_str(r#"{ "foo": 1 }"#)).unwrap_err();
    detrim::str(decode_str(r#"{ "foo": true }"#)).unwrap_err();

    assert_eq!("", detrim::str(decode_str(r#"{ "foo": "" }"#)).unwrap());
    assert_eq!("", detrim::str(decode_str(r#"{ "foo": " " }"#)).unwrap());
    assert_eq!("bar", detrim::str(decode_str(r#"{ "foo": "bar" }"#)).unwrap());
    assert_eq!("bar", detrim::str(decode_str(r#"{ "foo": " bar" }"#)).unwrap());
    assert_eq!("bar", detrim::str(decode_str(r#"{ "foo": "  bar" }"#)).unwrap());
    assert_eq!("bar", detrim::str(decode_str(r#"{ "foo": "bar " }"#)).unwrap());
    assert_eq!("bar", detrim::str(decode_str(r#"{ "foo": "  bar  " }"#)).unwrap());
}

#[test]
fn string() {
    detrim::string(decode_string(r#"{ "foo": 1 }"#)).unwrap_err();
    detrim::string(decode_string(r#"{ "foo": true }"#)).unwrap_err();

    assert_eq!("", detrim::string(decode_string(r#"{ "foo": "" }"#)).unwrap());
    assert_eq!("", detrim::string(decode_string(r#"{ "foo": " " }"#)).unwrap());
    assert_eq!("bar", detrim::string(decode_string(r#"{ "foo": "bar" }"#)).unwrap());
    assert_eq!("bar", detrim::string(decode_string(r#"{ "foo": " bar" }"#)).unwrap());
    assert_eq!("bar", detrim::string(decode_string(r#"{ "foo": "  bar" }"#)).unwrap());
    assert_eq!("bar", detrim::string(decode_string(r#"{ "foo": "bar " }"#)).unwrap());
    assert_eq!("bar", detrim::string(decode_string(r#"{ "foo": "  bar  " }"#)).unwrap());
}

#[test]
fn option_string() {
    assert_eq!(
        None,
        detrim::option_string(decode_option_string(r#"{ "foo": null }"#)).unwrap(),
    );
    assert_eq!(
        Some("".to_string()),
        detrim::option_string(decode_option_string(r#"{ "foo": "" }"#)).unwrap(),
    );
    assert_eq!(
        Some("".to_string()),
        detrim::option_string(decode_option_string(r#"{ "foo": " " }"#)).unwrap(),
    );
    assert_eq!(
        Some("bar".to_string()),
        detrim::option_string(decode_option_string(r#"{ "foo": "bar" }"#)).unwrap(),
    );
    assert_eq!(
        Some("bar".to_string()),
        detrim::option_string(decode_option_string(r#"{ "foo": " bar" }"#)).unwrap(),
    );
    assert_eq!(
        Some("bar".to_string()),
        detrim::option_string(decode_option_string(r#"{ "foo": "  bar" }"#)).unwrap(),
    );
    assert_eq!(
        Some("bar".to_string()),
        detrim::option_string(decode_option_string(r#"{ "foo": "bar " }"#)).unwrap(),
    );
    assert_eq!(
        Some("bar".to_string()),
        detrim::option_string(decode_option_string(r#"{ "foo": "  bar  " }"#)).unwrap(),
    );
}

#[test]
fn string_non_empty() {
    detrim::string_non_empty(decode_string(r#"{ "foo": "" }"#)).unwrap_err();
    detrim::string_non_empty(decode_string(r#"{ "foo": "  " }"#)).unwrap_err();
    detrim::string_non_empty(decode_string(r#"{ "foo": null }"#)).unwrap_err();

    assert_eq!("bar", detrim::string_non_empty(decode_string(r#"{ "foo": " bar" }"#)).unwrap());
    assert_eq!("bar", detrim::string_non_empty(decode_string(r#"{ "foo": "  bar" }"#)).unwrap());
    assert_eq!("bar", detrim::string_non_empty(decode_string(r#"{ "foo": "bar " }"#)).unwrap());
    assert_eq!("bar", detrim::string_non_empty(decode_string(r#"{ "foo": "  bar  " }"#)).unwrap());
}

#[test]
fn option_string_non_empty() {
    assert_eq!(
        None,
        detrim::option_string_non_empty(decode_option_string(r#"{ "foo": null }"#)).unwrap(),
    );
    assert_eq!(
        None,
        detrim::option_string_non_empty(decode_option_string(r#"{ "foo": "" }"#)).unwrap(),
    );
    assert_eq!(
        None,
        detrim::option_string_non_empty(decode_option_string(r#"{ "foo": "  " }"#)).unwrap(),
    );
    assert_eq!(
        Some("bar".to_string()),
        detrim::option_string_non_empty(decode_option_string(r#"{ "foo": " bar" }"#)).unwrap(),
    );
    assert_eq!(
        Some("bar".to_string()),
        detrim::option_string_non_empty(decode_option_string(r#"{ "foo": "  bar" }"#)).unwrap(),
    );
    assert_eq!(
        Some("bar".to_string()),
        detrim::option_string_non_empty(decode_option_string(r#"{ "foo": "bar " }"#)).unwrap(),
    );
    assert_eq!(
        Some("bar".to_string()),
        detrim::option_string_non_empty(decode_option_string(r#"{ "foo": "  bar  " }"#)).unwrap(),
    );
}

#[test]
fn vec_string() {
    detrim::vec_string(decode_list(r#"{ "foo": 1 }"#)).unwrap_err();
    detrim::vec_string(decode_list(r#"{ "foo": "" }"#)).unwrap_err();

    assert_eq!(strings(&[]), detrim::vec_string(decode_list(r#"{ "foo": [] }"#)).unwrap());
    assert_eq!(strings(&[""]), detrim::vec_string(decode_list(r#"{ "foo": [""] }"#)).unwrap());
    assert_eq!(strings(&[""]), detrim::vec_string(decode_list(r#"{ "foo": [" "] }"#)).unwrap());
    assert_eq!(strings(&["bar"]), detrim::vec_string(decode_list(r#"{ "foo": ["bar"] }"#)).unwrap());
    assert_eq!(
        strings(&["bar"]),
        detrim::vec_string(decode_list(r#"{ "foo": [" bar"] }"#)).unwrap(),
    );
    assert_eq!(
        strings(&["bar"]),
        detrim::vec_string(decode_list(r#"{ "foo": ["  bar"] }"#)).unwrap(),
    );
    assert_eq!(
        strings(&["bar"]),
        detrim::vec_string(decode_list(r#"{ "foo": ["bar "] }"#)).unwrap(),
    );
    assert_eq!(
        strings(&["bar"]),
        detrim::vec_string(decode_list(r#"{ "foo": ["  bar  "] }"#)).unwrap(),
    );
}

fn plain(text: &str) -> Result<String, ()> {
    Ok(text.to_string())
}

#[test]
fn whitespace_is_the_unicode_property() {
    for code in 0..=0x10FFFF_u32 {
        if let Some(c) = char::from_u32(code) {
            assert_eq!(detrim::whitespace::is_whitespace_char(c), c.is_whitespace(), "U+{:04X}", code);
        }
    }
}

#[test]
fn whitespace_count() {
    let count = (0..=0x10FFFF_u32)
        .filter_map(char::from_u32)
        .filter(|c| detrim::whitespace::is_whitespace_char(*c))
        .count();
    assert_eq!(count, 25);
}

#[test]
fn trims_every_whitespace_character() {
    let around = "\t\n\u{b}\u{c}\r \u{85}\u{a0}\u{1680}\u{2000}\u{2001}\u{2002}\u{2003}\u{2004}\
                  \u{2005}\u{2006}\u{2007}\u{2008}\u{2009}\u{200a}\u{2028}\u{2029}\u{202f}\u{205f}\u{3000}";
    let text = format!("{}bar{}", around, around);
    assert_eq!(detrim::string(plain(&text)).unwrap(), "bar");
    assert_eq!(detrim::str(Ok::<&str, ()>(&text)).unwrap(), "bar");
}

#[test]
fn keeps_what_is_no_whitespace() {
    // U+200B and U+180E do not have the property, U+FEFF neither.
    for text in ["\u{200b}bar\u{200b}", "\u{180e}bar", "bar\u{feff}", "\u{1f}bar\u{7f}"] {
        assert_eq!(detrim::string(plain(text)).unwrap(), text);
    }
}

#[test]
fn keeps_inner_whitespace() {
    assert_eq!(detrim::string(plain("  foo  bar\tbaz \n")).unwrap(), "foo  bar\tbaz");
    assert_eq!(detrim::string(plain("a")).unwrap(), "a");
    assert_eq!(detrim::string(plain(" a")).unwrap(), "a");
    assert_eq!(detrim::string(plain("a ")).unwrap(), "a");
}

#[test]
fn trimming_is_idempotent() {
    for text in ["", " ", "bar", "  bar", "bar  ", " b a r ", "\u{3000}x\u{2003}y\n", " \t "] {
        let once = detrim::string(plain(text));
        let twice = detrim::string(once.clone());
        assert_eq!(once, twice);
    }
}

#[test]
fn blank_is_rejected_or_absent() {
    for text in ["", " ", "   ", "\t\n", "\u{a0}\u{2003}", "\r\n \u{3000}"] {
        assert_eq!(
            detrim::string_non_empty(plain(text)),
            Err(Failure::Invalid(InvalidValue {
                unexpected: Unexpected::EmptyString,
                expected: Expected::NonEmptyString,
            })),
        );
        assert_eq!(
            detrim::option_string_non_empty(Ok::<_, ()>(Some(text.to_string()))),
            Ok(None),
        );
    }
    assert_eq!(detrim::option_string_non_empty(Ok::<Option<String>, ()>(None)), Ok(None));
}

#[test]
fn empty_string_message() {
    match detrim::string_non_empty(plain("  ")) {
        Err(Failure::Invalid(invalid)) => assert_eq!(
            invalid.message(),
            "invalid value: empty string, expected non-empty string"
        ),
        other => panic!("{:?}", other),
    }
}

#[test]
fn decoder_failures_pass_through() {
    assert_eq!(detrim::str(Err::<&str, u8>(3)), Err(3));
    assert_eq!(detrim::string(Err::<String, u8>(3)), Err(3));
    assert_eq!(detrim::option_string(Err::<Option<String>, u8>(3)), Err(3));
    assert_eq!(detrim::string_non_empty(Err::<String, u8>(3)), Err(Failure::Decoder(3)));
    assert_eq!(detrim::option_string_non_empty(Err::<Option<String>, u8>(3)), Err(3));
    assert_eq!(detrim::vec_string(Err::<Vec<String>, u8>(3)), Err(3));
    assert!(matches!(detrim::hashset_string(Err::<Vec<String>, u8>(3)), Err(3)));
}

#[test]
fn list_is_trimmed_in_place() {
    let list = strings(&[" a ", "b "]);
    assert_eq!(detrim::vec_string(Ok::<_, ()>(list)).unwrap(), strings(&["a", "b"]));
    let list = strings(&[" x", "y", "x ", " ", "y"]);
    assert_eq!(detrim::vec_string(Ok::<_, ()>(list)).unwrap(), strings(&["x", "y", "x", "", "y"]));
}

#[test]
fn set_merges_what_trims_alike() {
    let set = detrim::hashset_string(Ok::<_, ()>(strings(&["  x", "x  ", "x"]))).unwrap();
    assert_eq!(set.len(), 1);
    assert!(set.contains("x"));
    assert!(!set.contains("  x"));
    assert!(!set.is_empty());
    assert_eq!(members(set), strings(&["x"]));

    let set = detrim::hashset_string(Ok::<_, ()>(strings(&[" b", "a ", "b ", " c ", "a"]))).unwrap();
    assert_eq!(set.len(), 3);
    assert!(set.contains("a") && set.contains("b") && set.contains("c"));
    assert_eq!(members(set), strings(&["a", "b", "c"]));

    let set = detrim::hashset_string(Ok::<_, ()>(strings(&[]))).unwrap();
    assert!(set.is_empty());
    assert_eq!(set.len(), 0);
}

#[test]
fn text_in_the_input_is_borrowed_from_it() {
    let input = String::from("  bar  ");
    let lo = input.as_ptr() as usize;
    let hi = lo + input.len();

    match detrim::cow_str(Source::BorrowedStr(&input)).unwrap() {
        Cow::Borrowed(text) => {
            assert_eq!(text, "bar");
            let at = text.as_ptr() as usize;
            assert!(lo <= at && at + text.len() <= hi);
            assert_eq!(at, lo + 2);
        }
        Cow::Owned(_) => panic!("owned"),
    }
    match detrim::cow_str(Source::BorrowedBytes(input.as_bytes())).unwrap() {
        Cow::Borrowed(text) => {
            assert_eq!(text, "bar");
            assert_eq!(text.as_ptr() as usize, lo + 2);
        }
        Cow::Owned(_) => panic!("owned"),
    }
    let text = detrim::str(Ok::<&str, ()>(&input)).unwrap();
    assert_eq!(text.as_ptr() as usize, lo + 2);
}

#[test]
fn other_text_is_owned() {
    let input = String::from(" bar ");
    for source in [
        Source::Str(&input),
        Source::String(input.clone()),
        Source::Bytes(input.as_bytes()),
        Source::ByteBuf(input.clone().into_bytes()),
    ] {
        match detrim::cow_str(source).unwrap() {
            Cow::Owned(text) => assert_eq!(text, "bar"),
            Cow::Borrowed(_) => panic!("borrowed"),
        }
    }
}

#[test]
fn bytes_that_are_no_text_are_named() {
    let bad: &[u8] = &[b' ', 0xff, b'a', 0xc0, 0x80];
    let expected = InvalidValue {
        unexpected: Unexpected::Bytes(bad.to_vec()),
        expected: Expected::AString,
    };
    assert_eq!(detrim::cow_str(Source::Bytes(bad)), Err(InvalidValue {
        unexpected: Unexpected::Bytes(bad.to_vec()),
        expected: Expected::AString,
    }));
    assert_eq!(detrim::cow_str(Source::BorrowedBytes(bad)).unwrap_err(), expected);
    assert_eq!(detrim::cow_str(Source::ByteBuf(bad.to_vec())).unwrap_err(), expected);
    assert_eq!(expected.message(), "invalid value: byte array, expected a string");
}

#[test]
fn malformed_utf8_is_rejected() {
    let cases: [&[u8]; 6] = [
        &[0x80],                   // a continuation byte alone
        &[0xc3],                   // a sequence cut short
        &[0xc0, 0xaf],             // an overlong form
        &[0xed, 0xa0, 0x80],       // a surrogate
        &[0xf4, 0x90, 0x80, 0x80], // beyond U+10FFFF
        &[b'a', 0xe2, 0x82],       // cut short after text
    ];
    for bytes in cases {
        assert!(detrim::cow_str(Source::Bytes(bytes)).is_err());
    }
}

#[test]
fn bytes_that_are_text_are_decoded_and_trimmed() {
    let bytes = "\u{2003}gr\u{fc}\u{df}e \u{1f600}\n".as_bytes();
    assert_eq!(detrim::cow_str(Source::Bytes(bytes)).unwrap(), "gr\u{fc}\u{df}e \u{1f600}");
    assert_eq!(detrim::cow_str(Source::BorrowedBytes(bytes)).unwrap(), "gr\u{fc}\u{df}e \u{1f600}");
    assert_eq!(
        detrim::cow_str(Source::ByteBuf(bytes.to_vec())).unwrap(),
        "gr\u{fc}\u{df}e \u{1f600}"
    );
    assert_eq!(detrim::cow_str(Source::Bytes(b"")).unwrap(), "");
}

/// What trimming means, character by character: drop the whitespace that the
/// text starts with, then the whitespace that what is left ends with.
fn meaning_of_trim(text: &str) -> String {
    let mut chars: Vec<char> = text.chars().collect();
    let leading =
        chars.iter().take_while(|c| detrim::whitespace::is_whitespace_char(**c)).count();
    chars.drain(..leading);
    while let Some(last) = chars.last() {
        if detrim::whitespace::is_whitespace_char(*last) {
            chars.pop();
        } else {
            break;
        }
    }
    chars.into_iter().collect()
}

#[test]
fn trim_agrees_with_its_meaning() {
    let alphabet = [' ', '\t', 'a', '\u{a0}', '\u{200b}', '\u{3000}', '\u{1f600}'];
    let mut texts = vec![String::new()];
    let mut from = 0;
    for _ in 0..5 {
        let upto = texts.len();
        for i in from..upto {
            for c in alphabet {
                let mut longer = texts[i].clone();
                longer.push(c);
                texts.push(longer);
            }
        }
        from = upto;
    }
    assert_eq!(texts.len(), 1 + 7 + 49 + 343 + 2401 + 16807);
    for text in texts {
        let expected = meaning_of_trim(&text);
        assert_eq!(detrim::str(Ok::<&str, ()>(&text)).unwrap(), expected);
        assert_eq!(detrim::string(Ok::<String, ()>(text.clone())).unwrap(), expected);
        assert_eq!(detrim::cow_str(Source::Bytes(text.as_bytes())).unwrap(), expected);
    }
}
