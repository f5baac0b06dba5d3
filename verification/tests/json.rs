use codex_gpui_desktop::codec::{from_line, to_line};
use codex_gpui_desktop::json::{put, string_at, Json, JsonNumber};

fn json(text: &str) -> Json {
    from_line(text).unwrap()
}

#[test]
fn documents_are_read_and_written() {
    for text in [
        "null",
        "true",
        "false",
        "0",
        "18446744073709551615",
        "-9223372036854775808",
        "1.5",
        "\"a\\nb\"",
        "[]",
        "[1,[2,\"x\"],null]",
        "{}",
        "{\"a\":{\"b\":[true]},\"c\":-3}",
    ] {
        assert_eq!(to_line(&json(text)), text);
    }
    assert_eq!(to_line(&json(" { \"b\" : 1 , \"a\" : 2 } ")), "{\"a\":2,\"b\":1}");
}

#[test]
fn what_is_no_json_is_not_read() {
    for text in ["", "{", "[1,]", "nul", "{\"a\":1} x", "'a'"] {
        assert!(from_line(text).is_none());
    }
}

#[test]
fn numbers_keep_their_kind() {
    assert!(matches!(json("5"), Json::Number(JsonNumber::Unsigned(5))));
    assert!(matches!(json("-5"), Json::Number(JsonNumber::Signed(-5))));
    assert!(matches!(json("5.5"), Json::Number(JsonNumber::Other(_))));
    assert!(matches!(json("1e30"), Json::Number(JsonNumber::Other(_))));
    assert_eq!(json("5").as_u64(), Some(5));
    assert_eq!(json("-5").as_u64(), None);
    assert_eq!(json("5.5").as_u64(), None);
    assert_eq!(json("\"5\"").as_u64(), None);
    assert_eq!(Json::Number(JsonNumber::Signed(6)).as_u64(), Some(6));
    let wrapped = serde_json::Number::from(8u64);
    assert_eq!(Json::Number(JsonNumber::Other(wrapped)).as_u64(), Some(8));
}

#[test]
fn numbers_are_displayed_as_they_are_written() {
    for text in ["0", "18446744073709551615", "-9223372036854775808", "2.25", "1e+30"] {
        match json(text) {
            Json::Number(number) => assert_eq!(number.to_text(), text),
            _ => panic!("{text} is a number"),
        }
    }
    assert_eq!(JsonNumber::Signed(-7).to_text(), "-7");
    assert_eq!(JsonNumber::Other(serde_json::Number::from(-7)).to_text(), "-7");
    assert_eq!(JsonNumber::Other(serde_json::Number::from(7)).to_text(), "7");
}

#[test]
fn fields_are_found_by_name() {
    let document = json("{\"a\":\"x\",\"b\":2}");
    assert_eq!(document.get("a").unwrap().as_str(), Some("x"));
    assert!(document.get("c").is_none());
    assert!(json("[1]").get("a").is_none());
    assert!(json("\"a\"").get("a").is_none());
    assert_eq!(string_at(&document, "a"), Some("x".to_string()));
    assert_eq!(string_at(&document, "b"), None);
    assert_eq!(string_at(&document, "c"), None);
    assert_eq!(to_line(&document.get_or_null("b")), "2");
    assert_eq!(to_line(&document.get_or_null("c")), "null");
}

#[test]
fn the_last_of_two_fields_counts() {
    let mut fields: Vec<(String, Json)> = Vec::new();
    put(&mut fields, "a", Json::text("first"));
    put(&mut fields, "b", Json::Null);
    put(&mut fields, "a", Json::text("last"));
    let document = Json::Object(fields);
    assert_eq!(string_at(&document, "a"), Some("last".to_string()));
    assert_eq!(to_line(&document), "{\"a\":\"last\",\"b\":null}");
    assert_eq!(string_at(&json("{\"a\":\"x\",\"a\":\"y\"}"), "a"), Some("y".to_string()));
}

#[test]
fn copies_stand_for_the_same() {
    let text = "{\"a\":[1,-2,3.5,\"x\",null,true],\"b\":{\"c\":{}}}";
    assert_eq!(to_line(&json(text).copy()), text);
    assert_eq!(to_line(&json(text).clone()), text);
    assert_eq!(JsonNumber::Unsigned(3).clone().to_text(), "3");
}
