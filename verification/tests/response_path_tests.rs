use netbook::interpolation::VariableInterpolator;
use netbook::response_path::{leaf_from, parse_index, split_path};

fn value(text: &str) -> serde_json::Value {
    serde_json::from_str(text).unwrap()
}

fn chars(s: &str) -> Vec<char> {
    s.chars().collect()
}

#[test]
fn extraction_follows_keys_and_indices() {
    let i = VariableInterpolator::new();
    let doc = value(r#"{"data":{"user":{"id":123}},"items":[1,2,3]}"#);
    assert_eq!(i.extract_from_response_path(&doc, "data.user.id"), Some("123".to_string()));
    assert_eq!(i.extract_from_response_path(&doc, "items.1"), Some("2".to_string()));
    assert_eq!(i.extract_from_response_path(&doc, "data.missing"), None);
    assert_eq!(i.extract_from_response_path(&doc, "items.3"), None);
    assert_eq!(i.extract_from_response_path(&doc, "data.user.id.more"), None);
}

#[test]
fn extraction_renders_the_leaf() {
    let i = VariableInterpolator::new();
    let doc = value(
        r#"{"s":"text","n":1.5,"t":true,"f":false,"z":null,"a":[1,"x"],"o":{"k":"v"},"neg":-3}"#,
    );
    assert_eq!(i.extract_from_response_path(&doc, "s"), Some("text".to_string()));
    assert_eq!(i.extract_from_response_path(&doc, "n"), Some("1.5".to_string()));
    assert_eq!(i.extract_from_response_path(&doc, "neg"), Some("-3".to_string()));
    assert_eq!(i.extract_from_response_path(&doc, "t"), Some("true".to_string()));
    assert_eq!(i.extract_from_response_path(&doc, "f"), Some("false".to_string()));
    assert_eq!(i.extract_from_response_path(&doc, "z"), Some("null".to_string()));
    assert_eq!(i.extract_from_response_path(&doc, "a"), Some(r#"[1,"x"]"#.to_string()));
    assert_eq!(i.extract_from_response_path(&doc, "o"), Some(r#"{"k":"v"}"#.to_string()));
}

#[test]
fn a_number_is_an_index_and_never_a_key() {
    let i = VariableInterpolator::new();
    let doc = value(r#"{"0":"zero","list":["a","b"],"":"empty"}"#);
    // A segment of digits asks for an element: an object has none.
    assert_eq!(i.extract_from_response_path(&doc, "0"), None);
    assert_eq!(i.extract_from_response_path(&doc, "list.0"), Some("a".to_string()));
    assert_eq!(i.extract_from_response_path(&doc, "list.+1"), Some("b".to_string()));
    assert_eq!(i.extract_from_response_path(&doc, "list.01"), Some("b".to_string()));
    assert_eq!(i.extract_from_response_path(&doc, "list.x"), None);
    // The empty path is one empty segment: the key "".
    assert_eq!(i.extract_from_response_path(&doc, ""), Some("empty".to_string()));
    assert_eq!(i.extract_from_response_path(&doc, "list."), None);
}

#[test]
fn index_parsing_agrees_with_the_standard_parser() {
    for text in [
        "0", "1", "42", "007", "+5", "+", "", "-1", "1a", "a1", " 1", "1 ", "++1", "+-1",
        "18446744073709551615", "18446744073709551616", "99999999999999999999999", "4294967295",
        "4294967296", "\u{663}", "1_000", "0x10", "+0", "00000000000000000000000001",
    ] {
        assert_eq!(parse_index(&chars(text)), text.parse::<usize>().ok(), "for {:?}", text);
    }
}

#[test]
fn paths_are_split_at_every_dot() {
    let views = |path: &str| -> Vec<String> {
        split_path(path).iter().map(|s| s.iter().collect()).collect()
    };
    let by_std = |path: &str| -> Vec<String> { path.split('.').map(|s| s.to_string()).collect() };
    for path in ["", "a", "a.b", "a..b", ".", "..", ".a", "a.", "data.user.id", "x.1.y"] {
        assert_eq!(views(path), by_std(path), "for {:?}", path);
    }
}

#[test]
fn leaf_is_the_content_of_a_string_or_the_rendering() {
    assert_eq!(leaf_from(Some("inner".to_string()), "\"inner\"".to_string()), "inner");
    assert_eq!(leaf_from(None, "12".to_string()), "12");
}
