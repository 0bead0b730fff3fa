use netbook::components::JsonTreeComponent;
use netbook::json_tree::{SpanStyle, TreeLine};

fn value(text: &str) -> serde_json::Value {
    serde_json::from_str(text).unwrap()
}

fn shown(lines: &[TreeLine]) -> Vec<String> {
    lines
        .iter()
        .map(|line| line.spans.iter().map(|s| s.text.as_str()).collect::<String>())
        .collect()
}

fn styles(line: &TreeLine) -> Vec<SpanStyle> {
    line.spans.iter().map(|s| s.style).collect()
}

#[test]
fn test_json_tree_component() {
    let mut tree = JsonTreeComponent::new();
    let json = value(r#"{"name": "test", "value": 42}"#);

    let lines_len = tree.render_json_tree(&json, "", 0).len();
    assert!(lines_len > 0);

    tree.toggle_path("");
    let expanded_lines_len = tree.render_json_tree(&json, "", 0).len();
    assert!(expanded_lines_len > lines_len);
}

#[test]
fn a_closed_node_is_one_line() {
    let tree = JsonTreeComponent::new();
    assert_eq!(shown(&tree.render_json_tree(&value(r#"{"a": 1}"#), "", 0)), vec!["\u{25b6} {"]);
    assert_eq!(
        shown(&tree.render_json_tree(&value("[1, 2, 3]"), "", 2)),
        vec!["    \u{25b6} [3 items]"]
    );
    assert_eq!(shown(&tree.render_json_tree(&value("[]"), "x", 0)), vec!["\u{25b6} [0 items]"]);
}

#[test]
fn leaves_are_one_line_in_their_style() {
    let tree = JsonTreeComponent::new();
    for (text, line, style) in [
        ("\"hi\"", "  \"hi\"", SpanStyle::Text),
        ("42", "  42", SpanStyle::Number),
        ("-1.5", "  -1.5", SpanStyle::Number),
        ("true", "  true", SpanStyle::Boolean),
        ("false", "  false", SpanStyle::Boolean),
        ("null", "  null", SpanStyle::Null),
    ] {
        let lines = tree.render_json_tree(&value(text), "p", 1);
        assert_eq!(shown(&lines), vec![line], "for {}", text);
        assert_eq!(styles(&lines[0]), vec![SpanStyle::Plain, style]);
        assert_eq!(lines[0].spans[0].text, "  ");
    }
}

#[test]
fn an_open_object_shows_its_members() {
    let mut tree = JsonTreeComponent::new();
    tree.toggle_path("");
    let json = value(r#"{"name": "test", "value": 42}"#);
    let lines = tree.render_json_tree(&json, "", 0);
    assert_eq!(
        shown(&lines),
        vec![
            "\u{25bc} {",
            "  \"name\": ",
            "  \"test\"",
            "  \"value\": ",
            "  42",
            "}",
        ]
    );
    assert_eq!(styles(&lines[0]), vec![SpanStyle::Plain, SpanStyle::Icon, SpanStyle::Plain]);
    assert_eq!(styles(&lines[1]), vec![SpanStyle::Plain, SpanStyle::Key, SpanStyle::Plain]);
    assert_eq!(styles(&lines[2]), vec![SpanStyle::Plain, SpanStyle::Text]);
    assert_eq!(styles(&lines[5]), vec![SpanStyle::Plain]);
}

#[test]
fn parts_are_opened_by_their_own_paths() {
    let json = value(r#"{"data": {"items": [10, {"deep": null}]}}"#);
    let mut tree = JsonTreeComponent::new();
    tree.toggle_path("");
    assert_eq!(
        shown(&tree.render_json_tree(&json, "", 0)),
        vec!["\u{25bc} {", "  \"data\": ", "  \u{25b6} {", "}"]
    );
    tree.toggle_path("data");
    tree.toggle_path("data.items");
    tree.toggle_path("data.items[1]");
    assert_eq!(
        shown(&tree.render_json_tree(&json, "", 0)),
        vec![
            "\u{25bc} {",
            "  \"data\": ",
            "  \u{25bc} {",
            "    \"items\": ",
            "    \u{25bc} [2 items]",
            "      [0]: ",
            "      10",
            "      [1]: ",
            "      \u{25bc} {",
            "        \"deep\": ",
            "        null",
            "      }",
            "    ]",
            "  }",
            "}",
        ]
    );
    let lines = tree.render_json_tree(&json, "", 0);
    assert_eq!(styles(&lines[5]), vec![SpanStyle::Plain, SpanStyle::Index, SpanStyle::Plain]);
}

#[test]
fn elements_of_an_array_at_the_root_are_named_by_their_index() {
    let json = value(r#"[[1], [2]]"#);
    let mut tree = JsonTreeComponent::new();
    tree.toggle_path("");
    tree.toggle_path("1");
    assert_eq!(
        shown(&tree.render_json_tree(&json, "", 0)),
        vec![
            "\u{25bc} [2 items]",
            "  [0]: ",
            "  \u{25b6} [1 items]",
            "  [1]: ",
            "  \u{25bc} [1 items]",
            "    [0]: ",
            "    2",
            "  ]",
            "]",
        ]
    );
}
