use netbook::interpolation::{body_from_interpolated, parse_env_line, VariableInterpolator};
use netbook::models::{HttpMethod, Request, RequestBody};
use netbook::placeholder::placeholder_name_end;
use netbook::string_map::StringMap;

fn value(text: &str) -> serde_json::Value {
    serde_json::from_str(text).unwrap()
}

fn store(pairs: &[(&str, &str)]) -> VariableInterpolator {
    let mut interpolator = VariableInterpolator::new();
    for (k, v) in pairs {
        interpolator.set_variable(k.to_string(), v.to_string());
    }
    interpolator
}

#[test]
fn test_interpolate_string() {
    let mut interpolator = VariableInterpolator::new();
    interpolator.set_variable("token".to_string(), "abc123".to_string());
    interpolator.set_variable("userId".to_string(), "42".to_string());

    let result = interpolator.interpolate_string("Bearer {{token}} for user {{userId}}");
    assert_eq!(result, "Bearer abc123 for user 42");
}

#[test]
fn test_interpolate_request() {
    let mut interpolator = VariableInterpolator::new();
    interpolator.set_variable("baseUrl".to_string(), "https://api.example.com".to_string());
    interpolator.set_variable("token".to_string(), "secret123".to_string());

    let mut headers = StringMap::new();
    headers.insert("Authorization".to_string(), "Bearer {{token}}".to_string());

    let request = Request {
        name: "Test".to_string(),
        method: HttpMethod::Get,
        url: "{{baseUrl}}/users".to_string(),
        headers,
        query: StringMap::new(),
        body: None,
        notes: None,
    };

    let interpolated = interpolator.interpolate_request(&request);
    assert_eq!(interpolated.url, "https://api.example.com/users");
    assert_eq!(
        interpolated.headers.get("Authorization"),
        Some(&"Bearer secret123".to_string())
    );
}

#[test]
fn test_load_env_file() {
    let mut interpolator = VariableInterpolator::new();
    interpolator.load_env_text("TOKEN=test123\nBASE_URL=https://example.com");

    assert_eq!(interpolator.get_variable("TOKEN"), Some("test123".to_string()));
    assert_eq!(
        interpolator.get_variable("BASE_URL"),
        Some("https://example.com".to_string())
    );
}

#[test]
fn test_extract_from_response_path() {
    let interpolator = VariableInterpolator::new();
    let response = value(
        r#"{"data": {"user": {"id": 123, "name": "John Doe"}}, "items": [1, 2, 3]}"#,
    );

    assert_eq!(
        interpolator.extract_from_response_path(&response, "data.user.id"),
        Some("123".to_string())
    );
    assert_eq!(
        interpolator.extract_from_response_path(&response, "data.user.name"),
        Some("John Doe".to_string())
    );
    assert_eq!(
        interpolator.extract_from_response_path(&response, "items.1"),
        Some("2".to_string())
    );
}

#[test]
fn test_variable_interpolation_workflow() {
    let mut interpolator = VariableInterpolator::new();
    interpolator.set_variable("baseUrl".to_string(), "https://example.com".to_string());
    interpolator.set_variable("userId".to_string(), "123".to_string());

    let mut headers = StringMap::new();
    headers.insert("Authorization".to_string(), "Bearer {{token}}".to_string());
    let mut query = StringMap::new();
    query.insert("page".to_string(), "{{page}}".to_string());

    let request = Request {
        name: "Variable Test".to_string(),
        method: HttpMethod::Get,
        url: "{{baseUrl}}/users/{{userId}}".to_string(),
        headers,
        query,
        body: None,
        notes: None,
    };

    let interpolated = interpolator.interpolate_request(&request);
    assert_eq!(interpolated.url, "https://example.com/users/123");
    assert_eq!(
        interpolated.headers.get("Authorization"),
        Some(&"Bearer {{token}}".to_string())
    );
    assert_eq!(interpolated.query.get("page"), Some(&"{{page}}".to_string()));
}

#[test]
fn unresolved_placeholders_stay_with_their_braces() {
    let interpolator = store(&[("known", "v")]);
    assert_eq!(
        interpolator.interpolate_string("a {{missing}} b {{known}} c {{also_missing}}"),
        "a {{missing}} b v c {{also_missing}}"
    );
    let empty = VariableInterpolator::new();
    let text = "{{a}}{{b}} and {{c}}";
    assert_eq!(empty.interpolate_string(text), text);
}

#[test]
fn resolved_text_holds_no_placeholder() {
    let interpolator = store(&[("a", "1"), ("b", "two"), ("c_3", "")]);
    let out = interpolator.interpolate_string("{{a}}-{{b}}-{{c_3}}-{{a}}");
    assert_eq!(out, "1-two--1");
    assert!(!out.contains('{') && !out.contains('}'));
}

#[test]
fn malformed_patterns_are_left_untouched() {
    let interpolator = store(&[("a", "X"), ("a b", "Y"), ("", "Z"), ("a-b", "W")]);
    for text in [
        "{a}",
        "{{a}",
        "{a}}",
        "{{}}",
        "{{ a }}",
        "{{a b}}",
        "{{a-b}}",
        "{{a",
        "a}}",
        "{{",
        "}}",
        "{ {a} }",
        "{{a.b}}",
    ] {
        assert_eq!(interpolator.interpolate_string(text), text, "for {:?}", text);
    }
}

#[test]
fn braces_next_to_a_placeholder_are_kept() {
    let interpolator = store(&[("a", "X")]);
    assert_eq!(interpolator.interpolate_string("{{{a}}"), "{X");
    assert_eq!(interpolator.interpolate_string("{{a}}}"), "X}");
    assert_eq!(interpolator.interpolate_string("{{{{a}}}}"), "{{X}}");
    assert_eq!(interpolator.interpolate_string("{{a}}{{a}}"), "XX");
    assert_eq!(interpolator.interpolate_string(""), "");
}

#[test]
fn substituted_values_are_not_scanned_again() {
    let interpolator = store(&[("a", "{{b}}"), ("b", "end")]);
    assert_eq!(interpolator.interpolate_string("{{a}}"), "{{b}}");
}

#[test]
fn names_are_made_of_unicode_word_characters() {
    let interpolator = store(&[("caf\u{e9}_1", "ok"), ("\u{4e16}\u{754c}", "world")]);
    assert_eq!(interpolator.interpolate_string("{{caf\u{e9}_1}}"), "ok");
    assert_eq!(interpolator.interpolate_string("{{\u{4e16}\u{754c}}}!"), "world!");
}

#[test]
fn interpolation_agrees_with_the_regular_expression() {
    let pattern = regex::Regex::new(r"\{\{(\w+)\}\}").unwrap();
    let interpolator = store(&[
        ("a", "X"),
        ("b1", ""),
        ("long_name", "{{a}}"),
        ("\u{e9}", "e"),
        ("_", "under"),
        ("9", "nine"),
    ]);
    let by_regex = |input: &str| -> String {
        pattern
            .replace_all(input, |caps: &regex::Captures| {
                let name = &caps[1];
                interpolator
                    .get_variable(name)
                    .unwrap_or_else(|| format!("{{{{{}}}}}", name))
            })
            .to_string()
    };
    let pieces = [
        "{", "}", "{{", "}}", "a", "b1", "long_name", "\u{e9}", "_", "9", " ", "-", "x", "{{a}}",
        "{{zz}}", "\u{4e16}", ".",
    ];
    let mut x: u64 = 0x1234_5678_9abc_def1;
    for _ in 0..5000 {
        let mut text = String::new();
        for _ in 0..8 {
            x ^= x << 13;
            x ^= x >> 7;
            x ^= x << 17;
            text.push_str(pieces[(x % pieces.len() as u64) as usize]);
        }
        assert_eq!(interpolator.interpolate_string(&text), by_regex(&text), "for {:?}", text);
    }
}

#[test]
fn placeholder_scan_reports_where_the_name_ends() {
    let chars: Vec<char> = "x{{ab}}y".chars().collect();
    assert_eq!(placeholder_name_end(&chars, 1), Some(5));
    assert_eq!(placeholder_name_end(&chars, 0), None);
    assert_eq!(placeholder_name_end(&chars, 2), None);
    let short: Vec<char> = "{{a}".chars().collect();
    assert_eq!(placeholder_name_end(&short, 0), None);
}

#[test]
fn lookup_goes_through_the_layers_in_order() {
    let mut env = StringMap::new();
    env.insert("HOME".to_string(), "/root".to_string());
    env.insert("both".to_string(), "from-process".to_string());
    env.insert("all".to_string(), "from-process".to_string());
    let mut interpolator = VariableInterpolator::with_process_env(env);
    interpolator.load_env_text("both=from-file\nall=from-file\nfile_only=f");
    interpolator.set_variable("all".to_string(), "from-memory".to_string());

    assert_eq!(interpolator.get_variable("all"), Some("from-memory".to_string()));
    assert_eq!(interpolator.get_variable("both"), Some("from-file".to_string()));
    assert_eq!(interpolator.get_variable("file_only"), Some("f".to_string()));
    assert_eq!(interpolator.get_variable("HOME"), Some("/root".to_string()));
    assert_eq!(interpolator.get_variable("nowhere"), None);
    assert_eq!(
        interpolator.interpolate_string("{{all}} {{both}} {{HOME}} {{nowhere}}"),
        "from-memory from-file /root {{nowhere}}"
    );
}

#[test]
fn env_text_skips_blank_lines_and_comments() {
    let mut interpolator = VariableInterpolator::new();
    interpolator.load_env_text(
        "# a comment\n\n  \t \nA=1\r\n  B =  two words  \n   # indented comment\nnoequals\nC=x=y\n=empty_key\nD=\n",
    );
    assert_eq!(interpolator.get_variable("A"), Some("1".to_string()));
    assert_eq!(interpolator.get_variable("B"), Some("two words".to_string()));
    assert_eq!(interpolator.get_variable("C"), Some("x=y".to_string()));
    assert_eq!(interpolator.get_variable(""), Some("empty_key".to_string()));
    assert_eq!(interpolator.get_variable("D"), Some("".to_string()));
    assert_eq!(interpolator.get_variable("noequals"), None);
    assert_eq!(interpolator.env_vars.len(), 5);
}

#[test]
fn env_text_read_twice_changes_nothing() {
    let text = "A=1\nB=2\nA=3\n";
    let mut once = VariableInterpolator::new();
    once.load_env_text(text);
    let mut twice = VariableInterpolator::new();
    twice.load_env_text(text);
    twice.load_env_text(text);
    assert_eq!(once.get_variable("A"), Some("3".to_string()));
    assert_eq!(twice.get_variable("A"), Some("3".to_string()));
    assert_eq!(twice.get_variable("B"), Some("2".to_string()));
    assert_eq!(once.env_vars.len(), twice.env_vars.len());
}

#[test]
fn env_line_is_split_at_the_first_equals_sign() {
    let line: Vec<char> = "  key = a = b  ".chars().collect();
    assert_eq!(
        parse_env_line(&line),
        Some(("key".to_string(), "a = b".to_string()))
    );
    let comment: Vec<char> = "#k=v".chars().collect();
    assert_eq!(parse_env_line(&comment), None);
    let blank: Vec<char> = "   ".chars().collect();
    assert_eq!(parse_env_line(&blank), None);
}

#[test]
fn request_name_method_and_notes_pass_through() {
    let interpolator = store(&[("Test", "changed"), ("n", "changed")]);
    let mut query = StringMap::new();
    query.insert("q".to_string(), "{{n}}".to_string());
    let request = Request {
        name: "{{Test}}".to_string(),
        method: HttpMethod::Patch,
        url: "/{{n}}".to_string(),
        headers: StringMap::new(),
        query,
        body: Some(RequestBody::Text("body {{n}}".to_string())),
        notes: Some("notes {{n}}".to_string()),
    };
    let out = interpolator.interpolate_request(&request);
    assert_eq!(out.name, "{{Test}}");
    assert_eq!(out.method, HttpMethod::Patch);
    assert_eq!(out.notes, Some("notes {{n}}".to_string()));
    assert_eq!(out.url, "/changed");
    assert_eq!(out.query.get("q"), Some(&"changed".to_string()));
    assert!(matches!(out.body, Some(RequestBody::Text(ref t)) if t == "body changed"));
}

#[test]
fn json_body_is_rendered_substituted_and_parsed_again() {
    let interpolator = store(&[("id", "7"), ("name", "Ann")]);
    let request = Request {
        name: "r".to_string(),
        method: HttpMethod::Post,
        url: "u".to_string(),
        headers: StringMap::new(),
        query: StringMap::new(),
        body: Some(RequestBody::Json(value(r#"{"user": "{{name}}", "ref": "x{{id}}"}"#))),
        notes: None,
    };
    let out = interpolator.interpolate_request(&request);
    match out.body {
        Some(RequestBody::Json(v)) => assert_eq!(v, value(r#"{"user": "Ann", "ref": "x7"}"#)),
        _ => panic!("the body should have stayed a JSON document"),
    }
}

#[test]
fn json_body_that_no_longer_parses_becomes_text() {
    let interpolator = store(&[("q", "say \"hi\"")]);
    let request = Request {
        name: "r".to_string(),
        method: HttpMethod::Post,
        url: "u".to_string(),
        headers: StringMap::new(),
        query: StringMap::new(),
        body: Some(RequestBody::Json(value(r#"{"quote": "{{q}}"}"#))),
        notes: None,
    };
    let out = interpolator.interpolate_request(&request);
    match out.body {
        Some(RequestBody::Text(t)) => assert_eq!(t, r#"{"quote":"say "hi""}"#),
        _ => panic!("the body should have become a text"),
    }
}

#[test]
fn interpolated_body_is_the_document_or_the_text() {
    let doc = value("[1]");
    assert!(matches!(
        body_from_interpolated("[1]".to_string(), Some(doc.clone())),
        RequestBody::Json(v) if v == doc
    ));
    assert!(matches!(
        body_from_interpolated("[1".to_string(), None),
        RequestBody::Text(t) if t == "[1"
    ));
}

#[test]
fn request_body_is_written_out_as_text_or_compact_json() {
    assert_eq!(RequestBody::Text("plain".to_string()).to_string(), "plain");
    assert_eq!(
        RequestBody::Json(value(r#"{ "a" : [ 1 , 2 ] }"#)).to_string(),
        r#"{"a":[1,2]}"#
    );
}
