use netbook::cli::{CliArgs, Commands, Task};
use netbook::headless::{select_request, status_line, time_line, RunError};
use netbook::models::{
    position_of_request, HttpMethod, Request, Response, ResponseTiming, Timestamp,
};
use netbook::paths::{
    collection_candidates, collection_format, format_for_extension, get_netbook_dir,
    pick_collection, CollectionFormat,
};
use netbook::plugins::ExamplePlugin;
use netbook::string_map::StringMap;
use netbook::text::{
    contains, find_char, push_decimal, same_text, split_chars, to_chars, to_text, trim_range,
};
use std::path::PathBuf;
use uuid::Uuid;

fn chars(s: &str) -> Vec<char> {
    s.chars().collect()
}

fn request(name: &str) -> Request {
    Request {
        name: name.to_string(),
        method: HttpMethod::Get,
        url: "https://example.com".to_string(),
        headers: StringMap::new(),
        query: StringMap::new(),
        body: None,
        notes: None,
    }
}

#[test]
fn method_names_are_upper_case() {
    let all = [
        (HttpMethod::Get, "GET"),
        (HttpMethod::Post, "POST"),
        (HttpMethod::Put, "PUT"),
        (HttpMethod::Patch, "PATCH"),
        (HttpMethod::Delete, "DELETE"),
        (HttpMethod::Head, "HEAD"),
        (HttpMethod::Options, "OPTIONS"),
    ];
    for (method, name) in all {
        assert_eq!(method.to_string(), name);
        assert_eq!(method.as_str(), name);
    }
}

#[test]
fn string_map_keeps_one_value_for_each_key() {
    let mut map = StringMap::new();
    assert!(map.is_empty());
    map.insert("a".to_string(), "1".to_string());
    map.insert("b".to_string(), "2".to_string());
    map.insert("a".to_string(), "3".to_string());
    assert_eq!(map.len(), 2);
    assert!(!map.is_empty());
    assert_eq!(map.get("a"), Some(&"3".to_string()));
    assert_eq!(map.get("b"), Some(&"2".to_string()));
    assert_eq!(map.get("c"), None);
    assert!(map.contains_key("a"));
    assert!(!map.contains_key("A"));
    // A key that is set again keeps its place.
    assert_eq!(map.key_at(0), "a");
    assert_eq!(map.value_at(0), "3");
    assert_eq!(map.key_at(1), "b");

    let copy = map.clone();
    map.insert("a".to_string(), "changed".to_string());
    assert_eq!(copy.get("a"), Some(&"3".to_string()));
    assert_eq!(copy.len(), 2);
}

#[test]
fn texts_are_compared_by_content() {
    assert!(same_text("abc", "abc"));
    assert!(!same_text("abc", "abd"));
    assert!(!same_text("abc", "ab"));
    assert!(same_text("", ""));
}

#[test]
fn characters_and_texts_convert_both_ways() {
    for text in ["", "plain", "caf\u{e9} \u{4e16}\u{754c} \u{1f600}"] {
        let v = to_chars(text);
        assert_eq!(v, chars(text));
        assert_eq!(to_text(&v), text);
    }
}

#[test]
fn substring_search() {
    assert!(contains(&chars("hello world"), &chars("o w")));
    assert!(contains(&chars("hello"), &chars("")));
    assert!(contains(&chars(""), &chars("")));
    assert!(contains(&chars("hello"), &chars("hello")));
    assert!(contains(&chars("aab"), &chars("ab")));
    assert!(!contains(&chars("hello"), &chars("hello!")));
    assert!(!contains(&chars(""), &chars("a")));
    assert!(!contains(&chars("abc"), &chars("ac")));
}

#[test]
fn decimal_rendering() {
    for n in [0u64, 7, 10, 99, 100, 12345, u64::MAX] {
        let mut out = chars("n=");
        push_decimal(&mut out, n);
        assert_eq!(to_text(&out), format!("n={}", n));
    }
}

#[test]
fn splitting_trimming_and_searching() {
    let parts: Vec<String> =
        split_chars(&chars("a\n\nb\n"), '\n').iter().map(|p| p.iter().collect()).collect();
    assert_eq!(parts, vec!["a", "", "b", ""]);
    let one: Vec<String> =
        split_chars(&chars(""), '\n').iter().map(|p| p.iter().collect()).collect();
    assert_eq!(one, vec![""]);

    let text = chars(" \t x y \u{a0}\r\n");
    assert_eq!(to_text(&trim_range(&text, 0, text.len())), "x y");
    assert_eq!(to_text(&trim_range(&text, 3, 6)), "x y");
    assert_eq!(to_text(&trim_range(&text, 0, 2)), "");
    for s in ["", " ", "a", " a", "a ", "  a b  ", "\u{3000}x\u{2028}"] {
        let v = chars(s);
        assert_eq!(to_text(&trim_range(&v, 0, v.len())), s.trim(), "for {:?}", s);
    }

    assert_eq!(find_char(&chars("a=b=c"), '='), Some(1));
    assert_eq!(find_char(&chars("abc"), '='), None);
    assert_eq!(find_char(&chars(""), '='), None);
}

#[test]
fn collection_format_goes_by_the_extension() {
    for (path, format) in [
        ("c.json", CollectionFormat::Json),
        ("c.yaml", CollectionFormat::Yaml),
        ("c.yml", CollectionFormat::Yaml),
        ("c.YAML", CollectionFormat::Json),
        ("c", CollectionFormat::Json),
        ("dir.yaml/c.txt", CollectionFormat::Json),
        (".yaml", CollectionFormat::Json),
    ] {
        assert_eq!(collection_format(&PathBuf::from(path)), format, "for {:?}", path);
    }
    assert_eq!(format_for_extension(Some("yml".to_string())), CollectionFormat::Yaml);
    assert_eq!(format_for_extension(Some("json".to_string())), CollectionFormat::Json);
    assert_eq!(format_for_extension(None), CollectionFormat::Json);
}

#[test]
fn the_collection_is_looked_for_in_two_places() {
    let dir = PathBuf::from("/work/project");
    let (first, second) = collection_candidates(&dir);
    assert_eq!(first, PathBuf::from("/work/project/.netbook/collection.json"));
    assert_eq!(second, PathBuf::from("/work/project/netbook.json"));

    let pick = |a: bool, b: bool| pick_collection(collection_candidates(&dir), a, b);
    assert_eq!(pick(true, true), first);
    assert_eq!(pick(true, false), first);
    assert_eq!(pick(false, true), second);
    assert_eq!(pick(false, false), first);
}

#[test]
fn netbook_dir_of_a_path_without_a_parent() {
    assert_eq!(get_netbook_dir(&PathBuf::from("")), PathBuf::from(".netbook"));
    assert_eq!(get_netbook_dir(&PathBuf::from("/")), PathBuf::from(".netbook"));
    assert_eq!(get_netbook_dir(&PathBuf::from("netbook.json")), PathBuf::from(".netbook"));
    assert_eq!(
        get_netbook_dir(&PathBuf::from("a/.netbook/x/c.json")),
        PathBuf::from("a/.netbook/x/.netbook")
    );
}

#[test]
fn the_example_plugin_writes_its_lines() {
    let plugin = ExamplePlugin::with_log_file(PathBuf::from("test.log"));
    assert_eq!(plugin.log_file(), &PathBuf::from("test.log"));
    assert_eq!(ExamplePlugin::new().log_file(), &PathBuf::from("netbook_requests.log"));
    assert_eq!(ExamplePlugin::default().log_file(), &PathBuf::from("netbook_requests.log"));
    assert_eq!(plugin.name(), "Example Request Logger");

    let mut r = request("Test Request");
    r.url = "https://example.com".to_string();
    assert_eq!(
        plugin.before_request_line(&r),
        "BEFORE REQUEST: GET Test Request https://example.com"
    );

    let response = Response {
        id: Uuid::new_v4(),
        request_id: None,
        status: 200,
        headers: StringMap::new(),
        body: serde_json::from_str(r#"{"message": "succés"}"#).unwrap(),
        timing: ResponseTiming::total(15),
        timestamp: Timestamp::now(),
    };
    // {"message":"succés"} takes 21 bytes: the accent takes two.
    assert_eq!(
        plugin.after_response_line(&response),
        "AFTER RESPONSE: Status 200 - 21 bytes - 15ms"
    );
    assert_eq!(plugin.error_line("boom"), "ERROR: boom");
}

#[test]
fn arguments_come_to_a_task() {
    let open = CliArgs { command: None, collection: Some(PathBuf::from("c.json")) };
    assert!(matches!(open.task(), Task::Open(Some(p)) if p == PathBuf::from("c.json")));
    let bare = CliArgs { command: None, collection: None };
    assert!(matches!(bare.task(), Task::Open(None)));
    let sub = CliArgs {
        command: Some(Commands::Open { collection: Some(PathBuf::from("sub.json")) }),
        collection: Some(PathBuf::from("ignored.json")),
    };
    assert!(matches!(sub.task(), Task::Open(Some(p)) if p == PathBuf::from("sub.json")));
    let init = CliArgs { command: Some(Commands::Init), collection: None };
    assert!(matches!(init.task(), Task::Init));
    let run = CliArgs {
        command: Some(Commands::HeadlessRun { name: "Login".to_string(), collection: None }),
        collection: None,
    };
    assert!(matches!(run.task(), Task::Run(n, None) if n == "Login"));
    let export = CliArgs {
        command: Some(Commands::Export { path: PathBuf::from("out.json") }),
        collection: None,
    };
    assert!(matches!(export.task(), Task::Export(p) if p == PathBuf::from("out.json")));
}

#[test]
fn a_headless_run_picks_the_request_by_name() {
    let collection = vec![request("a"), request("b"), request("a")];
    assert_eq!(position_of_request(&collection, "a"), Some(0));
    assert_eq!(position_of_request(&collection, "b"), Some(1));
    assert_eq!(position_of_request(&collection, "c"), None);
    assert_eq!(select_request(&collection, "b").ok().unwrap().name, "b");
    match select_request(&collection, "Missing") {
        Err(error) => {
            assert!(matches!(error, RunError::RequestNotFound(ref n) if n == "Missing"));
            assert_eq!(error.message(), "Request 'Missing' not found");
        }
        Ok(_) => panic!("no request has that name"),
    }
    assert_eq!(
        RunError::TransportFailure("timed out".to_string()).message(),
        "Request failed: timed out"
    );
}

#[test]
fn a_headless_run_reports_status_and_time() {
    let response = Response {
        id: Uuid::new_v4(),
        request_id: None,
        status: 404,
        headers: StringMap::new(),
        body: serde_json::Value::Null,
        timing: ResponseTiming::total(250),
        timestamp: Timestamp::now(),
    };
    assert_eq!(status_line(&response), "Status: 404");
    assert_eq!(time_line(&response), "Time: 250ms");
}

#[test]
fn the_clock_moves_on() {
    let a = Timestamp::now();
    assert!(a.millis > 1_600_000_000_000);
    let b = Timestamp::now();
    assert!(b.millis >= a.millis);
}

#[test]
fn plugins_stand_in_the_order_of_their_registration() {
    let mut bus: netbook::plugins::HookBus<&'static str> = netbook::plugins::HookBus::new();
    assert_eq!(bus.len(), 0);
    bus.register("first");
    bus.register("second");
    bus.register("third");
    assert_eq!(bus.len(), 3);
    let order: Vec<&str> = (0..bus.len()).map(|i| *bus.plugin(i)).collect();
    assert_eq!(order, vec!["first", "second", "third"]);
}
