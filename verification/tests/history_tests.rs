use netbook::history::{HistoryEntry, ResponseHistory};
use netbook::models::{Response, ResponseTiming, Timestamp};
use netbook::string_map::StringMap;
use uuid::Uuid;

fn value(text: &str) -> serde_json::Value {
    serde_json::from_str(text).unwrap()
}

fn response(message: &str) -> Response {
    let mut body = serde_json::Map::new();
    body.insert("message".to_string(), serde_json::Value::String(message.to_string()));
    Response {
        id: Uuid::new_v4(),
        request_id: None,
        status: 200,
        headers: StringMap::new(),
        body: serde_json::Value::Object(body),
        timing: ResponseTiming::new(),
        timestamp: Timestamp::now(),
    }
}

fn names(history: &ResponseHistory) -> Vec<String> {
    history.entries.iter().map(|e| e.request_name.clone()).collect()
}

#[test]
fn test_history_add_and_get() {
    let mut history = ResponseHistory::default();

    let response = Response {
        id: Uuid::new_v4(),
        request_id: None,
        status: 200,
        headers: StringMap::new(),
        body: value(r#"{"message": "success"}"#),
        timing: ResponseTiming::default(),
        timestamp: Timestamp::now(),
    };

    history.add_entry("Test Request".to_string(), response.clone());

    assert_eq!(history.entries.len(), 1);
    assert_eq!(history.get_latest().unwrap().request_name, "Test Request");
    assert_eq!(history.get_by_request_name("Test Request").len(), 1);
}

#[test]
fn test_history_max_entries() {
    let mut history = ResponseHistory {
        entries: Vec::new(),
        max_entries: 2,
    };

    for i in 0..5 {
        let response = Response {
            id: Uuid::new_v4(),
            request_id: None,
            status: 200,
            headers: StringMap::new(),
            body: response(&format!("success {}", i)).body,
            timing: ResponseTiming::default(),
            timestamp: Timestamp::now(),
        };
        history.add_entry(format!("Request {}", i), response);
    }

    assert_eq!(history.entries.len(), 2);
    assert_eq!(history.entries[0].request_name, "Request 3");
    assert_eq!(history.entries[1].request_name, "Request 4");
}

#[test]
fn test_save_and_load_history() {
    let mut history = ResponseHistory::default();

    let response = Response {
        id: Uuid::new_v4(),
        request_id: None,
        status: 200,
        headers: StringMap::new(),
        body: value(r#"{"message": "test"}"#),
        timing: ResponseTiming::default(),
        timestamp: Timestamp::now(),
    };

    history.add_entry("Test".to_string(), response);

    assert_eq!(history.entries.len(), 1);
}

#[test]
fn test_history_workflow() {
    let mut history = ResponseHistory::default();

    let response = Response {
        id: Uuid::new_v4(),
        request_id: None,
        status: 200,
        headers: StringMap::new(),
        body: value(r#"{"message": "success"}"#),
        timing: ResponseTiming::default(),
        timestamp: Timestamp::now(),
    };

    history.add_entry("Test Request".to_string(), response.clone());

    assert_eq!(history.entries.len(), 1);
    assert_eq!(history.get_latest().unwrap().request_name, "Test Request");
    assert_eq!(history.get_by_request_name("Test Request").len(), 1);
}

#[test]
fn default_history_is_empty_and_holds_a_hundred() {
    let history = ResponseHistory::default();
    assert_eq!(history.entries.len(), 0);
    assert_eq!(history.max_entries, 100);
    assert!(history.get_latest().is_none());
    let same = ResponseHistory::new();
    assert_eq!(same.max_entries, 100);
}

#[test]
fn adding_beyond_capacity_keeps_the_newest_in_order() {
    for capacity in 1..6usize {
        for added in 0..12usize {
            let mut history = ResponseHistory { entries: Vec::new(), max_entries: capacity };
            for i in 0..added {
                history.add_entry(format!("r{}", i), response("m"));
                assert!(history.entries.len() <= capacity);
                assert_eq!(history.get_latest().unwrap().request_name, format!("r{}", i));
            }
            let first = added.saturating_sub(capacity);
            let expected: Vec<String> = (first..added).map(|i| format!("r{}", i)).collect();
            assert_eq!(names(&history), expected);
        }
    }
}

#[test]
fn a_history_without_room_keeps_nothing() {
    let mut history = ResponseHistory { entries: Vec::new(), max_entries: 0 };
    history.add_entry("lost".to_string(), response("m"));
    assert_eq!(history.entries.len(), 0);
    assert!(history.get_latest().is_none());
}

#[test]
fn an_overfull_history_is_cut_down_by_the_next_entry() {
    let mut history = ResponseHistory { entries: Vec::new(), max_entries: 10 };
    for i in 0..6 {
        history.add_entry(format!("r{}", i), response("m"));
    }
    history.max_entries = 3;
    history.add_entry("new".to_string(), response("m"));
    assert_eq!(names(&history), vec!["r4", "r5", "new"]);
}

#[test]
fn push_entry_keeps_the_entry_as_it_is() {
    let mut history = ResponseHistory { entries: Vec::new(), max_entries: 2 };
    let id = Uuid::new_v4();
    let at = Timestamp { millis: 1_700_000_000_123 };
    history.push_entry(HistoryEntry {
        id,
        request_name: "kept".to_string(),
        response: response("m"),
        created_at: at,
    });
    let latest = history.get_latest().unwrap();
    assert_eq!(latest.id, id);
    assert_eq!(latest.created_at, at);
    assert_eq!(latest.response.status, 200);
}

#[test]
fn entries_are_found_by_request_name_oldest_first() {
    let mut history = ResponseHistory::default();
    for (i, name) in ["a", "b", "a", "c", "a"].iter().enumerate() {
        let mut r = response("m");
        r.status = 200 + i as u16;
        history.add_entry(name.to_string(), r);
    }
    let found: Vec<u16> =
        history.get_by_request_name("a").iter().map(|e| e.response.status).collect();
    assert_eq!(found, vec![200, 202, 204]);
    assert!(history.get_by_request_name("A").is_empty());
    assert!(history.get_by_request_name("").is_empty());
}

#[test]
fn recent_entries_come_newest_first() {
    let mut history = ResponseHistory::default();
    for i in 0..5 {
        history.add_entry(format!("r{}", i), response("m"));
    }
    let recent: Vec<&str> =
        history.get_recent(3).iter().map(|e| e.request_name.as_str()).collect();
    assert_eq!(recent, vec!["r4", "r3", "r2"]);
    assert_eq!(history.get_recent(0).len(), 0);
    assert_eq!(history.get_recent(99).len(), 5);
    assert_eq!(history.get_recent(99)[4].request_name, "r0");
}

#[test]
fn entries_are_found_by_identifier() {
    let mut history = ResponseHistory::default();
    for i in 0..4 {
        history.add_entry(format!("r{}", i), response("m"));
    }
    let wanted = history.entries[2].id;
    assert_eq!(history.find_by_id(&wanted).unwrap().request_name, "r2");
    assert!(history.find_by_id(&Uuid::new_v4()).is_none());
    // Two entries never get the same identifier.
    assert_ne!(history.entries[0].id, history.entries[1].id);
}

#[test]
fn clear_drops_every_entry_and_keeps_the_bound() {
    let mut history = ResponseHistory { entries: Vec::new(), max_entries: 7 };
    history.add_entry("a".to_string(), response("m"));
    history.clear();
    assert_eq!(history.entries.len(), 0);
    assert_eq!(history.max_entries, 7);
}

#[test]
fn a_copy_of_a_response_holds_the_same() {
    let mut first = response("copy me");
    first.headers.insert("k".to_string(), "v".to_string());
    first.request_id = Some(Uuid::new_v4());
    first.timing = ResponseTiming::total(12);
    let copy = first.clone();
    assert_eq!(copy.id, first.id);
    assert_eq!(copy.request_id, first.request_id);
    assert_eq!(copy.status, first.status);
    assert_eq!(copy.body, first.body);
    assert_eq!(copy.headers.get("k"), Some(&"v".to_string()));
    assert_eq!(copy.timing, first.timing);
    assert_eq!(copy.timestamp, first.timestamp);
}
