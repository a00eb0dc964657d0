use qvault::qvault_cmd::qvault_search::{
    parse_search_response, query_arg, query_is_blank, SearchErrorResponse, SearchItem,
    SearchResult,
};
use qvault::qvault_tui::{edit_step, nav_signal, run_editor, KeyInput};

#[test]
fn test_line_editing() {
    // a, b, c, Backspace, Enter commits "ab".
    let events = vec![
        KeyInput::Char('a'),
        KeyInput::Char('b'),
        KeyInput::Char('c'),
        KeyInput::Backspace,
        KeyInput::Char('\n'),
    ];
    assert_eq!(run_editor(&events), "ab");
}

#[test]
fn test_line_editing_edge_cases() {
    // Backspace on an empty buffer is a no-op.
    let events = vec![
        KeyInput::Backspace,
        KeyInput::Char('x'),
        KeyInput::Char('\n'),
    ];
    assert_eq!(run_editor(&events), "x");
    // Keys other than characters and Backspace are ignored.
    let events = vec![
        KeyInput::Char('h'),
        KeyInput::Left,
        KeyInput::Up,
        KeyInput::Esc,
        KeyInput::Char('i'),
        KeyInput::Char('\n'),
    ];
    assert_eq!(run_editor(&events), "hi");
    // Everything after the first Enter is ignored.
    let events = vec![
        KeyInput::Char('a'),
        KeyInput::Char('\n'),
        KeyInput::Char('b'),
    ];
    assert_eq!(run_editor(&events), "a");
    // A tab is not printable: the editor ignores it like any other key.
    let events = vec![
        KeyInput::Char('\t'),
        KeyInput::Char('a'),
        KeyInput::Char('\t'),
        KeyInput::Char('\n'),
    ];
    assert_eq!(run_editor(&events), "a");
}

#[test]
fn test_edit_step() {
    let mut buf = String::new();
    assert!(!edit_step(&mut buf, KeyInput::Char('q')));
    assert_eq!(buf, "q");
    assert!(edit_step(&mut buf, KeyInput::Char('\n')));
    assert_eq!(buf, "q");
}

fn three_items() -> SearchResult {
    SearchResult::from_items(vec![
        SearchItem {
            title: "first".to_string(),
            url: "https://one".to_string(),
        },
        SearchItem {
            title: "second".to_string(),
            url: "https://two".to_string(),
        },
        SearchItem {
            title: "third".to_string(),
            url: "https://three".to_string(),
        },
    ])
}

#[test]
fn test_navigation_bounds() {
    let mut rs = three_items();
    assert_eq!(rs.index, 0);
    // Right advances.
    assert_eq!(nav_signal(KeyInput::Right), Some(1));
    rs.next_item();
    assert_eq!(rs.index, 1);
    // Left retreats.
    assert_eq!(nav_signal(KeyInput::Left), Some(-1));
    rs.prev_item();
    assert_eq!(rs.index, 0);
    // Left at the first item clamps: no wrap.
    rs.prev_item();
    assert_eq!(rs.index, 0);
    // Tab exits with signal 0 and the index does not change.
    assert_eq!(nav_signal(KeyInput::Char('\t')), Some(0));
    assert_eq!(rs.index, 0);
    // Advancing past the last item clamps too.
    rs.next_item();
    rs.next_item();
    assert_eq!(rs.index, 2);
    rs.next_item();
    assert_eq!(rs.index, 2);
}

#[test]
fn test_apply_signal() {
    let mut rs = three_items();
    // 0 stops the view and moves nothing.
    assert!(rs.apply_signal(0));
    assert_eq!(rs.index, 0);
    // Positive advances, negative retreats, both clamped.
    assert!(!rs.apply_signal(1));
    assert_eq!(rs.index, 1);
    assert!(!rs.apply_signal(-1));
    assert_eq!(rs.index, 0);
    assert!(!rs.apply_signal(-1));
    assert_eq!(rs.index, 0);
    assert!(!rs.apply_signal(1));
    assert!(!rs.apply_signal(1));
    assert!(!rs.apply_signal(1));
    assert_eq!(rs.index, 2);
}

#[test]
fn test_query_arg() {
    assert_eq!(query_arg(&vec![]), None);
    assert_eq!(
        query_arg(&vec!["rust".to_string(), "extra".to_string()]),
        Some("rust")
    );
}

#[test]
fn test_nav_signals() {
    assert_eq!(nav_signal(KeyInput::Char('\n')), Some(1));
    assert_eq!(nav_signal(KeyInput::Down), Some(1));
    assert_eq!(nav_signal(KeyInput::Backspace), Some(-1));
    assert_eq!(nav_signal(KeyInput::Char('x')), None);
    assert_eq!(nav_signal(KeyInput::Esc), None);
    assert_eq!(nav_signal(KeyInput::Up), None);
}

#[test]
fn test_result_accessors() {
    let mut rs = three_items();
    assert_eq!(rs.count(), 3);
    assert_eq!(rs.title(), "first");
    assert_eq!(rs.url(), "https://one");
    // The hit carries no separate snippet: its title stands in.
    assert_eq!(rs.snippet(), "first");
    rs.next_item();
    assert_eq!(rs.title(), "second");
    assert_eq!(rs.url(), "https://two");
}

#[test]
fn test_result_defaults() {
    let rs = SearchResult::empty_query_result();
    assert_eq!(rs.count(), 0);
    assert_eq!(rs.title(), "");
    assert_eq!(rs.url(), "https://google.com");
    assert_eq!(rs.snippet(), "This is a snippet from the search result");
    assert_eq!(rs.status, Some(400));
    assert_eq!(rs.error.as_deref(), Some("Search query cannot be empty."));
    let rs = SearchResult::missing_key_result();
    assert_eq!(rs.status, Some(401));
}

#[test]
fn test_query_is_blank() {
    assert!(query_is_blank(""));
    assert!(query_is_blank(" \t "));
    assert!(!query_is_blank(" a "));
}

#[test]
fn test_parse_search_response() {
    let body = "{\"web\":{\"results\":[{\"title\":\"T1\",\"url\":\"https://x\"},{\"title\":\"T2\",\"url\":\"https://y\"}]}}";
    let rs = parse_search_response(body).unwrap();
    assert_eq!(rs.status, Some(200));
    assert_eq!(rs.count(), 1);
    // The first hit is kept, serialized as JSON text (quotes included).
    assert_eq!(rs.title(), "\"T1\"");
    assert_eq!(rs.url(), "\"https://x\"");
}

#[test]
fn test_parse_search_response_errors() {
    let err = parse_search_response("not json at all").unwrap_err();
    let expected = format!(
        "JSON parsing error: {}",
        serde_json::from_str::<serde_json::Value>("not json at all").unwrap_err()
    );
    assert_eq!(err, expected);
    let err = parse_search_response("{\"web\":{}}").unwrap_err();
    assert_eq!(err, "Invalid results format");
    let err = parse_search_response("{\"web\":{\"results\":[]}}").unwrap_err();
    assert_eq!(err, "Invalid results format");
}

#[test]
fn test_search_error_response() {
    let e = SearchErrorResponse::new("boom".to_string());
    assert_eq!(e.error(), "boom");
}
