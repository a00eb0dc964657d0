use qvault::qvault_cmd::qvault_ai::{build_chat_payload, escape_json, extract_chat_content};
use qvault::qvault_cmd::QvaultCmd;
use qvault::qvault_history::{
    decode_history, history_lines, u64_from_be_bytes, u64_to_be_bytes, QvaultHistory,
};
use qvault::qvault_log::{init_log, log_error, log_info, log_warn};

#[test]
fn test_log_entries() {
    let mut log = init_log();
    assert!(log.entries.is_empty());
    log_info(&mut log, "Got input from User >>", "hello");
    assert_eq!(log.entries.len(), 1);
    let entry = &log.entries[0];
    assert!(entry.contains(" - [INFO] Got input from User >>hello"));
    assert!(entry.ends_with("hello\n"));
    log_warn(&mut log, "careful".to_string());
    assert!(log.entries[1].contains(" - [WARN] careful"));
    log_error(&mut log, "broken".to_string());
    assert!(log.entries[2].contains(" - [ERROR] broken"));
    assert_eq!(log.entries.len(), 3);
}

#[test]
fn test_log_it() {
    let mut log = init_log();
    let cmd = QvaultCmd::from_input("/help").unwrap();
    cmd.log_it(&mut log);
    assert_eq!(log.entries.len(), 1);
    assert!(log.entries[0].contains(" - [INFO] Command executed:Help"));
}

#[test]
fn test_be_bytes_codec() {
    assert_eq!(u64_to_be_bytes(258), vec![0, 0, 0, 0, 0, 0, 1, 2]);
    assert_eq!(u64_to_be_bytes(0), vec![0; 8]);
    let bytes = u64_to_be_bytes(0xdead_beef_1234_5678);
    assert_eq!(u64_from_be_bytes(&bytes), 0xdead_beef_1234_5678);
}

#[test]
fn test_decode_history() {
    let pairs = vec![
        (u64_to_be_bytes(1), b"ls".to_vec()),
        // A key that is not eight bytes is skipped.
        (vec![1, 2, 3], b"bad key".to_vec()),
        // A value that is not UTF-8 text is skipped.
        (u64_to_be_bytes(2), vec![0xff, 0xfe]),
        (u64_to_be_bytes(3), b"pwd".to_vec()),
    ];
    let entries = decode_history(&pairs);
    assert_eq!(
        entries,
        vec![(1, "ls".to_string()), (3, "pwd".to_string())]
    );
}

#[test]
fn test_history_lines() {
    let entries = vec![(1u64, "ls".to_string()), (1000u64, "pwd".to_string())];
    let lines = history_lines(&entries);
    assert_eq!(lines, vec!["  1: ls".to_string(), "1000: pwd".to_string()]);
}

#[test]
fn test_command_history() {
    // The store keeps commands in insertion order under increasing ids.
    let history =
        QvaultHistory::open_path("/tmp/qvault_test_history.db").expect("Failed to create database");
    history.clear_history().unwrap();
    history.add_command("ls").unwrap();
    history.add_command("cd /").unwrap();
    history.add_command("pwd").unwrap();
    let commands = history.get_history().unwrap();
    // The ids strictly ascend: the store iterates keys in order.
    let ids: Vec<u64> = commands.iter().map(|(id, _)| *id).collect();
    assert!(ids.windows(2).all(|w| w[0] < w[1]));
    assert_eq!(
        commands.into_iter().map(|(_, cmd)| cmd).collect::<Vec<_>>(),
        vec!["ls", "cd /", "pwd"]
    );
    history.clear_history().unwrap();
    assert!(history.get_history().unwrap().is_empty());
}

#[test]
fn test_escape_json() {
    assert_eq!(escape_json("plain"), "plain");
    assert_eq!(escape_json("a\"b\\c"), "a\\\"b\\\\c");
    assert_eq!(escape_json("line\nbreak\ttab\r"), "line\\nbreak\\ttab\\r");
    assert_eq!(escape_json("\u{8}\u{c}"), "\\b\\f");
    assert_eq!(escape_json("\u{1}\u{1f}"), "\\u0001\\u001f");
}

#[test]
fn test_build_chat_payload() {
    assert_eq!(
        build_chat_payload("hi"),
        "{\"messages\":[{\"content\":\"hi\",\"role\":\"user\"}],\"model\":\"gpt-3.5-turbo\"}"
    );
    // The payload is valid JSON holding the message, even with escapes.
    let payload = build_chat_payload("say \"hi\"\n");
    let v: serde_json::Value = serde_json::from_str(&payload).unwrap();
    assert_eq!(v["model"], "gpt-3.5-turbo");
    assert_eq!(v["messages"][0]["role"], "user");
    assert_eq!(v["messages"][0]["content"], "say \"hi\"\n");
}

#[test]
fn test_extract_chat_content() {
    let body = "{\"choices\":[{\"message\":{\"content\":\"Hello there\"}}]}";
    assert_eq!(extract_chat_content(body).unwrap(), "Hello there");
    let body = "{\"choices\":[]}";
    assert_eq!(
        extract_chat_content(body).unwrap_err(),
        "Failed to extract response content from OpenAI API"
    );
    let body = "{\"choices\":[{\"message\":{}}]}";
    assert_eq!(
        extract_chat_content(body).unwrap_err(),
        "Failed to extract response content from OpenAI API"
    );
    // A body that is not JSON is reported with the parse error itself.
    let expected = serde_json::from_str::<serde_json::Value>("garbage")
        .unwrap_err()
        .to_string();
    assert_eq!(extract_chat_content("garbage").unwrap_err(), expected);
}
