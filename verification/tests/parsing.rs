use qvault::qvault_cmd::{help_lines, QvaultCmd, QvaultCmdName};
use qvault::session::{session_step, wants_exit};
use qvault::text::split_whitespace_toks;

#[test]
fn test_empty_input() {
    let r = QvaultCmd::from_input("");
    assert!(r.is_err());
    assert_eq!(r.unwrap_err(), "No command found in input");
    let r = QvaultCmd::from_input("   \t  ");
    assert!(r.is_err());
    // No command is dispatched for an empty line.
    let (dispatched, exit) = session_step("");
    assert!(dispatched.is_none());
    assert!(!exit);
}

#[test]
fn test_implicit_search_fallback() {
    // The first token of a bare line is dropped: only the rest is the query.
    let cmd = QvaultCmd::from_input("rust programming").unwrap();
    assert!(matches!(cmd.name, QvaultCmdName::Search));
    assert_eq!(cmd.args, vec!["programming".to_string()]);
}

#[test]
fn test_implicit_search_single_word() {
    let cmd = QvaultCmd::from_input("rust").unwrap();
    assert!(matches!(cmd.name, QvaultCmdName::Search));
    assert!(cmd.args.is_empty());
}

#[test]
fn test_slash_dispatch() {
    let cmd = QvaultCmd::from_input("/help").unwrap();
    assert!(matches!(cmd.name, QvaultCmdName::Help));
    assert!(cmd.args.is_empty());
    let cmd = QvaultCmd::from_input("/bogus").unwrap();
    assert!(matches!(cmd.name, QvaultCmdName::Error));
    // The unrecognized kind is routed to the same handler as Search.
    assert_eq!(
        QvaultCmdName::Error.get_handler(),
        QvaultCmdName::Search.get_handler()
    );
    assert_eq!(QvaultCmdName::Error.get_handler(), QvaultCmdName::Search);
}

#[test]
fn test_slash_commands_case_insensitive() {
    assert_eq!(QvaultCmdName::from_token("/EXIT"), QvaultCmdName::Exit);
    assert_eq!(QvaultCmdName::from_token("/History"), QvaultCmdName::History);
    assert_eq!(QvaultCmdName::from_token("/ai"), QvaultCmdName::Ai);
    let cmd = QvaultCmd::from_input("/Set a b").unwrap();
    assert_eq!(cmd.name, QvaultCmdName::Settings);
    assert_eq!(cmd.args, vec!["a".to_string(), "b".to_string()]);
}

#[test]
fn test_command_texts() {
    assert_eq!(QvaultCmdName::Help.get_cmd(), "/help");
    assert_eq!(QvaultCmdName::Settings.get_cmd(), "/set");
    assert_eq!(QvaultCmdName::Error.get_cmd(), "Error");
    assert_eq!(QvaultCmdName::Exit.get_help(), "Exit from Qvault");
    assert_eq!(QvaultCmdName::Ai.name_str(), "AI");
}

#[test]
fn test_help_lines() {
    let lines = help_lines();
    assert_eq!(lines.len(), 7);
    assert_eq!(lines[0], "Error - Error(internal only)");
    assert_eq!(lines[1], "/help - Show this help message");
    assert_eq!(lines[6], "/ai - AI lookup using OpenAI");
}

#[test]
fn test_all_commands_order() {
    let all = QvaultCmdName::all_commands();
    assert_eq!(
        all,
        vec![
            QvaultCmdName::Error,
            QvaultCmdName::Help,
            QvaultCmdName::History,
            QvaultCmdName::Exit,
            QvaultCmdName::Search,
            QvaultCmdName::Settings,
            QvaultCmdName::Ai,
        ]
    );
}

#[test]
fn test_to_text() {
    let cmd = QvaultCmd::from_input("/set a b").unwrap();
    assert_eq!(cmd.to_text(), "QvaultCmd { name: Set, args: [\"a\", \"b\"] }");
    let cmd = QvaultCmd::from_input("/exit").unwrap();
    assert_eq!(cmd.to_text(), "QvaultCmd { name: Exit, args: [] }");
}

#[test]
fn test_to_text_escapes_args() {
    // Arguments render as Debug renders string contents: quotes,
    // backslashes and control characters are escaped.
    let cmd = QvaultCmd {
        name: QvaultCmdName::Ai,
        args: vec!["a\"b\\c".to_string(), "x\ny\t\u{1}\u{85}\u{9f}".to_string()],
    };
    assert_eq!(
        cmd.to_text(),
        format!("QvaultCmd {{ name: AI, args: {:?} }}", cmd.args)
    );
    assert_eq!(
        cmd.to_text(),
        "QvaultCmd { name: AI, args: [\"a\\\"b\\\\c\", \"x\\ny\\t\\u{1}\\u{85}\\u{9f}\"] }"
    );
}

#[test]
fn test_split_whitespace() {
    let toks = split_whitespace_toks("  one\t two \n three  ");
    assert_eq!(
        toks,
        vec!["one".to_string(), "two".to_string(), "three".to_string()]
    );
    let toks = split_whitespace_toks("");
    assert!(toks.is_empty());
}

#[test]
fn test_wants_exit() {
    assert!(wants_exit("exit"));
    assert!(!wants_exit("Exit"));
    assert!(!wants_exit("/exit"));
    assert!(!wants_exit(" exit"));
}

#[test]
fn test_session_step_exit() {
    let (dispatched, exit) = session_step("exit");
    let cmd = dispatched.unwrap();
    assert!(matches!(cmd.name, QvaultCmdName::Search));
    assert!(exit);
    let (dispatched, exit) = session_step("/exit");
    assert!(matches!(dispatched.unwrap().name, QvaultCmdName::Exit));
    assert!(!exit);
}
