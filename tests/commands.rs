use deet::address::parse_address;
use deet::command::DebuggerCommand;

#[test]
fn from_tokens_recognizes_each_command_word() {
    for w in ["q", "quit"] {
        assert!(matches!(DebuggerCommand::from_tokens(&vec![w]), Some(DebuggerCommand::Quit)));
    }
    for w in ["c", "cont", "continue"] {
        assert!(matches!(DebuggerCommand::from_tokens(&vec![w]), Some(DebuggerCommand::Cont)));
    }
    for w in ["bt", "back", "backtrace"] {
        assert!(matches!(DebuggerCommand::from_tokens(&vec![w]), Some(DebuggerCommand::Backtrace)));
    }
}

#[test]
fn from_tokens_keeps_run_arguments() {
    match DebuggerCommand::from_tokens(&vec!["run", "a", "bb"]) {
        Some(DebuggerCommand::Run(args)) => assert_eq!(args, vec!["a".to_string(), "bb".to_string()]),
        _ => panic!("expected run"),
    }
    match DebuggerCommand::from_tokens(&vec!["r"]) {
        Some(DebuggerCommand::Run(args)) => assert!(args.is_empty()),
        _ => panic!("expected run"),
    }
}

#[test]
fn from_tokens_keeps_break_arguments() {
    match DebuggerCommand::from_tokens(&vec!["b", "0x401136"]) {
        Some(DebuggerCommand::Break(args)) => assert_eq!(args, vec!["0x401136".to_string()]),
        _ => panic!("expected break"),
    }
}

#[test]
fn from_tokens_rejects_unknown_and_empty() {
    assert!(DebuggerCommand::from_tokens(&vec!["step"]).is_none());
    assert!(DebuggerCommand::from_tokens(&vec!["Quit"]).is_none());
    assert!(DebuggerCommand::from_tokens(&vec![]).is_none());
}

#[test]
fn parse_address_accepts_hex_with_or_without_prefix() {
    assert_eq!(parse_address("0x401136"), Some(0x401136));
    assert_eq!(parse_address("0X401136"), Some(0x401136));
    assert_eq!(parse_address("401136"), Some(0x401136));
    assert_eq!(parse_address("DeadBeef"), Some(0xdeadbeef));
    assert_eq!(parse_address("+ff"), Some(0xff));
    assert_eq!(parse_address("0"), Some(0));
    assert_eq!(parse_address("ffffffffffffffff"), Some(usize::MAX));
}

#[test]
fn parse_address_rejects_bad_text() {
    assert_eq!(parse_address(""), None);
    assert_eq!(parse_address("0x"), None);
    assert_eq!(parse_address("+"), None);
    assert_eq!(parse_address("-1"), None);
    assert_eq!(parse_address("0x40zz"), None);
    assert_eq!(parse_address("main"), None);
    assert_eq!(parse_address("10000000000000000"), None);
}
