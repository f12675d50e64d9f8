use procfan::command::CommandError;
use procfan::command::CommandLike;
use procfan::command::CommandOperations;
use procfan::console::ConsoleCommand;
use procfan::parse_command_string;

#[test]
fn parse_empty_string_fails_empty_command() {
    let r = parse_command_string("");
    assert!(matches!(r, Err(CommandError::EmptyCommand)));
}

#[test]
fn parse_whitespace_only_fails_empty_command() {
    let r = parse_command_string("  \t \n  ");
    assert!(matches!(r, Err(CommandError::EmptyCommand)));
}

#[test]
fn parse_unbalanced_single_quote_fails_parse_error() {
    match parse_command_string("echo 'abc") {
        Err(CommandError::ParseError(orig)) => assert_eq!(orig, "echo 'abc"),
        _ => panic!("expected a parse error"),
    }
}

#[test]
fn parse_unbalanced_double_quote_fails_parse_error() {
    assert!(matches!(
        parse_command_string("\""),
        Err(CommandError::ParseError(_))
    ));
}

#[test]
fn parse_splits_program_and_args() {
    let (program, args) = parse_command_string("ls -la ..").unwrap();
    assert_eq!(program, "ls");
    assert_eq!(args, vec!["-la".to_string(), "..".to_string()]);
}

#[test]
fn parse_quote_removal() {
    let (program, args) = parse_command_string("echo 'a b' c").unwrap();
    assert_eq!(program, "echo");
    assert_eq!(args, vec!["a b".to_string(), "c".to_string()]);
}

#[test]
fn full_cmd_builds_descriptor() {
    let cmd = ConsoleCommand::full_cmd("test1", "ls -la .").unwrap();
    let inner = cmd.get_command();
    assert_eq!(inner.name, "test1");
    assert_eq!(inner.program, "ls");
    assert_eq!(inner.args, vec!["-la".to_string(), ".".to_string()]);
    assert!(inner.cur_dir.is_none());
}

#[test]
fn full_cmd_empty_command_fails() {
    assert!(matches!(
        ConsoleCommand::full_cmd("test1", "   "),
        Err(CommandError::EmptyCommand)
    ));
}

#[test]
fn cur_dir_sets_working_directory() {
    let mut cmd = ConsoleCommand::full_cmd("test3", "ls -la ../..").unwrap();
    cmd.cur_dir("..");
    let inner = cmd.get_command();
    assert_eq!(inner.cur_dir.as_deref(), Some(".."));
    assert_eq!(inner.name, "test3");
    assert_eq!(inner.program, "ls");
}
