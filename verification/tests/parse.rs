use cx::exec::child_process::TokioCmdExecutor;
use cx::exec2::TokioPipedCmdExecutor;
use cx::io::PipedCmdExecutor;

#[test]
fn parse() {
    let (command, options) = TokioCmdExecutor::parse("ping 8.8.8.8");
    assert_eq!(command, "ping".to_string());
    assert_eq!(options, vec!["8.8.8.8".to_string()]);
}

#[test]
fn parse_command_splits_program_and_arguments() {
    let (program, options) = TokioPipedCmdExecutor::parse_command("echo a b");
    assert_eq!(program, "echo".to_string());
    assert_eq!(options, vec!["a".to_string(), "b".to_string()]);
}

#[test]
fn parse_command_of_single_program() {
    let (program, options) = PipedCmdExecutor::parse_command("ls");
    assert_eq!(program, "ls".to_string());
    assert_eq!(options, Vec::<String>::new());
}

#[test]
fn parse_command_of_empty_string() {
    let (program, options) = PipedCmdExecutor::parse_command("");
    assert_eq!(program, String::new());
    assert_eq!(options, Vec::<String>::new());
}

#[test]
fn parse_command_keeps_empty_tokens() {
    let (program, options) = TokioCmdExecutor::parse("a  b");
    assert_eq!(program, "a".to_string());
    assert_eq!(options, vec![String::new(), "b".to_string()]);
}

#[test]
fn parse_command_of_trailing_space() {
    let (program, options) = TokioCmdExecutor::parse("ls ");
    assert_eq!(program, "ls".to_string());
    assert_eq!(options, vec![String::new()]);
}
