use my_shell::builtin::{cd_report, cd_target, run_builtin, BuiltinAction, EXIT_STATUS};
use my_shell::command::Builtin;

#[test]
fn cd_without_argument_goes_to_root() {
    assert_eq!(cd_target(&[]), "/");
    assert_eq!(run_builtin(Builtin::Cd, &vec![vec!["cd"]]), BuiltinAction::ChangeDirectory("/"));
}

#[test]
fn cd_goes_to_first_argument() {
    assert_eq!(cd_target(&["/tmp", "x"]), "/tmp");
    let args = vec![vec!["cd", "/usr", "/bin"], vec!["ls"]];
    assert_eq!(run_builtin(Builtin::Cd, &args), BuiltinAction::ChangeDirectory("/usr"));
}

#[test]
fn cd_on_empty_pipeline_prints_nothing() {
    let args: Vec<Vec<&str>> = vec![];
    assert_eq!(run_builtin(Builtin::Cd, &args), BuiltinAction::Output(String::new()));
}

#[test]
fn failed_cd_names_the_path() {
    assert_eq!(cd_report("/no/such/dir", false), "cd: no such file or directory: /no/such/dir\n");
}

#[test]
fn successful_cd_prints_nothing() {
    assert_eq!(cd_report("/tmp", true), "");
}

#[test]
fn exit_ends_with_status_one() {
    assert_eq!(EXIT_STATUS, 1);
    assert_eq!(run_builtin(Builtin::Exit, &vec![vec!["exit"]]), BuiltinAction::Exit(1));
    let args = vec![vec!["exit", "0", "now"]];
    assert_eq!(run_builtin(Builtin::Exit, &args), BuiltinAction::Exit(1));
}
