use my_shell::output::{collect_output, merge_output};
use my_shell::pipeline::{command_not_found, ChainPlanner, Stage, StdinSource, StdoutSink};

fn stage<'a>(program: &'a str, args: Vec<&'a str>, stdin: StdinSource, stdout: StdoutSink) -> Stage<'a> {
    Stage { program, args, stdin, stdout }
}

#[test]
fn single_stage_inherits_both_streams() {
    let groups = vec![vec!["ls", "-l", "/"]];
    let mut planner = ChainPlanner::new(groups.len());
    assert_eq!(
        planner.next_stage(&groups),
        Some(stage("ls", vec!["-l", "/"], StdinSource::Inherit, StdoutSink::Inherit))
    );
    planner.record_spawn(true);
    assert!(planner.is_done());
    assert_eq!(planner.next_stage(&groups), None);
    assert_eq!(planner.finish(), Ok(()));
}

#[test]
fn each_stage_reads_the_previous_output() {
    let groups = vec![vec!["echo", "hello"], vec!["tr", "a-z", "A-Z"], vec!["cat"]];
    let mut planner = ChainPlanner::new(groups.len());
    assert_eq!(
        planner.next_stage(&groups),
        Some(stage("echo", vec!["hello"], StdinSource::Inherit, StdoutSink::Pipe))
    );
    planner.record_spawn(true);
    assert_eq!(
        planner.next_stage(&groups),
        Some(stage("tr", vec!["a-z", "A-Z"], StdinSource::PreviousOutput, StdoutSink::Pipe))
    );
    planner.record_spawn(true);
    assert_eq!(
        planner.next_stage(&groups),
        Some(stage("cat", vec![], StdinSource::PreviousOutput, StdoutSink::Inherit))
    );
    planner.record_spawn(true);
    assert_eq!(planner.next_stage(&groups), None);
    assert_eq!(planner.finish(), Ok(()));
}

#[test]
fn unknown_program_reports_command_not_found() {
    let groups = vec![vec!["no-such-program-here"]];
    let mut planner = ChainPlanner::new(groups.len());
    assert!(planner.next_stage(&groups).is_some());
    planner.record_spawn(false);
    assert_eq!(planner.finish(), Err(String::from("my_shell: command not found")));
    assert_eq!(command_not_found(), "my_shell: command not found");
}

#[test]
fn stage_after_failed_spawn_reads_shell_input() {
    let groups = vec![vec!["nope"], vec!["wc", "-l"]];
    let mut planner = ChainPlanner::new(groups.len());
    planner.record_spawn(false);
    assert!(!planner.is_done());
    assert_eq!(
        planner.next_stage(&groups),
        Some(stage("wc", vec!["-l"], StdinSource::Inherit, StdoutSink::Inherit))
    );
    planner.record_spawn(true);
    assert_eq!(planner.finish(), Ok(()));
}

#[test]
fn failed_last_stage_fails_the_chain() {
    let groups = vec![vec!["echo", "x"], vec!["nope"]];
    let mut planner = ChainPlanner::new(groups.len());
    planner.record_spawn(true);
    planner.record_spawn(false);
    assert_eq!(planner.finish(), Err(String::from("my_shell: command not found")));
}

#[test]
fn empty_chain_fails() {
    let groups: Vec<Vec<&str>> = vec![];
    let planner = ChainPlanner::new(0);
    assert_eq!(planner.next_stage(&groups), None);
    assert_eq!(planner.finish(), Err(String::from("my_shell: command not found")));
}

#[test]
fn same_chain_twice_gives_same_stages() {
    let groups = vec![vec!["echo", "x"]];
    let mut first = ChainPlanner::new(1);
    let mut second = ChainPlanner::new(1);
    assert_eq!(first.next_stage(&groups), second.next_stage(&groups));
    first.record_spawn(true);
    second.record_spawn(true);
    assert_eq!(first.finish(), second.finish());
}

#[test]
fn output_is_stdout_then_stderr() {
    assert_eq!(collect_output(b"HELLO\n", b"warning\n"), "HELLO\nwarning\n");
    assert_eq!(merge_output("a", "b"), "ab");
}

#[test]
fn empty_streams_give_empty_output() {
    assert_eq!(collect_output(b"", b""), "");
}

#[test]
fn invalid_utf8_is_replaced() {
    assert_eq!(collect_output(b"ok\xff", b"\xc3"), "ok\u{FFFD}\u{FFFD}");
    assert_eq!(collect_output("héllo".as_bytes(), b""), "héllo");
}
