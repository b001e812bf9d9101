use bench_core::aggregate::{assemble, collect};
use bench_core::benchmarks::run_in_process_set;
use bench_core::runner::{configured_targets, next_action, RunnerAction, RunnerEvent};

fn finished_text(action: RunnerAction) -> Option<String> {
    match action {
        RunnerAction::Finish { text } => text,
        _ => panic!("expected the run to finish"),
    }
}

#[test]
fn runner_starts_with_build_only_when_configured() {
    assert!(matches!(next_action(true, RunnerEvent::Started), RunnerAction::LaunchBuild));
    assert!(matches!(next_action(false, RunnerEvent::Started), RunnerAction::LaunchRun));
}

#[test]
fn runner_runs_after_any_launched_build() {
    assert!(matches!(
        next_action(true, RunnerEvent::BuildFinished { launched: true }),
        RunnerAction::LaunchRun
    ));
}

#[test]
fn missing_build_tool_gives_no_text() {
    let action = next_action(true, RunnerEvent::BuildFinished { launched: false });
    assert_eq!(finished_text(action), None);
}

#[test]
fn missing_executable_gives_no_text() {
    let action = next_action(false, RunnerEvent::RunFinished { stdout: None });
    assert_eq!(finished_text(action), None);
}

#[test]
fn invalid_utf8_output_gives_no_text() {
    let action = next_action(false, RunnerEvent::RunFinished { stdout: Some(vec![0xff, 0xfe, 0x41]) });
    assert_eq!(finished_text(action), None);
}

#[test]
fn empty_output_gives_empty_text() {
    let action = next_action(false, RunnerEvent::RunFinished { stdout: Some(Vec::new()) });
    assert_eq!(finished_text(action), Some(String::new()));
}

#[test]
fn output_is_decoded_as_text() {
    let stdout = b"not json".to_vec();
    let action = next_action(false, RunnerEvent::RunFinished { stdout: Some(stdout) });
    assert_eq!(finished_text(action), Some("not json".to_string()));
    let accented = "caf\u{e9}".as_bytes().to_vec();
    let action = next_action(false, RunnerEvent::RunFinished { stdout: Some(accented) });
    assert_eq!(finished_text(action), Some("caf\u{e9}".to_string()));
}

#[test]
fn configured_targets_in_order() {
    let targets = configured_targets();
    assert_eq!(targets.len(), 3);
    assert_eq!(targets[0].source_name, "Python");
    assert_eq!(targets[0].invocation.program, "python3");
    assert_eq!(targets[0].invocation.args, vec!["benchmarks/python/benchmark.py".to_string()]);
    assert!(targets[0].build_step.is_none());
    assert_eq!(targets[1].source_name, "JavaScript");
    assert_eq!(targets[1].invocation.program, "node");
    assert!(targets[1].build_step.is_none());
    assert_eq!(targets[2].source_name, "Java");
    assert_eq!(targets[2].invocation.program, "java");
    assert_eq!(
        targets[2].invocation.args,
        vec!["-cp".to_string(), "benchmarks/java".to_string(), "Benchmark".to_string()]
    );
    let build = targets[2].build_step.as_ref().expect("java has a build step");
    assert_eq!(build.program, "javac");
    assert_eq!(build.args, vec!["benchmarks/java/Benchmark.java".to_string()]);
}

#[test]
fn assemble_keeps_group_order() {
    let r = assemble(vec![1, 2], vec![vec![3], Vec::new(), vec![4, 5]]);
    assert_eq!(r, vec![1, 2, 3, 4, 5]);
    let only_first: Vec<u8> = assemble(vec![7], Vec::new());
    assert_eq!(only_first, vec![7]);
}

#[test]
fn collect_twice_gives_distinct_timestamps() {
    let a = collect(vec!["x"], vec![vec!["y"]]);
    let pause = std::time::Instant::now();
    while pause.elapsed().as_millis() < 5 {}
    let b = collect(vec!["x"], vec![vec!["y"]]);
    assert_eq!(a.records, vec!["x", "y"]);
    assert_eq!(a.records, b.records);
    assert_ne!(a.collected_at, b.collected_at);
}

#[test]
fn collect_with_no_external_records_has_three_records() {
    let targets = configured_targets();
    let external: Vec<Vec<String>> = targets.iter().map(|_| Vec::new()).collect();
    let in_process: Vec<String> = run_in_process_set().into_iter().map(|r| r.task_name).collect();
    let set = collect(in_process, external);
    assert_eq!(set.records.len(), 3);
    assert!(chrono::DateTime::parse_from_rfc3339(&set.collected_at).is_ok());
}
