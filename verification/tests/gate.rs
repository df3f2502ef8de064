use chris::gate::{
    combine_output, is_affirmative, outcome_of_run, process_commands, ExecutionOutcome,
};

#[test]
fn only_bare_y_confirms() {
    assert!(is_affirmative("y"));
    assert!(is_affirmative("Y"));
    assert!(is_affirmative("  y  "));
    assert!(!is_affirmative("yes"));
    assert!(!is_affirmative(""));
    assert!(!is_affirmative("n"));
    assert!(!is_affirmative("sure"));
}

#[test]
fn declined_command_never_reaches_the_runner() {
    let commands = vec!["echo hi".to_string()];
    let mut runner_calls = 0;
    // the loop the process edge runs: ask for confirmation, then maybe the runner
    for (i, _cmd) in commands.iter().enumerate() {
        let answer = "n";
        let _ = i;
        if is_affirmative(answer) {
            runner_calls += 1;
        }
    }
    assert_eq!(runner_calls, 0);

    let answers = vec!["n".to_string()];
    let runs = vec![Ok("should never be seen".to_string())];
    let outcomes = process_commands(&commands, &answers, &runs);
    assert_eq!(outcomes.len(), 1);
    assert!(matches!(outcomes[0], ExecutionOutcome::Skipped));
}

#[test]
fn spawn_failure_reported_and_queue_continues() {
    let commands = vec!["bad".to_string(), "good".to_string()];
    let answers = vec!["y".to_string(), "y".to_string()];
    let runs = vec![Err("spawn failed".to_string()), Ok("done\n".to_string())];
    let outcomes = process_commands(&commands, &answers, &runs);
    assert_eq!(outcomes.len(), 2);
    match &outcomes[0] {
        ExecutionOutcome::Failed(m) => assert_eq!(m, "spawn failed"),
        other => panic!("unexpected outcome: {:?}", other),
    }
    match &outcomes[1] {
        ExecutionOutcome::Executed(out) => assert_eq!(out, "done\n"),
        other => panic!("unexpected outcome: {:?}", other),
    }
}

#[test]
fn mixed_answers_processed_in_order() {
    let commands = vec!["a".to_string(), "b".to_string(), "c".to_string()];
    let answers = vec!["y".to_string(), "no".to_string(), "Y".to_string()];
    let runs = vec![
        Ok("one".to_string()),
        Ok("unused".to_string()),
        Ok("three".to_string()),
    ];
    let outcomes = process_commands(&commands, &answers, &runs);
    assert!(matches!(&outcomes[0], ExecutionOutcome::Executed(s) if s == "one"));
    assert!(matches!(outcomes[1], ExecutionOutcome::Skipped));
    assert!(matches!(&outcomes[2], ExecutionOutcome::Executed(s) if s == "three"));
}

#[test]
fn outcome_of_run_maps_results() {
    assert!(matches!(
        outcome_of_run(&Ok("out".to_string())),
        ExecutionOutcome::Executed(s) if s == "out"
    ));
    assert!(matches!(
        outcome_of_run(&Err("boom".to_string())),
        ExecutionOutcome::Failed(m) if m == "boom"
    ));
}

#[test]
fn output_streams_combined() {
    assert_eq!(combine_output("", ""), "");
    assert_eq!(combine_output("out", ""), "out");
    assert_eq!(combine_output("", "err"), "err");
    assert_eq!(combine_output("out", "err"), "out\nerr");
}
