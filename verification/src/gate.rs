//! The confirmation gate: the approve/deny checkpoint in front of every
//! local command execution, and the bookkeeping around the external
//! command runner. Only decisions live here; prompting and spawning
//! happen at the process edge, which feeds answers and results back in.

use vstd::prelude::*;

use crate::text::{chars_of, eq_ci_chars, seq_eq_ci, trim_chars, trim_spec};

verus! {

/// An answer confirms execution iff, after trimming, it is exactly `y`,
/// case-insensitively. Everything else — including empty input — declines.
pub open spec fn affirmative_spec(input: Seq<char>) -> bool {
    seq_eq_ci(trim_spec(input), "y"@)
}

/// Decides one confirmation answer.
pub fn is_affirmative(input: &str) -> (r: bool)
    ensures
        r == affirmative_spec(input@),
{
    let t = trim_chars(&chars_of(input));
    let y = chars_of("y");
    eq_ci_chars(&t, &y)
}

/// The recorded fate of one queued command.
#[derive(Debug)]
pub enum ExecutionOutcome {
    /// The command was confirmed and the runner returned its combined
    /// output.
    Executed(String),
    /// The command was declined; the runner was never invoked.
    Skipped,
    /// The command was confirmed but the runner failed to spawn; the
    /// message describes the failure.
    Failed(String),
}

/// What is recorded for one command, given the operator's answer and —
/// only when the answer confirms — the runner's result.
pub open spec fn outcome_ok(
    answer: Seq<char>,
    run: Result<String, String>,
    o: ExecutionOutcome,
) -> bool {
    if !affirmative_spec(answer) {
        o is Skipped
    } else {
        match run {
            Ok(out) => o matches ExecutionOutcome::Executed(s) && s@ == out@,
            Err(e) => o matches ExecutionOutcome::Failed(m) && m@ == e@,
        }
    }
}

/// The outcome of one confirmed command, from the runner's result.
pub fn outcome_of_run(run: &Result<String, String>) -> (o: ExecutionOutcome)
    ensures
        run matches Ok(out) ==> o matches ExecutionOutcome::Executed(s) && s@ == out@,
        run matches Err(e) ==> o matches ExecutionOutcome::Failed(m) && m@ == e@,
{
    match run {
        Ok(out) => ExecutionOutcome::Executed(out.clone()),
        Err(e) => ExecutionOutcome::Failed(e.clone()),
    }
}

/// Processes a whole command queue against a recorded interaction:
/// `answers[i]` is the operator's reply for `commands[i]`, and `runs[i]`
/// what the runner would return for it. Every declined command is skipped
/// without consulting the runner; every failure is recorded and the queue
/// continues — one command's failure never aborts the rest.
pub fn process_commands(
    commands: &Vec<String>,
    answers: &Vec<String>,
    runs: &Vec<Result<String, String>>,
) -> (outcomes: Vec<ExecutionOutcome>)
    requires
        answers@.len() == commands@.len(),
        runs@.len() == commands@.len(),
    ensures
        outcomes@.len() == commands@.len(),
        forall|i: int|
            0 <= i < commands@.len() ==> outcome_ok(answers@[i]@, runs@[i], outcomes@[i]),
{
    let n = commands.len();
    let mut outcomes: Vec<ExecutionOutcome> = Vec::new();
    let mut i: usize = 0;
    while i < n
        invariant
            n == commands@.len(),
            answers@.len() == n,
            runs@.len() == n,
            i <= n,
            outcomes@.len() == i,
            forall|j: int| 0 <= j < i ==> outcome_ok(answers@[j]@, runs@[j], outcomes@[j]),
        decreases n - i,
    {
        if is_affirmative(answers[i].as_str()) {
            outcomes.push(outcome_of_run(&runs[i]));
        } else {
            outcomes.push(ExecutionOutcome::Skipped);
        }
        i = i + 1;
    }
    outcomes
}

/// The combined text of a finished command: standard output, then — when
/// both streams are non-empty — a separating newline, then standard error.
pub open spec fn combined_output_spec(stdout: Seq<char>, stderr: Seq<char>) -> Seq<char> {
    if stderr.len() == 0 {
        stdout
    } else if stdout.len() == 0 {
        stderr
    } else {
        stdout + "\n"@ + stderr
    }
}

/// Combines a finished command's two output streams for display.
pub fn combine_output(stdout: &str, stderr: &str) -> (r: String)
    ensures
        r@ == combined_output_spec(stdout@, stderr@),
{
    let mut result = String::new();
    if !stdout.is_empty() {
        result.append(stdout);
    }
    if !stderr.is_empty() {
        if !result.as_str().is_empty() {
            result.append("\n");
        }
        result.append(stderr);
    }
    proof {
        assert(result@ =~= combined_output_spec(stdout@, stderr@));
    }
    result
}

} // verus!
