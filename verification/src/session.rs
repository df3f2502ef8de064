//! The interactive session's control logic: mode selection, the dispatch
//! of one input line to a session action, and the yes/no answer rules of
//! the prompts. Reading lines, printing, and calling the completion
//! endpoint happen at the process edge, which performs whatever action
//! this module decides.

use vstd::prelude::*;

use crate::personalization::Personalization;
use crate::text::{chars_of, eq_ci_chars, seq_eq_ci, string_of, trim_chars, trim_spec};

verus! {

/// The two modes of the client: one query given at invocation, or an
/// interactive loop until exit.
#[derive(Debug, Clone, Copy, PartialEq, Eq, Structural)]
pub enum ReaderMode {
    /// Single query mode.
    SingleQuery,
    /// Interactive loop mode.
    Interactive,
}

/// A query argument at invocation selects single-query mode; its absence
/// selects the interactive loop.
pub fn select_reader_mode(has_query: bool) -> (m: ReaderMode)
    ensures
        has_query <==> m == ReaderMode::SingleQuery,
{
    if has_query {
        ReaderMode::SingleQuery
    } else {
        ReaderMode::Interactive
    }
}

/// What the session loop does with one line of input.
#[derive(Debug)]
pub enum SessionAction {
    /// Empty input: read again, nothing changes.
    RePrompt,
    /// A reserved exit word: leave the loop.
    Terminate,
    /// Print the command summary.
    ShowHelp,
    /// Emit the terminal-clear sequence.
    ClearScreen,
    /// Print the captured context, or a disabled notice.
    ShowContext,
    /// The debug toggle was flipped; the payload is its new state.
    DebugToggled(bool),
    /// Forward the trimmed input as a query.
    SendQuery(String),
}

/// The reserved inputs of the session loop: empty input and the session
/// commands, matched case-insensitively after trimming.
pub open spec fn is_session_command(t: Seq<char>) -> bool {
    ||| t.len() == 0
    ||| seq_eq_ci(t, "exit"@)
    ||| seq_eq_ci(t, "quit"@)
    ||| seq_eq_ci(t, "help"@)
    ||| seq_eq_ci(t, "clear"@)
    ||| seq_eq_ci(t, "context"@)
    ||| seq_eq_ci(t, "debug"@)
}

/// Dispatches one input line: empty input re-prompts; `exit` and `quit`
/// terminate; `help`, `clear` and `context` are display actions; `debug`
/// flips the session's debug toggle; anything else is forwarded as a
/// query, trimmed but otherwise as typed. Only the `debug` command
/// changes the session state.
pub fn session_step(p: &mut Personalization, line: &str) -> (a: SessionAction)
    ensures
        final(p).enabled == old(p).enabled,
        final(p).user_context == old(p).user_context,
        trim_spec(line@).len() == 0 ==> a is RePrompt,
        seq_eq_ci(trim_spec(line@), "exit"@) || seq_eq_ci(trim_spec(line@), "quit"@)
            ==> a is Terminate,
        seq_eq_ci(trim_spec(line@), "help"@) ==> a is ShowHelp,
        seq_eq_ci(trim_spec(line@), "clear"@) ==> a is ClearScreen,
        seq_eq_ci(trim_spec(line@), "context"@) ==> a is ShowContext,
        seq_eq_ci(trim_spec(line@), "debug"@) ==> final(p).debug == !old(p).debug && (
        a matches SessionAction::DebugToggled(d) && d == final(p).debug),
        !seq_eq_ci(trim_spec(line@), "debug"@) ==> final(p).debug == old(p).debug,
        !is_session_command(trim_spec(line@)) ==> (a matches SessionAction::SendQuery(q) && q@
            == trim_spec(line@)),
{
    proof {
        reveal_strlit("exit");
        reveal_strlit("quit");
        reveal_strlit("help");
        reveal_strlit("clear");
        reveal_strlit("context");
        reveal_strlit("debug");
    }
    let tc = trim_chars(&chars_of(line));
    proof {
        crate::text::lemma_not_both_eq_ci(tc@, "exit"@, "help"@, 0);
        crate::text::lemma_not_both_eq_ci(tc@, "quit"@, "help"@, 0);
        crate::text::lemma_not_both_eq_ci(tc@, "clear"@, "debug"@, 0);
    }
    if tc.len() == 0 {
        return SessionAction::RePrompt;
    }
    let exit_w = chars_of("exit");
    let quit_w = chars_of("quit");
    if eq_ci_chars(&tc, &exit_w) || eq_ci_chars(&tc, &quit_w) {
        return SessionAction::Terminate;
    }
    let help_w = chars_of("help");
    if eq_ci_chars(&tc, &help_w) {
        return SessionAction::ShowHelp;
    }
    let clear_w = chars_of("clear");
    if eq_ci_chars(&tc, &clear_w) {
        return SessionAction::ClearScreen;
    }
    let context_w = chars_of("context");
    if eq_ci_chars(&tc, &context_w) {
        return SessionAction::ShowContext;
    }
    let debug_w = chars_of("debug");
    if eq_ci_chars(&tc, &debug_w) {
        let new_debug = !p.is_debug();
        p.set_debug(new_debug);
        return SessionAction::DebugToggled(new_debug);
    }
    SessionAction::SendQuery(string_of(tc))
}

/// The yes/no prompt rule: after trimming and case folding, `y` and `yes`
/// answer yes, `n` and `no` answer no, and everything else — the empty
/// answer included — falls back to the prompt's default.
pub fn parse_yes_no(input: &str, default: bool) -> (r: bool)
    ensures
        seq_eq_ci(trim_spec(input@), "y"@) || seq_eq_ci(trim_spec(input@), "yes"@) ==> r,
        seq_eq_ci(trim_spec(input@), "n"@) || seq_eq_ci(trim_spec(input@), "no"@) ==> !r,
        !(seq_eq_ci(trim_spec(input@), "y"@) || seq_eq_ci(trim_spec(input@), "yes"@) || seq_eq_ci(
            trim_spec(input@),
            "n"@,
        ) || seq_eq_ci(trim_spec(input@), "no"@)) ==> r == default,
{
    proof {
        reveal_strlit("y");
        reveal_strlit("yes");
        reveal_strlit("n");
        reveal_strlit("no");
    }
    let tc = trim_chars(&chars_of(input));
    proof {
        crate::text::lemma_not_both_eq_ci(tc@, "y"@, "n"@, 0);
    }
    let y_w = chars_of("y");
    let yes_w = chars_of("yes");
    if eq_ci_chars(&tc, &y_w) || eq_ci_chars(&tc, &yes_w) {
        return true;
    }
    let n_w = chars_of("n");
    let no_w = chars_of("no");
    if eq_ci_chars(&tc, &n_w) || eq_ci_chars(&tc, &no_w) {
        return false;
    }
    default
}

} // verus!
