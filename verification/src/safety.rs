//! Advisory safety classification of a single shell command candidate.
//!
//! The classification is deliberately crude substring matching — it prefers
//! false positives, because the confirmation gate, not this classifier, is
//! the actual safety boundary; the verdict only annotates the prompt shown
//! to the operator and never blocks anything by itself.

use vstd::prelude::*;

use crate::text::{chars_of, contains_chars, contains_ci, contains_ci_chars, contains_seq, string_of};

verus! {

/// A command is flagged dangerous iff it contains one of a fixed denylist
/// of fragments as a case-sensitive substring.
pub open spec fn dangerous_spec(cmd: Seq<char>) -> bool {
    ||| contains_seq(cmd, "rm"@)
    ||| contains_seq(cmd, "sudo"@)
    ||| contains_seq(cmd, "mv"@)
    ||| contains_seq(cmd, "dd"@)
    ||| contains_seq(cmd, ">"@)
    ||| contains_seq(cmd, "mkfs"@)
    ||| contains_seq(cmd, "chmod"@)
    ||| contains_seq(cmd, "chown"@)
    ||| contains_seq(cmd, "kill"@)
}

/// The fixed side-effect label set, in report order.
pub open spec fn effect_label(i: int) -> Seq<char> {
    if i == 0 {
        "write"@
    } else if i == 1 {
        "create"@
    } else if i == 2 {
        "delete"@
    } else if i == 3 {
        "modify"@
    } else if i == 4 {
        "install"@
    } else if i == 5 {
        "uninstall"@
    } else {
        "download"@
    }
}

/// The labels from position `i` on whose text occurs in the command as a
/// case-insensitive substring, in report order.
pub open spec fn effects_from(cmd: Seq<char>, i: int) -> Seq<Seq<char>>
    decreases 7 - i,
{
    if i < 0 || i >= 7 {
        Seq::empty()
    } else if contains_ci(cmd, effect_label(i)) {
        seq![effect_label(i)] + effects_from(cmd, i + 1)
    } else {
        effects_from(cmd, i + 1)
    }
}

/// All side-effect labels reported for a command.
pub open spec fn effects_spec(cmd: Seq<char>) -> Seq<Seq<char>> {
    effects_from(cmd, 0)
}

/// The side-effect label at position `i`, as a vector.
fn effect_label_x(i: usize) -> (r: Vec<char>)
    requires
        i < 7,
    ensures
        r@ == effect_label(i as int),
{
    if i == 0 {
        chars_of("write")
    } else if i == 1 {
        chars_of("create")
    } else if i == 2 {
        chars_of("delete")
    } else if i == 3 {
        chars_of("modify")
    } else if i == 4 {
        chars_of("install")
    } else if i == 5 {
        chars_of("uninstall")
    } else {
        chars_of("download")
    }
}

/// Analyzes one shell command candidate: flags it dangerous on any
/// case-sensitive denylist hit, and lists every side-effect label that
/// occurs in it as a case-insensitive substring, in report order.
pub fn analyze_command_safety(cmd: &str) -> (r: (bool, Vec<String>))
    ensures
        r.0 == dangerous_spec(cmd@),
        r.1.deep_view() == effects_spec(cmd@),
{
    let cc = chars_of(cmd);
    let w_rm = chars_of("rm");
    let w_sudo = chars_of("sudo");
    let w_mv = chars_of("mv");
    let w_dd = chars_of("dd");
    let w_gt = chars_of(">");
    let w_mkfs = chars_of("mkfs");
    let w_chmod = chars_of("chmod");
    let w_chown = chars_of("chown");
    let w_kill = chars_of("kill");
    let dangerous = contains_chars(&cc, &w_rm) || contains_chars(&cc, &w_sudo)
        || contains_chars(&cc, &w_mv) || contains_chars(&cc, &w_dd) || contains_chars(&cc, &w_gt)
        || contains_chars(&cc, &w_mkfs) || contains_chars(&cc, &w_chmod) || contains_chars(
        &cc,
        &w_chown,
    ) || contains_chars(&cc, &w_kill);
    let mut effects: Vec<String> = Vec::new();
    let mut i: usize = 0;
    proof {
        assert(effects.deep_view() =~~= Seq::<Seq<char>>::empty());
    }
    while i < 7
        invariant
            i <= 7,
            effects_spec(cc@) == effects.deep_view() + effects_from(cc@, i as int),
            cc@ == cmd@,
        decreases 7 - i,
    {
        let ghost prev = effects.deep_view();
        let label = effect_label_x(i);
        if contains_ci_chars(&cc, &label) {
            effects.push(string_of(label));
            proof {
                assert(effects.deep_view() =~~= prev + seq![effect_label(i as int)]);
            }
        }
        i = i + 1;
        proof {
            assert(effects_spec(cc@) =~~= effects.deep_view() + effects_from(cc@, i as int));
        }
    }
    proof {
        assert(effects_spec(cmd@) =~~= effects.deep_view());
    }
    (dangerous, effects)
}

/// The verdict the classifier attaches to one command: an advisory danger
/// flag and the side-effect labels found in the command text.
pub struct SafetyVerdict {
    /// The command contains a denylisted fragment.
    pub is_dangerous: bool,
    /// Side-effect labels found in the command, in report order.
    pub side_effects: Vec<String>,
}

/// Classifies one command candidate; never fails, even on empty input.
pub fn classify(cmd: &str) -> (v: SafetyVerdict)
    ensures
        v.is_dangerous == dangerous_spec(cmd@),
        v.side_effects.deep_view() == effects_spec(cmd@),
{
    let r = analyze_command_safety(cmd);
    SafetyVerdict { is_dangerous: r.0, side_effects: r.1 }
}

} // verus!
