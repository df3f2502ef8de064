use chris::personalization::Personalization;
use chris::session::{parse_yes_no, select_reader_mode, session_step, ReaderMode, SessionAction};

#[test]
fn exit_terminates() {
    let mut p = Personalization::new(false);
    assert!(matches!(session_step(&mut p, "exit"), SessionAction::Terminate));
}

#[test]
fn exit_is_case_insensitive() {
    let mut p = Personalization::new(false);
    assert!(matches!(session_step(&mut p, "EXIT"), SessionAction::Terminate));
    assert!(matches!(session_step(&mut p, "QuIt"), SessionAction::Terminate));
}

#[test]
fn empty_input_reprompts() {
    let mut p = Personalization::new(false);
    assert!(matches!(session_step(&mut p, ""), SessionAction::RePrompt));
    assert!(matches!(session_step(&mut p, "   "), SessionAction::RePrompt));
    assert!(!p.is_debug());
}

#[test]
fn reserved_words_dispatch() {
    let mut p = Personalization::new(false);
    assert!(matches!(session_step(&mut p, "help"), SessionAction::ShowHelp));
    assert!(matches!(session_step(&mut p, "clear"), SessionAction::ClearScreen));
    assert!(matches!(session_step(&mut p, "context"), SessionAction::ShowContext));
}

#[test]
fn debug_toggles_state() {
    let mut p = Personalization::new(false);
    assert!(!p.is_debug());
    match session_step(&mut p, "debug") {
        SessionAction::DebugToggled(d) => assert!(d),
        other => panic!("unexpected action: {:?}", other),
    }
    assert!(p.is_debug());
    match session_step(&mut p, "DEBUG") {
        SessionAction::DebugToggled(d) => assert!(!d),
        other => panic!("unexpected action: {:?}", other),
    }
    assert!(!p.is_debug());
}

#[test]
fn other_input_is_sent_as_query_trimmed() {
    let mut p = Personalization::new(false);
    match session_step(&mut p, "  what time is it  ") {
        SessionAction::SendQuery(q) => assert_eq!(q, "what time is it"),
        other => panic!("unexpected action: {:?}", other),
    }
}

#[test]
fn query_keeps_original_case() {
    let mut p = Personalization::new(false);
    match session_step(&mut p, "Explain EXIT codes") {
        SessionAction::SendQuery(q) => assert_eq!(q, "Explain EXIT codes"),
        other => panic!("unexpected action: {:?}", other),
    }
}

#[test]
fn mode_selected_by_query_presence() {
    assert_eq!(select_reader_mode(true), ReaderMode::SingleQuery);
    assert_eq!(select_reader_mode(false), ReaderMode::Interactive);
}

#[test]
fn yes_no_answers() {
    assert!(parse_yes_no("y", false));
    assert!(parse_yes_no("YES", false));
    assert!(!parse_yes_no("n", true));
    assert!(!parse_yes_no("No", true));
}

#[test]
fn yes_no_empty_takes_default() {
    assert!(parse_yes_no("", true));
    assert!(!parse_yes_no("", false));
    assert!(parse_yes_no("   ", true));
}

#[test]
fn yes_no_garbage_takes_default() {
    assert!(parse_yes_no("maybe", true));
    assert!(!parse_yes_no("maybe", false));
}
