use chris::api_client::create_messages;
use chris::personalization::{field_or_unknown, Personalization, UserContext};

fn sample_context() -> UserContext {
    UserContext {
        username: "alice".to_string(),
        os_name: "Linux".to_string(),
        os_version: "6.1".to_string(),
        kernel_version: "6.1.0".to_string(),
        hostname: "box".to_string(),
    }
}

#[test]
fn new_starts_without_context() {
    let p = Personalization::new(false);
    assert!(!p.is_enabled());
    assert!(!p.is_debug());
    assert!(p.get_user_context().is_none());
}

#[test]
fn initialize_noop_when_disabled() {
    let mut p = Personalization::new(false);
    assert!(p.initialize().is_ok());
    assert!(p.get_user_context().is_none());
}

#[test]
fn initialize_captures_when_enabled() {
    let mut p = Personalization::new(true);
    assert!(p.initialize().is_ok());
    assert!(p.get_user_context().is_some());
}

#[test]
fn enabling_captures_context_once() {
    let mut p = Personalization::new(false);
    assert!(p.set_enabled(true).is_ok());
    assert!(p.is_enabled());
    let first = p.get_user_context().unwrap().clone();
    assert!(p.set_enabled(true).is_ok());
    let second = p.get_user_context().unwrap();
    assert_eq!(first.username, second.username);
    assert_eq!(first.hostname, second.hostname);
}

#[test]
fn debug_flag_settable() {
    let mut p = Personalization::new(false);
    p.set_debug(true);
    assert!(p.is_debug());
    p.set_debug(false);
    assert!(!p.is_debug());
}

#[test]
fn context_display_format() {
    let c = sample_context();
    assert_eq!(
        c.display_string(),
        "User Context:\n  Username: alice\n  OS: Linux 6.1\n  Kernel: 6.1.0\n  Hostname: box"
    );
}

#[test]
fn debug_context_without_capture() {
    let p = Personalization::new(false);
    assert_eq!(
        p.debug_context(),
        "=== Debug Context ===\nPersonalization enabled: false\n\nNo user context available\n==================\n"
    );
}

#[test]
fn debug_context_with_capture() {
    let p = Personalization { enabled: true, debug: false, user_context: Some(sample_context()) };
    assert_eq!(
        p.debug_context(),
        "=== Debug Context ===\nPersonalization enabled: true\n\nUser Context:\n  Username: alice\n  OS: Linux 6.1\n  Kernel: 6.1.0\n  Hostname: box\n==================\n"
    );
}

#[test]
fn messages_without_context() {
    let msgs = create_messages("hi", None);
    assert_eq!(msgs.len(), 2);
    assert_eq!(msgs[0].role, "system");
    assert_eq!(msgs[0].content, "You are Chris, a helpful AI assistant.");
    assert_eq!(msgs[1].role, "user");
    assert_eq!(msgs[1].content, "hi");
}

#[test]
fn messages_with_context_personalized() {
    let c = sample_context();
    let msgs = create_messages("hi", Some(&c));
    assert_eq!(msgs[0].role, "system");
    assert_eq!(
        msgs[0].content,
        "You are Chris, a helpful AI assistant. You are talking to alice who is using Linux 6.1 \
         with kernel version 6.1.0. Always provide responses specific to their operating system \
         and environment. If you need additional system information, ask the user or suggest \
         specific commands they can run. Never provide instructions for other operating systems \
         unless explicitly asked."
    );
    assert_eq!(msgs[1].content, "hi");
}

#[test]
fn missing_fields_become_unknown() {
    assert_eq!(field_or_unknown(Some("arch".to_string())), "arch");
    assert_eq!(field_or_unknown(None), "Unknown");
}
