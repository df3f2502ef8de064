use chris::safety::{analyze_command_safety, classify};

#[test]
fn sudo_rm_is_dangerous() {
    let v = classify("sudo rm -rf /tmp/x");
    assert!(v.is_dangerous);
    // none of the side-effect label texts occurs in this command, so the
    // crude substring matcher reports no side effects for it
    assert!(v.side_effects.is_empty());
}

#[test]
fn echo_hello_is_harmless() {
    let v = classify("echo hello");
    assert!(!v.is_dangerous);
    assert!(v.side_effects.is_empty());
}

#[test]
fn empty_command_gets_a_verdict() {
    let v = classify("");
    assert!(!v.is_dangerous);
    assert!(v.side_effects.is_empty());
}

#[test]
fn delete_label_found_case_insensitively() {
    let v = classify("sudo Delete the-old-logs");
    assert!(v.is_dangerous);
    assert_eq!(v.side_effects, vec!["delete".to_string()]);
}

#[test]
fn danger_matching_is_case_sensitive() {
    let v = classify("RM README");
    assert!(!v.is_dangerous);
}

#[test]
fn redirection_is_dangerous() {
    assert!(classify("echo a > b.txt").is_dangerous);
}

#[test]
fn each_denylist_word_flags() {
    for cmd in [
        "rm x", "sudo ls", "mv a b", "dd if=/dev/zero", "x > y", "mkfs.ext4", "chmod +x f",
        "chown me f", "kill -9 1",
    ] {
        assert!(classify(cmd).is_dangerous, "{}", cmd);
    }
}

#[test]
fn labels_reported_in_fixed_order() {
    let v = classify("WRITE then download, install or uninstall");
    assert_eq!(
        v.side_effects,
        vec![
            "write".to_string(),
            "install".to_string(),
            "uninstall".to_string(),
            "download".to_string()
        ]
    );
}

#[test]
fn analyze_returns_flag_and_labels() {
    let (dangerous, effects) = analyze_command_safety("curl -O http://e/x && chmod +x x");
    assert!(dangerous);
    assert!(effects.is_empty());
}

#[test]
fn substring_hits_inside_words_count() {
    // "formula" contains "rm"; "reinstall" contains "install"
    let v = classify("brew reinstall formula");
    assert!(v.is_dangerous);
    assert_eq!(v.side_effects, vec!["install".to_string()]);
}
