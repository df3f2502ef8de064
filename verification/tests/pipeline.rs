use chris::gate::is_affirmative;
use chris::util::{extract_commands, format_response};

#[test]
fn reply_is_boxed_and_offers_one_confirmation() {
    let reply = "Try:\n```bash\necho hi\n```\n";

    let formatted = format_response(reply);
    let expected = format!(
        "Try:\n┌── bash {}\n│ echo hi\n└{}\n",
        "─".repeat(70),
        "─".repeat(80)
    );
    assert_eq!(formatted, expected);

    let commands = extract_commands(reply);
    assert_eq!(commands, vec!["echo hi".to_string()]);

    // the loop would now prompt once, for exactly this command
    let mut prompts = 0;
    for cmd in &commands {
        prompts += 1;
        assert_eq!(cmd, "echo hi");
        // a decline leaves the runner untouched
        assert!(!is_affirmative("n"));
    }
    assert_eq!(prompts, 1);
}

#[test]
fn formatter_and_extractor_agree_on_shell_blocks() {
    let reply = "a\n```sh\ncmd one\n```\nb\n```python\nignored\n```\n";
    let formatted = format_response(reply);
    assert!(formatted.contains("│ cmd one\n"));
    assert!(formatted.contains("│ ignored\n"));
    let commands = extract_commands(reply);
    assert_eq!(commands, vec!["cmd one".to_string()]);
}
