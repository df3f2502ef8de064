use chris::util::extract_commands;

#[test]
fn no_fences_yields_empty() {
    let cmds = extract_commands("just some text\nwith several lines\nand no blocks\n");
    assert!(cmds.is_empty());
}

#[test]
fn empty_input_yields_empty() {
    assert!(extract_commands("").is_empty());
}

#[test]
fn bash_block_extracted_trimmed() {
    let cmds = extract_commands("Try this:\n```bash\nls -la\n```\nDone.\n");
    assert_eq!(cmds, vec!["ls -la".to_string()]);
}

#[test]
fn python_block_never_extracted() {
    let cmds = extract_commands("```python\nrm -rf /\n```\n");
    assert!(cmds.is_empty());
}

#[test]
fn unterminated_block_contributes_nothing() {
    let cmds = extract_commands("intro\n```bash\necho lost\n");
    assert!(cmds.is_empty());
}

#[test]
fn unterminated_after_closed_block_keeps_earlier() {
    let cmds = extract_commands("```sh\nfirst\n```\n```bash\nsecond never closes\n");
    assert_eq!(cmds, vec!["first".to_string()]);
}

#[test]
fn blocks_in_source_order() {
    let text = "```bash\none\n```\nmiddle\n```shell\ntwo\n```\n";
    let cmds = extract_commands(text);
    assert_eq!(cmds, vec!["one".to_string(), "two".to_string()]);
}

#[test]
fn empty_block_skipped() {
    let cmds = extract_commands("```bash\n```\n```sh\n   \n```\n");
    assert!(cmds.is_empty());
}

#[test]
fn tag_matching_is_substring_based() {
    // `zsh` and `fish` contain `sh`, so the crude substring test accepts them
    let cmds = extract_commands("```zsh\na\n```\n```fish\nb\n```\n```ruby\nc\n```\n");
    assert_eq!(cmds, vec!["a".to_string(), "b".to_string()]);
}

#[test]
fn tag_matching_is_case_sensitive() {
    let cmds = extract_commands("```BASH\nupper\n```\n");
    assert!(cmds.is_empty());
}

#[test]
fn multiline_block_kept_whole() {
    let cmds = extract_commands("```bash\ncd /tmp\nls\n```\n");
    assert_eq!(cmds, vec!["cd /tmp\nls".to_string()]);
}

#[test]
fn surrounding_whitespace_trimmed() {
    let cmds = extract_commands("```sh\n\n  echo padded  \n\n```\n");
    assert_eq!(cmds, vec!["echo padded".to_string()]);
}
