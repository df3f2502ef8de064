use chris::util::format_response;

#[test]
fn plain_lines_pass_through_unchanged_in_order() {
    let text = "first line\nsecond line\nthird line\n";
    assert_eq!(format_response(text), "first line\nsecond line\nthird line\n");
}

#[test]
fn trailing_newline_added_to_last_line() {
    assert_eq!(format_response("no newline at end"), "no newline at end\n");
}

#[test]
fn closed_block_is_boxed() {
    let text = "Try:\n```bash\necho hi\n```\nBye.\n";
    let expected = format!(
        "Try:\n┌── bash {}\n│ echo hi\n└{}\nBye.\n",
        "─".repeat(70),
        "─".repeat(80)
    );
    assert_eq!(format_response(text), expected);
}

#[test]
fn every_block_boxed_regardless_of_tag() {
    let text = "```python\nprint(1)\n```\n";
    let expected = format!(
        "┌── python {}\n│ print(1)\n└{}\n",
        "─".repeat(68),
        "─".repeat(80)
    );
    assert_eq!(format_response(text), expected);
}

#[test]
fn untagged_block_boxed_with_empty_tag() {
    let text = "```\nx\n```\n";
    let expected = format!("┌──  {}\n│ x\n└{}\n", "─".repeat(74), "─".repeat(80));
    assert_eq!(format_response(text), expected);
}

#[test]
fn unterminated_block_content_dropped() {
    assert_eq!(format_response("kept\n```bash\nburied\n"), "kept\n");
}

#[test]
fn long_tag_gets_no_padding() {
    let tag = "x".repeat(90);
    let text = format!("```{}\nc\n```\n", tag);
    let expected = format!("┌── {} \n│ c\n└{}\n", tag, "─".repeat(80));
    assert_eq!(format_response(&text), expected);
}

#[test]
fn non_fence_lines_around_blocks_keep_their_order() {
    let text = "a\n```sh\nb\n```\nc\n";
    let out = format_response(text);
    let a = out.find("a\n").unwrap();
    let c = out.find("\nc\n").unwrap();
    assert!(a < c);
    assert!(out.contains("│ b\n"));
}
