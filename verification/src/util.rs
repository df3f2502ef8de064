//! The fenced-block scanner over a model reply: extraction of shell-like
//! code blocks as command candidates, and terminal formatting that boxes
//! every fenced block.
//!
//! Both passes share one line-scanning model: a fence line (three leading
//! backticks) toggles an "inside block" flag; the opening fence's remainder
//! is the block's language tag; content lines accumulate; the closing fence
//! decides what the block becomes. Text that is still buffered when the
//! input ends inside an unterminated block is deliberately dropped by both
//! passes, so neither ever acts on a block the reply did not finish.

use vstd::prelude::*;

use crate::text::{
    chars_of, contains_chars, contains_seq, is_sub_at, lines_of, lines_spec, string_of,
    trim_chars, trim_spec,
};

verus! {

/// A fence line: one that starts with three backticks.
pub open spec fn is_fence(l: Seq<char>) -> bool {
    l.len() >= 3 && l[0] == '`' && l[1] == '`' && l[2] == '`'
}

/// The language tag of an opening fence line: the line with all leading
/// backticks removed.
pub open spec fn tag_of(l: Seq<char>) -> Seq<char>
    decreases l.len(),
{
    if l.len() > 0 && l[0] == '`' {
        tag_of(l.skip(1))
    } else {
        l
    }
}

/// A language tag selects a block for extraction iff it contains `sh`,
/// `bash` or `shell` as a substring (case-sensitive).
pub open spec fn shell_like(t: Seq<char>) -> bool {
    contains_seq(t, "sh"@) || contains_seq(t, "bash"@) || contains_seq(t, "shell"@)
}

/// One pass of the extraction scanner over the remaining `lines`, starting
/// inside (`in_block`) or outside a block, with the current block's `tag`
/// and accumulated content `acc` (content lines joined, each with a
/// trailing newline).
pub open spec fn scan_extract(
    lines: Seq<Seq<char>>,
    in_block: bool,
    tag: Seq<char>,
    acc: Seq<char>,
) -> Seq<Seq<char>>
    decreases lines.len(),
{
    if lines.len() == 0 {
        Seq::empty()
    } else {
        let l = lines[0];
        let rest = lines.skip(1);
        if is_fence(l) {
            if !in_block {
                scan_extract(rest, true, tag_of(l), Seq::empty())
            } else if shell_like(tag) && trim_spec(acc).len() > 0 {
                seq![trim_spec(acc)] + scan_extract(rest, false, tag, acc)
            } else {
                scan_extract(rest, false, tag, acc)
            }
        } else if in_block {
            scan_extract(rest, true, tag, acc + l + seq!['\n'])
        } else {
            scan_extract(rest, false, tag, acc)
        }
    }
}

/// The commands extracted from a reply: the trimmed contents of its closed
/// shell-like fenced blocks, in the order the blocks close.
pub open spec fn extract_spec(text: Seq<char>) -> Seq<Seq<char>> {
    scan_extract(lines_spec(text), false, Seq::empty(), Seq::empty())
}

/// Executable test for `is_fence`.
pub fn is_fence_x(l: &Vec<char>) -> (r: bool)
    ensures
        r == is_fence(l@),
{
    l.len() >= 3 && l[0] == '`' && l[1] == '`' && l[2] == '`'
}

/// If every position below `a` holds a backtick and `a` is the length or a
/// non-backtick position, the tag is the line from `a` on.
proof fn lemma_tag_of_at(l: Seq<char>, a: int)
    requires
        0 <= a <= l.len(),
        forall|j: int| 0 <= j < a ==> l[j] == '`',
        a < l.len() ==> l[a] != '`',
    ensures
        tag_of(l) == l.skip(a),
    decreases l.len(),
{
    if a == 0 {
        assert(l.skip(0) =~= l);
    } else {
        lemma_tag_of_at(l.skip(1), a - 1);
        assert(l.skip(1).skip(a - 1) =~= l.skip(a));
    }
}

/// The language tag of an opening fence line, as a vector.
pub fn tag_from(l: &Vec<char>) -> (t: Vec<char>)
    ensures
        t@ == tag_of(l@),
{
    let n = l.len();
    let mut a: usize = 0;
    while a < n && l[a] == '`'
        invariant
            n == l@.len(),
            a <= n,
            forall|j: int| 0 <= j < a ==> l@[j] == '`',
        decreases n - a,
    {
        a = a + 1;
    }
    proof {
        lemma_tag_of_at(l@, a as int);
    }
    let mut t: Vec<char> = Vec::new();
    let mut i: usize = a;
    while i < n
        invariant
            a <= i <= n,
            n == l@.len(),
            t@ == l@.subrange(a as int, i as int),
        decreases n - i,
    {
        t.push(l[i]);
        i = i + 1;
        proof {
            assert(t@ =~= l@.subrange(a as int, i as int));
        }
    }
    proof {
        assert(t@ =~= l@.skip(a as int));
    }
    t
}

/// Executable test for `shell_like`.
pub fn shell_like_x(t: &Vec<char>) -> (r: bool)
    ensures
        r == shell_like(t@),
{
    let sh = chars_of("sh");
    let bash = chars_of("bash");
    let shell = chars_of("shell");
    contains_chars(t, &sh) || contains_chars(t, &bash) || contains_chars(t, &shell)
}

/// Appends all of `src` to `dst`.
pub fn push_all(dst: &mut Vec<char>, src: &Vec<char>)
    ensures
        final(dst)@ == old(dst)@ + src@,
{
    let n = src.len();
    let mut i: usize = 0;
    while i < n
        invariant
            n == src@.len(),
            i <= n,
            dst@ == old(dst)@ + src@.subrange(0, i as int),
        decreases n - i,
    {
        dst.push(src[i]);
        i = i + 1;
        proof {
            assert(dst@ =~= old(dst)@ + src@.subrange(0, i as int));
        }
    }
    proof {
        assert(dst@ =~= old(dst)@ + src@);
    }
}

/// Extracts the shell command candidates from a reply: for each fenced
/// block whose language tag is shell-like and that is closed before the
/// text ends, the block's content, trimmed of surrounding whitespace, is
/// one candidate — kept only if non-empty, in order of block closing.
pub fn extract_commands(response: &str) -> (commands: Vec<String>)
    ensures
        commands.deep_view() == extract_spec(response@),
{
    let chars = chars_of(response);
    let lines = lines_of(&chars);
    let ghost ldv = lines.deep_view();
    let n = lines.len();
    let mut commands: Vec<String> = Vec::new();
    let mut in_block: bool = false;
    let mut tag: Vec<char> = Vec::new();
    let mut acc: Vec<char> = Vec::new();
    let mut k: usize = 0;
    proof {
        assert(ldv.skip(0) =~= ldv);
        assert(commands.deep_view() =~= Seq::<Seq<char>>::empty());
        assert(extract_spec(response@) =~~= commands.deep_view() + scan_extract(
            ldv.skip(0),
            false,
            tag@,
            acc@,
        ));
    }
    while k < n
        invariant
            n == ldv.len(),
            ldv == lines.deep_view(),
            k <= n,
            extract_spec(response@) == commands.deep_view() + scan_extract(
                ldv.skip(k as int),
                in_block,
                tag@,
                acc@,
            ),
        decreases n - k,
    {
        let ghost prev_cmds = commands.deep_view();
        let ghost rem = ldv.skip(k as int);
        proof {
            assert(rem[0] == ldv[k as int]);
            assert(rem.skip(1) =~= ldv.skip(k as int + 1));
        }
        let l = &lines[k];
        proof {
            assert(l@ == ldv[k as int]);
        }
        if is_fence_x(l) {
            if !in_block {
                in_block = true;
                tag = tag_from(l);
                acc = Vec::new();
                proof {
                    assert(acc@ =~= Seq::<char>::empty());
                }
            } else {
                in_block = false;
                if shell_like_x(&tag) {
                    let trimmed = trim_chars(&acc);
                    if trimmed.len() > 0 {
                        commands.push(string_of(trimmed));
                        proof {
                            assert(commands.deep_view() =~~= prev_cmds.push(trim_spec(acc@)));
                            assert(prev_cmds.push(trim_spec(acc@)) =~~= prev_cmds + seq![
                                trim_spec(acc@),
                            ]);
                        }
                    }
                }
            }
        } else if in_block {
            let ghost prev_acc = acc@;
            push_all(&mut acc, l);
            acc.push('\n');
            proof {
                assert(acc@ =~= prev_acc + rem[0] + seq!['\n']);
            }
        }
        k = k + 1;
        proof {
            assert(extract_spec(response@) =~~= commands.deep_view() + scan_extract(
                ldv.skip(k as int),
                in_block,
                tag@,
                acc@,
            ));
        }
    }
    proof {
        assert(ldv.skip(n as int) =~= Seq::<Seq<char>>::empty());
        assert(extract_spec(response@) =~~= commands.deep_view());
    }
    commands
}

/// `n` copies of `c`.
pub open spec fn repeat_char(c: char, n: int) -> Seq<char> {
    Seq::new(if n < 0 {
        0
    } else {
        n as nat
    }, |i: int| c)
}

/// Dashes needed to pad a top border to the fixed display width.
pub open spec fn pad_width(taglen: int) -> int {
    if taglen + 6 <= 80 {
        80 - taglen - 6
    } else {
        0
    }
}

/// The opening border line of a boxed block: corner, tag, and dashes
/// padding the line to the fixed display width.
pub open spec fn top_border(tag: Seq<char>) -> Seq<char> {
    "┌── "@ + tag + " "@ + repeat_char('─', pad_width(tag.len() as int)) + "\n"@
}

/// Block content lines, each prefixed with a bar marker.
pub open spec fn bar_lines(ls: Seq<Seq<char>>) -> Seq<char>
    decreases ls.len(),
{
    if ls.len() == 0 {
        Seq::empty()
    } else {
        "│ "@ + ls[0] + "\n"@ + bar_lines(ls.skip(1))
    }
}

/// The closing border line of a boxed block.
pub open spec fn bottom_border() -> Seq<char> {
    "└"@ + repeat_char('─', 80) + "\n"@
}

/// A whole boxed block: borders around the bar-prefixed content lines.
pub open spec fn render_block(tag: Seq<char>, acc: Seq<char>) -> Seq<char> {
    top_border(tag) + bar_lines(lines_spec(acc)) + bottom_border()
}

/// One pass of the formatting scanner: lines outside fenced blocks pass
/// through unchanged (each with a trailing newline); every closed fenced
/// block is rendered as a boxed block, whatever its language tag.
pub open spec fn scan_format(
    lines: Seq<Seq<char>>,
    in_block: bool,
    tag: Seq<char>,
    acc: Seq<char>,
) -> Seq<char>
    decreases lines.len(),
{
    if lines.len() == 0 {
        Seq::empty()
    } else {
        let l = lines[0];
        let rest = lines.skip(1);
        if is_fence(l) {
            if !in_block {
                scan_format(rest, true, tag_of(l), Seq::empty())
            } else {
                render_block(tag, acc) + scan_format(rest, false, tag, acc)
            }
        } else if in_block {
            scan_format(rest, true, tag, acc + l + seq!['\n'])
        } else {
            l + seq!['\n'] + scan_format(rest, false, tag, acc)
        }
    }
}

/// The formatted rendering of a reply.
pub open spec fn format_spec(text: Seq<char>) -> Seq<char> {
    scan_format(lines_spec(text), false, Seq::empty(), Seq::empty())
}

/// Appends `n` copies of `c` to `dst`.
fn push_repeat(dst: &mut Vec<char>, c: char, n: usize)
    ensures
        final(dst)@ == old(dst)@ + repeat_char(c, n as int),
{
    let mut i: usize = 0;
    while i < n
        invariant
            i <= n,
            dst@ == old(dst)@ + repeat_char(c, i as int),
        decreases n - i,
    {
        dst.push(c);
        i = i + 1;
        proof {
            assert(dst@ =~= old(dst)@ + repeat_char(c, i as int));
        }
    }
}

/// Splitting a bar-line rendering at any boundary distributes over
/// concatenation of the line lists.
proof fn lemma_bar_lines_append(a: Seq<Seq<char>>, b: Seq<Seq<char>>)
    ensures
        bar_lines(a + b) == bar_lines(a) + bar_lines(b),
    decreases a.len(),
{
    if a.len() == 0 {
        assert(a + b =~= b);
        assert(bar_lines(a) + bar_lines(b) =~= bar_lines(b));
    } else {
        lemma_bar_lines_append(a.skip(1), b);
        assert((a + b).skip(1) =~= a.skip(1) + b);
        assert((a + b)[0] == a[0]);
        assert(bar_lines(a + b) =~= bar_lines(a) + bar_lines(b));
    }
}

/// Appends one rendered boxed block to `out`.
fn push_block(out: &mut Vec<char>, tag: &Vec<char>, acc: &Vec<char>)
    ensures
        final(out)@ == old(out)@ + render_block(tag@, acc@),
{
    let corner = chars_of("┌── ");
    push_all(out, &corner);
    proof {
        assert(out@ =~= old(out)@ + "┌── "@);
    }
    push_all(out, tag);
    proof {
        assert(out@ =~= old(out)@ + "┌── "@ + tag@);
    }
    let space = chars_of(" ");
    push_all(out, &space);
    proof {
        assert(out@ =~= old(out)@ + "┌── "@ + tag@ + " "@);
    }
    let padn: usize = if tag.len() <= 74 {
        80 - tag.len() - 6
    } else {
        0
    };
    proof {
        assert(padn as int == pad_width(tag@.len() as int));
    }
    push_repeat(out, '─', padn);
    out.push('\n');
    proof {
        reveal_strlit("\n");
        assert(out@ =~= old(out)@ + top_border(tag@));
    }
    let ghost base = out@;
    let cls = lines_of(acc);
    let ghost cdv = cls.deep_view();
    let m = cls.len();
    let mut i: usize = 0;
    proof {
        assert(cdv.take(0) =~= Seq::<Seq<char>>::empty());
        assert(out@ =~= base + bar_lines(cdv.take(0)));
    }
    while i < m
        invariant
            m == cdv.len(),
            cdv == cls.deep_view(),
            i <= m,
            out@ == base + bar_lines(cdv.take(i as int)),
        decreases m - i,
    {
        let ghost before = out@;
        let bar = chars_of("│ ");
        push_all(out, &bar);
        push_all(out, &cls[i]);
        out.push('\n');
        i = i + 1;
        proof {
            reveal_strlit("\n");
            assert(cdv.take(i as int) =~= cdv.take(i as int - 1) + seq![cdv[i as int - 1]]);
            lemma_bar_lines_append(cdv.take(i as int - 1), seq![cdv[i as int - 1]]);
            assert(seq![cdv[i as int - 1]].skip(1) =~= Seq::<Seq<char>>::empty());
            assert(bar_lines(Seq::<Seq<char>>::empty()) =~= Seq::<char>::empty());
            assert(bar_lines(seq![cdv[i as int - 1]]) =~= "│ "@ + cdv[i as int - 1] + "\n"@);
            assert(cls[i - 1]@ == cdv[i as int - 1]);
            assert(out@ =~= base + bar_lines(cdv.take(i as int)));
        }
    }
    proof {
        assert(cdv.take(m as int) =~= cdv);
    }
    let bottom = chars_of("└");
    push_all(out, &bottom);
    push_repeat(out, '─', 80);
    out.push('\n');
    proof {
        reveal_strlit("\n");
        assert(out@ =~= base + bar_lines(cdv) + bottom_border());
        assert(out@ =~= old(out)@ + render_block(tag@, acc@));
    }
}

/// Renders a reply for the terminal: every closed fenced block is boxed
/// between border lines, its content lines marked with a leading bar, and
/// all other lines pass through unchanged. Content buffered inside an
/// unterminated block is dropped, as the extractor drops it.
pub fn format_response(response: &str) -> (formatted: String)
    ensures
        formatted@ == format_spec(response@),
{
    let chars = chars_of(response);
    let lines = lines_of(&chars);
    let ghost ldv = lines.deep_view();
    let n = lines.len();
    let mut out: Vec<char> = Vec::new();
    let mut in_block: bool = false;
    let mut tag: Vec<char> = Vec::new();
    let mut acc: Vec<char> = Vec::new();
    let mut k: usize = 0;
    proof {
        assert(ldv.skip(0) =~= ldv);
        assert(out@ =~= Seq::<char>::empty());
        assert(format_spec(response@) =~~= out@ + scan_format(ldv.skip(0), false, tag@, acc@));
    }
    while k < n
        invariant
            n == ldv.len(),
            ldv == lines.deep_view(),
            k <= n,
            format_spec(response@) == out@ + scan_format(
                ldv.skip(k as int),
                in_block,
                tag@,
                acc@,
            ),
        decreases n - k,
    {
        let ghost rem = ldv.skip(k as int);
        proof {
            assert(rem[0] == ldv[k as int]);
            assert(rem.skip(1) =~= ldv.skip(k as int + 1));
        }
        let l = &lines[k];
        proof {
            assert(l@ == ldv[k as int]);
        }
        if is_fence_x(l) {
            if !in_block {
                in_block = true;
                tag = tag_from(l);
                acc = Vec::new();
                proof {
                    assert(acc@ =~= Seq::<char>::empty());
                }
            } else {
                in_block = false;
                push_block(&mut out, &tag, &acc);
            }
        } else if in_block {
            let ghost prev_acc = acc@;
            push_all(&mut acc, l);
            acc.push('\n');
            proof {
                assert(acc@ =~= prev_acc + rem[0] + seq!['\n']);
            }
        } else {
            push_all(&mut out, l);
            out.push('\n');
        }
        k = k + 1;
        proof {
            assert(format_spec(response@) =~~= out@ + scan_format(
                ldv.skip(k as int),
                in_block,
                tag@,
                acc@,
            ));
        }
    }
    proof {
        assert(ldv.skip(n as int) =~= Seq::<Seq<char>>::empty());
        assert(format_spec(response@) =~~= out@);
    }
    string_of(out)
}

/// Relies on `term_size::dimensions`: the current terminal's column
/// count, when the platform can determine it. The value depends on the
/// terminal the process runs in, so nothing is promised about it.
#[verifier::external_body]
pub fn terminal_size() -> (r: Option<usize>) {
    term_size::dimensions().map(|d| d.0)
}

/// The `python` tag is not shell-like: it contains none of the selecting
/// fragments, so a block tagged with it is never extracted.
pub proof fn lemma_python_not_shell_like()
    ensures
        !shell_like("python"@),
{
    reveal_strlit("python");
    reveal_strlit("sh");
    reveal_strlit("bash");
    reveal_strlit("shell");
    assert forall|i: int| !is_sub_at("python"@, "sh"@, i) by {
        if 0 <= i && i + 2 <= 6 {
            assert("python"@.subrange(i, i + 2)[0] == "python"@[i]);
        }
    }
    assert forall|i: int| !is_sub_at("python"@, "bash"@, i) by {
        if 0 <= i && i + 4 <= 6 {
            assert("python"@.subrange(i, i + 4)[0] == "python"@[i]);
        }
    }
    assert forall|i: int| !is_sub_at("python"@, "shell"@, i) by {
        if 0 <= i && i + 5 <= 6 {
            assert("python"@.subrange(i, i + 5)[0] == "python"@[i]);
        }
    }
}

/// The lines joined back into one text, each with a trailing newline.
pub open spec fn join_nl(ls: Seq<Seq<char>>) -> Seq<char>
    decreases ls.len(),
{
    if ls.len() == 0 {
        Seq::empty()
    } else {
        ls[0] + seq!['\n'] + join_nl(ls.skip(1))
    }
}

/// Outside a block, the scanner's tag and accumulator are dead state: the
/// extraction does not depend on them.
pub proof fn lemma_scan_extract_outside_state(
    lines: Seq<Seq<char>>,
    t1: Seq<char>,
    a1: Seq<char>,
    t2: Seq<char>,
    a2: Seq<char>,
)
    ensures
        scan_extract(lines, false, t1, a1) == scan_extract(lines, false, t2, a2),
    decreases lines.len(),
{
    if lines.len() > 0 && !is_fence(lines[0]) {
        lemma_scan_extract_outside_state(lines.skip(1), t1, a1, t2, a2);
    }
}

/// Inside a block, fence-free lines only accumulate: scanning them before
/// a tail equals scanning the tail with the lines appended to the
/// accumulator.
pub proof fn lemma_scan_extract_in_block(
    content: Seq<Seq<char>>,
    tail: Seq<Seq<char>>,
    tag: Seq<char>,
    acc: Seq<char>,
)
    requires
        forall|i: int| 0 <= i < content.len() ==> !is_fence(content[i]),
    ensures
        scan_extract(content + tail, true, tag, acc) == scan_extract(
            tail,
            true,
            tag,
            acc + join_nl(content),
        ),
    decreases content.len(),
{
    if content.len() == 0 {
        assert(content + tail =~= tail);
        assert(acc + join_nl(content) =~= acc);
    } else {
        let l = content[0];
        assert((content + tail)[0] == l);
        assert((content + tail).skip(1) =~= content.skip(1) + tail);
        assert(forall|i: int|
            0 <= i < content.skip(1).len() ==> !is_fence(#[trigger] content.skip(1)[i]));
        lemma_scan_extract_in_block(content.skip(1), tail, tag, acc + l + seq!['\n']);
        assert(acc + l + seq!['\n'] + join_nl(content.skip(1)) =~= acc + join_nl(content));
    }
}

/// A text with no fence line yields no commands: the extractor returns the
/// empty sequence on any reply without fenced blocks.
pub proof fn lemma_extract_no_fences(text: Seq<char>)
    requires
        forall|i: int|
            0 <= i < lines_spec(text).len() ==> !is_fence(#[trigger] lines_spec(text)[i]),
    ensures
        extract_spec(text) == Seq::<Seq<char>>::empty(),
{
    lemma_scan_extract_no_fences(lines_spec(text), Seq::empty(), Seq::empty());
}

/// Helper for `lemma_extract_no_fences`: outside a block, fence-free lines
/// produce nothing.
proof fn lemma_scan_extract_no_fences(lines: Seq<Seq<char>>, tag: Seq<char>, acc: Seq<char>)
    requires
        forall|i: int| 0 <= i < lines.len() ==> !is_fence(lines[i]),
    ensures
        scan_extract(lines, false, tag, acc) == Seq::<Seq<char>>::empty(),
    decreases lines.len(),
{
    if lines.len() > 0 {
        assert(forall|i: int|
            0 <= i < lines.skip(1).len() ==> !is_fence(#[trigger] lines.skip(1)[i]));
        lemma_scan_extract_no_fences(lines.skip(1), tag, acc);
    }
}

/// An unterminated fenced block contributes nothing: once inside a block,
/// if no further fence line ever closes it, the extractor emits nothing
/// for it, whatever was accumulated.
pub proof fn lemma_unterminated_block_dropped(
    content: Seq<Seq<char>>,
    tag: Seq<char>,
    acc: Seq<char>,
)
    requires
        forall|i: int| 0 <= i < content.len() ==> !is_fence(content[i]),
    ensures
        scan_extract(content, true, tag, acc) == Seq::<Seq<char>>::empty(),
    decreases content.len(),
{
    if content.len() > 0 {
        assert(forall|i: int|
            0 <= i < content.skip(1).len() ==> !is_fence(#[trigger] content.skip(1)[i]));
        lemma_unterminated_block_dropped(content.skip(1), tag, acc + content[0] + seq!['\n']);
    }
}

/// A closed block whose tag is not shell-like is never included in the
/// output, regardless of its content: extraction of the surrounding text
/// continues exactly as if the block were absent.
pub proof fn lemma_non_shell_block_ignored(
    open_line: Seq<Seq<char>>,
    content: Seq<Seq<char>>,
    close_line: Seq<Seq<char>>,
    rest: Seq<Seq<char>>,
    tag: Seq<char>,
    acc: Seq<char>,
)
    requires
        open_line.len() == 1,
        is_fence(open_line[0]),
        !shell_like(tag_of(open_line[0])),
        close_line.len() == 1,
        is_fence(close_line[0]),
        forall|i: int| 0 <= i < content.len() ==> !is_fence(content[i]),
    ensures
        scan_extract(open_line + content + close_line + rest, false, tag, acc) == scan_extract(
            rest,
            false,
            tag,
            acc,
        ),
{
    let all = open_line + content + close_line + rest;
    assert(all[0] == open_line[0]);
    assert(all.skip(1) =~= content + (close_line + rest));
    let t = tag_of(open_line[0]);
    lemma_scan_extract_in_block(content, close_line + rest, t, Seq::empty());
    let acc2 = Seq::<char>::empty() + join_nl(content);
    assert((close_line + rest)[0] == close_line[0]);
    assert((close_line + rest).skip(1) =~= rest);
    lemma_scan_extract_outside_state(rest, t, acc2, tag, acc);
}

/// Outside a block, the formatting scanner's tag and accumulator are dead
/// state.
pub proof fn lemma_scan_format_outside_state(
    lines: Seq<Seq<char>>,
    t1: Seq<char>,
    a1: Seq<char>,
    t2: Seq<char>,
    a2: Seq<char>,
)
    ensures
        scan_format(lines, false, t1, a1) == scan_format(lines, false, t2, a2),
    decreases lines.len(),
{
    if lines.len() > 0 && !is_fence(lines[0]) {
        lemma_scan_format_outside_state(lines.skip(1), t1, a1, t2, a2);
    }
}

/// A text with no fence line is formatted as itself: every line passes
/// through unchanged and in order, each with a trailing newline.
pub proof fn lemma_format_plain_text(text: Seq<char>)
    requires
        forall|i: int|
            0 <= i < lines_spec(text).len() ==> !is_fence(#[trigger] lines_spec(text)[i]),
    ensures
        format_spec(text) == join_nl(lines_spec(text)),
{
    lemma_scan_format_no_fences(lines_spec(text), Seq::empty(), Seq::empty());
}

/// Helper for `lemma_format_plain_text`.
proof fn lemma_scan_format_no_fences(lines: Seq<Seq<char>>, tag: Seq<char>, acc: Seq<char>)
    requires
        forall|i: int| 0 <= i < lines.len() ==> !is_fence(lines[i]),
    ensures
        scan_format(lines, false, tag, acc) == join_nl(lines),
    decreases lines.len(),
{
    if lines.len() > 0 {
        assert(forall|i: int|
            0 <= i < lines.skip(1).len() ==> !is_fence(#[trigger] lines.skip(1)[i]));
        lemma_scan_format_no_fences(lines.skip(1), tag, acc);
    }
}

/// A closed fenced block is formatted as one boxed block — top border with
/// the tag, each content line in order behind a bar marker, bottom border —
/// followed by the formatting of the remaining text.
pub proof fn lemma_format_block_boxed(
    open_line: Seq<Seq<char>>,
    content: Seq<Seq<char>>,
    close_line: Seq<Seq<char>>,
    rest: Seq<Seq<char>>,
    tag: Seq<char>,
    acc: Seq<char>,
)
    requires
        open_line.len() == 1,
        is_fence(open_line[0]),
        close_line.len() == 1,
        is_fence(close_line[0]),
        forall|i: int| 0 <= i < content.len() ==> !is_fence(content[i]),
    ensures
        scan_format(open_line + content + close_line + rest, false, tag, acc) == render_block(
            tag_of(open_line[0]),
            join_nl(content),
        ) + scan_format(rest, false, tag, acc),
{
    let all = open_line + content + close_line + rest;
    assert(all[0] == open_line[0]);
    assert(all.skip(1) =~= content + (close_line + rest));
    let t = tag_of(open_line[0]);
    lemma_scan_format_in_block(content, close_line + rest, t, Seq::empty());
    let acc2 = Seq::<char>::empty() + join_nl(content);
    assert(acc2 =~= join_nl(content));
    assert((close_line + rest)[0] == close_line[0]);
    assert((close_line + rest).skip(1) =~= rest);
    lemma_scan_format_outside_state(rest, t, acc2, tag, acc);
}

/// Inside a block, fence-free lines only accumulate for the formatter.
proof fn lemma_scan_format_in_block(
    content: Seq<Seq<char>>,
    tail: Seq<Seq<char>>,
    tag: Seq<char>,
    acc: Seq<char>,
)
    requires
        forall|i: int| 0 <= i < content.len() ==> !is_fence(content[i]),
    ensures
        scan_format(content + tail, true, tag, acc) == scan_format(
            tail,
            true,
            tag,
            acc + join_nl(content),
        ),
    decreases content.len(),
{
    if content.len() == 0 {
        assert(content + tail =~= tail);
        assert(acc + join_nl(content) =~= acc);
    } else {
        let l = content[0];
        assert((content + tail)[0] == l);
        assert((content + tail).skip(1) =~= content.skip(1) + tail);
        assert(forall|i: int|
            0 <= i < content.skip(1).len() ==> !is_fence(#[trigger] content.skip(1)[i]));
        lemma_scan_format_in_block(content.skip(1), tail, tag, acc + l + seq!['\n']);
        assert(acc + l + seq!['\n'] + join_nl(content.skip(1)) =~= acc + join_nl(content));
    }
}

} // verus!
