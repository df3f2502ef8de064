//! Character-sequence primitives: whitespace trimming, ASCII case folding,
//! substring search and line splitting, each verified against a spec
//! function over `Seq<char>`.

use vstd::prelude::*;

verus! {

/// ASCII whitespace, the characters trimmed from command candidates
/// and interactive input lines.
pub open spec fn is_space(c: char) -> bool {
    c == ' ' || c == '\t' || c == '\n' || c == '\r'
}

/// ASCII case folding on a code point: upper-case letters map to their
/// lower-case counterparts, everything else is unchanged.
pub open spec fn lower_u(u: int) -> int {
    if 65 <= u && u <= 90 {
        u + 32
    } else {
        u
    }
}

/// Two characters are equal up to ASCII case.
pub open spec fn chars_eq_ci(a: char, b: char) -> bool {
    lower_u(a as u32 as int) == lower_u(b as u32 as int)
}

/// Two character sequences are equal up to ASCII case.
pub open spec fn seq_eq_ci(a: Seq<char>, b: Seq<char>) -> bool {
    a.len() == b.len() && forall|i: int| 0 <= i < a.len() ==> chars_eq_ci(a[i], b[i])
}

/// `needle` occurs in `hay` starting at position `i`.
pub open spec fn is_sub_at(hay: Seq<char>, needle: Seq<char>, i: int) -> bool {
    0 <= i && i + needle.len() <= hay.len() && hay.subrange(i, i + needle.len()) == needle
}

/// `needle` occurs somewhere in `hay` (case-sensitive).
pub open spec fn contains_seq(hay: Seq<char>, needle: Seq<char>) -> bool {
    exists|i: int| is_sub_at(hay, needle, i)
}

/// `needle` occurs in `hay` at position `i`, up to ASCII case.
pub open spec fn is_sub_ci_at(hay: Seq<char>, needle: Seq<char>, i: int) -> bool {
    0 <= i && i + needle.len() <= hay.len() && seq_eq_ci(
        hay.subrange(i, i + needle.len()),
        needle,
    )
}

/// `needle` occurs somewhere in `hay`, up to ASCII case.
pub open spec fn contains_ci(hay: Seq<char>, needle: Seq<char>) -> bool {
    exists|i: int| is_sub_ci_at(hay, needle, i)
}

/// The sequence without its leading whitespace.
pub open spec fn trim_start_spec(s: Seq<char>) -> Seq<char>
    decreases s.len(),
{
    if s.len() > 0 && is_space(s[0]) {
        trim_start_spec(s.skip(1))
    } else {
        s
    }
}

/// The sequence without its trailing whitespace.
pub open spec fn trim_end_spec(s: Seq<char>) -> Seq<char>
    decreases s.len(),
{
    if s.len() > 0 && is_space(s[s.len() - 1]) {
        trim_end_spec(s.drop_last())
    } else {
        s
    }
}

/// The sequence without leading and trailing whitespace.
pub open spec fn trim_spec(s: Seq<char>) -> Seq<char> {
    trim_end_spec(trim_start_spec(s))
}

/// Index of the first newline in `s`, or `s.len()` if there is none.
pub open spec fn index_of_nl(s: Seq<char>) -> nat
    decreases s.len(),
{
    if s.len() == 0 {
        0
    } else if s[0] == '\n' {
        0
    } else {
        1 + index_of_nl(s.skip(1))
    }
}

/// A line with a final carriage return removed, as happens to the text
/// before a `\r\n` line ending.
pub open spec fn strip_cr(l: Seq<char>) -> Seq<char> {
    if l.len() > 0 && l[l.len() - 1] == '\r' {
        l.drop_last()
    } else {
        l
    }
}

/// The lines of `s`, split at `\n` or `\r\n`, without a trailing empty
/// line for a final line ending.
pub open spec fn lines_spec(s: Seq<char>) -> Seq<Seq<char>>
    decreases s.len(),
{
    if s.len() == 0 {
        Seq::empty()
    } else {
        let i = index_of_nl(s);
        if i < s.len() {
            seq![strip_cr(s.subrange(0, i as int))] + lines_spec(s.skip(i as int + 1))
        } else {
            seq![s]
        }
    }
}

/// A position at or before the length, holding a newline when within
/// bounds, with no newline before it, is `index_of_nl` itself.
pub proof fn lemma_index_of_nl_unique(s: Seq<char>, i: int)
    requires
        0 <= i <= s.len(),
        i < s.len() ==> s[i] == '\n',
        forall|j: int| 0 <= j < i ==> s[j] != '\n',
    ensures
        i == index_of_nl(s),
    decreases s.len(),
{
    if s.len() == 0 {
    } else if s[0] == '\n' {
    } else {
        assert(i > 0);
        lemma_index_of_nl_unique(s.skip(1), i - 1);
    }
}

/// Two sequences cannot both be case-insensitively equal to `t` when they
/// differ, up to case, at some shared position.
pub proof fn lemma_not_both_eq_ci(t: Seq<char>, a: Seq<char>, b: Seq<char>, i: int)
    requires
        0 <= i < a.len(),
        0 <= i < b.len(),
        !chars_eq_ci(a[i], b[i]),
    ensures
        !(seq_eq_ci(t, a) && seq_eq_ci(t, b)),
{
    if seq_eq_ci(t, a) && seq_eq_ci(t, b) {
        assert(chars_eq_ci(t[i], a[i]));
        assert(chars_eq_ci(t[i], b[i]));
    }
}

/// The characters of `s`, as a vector.
pub fn chars_of(s: &str) -> (v: Vec<char>)
    ensures
        v@ == s@,
{
    let n = s.unicode_len();
    let mut v: Vec<char> = Vec::new();
    let mut i: usize = 0;
    while i < n
        invariant
            n == s@.len(),
            i <= n,
            v@ == s@.subrange(0, i as int),
        decreases n - i,
    {
        v.push(s.get_char(i));
        i = i + 1;
        proof {
            assert(v@ =~= s@.subrange(0, i as int));
        }
    }
    proof {
        assert(v@ =~= s@);
    }
    v
}

/// The character for one decimal digit.
pub open spec fn dec_digit(d: nat) -> char {
    if d == 0 {
        '0'
    } else if d == 1 {
        '1'
    } else if d == 2 {
        '2'
    } else if d == 3 {
        '3'
    } else if d == 4 {
        '4'
    } else if d == 5 {
        '5'
    } else if d == 6 {
        '6'
    } else if d == 7 {
        '7'
    } else if d == 8 {
        '8'
    } else {
        '9'
    }
}

/// The decimal rendering of a number, most significant digit first.
pub open spec fn dec_digits(n: nat) -> Seq<char>
    decreases n,
{
    if n < 10 {
        seq![dec_digit(n)]
    } else {
        dec_digits(n / 10) + seq![dec_digit(n % 10)]
    }
}

/// The character for one decimal digit.
fn dec_digit_x(d: usize) -> (c: char)
    requires
        d < 10,
    ensures
        c == dec_digit(d as nat),
{
    if d == 0 {
        '0'
    } else if d == 1 {
        '1'
    } else if d == 2 {
        '2'
    } else if d == 3 {
        '3'
    } else if d == 4 {
        '4'
    } else if d == 5 {
        '5'
    } else if d == 6 {
        '6'
    } else if d == 7 {
        '7'
    } else if d == 8 {
        '8'
    } else {
        '9'
    }
}

/// The decimal rendering of a number, as a vector of characters.
pub fn to_dec_chars(n: usize) -> (v: Vec<char>)
    ensures
        v@ == dec_digits(n as nat),
    decreases n,
{
    if n < 10 {
        let mut v: Vec<char> = Vec::new();
        v.push(dec_digit_x(n));
        proof {
            assert(v@ =~= dec_digits(n as nat));
        }
        v
    } else {
        let mut v = to_dec_chars(n / 10);
        v.push(dec_digit_x(n % 10));
        proof {
            assert(v@ =~= dec_digits(n as nat));
        }
        v
    }
}

/// Relies on `String: FromIterator<char>`: collecting the characters of
/// `v` yields the string with exactly those characters.
#[verifier::external_body]
pub fn string_of(v: Vec<char>) -> (s: String)
    ensures
        s@ == v@,
{
    v.into_iter().collect()
}

/// Executable test for `is_space`.
pub fn is_space_x(c: char) -> (r: bool)
    ensures
        r == is_space(c),
{
    c == ' ' || c == '\t' || c == '\n' || c == '\r'
}

/// Executable ASCII-case-insensitive character comparison.
pub fn eq_ci_char(a: char, b: char) -> (r: bool)
    ensures
        r == chars_eq_ci(a, b),
{
    let ua = a as u32;
    let ub = b as u32;
    let la: u32 = if 65 <= ua && ua <= 90 {
        ua + 32
    } else {
        ua
    };
    let lb: u32 = if 65 <= ub && ub <= 90 {
        ub + 32
    } else {
        ub
    };
    la == lb
}

/// If every position below `a` holds whitespace and `a` is the length or a
/// non-whitespace position, the start-trimmed sequence is `s` from `a` on.
proof fn lemma_trim_start_at(s: Seq<char>, a: int)
    requires
        0 <= a <= s.len(),
        forall|j: int| 0 <= j < a ==> is_space(s[j]),
        a < s.len() ==> !is_space(s[a]),
    ensures
        trim_start_spec(s) == s.skip(a),
    decreases s.len(),
{
    if a == 0 {
        assert(s.skip(0) =~= s);
    } else {
        lemma_trim_start_at(s.skip(1), a - 1);
        assert(s.skip(1).skip(a - 1) =~= s.skip(a));
    }
}

/// If every position from `b` on holds whitespace and `b` is zero or a
/// non-whitespace position, the end-trimmed sequence is `s` up to `b`.
proof fn lemma_trim_end_at(s: Seq<char>, b: int)
    requires
        0 <= b <= s.len(),
        forall|j: int| b <= j < s.len() ==> is_space(s[j]),
        b > 0 ==> !is_space(s[b - 1]),
    ensures
        trim_end_spec(s) == s.take(b),
    decreases s.len(),
{
    if b == s.len() {
        assert(s.take(b) =~= s);
    } else {
        lemma_trim_end_at(s.drop_last(), b);
        assert(s.drop_last().take(b) =~= s.take(b));
    }
}

/// `v` without leading and trailing ASCII whitespace.
pub fn trim_chars(v: &Vec<char>) -> (r: Vec<char>)
    ensures
        r@ == trim_spec(v@),
{
    let n = v.len();
    let mut a: usize = 0;
    while a < n && is_space_x(v[a])
        invariant
            n == v@.len(),
            a <= n,
            forall|j: int| 0 <= j < a ==> is_space(v@[j]),
        decreases n - a,
    {
        a = a + 1;
    }
    let mut b: usize = n;
    while b > a && is_space_x(v[b - 1])
        invariant
            n == v@.len(),
            a <= b <= n,
            forall|j: int| b <= j < n ==> is_space(v@[j]),
        decreases b,
    {
        b = b - 1;
    }
    proof {
        lemma_trim_start_at(v@, a as int);
        if b == a {
            // everything from `a` on is whitespace, so the tail trims away
            lemma_trim_end_at(v@.skip(a as int), 0);
        } else {
            lemma_trim_end_at(v@.skip(a as int), b - a);
        }
    }
    let mut r: Vec<char> = Vec::new();
    let mut i: usize = a;
    while i < b
        invariant
            a <= i <= b <= n,
            n == v@.len(),
            r@ == v@.subrange(a as int, i as int),
        decreases b - i,
    {
        r.push(v[i]);
        i = i + 1;
        proof {
            assert(r@ =~= v@.subrange(a as int, i as int));
        }
    }
    proof {
        assert(v@.skip(a as int).take(b - a) =~= v@.subrange(a as int, b as int));
    }
    r
}

/// Does `needle` occur at position `i` of `hay`?
fn sub_at(hay: &Vec<char>, needle: &Vec<char>, i: usize) -> (r: bool)
    requires
        i + needle@.len() <= hay@.len(),
    ensures
        r == is_sub_at(hay@, needle@, i as int),
{
    let hn = hay.len();
    let m = needle.len();
    let mut j: usize = 0;
    while j < m
        invariant
            m == needle@.len(),
            hn == hay@.len(),
            i + m <= hn,
            j <= m,
            forall|k: int| 0 <= k < j ==> hay@[i + k] == needle@[k],
        decreases m - j,
    {
        if hay[i + j] != needle[j] {
            proof {
                assert(hay@.subrange(i as int, i + m)[j as int] != needle@[j as int]);
            }
            return false;
        }
        j = j + 1;
    }
    proof {
        assert(hay@.subrange(i as int, i + m) =~= needle@);
    }
    true
}

/// Does `needle` occur in `hay` (case-sensitive)?
pub fn contains_chars(hay: &Vec<char>, needle: &Vec<char>) -> (r: bool)
    ensures
        r == contains_seq(hay@, needle@),
{
    let n = hay.len();
    let m = needle.len();
    if m > n {
        return false;
    }
    if m == 0 {
        proof {
            assert(hay@.subrange(0, 0) =~= needle@);
            assert(is_sub_at(hay@, needle@, 0));
        }
        return true;
    }
    let mut i: usize = 0;
    while i <= n - m
        invariant
            n == hay@.len(),
            m == needle@.len(),
            0 < m <= n,
            i <= n - m + 1,
            forall|k: int| 0 <= k < i ==> !is_sub_at(hay@, needle@, k),
        decreases n - i,
    {
        if sub_at(hay, needle, i) {
            return true;
        }
        i = i + 1;
    }
    proof {
        assert forall|k: int| !is_sub_at(hay@, needle@, k) by {
            if 0 <= k < i {
            }
        }
    }
    false
}

/// Does `needle` occur at position `i` of `hay`, up to ASCII case?
fn sub_ci_at(hay: &Vec<char>, needle: &Vec<char>, i: usize) -> (r: bool)
    requires
        i + needle@.len() <= hay@.len(),
    ensures
        r == is_sub_ci_at(hay@, needle@, i as int),
{
    let hn = hay.len();
    let m = needle.len();
    let mut j: usize = 0;
    while j < m
        invariant
            m == needle@.len(),
            hn == hay@.len(),
            i + m <= hn,
            j <= m,
            forall|k: int| 0 <= k < j ==> chars_eq_ci(hay@[i + k], needle@[k]),
        decreases m - j,
    {
        if !eq_ci_char(hay[i + j], needle[j]) {
            proof {
                assert(hay@.subrange(i as int, i + m)[j as int] == hay@[i + j]);
            }
            return false;
        }
        j = j + 1;
    }
    proof {
        assert forall|k: int| 0 <= k < m implies chars_eq_ci(
            hay@.subrange(i as int, i + m)[k],
            needle@[k],
        ) by {
            assert(hay@.subrange(i as int, i + m)[k] == hay@[i + k]);
        }
    }
    true
}

/// Does `needle` occur in `hay`, up to ASCII case?
pub fn contains_ci_chars(hay: &Vec<char>, needle: &Vec<char>) -> (r: bool)
    ensures
        r == contains_ci(hay@, needle@),
{
    let n = hay.len();
    let m = needle.len();
    if m > n {
        return false;
    }
    if m == 0 {
        proof {
            assert(seq_eq_ci(hay@.subrange(0, 0), needle@));
            assert(is_sub_ci_at(hay@, needle@, 0));
        }
        return true;
    }
    let mut i: usize = 0;
    while i <= n - m
        invariant
            n == hay@.len(),
            m == needle@.len(),
            0 < m <= n,
            i <= n - m + 1,
            forall|k: int| 0 <= k < i ==> !is_sub_ci_at(hay@, needle@, k),
        decreases n - i,
    {
        if sub_ci_at(hay, needle, i) {
            return true;
        }
        i = i + 1;
    }
    proof {
        assert forall|k: int| !is_sub_ci_at(hay@, needle@, k) by {
            if 0 <= k < i {
            }
        }
    }
    false
}

/// Are `a` and `b` equal up to ASCII case?
pub fn eq_ci_chars(a: &Vec<char>, b: &Vec<char>) -> (r: bool)
    ensures
        r == seq_eq_ci(a@, b@),
{
    let n = a.len();
    if b.len() != n {
        return false;
    }
    let mut i: usize = 0;
    while i < n
        invariant
            n == a@.len() == b@.len(),
            i <= n,
            forall|k: int| 0 <= k < i ==> chars_eq_ci(a@[k], b@[k]),
        decreases n - i,
    {
        if !eq_ci_char(a[i], b[i]) {
            return false;
        }
        i = i + 1;
    }
    true
}

/// The lines of `v`, split as `lines_spec` describes.
pub fn lines_of(v: &Vec<char>) -> (r: Vec<Vec<char>>)
    ensures
        r.deep_view() == lines_spec(v@),
{
    let n = v.len();
    let mut out: Vec<Vec<char>> = Vec::new();
    let mut p: usize = 0;
    proof {
        assert(v@.skip(0) =~= v@);
        assert(out.deep_view() =~= Seq::<Seq<char>>::empty());
        assert(lines_spec(v@) =~= out.deep_view() + lines_spec(v@.skip(0)));
    }
    while p < n
        invariant
            n == v@.len(),
            p <= n,
            lines_spec(v@) == out.deep_view() + lines_spec(v@.skip(p as int)),
        decreases n - p,
    {
        let ghost prev_dv = out.deep_view();
        let mut q: usize = p;
        while q < n && v[q] != '\n'
            invariant
                n == v@.len(),
                p <= q <= n,
                forall|j: int| p <= j < q ==> v@[j] != '\n',
            decreases n - q,
        {
            q = q + 1;
        }
        proof {
            let s = v@.skip(p as int);
            assert forall|j: int| 0 <= j < q - p implies s[j] != '\n' by {
                assert(s[j] == v@[p + j]);
            }
            lemma_index_of_nl_unique(s, q - p);
        }
        let end: usize = if q < n && q > p && v[q - 1] == '\r' {
            q - 1
        } else {
            q
        };
        let mut line: Vec<char> = Vec::new();
        let mut i: usize = p;
        while i < end
            invariant
                p <= i <= end <= n,
                n == v@.len(),
                line@ == v@.subrange(p as int, i as int),
            decreases end - i,
        {
            line.push(v[i]);
            i = i + 1;
            proof {
                assert(line@ =~= v@.subrange(p as int, i as int));
            }
        }
        proof {
            let s = v@.skip(p as int);
            if q < n {
                assert(s.subrange(0, q - p) =~= v@.subrange(p as int, q as int));
                assert(strip_cr(s.subrange(0, q - p)) =~= line@);
                assert(s.skip(q - p + 1) =~= v@.skip(q as int + 1));
            } else {
                assert(s =~= line@);
                assert(v@.skip(n as int) =~= Seq::<char>::empty());
            }
        }
        out.push(line);
        proof {
            assert(out.deep_view() =~~= prev_dv.push(line@));
        }
        p = if q < n {
            q + 1
        } else {
            q
        };
        proof {
            assert(lines_spec(v@) =~~= out.deep_view() + lines_spec(v@.skip(p as int)));
        }
    }
    proof {
        assert(v@.skip(p as int) =~= Seq::<char>::empty());
        assert(lines_spec(v@) =~~= out.deep_view());
    }
    out
}

} // verus!
