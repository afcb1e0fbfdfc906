use vstd::prelude::*;
use vstd::string::StrSliceExecFns;

verus! {

/// Characters with the Unicode `White_Space` property, which `str::trim` strips.
pub open spec fn is_space(c: char) -> bool {
    ('\u{9}' <= c && c <= '\u{d}') || c == ' ' || c == '\u{85}' || c == '\u{a0}' || c == '\u{1680}'
        || ('\u{2000}' <= c && c <= '\u{200a}') || c == '\u{2028}' || c == '\u{2029}' || c
        == '\u{202f}' || c == '\u{205f}' || c == '\u{3000}'
}

/// The index of the first newline at or after `i`, or the length.
pub open spec fn line_end(s: Seq<char>, i: int) -> int
    decreases s.len() - i,
{
    if i < 0 || i >= s.len() || s[i] == '\n' {
        i
    } else {
        line_end(s, i + 1)
    }
}

/// The index of the first non-space character at or after `i`, or the length.
pub open spec fn skip_space(s: Seq<char>, i: int) -> int
    decreases s.len() - i,
{
    if i < 0 || i >= s.len() || !is_space(s[i]) {
        i
    } else {
        skip_space(s, i + 1)
    }
}

/// The end of `s[lo..j]` once trailing spaces are cut off.
pub open spec fn cut_space(s: Seq<char>, lo: int, j: int) -> int
    decreases j - lo,
{
    if j <= lo || j > s.len() || !is_space(s[j - 1]) {
        j
    } else {
        cut_space(s, lo, j - 1)
    }
}

/// The start of the last `/`-separated segment of `s[lo..j]`.
pub open spec fn segment_start(s: Seq<char>, lo: int, j: int) -> int
    decreases j - lo,
{
    if j <= lo || j > s.len() || s[j - 1] == '/' {
        j
    } else {
        segment_start(s, lo, j - 1)
    }
}

/// The branch name recorded in a HEAD pointer file: its first line, without
/// surrounding white space, and of that the part after the last `/`.
/// An empty file has no first line and names no branch.
pub open spec fn head_branch(s: Seq<char>) -> Option<Seq<char>> {
    if s.len() == 0 {
        None
    } else {
        let e = line_end(s, 0);
        let a = skip_space(s.take(e), 0);
        let b = cut_space(s, a, e);
        Some(s.subrange(segment_start(s, a, b), b))
    }
}

/// The revision that names the upstream of a branch.
pub open spec fn upstream_of(branch: Seq<char>) -> Seq<char> {
    branch + "@{upstream}"@
}

pub fn is_white_space(c: char) -> (r: bool)
    ensures
        r == is_space(c),
{
    ('\u{9}' <= c && c <= '\u{d}') || c == ' ' || c == '\u{85}' || c == '\u{a0}' || c == '\u{1680}'
        || ('\u{2000}' <= c && c <= '\u{200a}') || c == '\u{2028}' || c == '\u{2029}' || c
        == '\u{202f}' || c == '\u{205f}' || c == '\u{3000}'
}

/// Recovers the branch name from the text of a HEAD pointer file, as in
/// `ref: refs/heads/main` naming `main`.
pub fn branch_from_head_file(content: &str) -> (r: Option<String>)
    ensures
        match (r, head_branch(content@)) {
            (Some(x), Some(y)) => x@ == y,
            (None, None) => true,
            _ => false,
        },
{
    let n = content.unicode_len();
    if n == 0 {
        return None;
    }
    let ghost s = content@;
    let mut e: usize = 0;
    while e < n && content.get_char(e) != '\n'
        invariant
            n == s.len(),
            s == content@,
            e <= n,
            line_end(s, e as int) == line_end(s, 0),
        decreases n - e,
    {
        e = e + 1;
    }
    let ghost t = s.take(e as int);
    let mut a: usize = 0;
    while a < e && is_white_space(content.get_char(a))
        invariant
            n == s.len(),
            s == content@,
            e <= n,
            a <= e,
            t == s.take(e as int),
            skip_space(t, a as int) == skip_space(t, 0),
        decreases e - a,
    {
        a = a + 1;
    }
    let mut b: usize = e;
    while b > a && is_white_space(content.get_char(b - 1))
        invariant
            n == s.len(),
            s == content@,
            a <= b <= e <= n,
            cut_space(s, a as int, b as int) == cut_space(s, a as int, e as int),
        decreases b - a,
    {
        b = b - 1;
    }
    let mut k: usize = b;
    while k > a && content.get_char(k - 1) != '/'
        invariant
            n == s.len(),
            s == content@,
            a <= k <= b <= n,
            segment_start(s, a as int, k as int) == segment_start(s, a as int, b as int),
        decreases k - a,
    {
        k = k - 1;
    }
    Some(content.substring_char(k, b).to_string())
}

proof fn lemma_line_end_at(s: Seq<char>, i: int, e: int)
    requires
        0 <= i <= e < s.len(),
        s[e] == '\n',
        forall|j: int| i <= j < e ==> s[j] != '\n',
    ensures
        line_end(s, i) == e,
    decreases e - i,
{
    if i < e {
        lemma_line_end_at(s, i + 1, e);
    }
}

proof fn lemma_segment_start_at(s: Seq<char>, lo: int, k: int, j: int)
    requires
        lo < k <= j <= s.len(),
        s[k - 1] == '/',
        forall|m: int| k <= m < j ==> s[m] != '/',
    ensures
        segment_start(s, lo, j) == k,
    decreases j - k,
{
    if k < j {
        lemma_segment_start_at(s, lo, k, j - 1);
    }
}

/// A HEAD pointer file in the usual form, `ref: refs/heads/<name>` and a
/// newline, names the branch `<name>`, for any name without white space or `/`.
pub proof fn lemma_head_pointer_names_branch(name: Seq<char>)
    requires
        name.len() > 0,
        forall|i: int| 0 <= i < name.len() ==> !is_space(#[trigger] name[i]) && name[i] != '/',
    ensures
        head_branch("ref: refs/heads/"@ + name + "\n"@) == Some(name),
{
    reveal_strlit("ref: refs/heads/");
    reveal_strlit("\n");
    let p = "ref: refs/heads/"@;
    let s = p + name + "\n"@;
    let e: int = (p.len() + name.len()) as int;
    assert(s[e] == '\n');
    assert forall|j: int| 0 <= j < e implies s[j] != '\n' by {
        if j >= p.len() {
            assert(s[j] == name[j - p.len()]);
            assert(is_space('\n'));
        }
    }
    lemma_line_end_at(s, 0, e);
    assert(s.take(e)[0] == 'r');
    assert(skip_space(s.take(e), 0) == 0);
    assert(s[e - 1] == name[name.len() - 1]);
    assert(cut_space(s, 0, e) == e);
    assert forall|m: int| p.len() <= m < e implies s[m] != '/' by {
        assert(s[m] == name[m - p.len()]);
    }
    lemma_segment_start_at(s, 0, p.len() as int, e);
    assert(s.subrange(p.len() as int, e) == name);
}

/// The revision `<branch>@{upstream}`.
pub fn upstream_name(branch: &str) -> (r: String)
    ensures
        r@ == upstream_of(branch@),
{
    let mut r = branch.to_string();
    r.append("@{upstream}");
    r
}

} // verus!
