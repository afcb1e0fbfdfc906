use vstd::prelude::*;
use ansi_term::Colour;

use crate::changes::RepoStatus;
use crate::repo::{RepoError, RepoState, RepoSummary, opt_view};

verus! {

/// The terminal styles that the prompt uses.
#[derive(Clone, Copy, Debug, PartialEq, Eq, Structural)]
pub enum Ink {
    BoldCyan,
    Green,
    Yellow,
    Blue,
    Red,
}

/// The escape character that opens a terminal control sequence.
pub open spec fn esc() -> char {
    '\u{1b}'
}

/// The select-graphic-rendition parameters of a style.
pub open spec fn ink_code(ink: Ink) -> Seq<char> {
    match ink {
        Ink::BoldCyan => seq!['1', ';', '3', '6'],
        Ink::Green => seq!['3', '2'],
        Ink::Yellow => seq!['3', '3'],
        Ink::Blue => seq!['3', '4'],
        Ink::Red => seq!['3', '1'],
    }
}

/// The sequence that switches a style on.
pub open spec fn ink_prefix(ink: Ink) -> Seq<char> {
    seq![esc(), '['] + ink_code(ink) + seq!['m']
}

/// The sequence that resets every style.
pub open spec fn reset() -> Seq<char> {
    seq![esc(), '[', '0', 'm']
}

/// `text` painted in a style: the style's prefix, the text, the reset.
pub open spec fn painted(ink: Ink, text: Seq<char>) -> Seq<char> {
    ink_prefix(ink) + text + reset()
}

/// Relies on ansi_term's `Style::paint` and its `Display`, which write the
/// style's prefix (`ESC[`, the bold code `1` if set, the foreground code,
/// `m`), then the text, then the reset `ESC[0m`.
#[verifier::external_body]
fn paint(ink: Ink, text: &str) -> (r: String)
    ensures
        r@ == painted(ink, text@),
{
    let style = match ink {
        Ink::BoldCyan => Colour::Cyan.bold(),
        Ink::Green => Colour::Green.normal(),
        Ink::Yellow => Colour::Yellow.normal(),
        Ink::Blue => Colour::Blue.normal(),
        Ink::Red => Colour::Red.normal(),
    };
    style.paint(text).to_string()
}

pub open spec fn digit_char(d: nat) -> char {
    if d == 0 {
        '0'
    } else if d == 1 {
        '1'
    } else if d == 2 {
        '2'
    } else if d == 3 {
        '3'
    } else if d == 4 {
        '4'
    } else if d == 5 {
        '5'
    } else if d == 6 {
        '6'
    } else if d == 7 {
        '7'
    } else if d == 8 {
        '8'
    } else {
        '9'
    }
}

/// The decimal digits of a number.
pub open spec fn decimal(n: nat) -> Seq<char>
    decreases n,
{
    if n < 10 {
        seq![digit_char(n)]
    } else {
        decimal(n / 10).push(digit_char(n % 10))
    }
}

fn digit_str(d: usize) -> (r: &'static str)
    requires
        d < 10,
    ensures
        r@ == seq![digit_char(d as nat)],
{
    proof {
        reveal_strlit("0");
        reveal_strlit("1");
        reveal_strlit("2");
        reveal_strlit("3");
        reveal_strlit("4");
        reveal_strlit("5");
        reveal_strlit("6");
        reveal_strlit("7");
        reveal_strlit("8");
        reveal_strlit("9");
    }
    if d == 0 {
        "0"
    } else if d == 1 {
        "1"
    } else if d == 2 {
        "2"
    } else if d == 3 {
        "3"
    } else if d == 4 {
        "4"
    } else if d == 5 {
        "5"
    } else if d == 6 {
        "6"
    } else if d == 7 {
        "7"
    } else if d == 8 {
        "8"
    } else {
        "9"
    }
}

/// A number written in decimal.
pub fn decimal_string(n: usize) -> (r: String)
    ensures
        r@ == decimal(n as nat),
    decreases n,
{
    if n < 10 {
        digit_str(n).to_string()
    } else {
        let mut s = decimal_string(n / 10);
        s.append(digit_str(n % 10));
        s
    }
}

/// The label of an operation state; empty for none.
pub open spec fn state_label(state: RepoState) -> Seq<char> {
    match state {
        RepoState::Clean => ""@,
        RepoState::Merge => "merge"@,
        RepoState::Revert => "revert"@,
        RepoState::RevertSequence => "revert-sequence"@,
        RepoState::CherryPick => "cherry-pick"@,
        RepoState::CherryPickSequence => "cherry-pick sequence"@,
        RepoState::Bisect => "bitsect"@,
        RepoState::Rebase => "rebase"@,
        RepoState::RebaseInteractive => "rebase-i"@,
        RepoState::RebaseMerge => "rebase-merge"@,
        RepoState::ApplyMailbox => "apply-mailbox"@,
        RepoState::ApplyMailboxOrRebase => "apply-mailbox-rebase"@,
    }
}

pub fn state_name(state: RepoState) -> (r: &'static str)
    ensures
        r@ == state_label(state),
{
    match state {
        RepoState::Clean => "",
        RepoState::Merge => "merge",
        RepoState::Revert => "revert",
        RepoState::RevertSequence => "revert-sequence",
        RepoState::CherryPick => "cherry-pick",
        RepoState::CherryPickSequence => "cherry-pick sequence",
        RepoState::Bisect => "bitsect",
        RepoState::Rebase => "rebase",
        RepoState::RebaseInteractive => "rebase-i",
        RepoState::RebaseMerge => "rebase-merge",
        RepoState::ApplyMailbox => "apply-mailbox",
        RepoState::ApplyMailboxOrRebase => "apply-mailbox-rebase",
    }
}

/// The branch, in bold cyan; `unknown` where there is none.
pub open spec fn branch_text(branch: Option<Seq<char>>) -> Seq<char> {
    match branch {
        Some(b) => painted(Ink::BoldCyan, b),
        None => painted(Ink::BoldCyan, "unknown"@),
    }
}

pub fn branch_string(branch: Option<&str>) -> (r: String)
    ensures
        r@ == branch_text(crate::repo::opt_str_view(branch)),
{
    match branch {
        Some(b) => paint(Ink::BoldCyan, b),
        None => paint(Ink::BoldCyan, "unknown"),
    }
}

/// A count behind a yellow mark, or nothing for zero.
pub open spec fn mark_text(count: nat, mark: Seq<char>) -> Seq<char> {
    if count > 0 {
        painted(Ink::Yellow, mark) + decimal(count)
    } else {
        ""@
    }
}

/// The divergence from the upstream: nothing where it is unknown, a single
/// space where there is none, else the marked counts.
pub open spec fn ahead_behind_text(d: Result<(usize, usize), RepoError>) -> Seq<char> {
    match d {
        Err(_) => ""@,
        Ok((a, b)) => if a == 0 && b == 0 {
            " "@
        } else {
            " - "@ + mark_text(a as nat, "↑"@) + mark_text(b as nat, "↓"@)
        },
    }
}

fn mark_string(count: usize, mark: &str) -> (r: String)
    ensures
        r@ == mark_text(count as nat, mark@),
{
    proof {
        reveal_strlit("");
    }
    if count > 0 {
        let mut s = paint(Ink::Yellow, mark);
        let digits = decimal_string(count);
        s.append(digits.as_str());
        s
    } else {
        String::new()
    }
}

pub fn ahead_behind_string(divergence: Result<(usize, usize), RepoError>) -> (r: String)
    ensures
        r@ == ahead_behind_text(divergence),
{
    proof {
        reveal_strlit("");
    }
    match divergence {
        Err(_) => String::new(),
        Ok((ahead, behind)) => {
            if ahead == 0 && behind == 0 {
                " ".to_string()
            } else {
                let mut s = " - ".to_string();
                let up = mark_string(ahead, "↑");
                let down = mark_string(behind, "↓");
                s.append(up.as_str());
                s.append(down.as_str());
                s
            }
        },
    }
}

/// The operation state between bars, in blue; nothing where none is in progress.
pub open spec fn state_text(state: RepoState) -> Seq<char> {
    if state_label(state).len() == 0 {
        ""@
    } else {
        "|"@ + painted(Ink::Blue, state_label(state)) + "|"@
    }
}

pub fn state_string(state: RepoState) -> (r: String)
    ensures
        r@ == state_text(state),
{
    proof {
        reveal_strlit("");
    }
    let label = state_name(state);
    if label.unicode_len() == 0 {
        String::new()
    } else {
        let mut s = "|".to_string();
        let p = paint(Ink::Blue, label);
        s.append(p.as_str());
        s.append("|");
        s
    }
}

pub open spec fn icon(count: usize, mark: Seq<char>) -> Seq<char> {
    if count > 0 {
        mark
    } else {
        ""@
    }
}

/// The change set: `unknown` in red where it failed, an empty green mark where
/// it is clean, else one coloured letter for each of staged, modified,
/// untracked and conflicted paths present.
pub open spec fn status_text(changes: Result<RepoStatus, RepoError>) -> Seq<char> {
    match changes {
        Err(_) => painted(Ink::Red, "unknown"@),
        Ok(c) => if c@.is_zero() {
            painted(Ink::Green, ""@)
        } else {
            painted(Ink::Green, icon(c.staged, "s"@)) + painted(Ink::Yellow, icon(c.modified, "m"@))
                + painted(Ink::Blue, icon(c.untracked, "u"@)) + painted(
                Ink::Red,
                icon(c.conflicted, "c"@),
            )
        },
    }
}

fn icon_str(count: usize, mark: &'static str) -> (r: &'static str)
    ensures
        r@ == icon(count, mark@),
{
    proof {
        reveal_strlit("");
    }
    if count > 0 {
        mark
    } else {
        ""
    }
}

pub fn status_string(changes: Result<RepoStatus, RepoError>) -> (r: String)
    ensures
        r@ == status_text(changes),
{
    match changes {
        Err(_) => paint(Ink::Red, "unknown"),
        Ok(c) => {
            if c.is_clean() {
                paint(Ink::Green, "")
            } else {
                let mut s = paint(Ink::Green, icon_str(c.staged, "s"));
                let m = paint(Ink::Yellow, icon_str(c.modified, "m"));
                let u = paint(Ink::Blue, icon_str(c.untracked, "u"));
                let x = paint(Ink::Red, icon_str(c.conflicted, "c"));
                s.append(m.as_str());
                s.append(u.as_str());
                s.append(x.as_str());
                s
            }
        },
    }
}

/// The stash count after a blue `S`; nothing for an empty stash.
pub open spec fn stash_text(count: usize) -> Seq<char> {
    if count == 0 {
        ""@
    } else {
        " "@ + painted(Ink::Blue, "S"@) + "("@ + decimal(count as nat) + ")"@
    }
}

pub fn stash_count_string(count: usize) -> (r: String)
    ensures
        r@ == stash_text(count),
{
    proof {
        reveal_strlit("");
    }
    if count == 0 {
        String::new()
    } else {
        let mut s = " ".to_string();
        let p = paint(Ink::Blue, "S");
        let digits = decimal_string(count);
        s.append(p.as_str());
        s.append("(");
        s.append(digits.as_str());
        s.append(")");
        s
    }
}

/// The whole prompt segment for a summary.
pub open spec fn prompt_text(s: RepoSummary) -> Seq<char> {
    "on "@ + branch_text(opt_view(s.branch)) + "("@ + painted(Ink::Blue, status_text(s.changes))
        + ")"@ + state_text(s.state) + ahead_behind_text(s.divergence) + stash_text(s.stash_count)
}

pub fn render(summary: &RepoSummary) -> (r: String)
    ensures
        r@ == prompt_text(*summary),
{
    let branch = match &summary.branch {
        Some(b) => branch_string(Some(b.as_str())),
        None => branch_string(None),
    };
    let status = status_string(summary.changes);
    let painted_status = paint(Ink::Blue, status.as_str());
    let state = state_string(summary.state);
    let divergence = ahead_behind_string(summary.divergence);
    let stash = stash_count_string(summary.stash_count);
    let mut s = "on ".to_string();
    s.append(branch.as_str());
    s.append("(");
    s.append(painted_status.as_str());
    s.append(")");
    s.append(state.as_str());
    s.append(divergence.as_str());
    s.append(stash.as_str());
    s
}

/// What a terminal shows of a text: each control sequence, from the escape
/// character up to and including the `m` that ends it, is left out.
/// `in_seq` says whether the text starts inside such a sequence.
pub open spec fn shown(s: Seq<char>, in_seq: bool) -> Seq<char>
    decreases s.len(),
{
    if s.len() == 0 {
        Seq::empty()
    } else if in_seq {
        shown(s.drop_first(), s[0] != 'm')
    } else if s[0] == esc() {
        shown(s.drop_first(), true)
    } else {
        seq![s[0]] + shown(s.drop_first(), false)
    }
}

/// Whether a text ends inside a control sequence.
pub open spec fn ends_in_seq(s: Seq<char>, in_seq: bool) -> bool
    decreases s.len(),
{
    if s.len() == 0 {
        in_seq
    } else if in_seq {
        ends_in_seq(s.drop_first(), s[0] != 'm')
    } else {
        ends_in_seq(s.drop_first(), s[0] == esc())
    }
}

pub open spec fn no_esc(s: Seq<char>) -> bool {
    forall|i: int| 0 <= i < s.len() ==> s[i] != esc()
}

proof fn lemma_shown_append(a: Seq<char>, b: Seq<char>, f: bool)
    ensures
        shown(a + b, f) == shown(a, f) + shown(b, ends_in_seq(a, f)),
        ends_in_seq(a + b, f) == ends_in_seq(b, ends_in_seq(a, f)),
    decreases a.len(),
{
    if a.len() == 0 {
        assert(a + b == b);
    } else {
        assert((a + b).drop_first() == a.drop_first() + b);
        assert((a + b)[0] == a[0]);
        let g = if f {
            a[0] != 'm'
        } else {
            a[0] == esc()
        };
        lemma_shown_append(a.drop_first(), b, g);
        if !f && a[0] != esc() {
            assert(seq![a[0]] + shown(a.drop_first(), false) + shown(b, ends_in_seq(a, f)) == seq![
                a[0],
            ] + (shown(a.drop_first(), false) + shown(b, ends_in_seq(a, f))));
        }
    }
}

proof fn lemma_shown_plain(t: Seq<char>)
    requires
        no_esc(t),
    ensures
        shown(t, false) == t,
        !ends_in_seq(t, false),
    decreases t.len(),
{
    if t.len() > 0 {
        assert(t[0] != esc());
        assert(no_esc(t.drop_first())) by {
            assert forall|i: int| 0 <= i < t.drop_first().len() implies t.drop_first()[i]
                != esc() by {
                assert(t.drop_first()[i] == t[i + 1]);
            }
        }
        lemma_shown_plain(t.drop_first());
        assert(seq![t[0]] + t.drop_first() == t);
    }
}

proof fn lemma_shown_closing(x: Seq<char>)
    requires
        forall|i: int| 0 <= i < x.len() ==> x[i] != 'm',
    ensures
        shown(x.push('m'), true) == Seq::<char>::empty(),
        !ends_in_seq(x.push('m'), true),
    decreases x.len(),
{
    let e = Seq::<char>::empty();
    assert(shown(e, false) == e);
    assert(!ends_in_seq(e, false));
    if x.len() == 0 {
        assert(x.push('m').len() == 1);
        assert(x.push('m')[0] == 'm');
        assert(x.push('m').drop_first() == e);
    } else {
        assert(x.push('m').drop_first() == x.drop_first().push('m'));
        assert(x.push('m')[0] == x[0]);
        assert(x[0] != 'm');
        assert forall|i: int| 0 <= i < x.drop_first().len() implies x.drop_first()[i] != 'm' by {
            assert(x.drop_first()[i] == x[i + 1]);
        }
        lemma_shown_closing(x.drop_first());
    }
}

proof fn lemma_shown_control(body: Seq<char>)
    requires
        forall|i: int| 0 <= i < body.len() ==> body[i] != 'm',
    ensures
        shown(seq![esc()] + body.push('m'), false) == Seq::<char>::empty(),
        !ends_in_seq(seq![esc()] + body.push('m'), false),
{
    let s = seq![esc()] + body.push('m');
    assert(s[0] == esc());
    assert(s.drop_first() == body.push('m'));
    lemma_shown_closing(body);
}

proof fn lemma_shown_painted(ink: Ink, t: Seq<char>)
    requires
        !ends_in_seq(t, false),
    ensures
        shown(painted(ink, t), false) == shown(t, false),
        !ends_in_seq(painted(ink, t), false),
{
    let body = seq!['['] + ink_code(ink);
    assert(ink_prefix(ink) == seq![esc()] + body.push('m'));
    lemma_shown_control(body);
    let rbody = seq!['[', '0'];
    assert(reset() == seq![esc()] + rbody.push('m'));
    lemma_shown_control(rbody);
    lemma_shown_append(ink_prefix(ink), t, false);
    lemma_shown_append(ink_prefix(ink) + t, reset(), false);
    assert(shown(ink_prefix(ink) + t, false) == shown(t, false));
}

/// With its control sequences left out, the prompt for a branch with staged
/// and untracked paths only, in no operation, with no upstream and an empty
/// stash, reads `on <branch>(su)`.
pub proof fn lemma_prompt_shown(s: RepoSummary, b: String, c: RepoStatus)
    requires
        s.branch == Some(b),
        no_esc(b@),
        s.state == RepoState::Clean,
        s.divergence is Err,
        s.changes == Ok::<RepoStatus, RepoError>(c),
        c.staged > 0,
        c.untracked > 0,
        c.modified == 0,
        c.conflicted == 0,
        s.stash_count == 0,
    ensures
        shown(prompt_text(s), false) == "on "@ + b@ + "(su)"@,
{
    reveal_strlit("on ");
    reveal_strlit("(");
    reveal_strlit(")");
    reveal_strlit("(su)");
    reveal_strlit("s");
    reveal_strlit("u");
    reveal_strlit("");
    let e = Seq::<char>::empty();
    let on = "on "@;
    let open = "("@;
    let close = ")"@;
    lemma_shown_plain(on);
    lemma_shown_plain(b@);
    lemma_shown_plain(open);
    lemma_shown_plain(close);
    lemma_shown_plain("s"@);
    lemma_shown_plain("u"@);
    lemma_shown_plain(e);
    assert(!c@.is_zero());
    let g = painted(Ink::Green, "s"@);
    let y = painted(Ink::Yellow, e);
    let bl = painted(Ink::Blue, "u"@);
    let r = painted(Ink::Red, e);
    lemma_shown_painted(Ink::Green, "s"@);
    lemma_shown_painted(Ink::Yellow, e);
    lemma_shown_painted(Ink::Blue, "u"@);
    lemma_shown_painted(Ink::Red, e);
    let st = status_text(s.changes);
    assert(st == g + y + bl + r);
    lemma_shown_append(g, y, false);
    lemma_shown_append(g + y, bl, false);
    lemma_shown_append(g + y + bl, r, false);
    assert(shown(st, false) == "s"@ + e + "u"@ + e);
    assert("s"@ + e + "u"@ + e == seq!['s', 'u']);
    let ps = painted(Ink::Blue, st);
    lemma_shown_painted(Ink::Blue, st);
    let bt = painted(Ink::BoldCyan, b@);
    lemma_shown_painted(Ink::BoldCyan, b@);
    assert(state_text(s.state) == e);
    assert(ahead_behind_text(s.divergence) == e);
    assert(stash_text(s.stash_count) == e);
    assert(prompt_text(s) == on + bt + open + ps + close + e + e + e);
    lemma_shown_append(on, bt, false);
    lemma_shown_append(on + bt, open, false);
    lemma_shown_append(on + bt + open, ps, false);
    lemma_shown_append(on + bt + open + ps, close, false);
    lemma_shown_append(on + bt + open + ps + close, e, false);
    lemma_shown_append(on + bt + open + ps + close + e, e, false);
    lemma_shown_append(on + bt + open + ps + close + e + e, e, false);
    assert(on + b@ + open + seq!['s', 'u'] + close + e + e + e == "on "@ + b@ + "(su)"@);
}

} // verus!
