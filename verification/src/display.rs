//! How values are shortened and coloured for the screen.
use vstd::prelude::*;
use crate::activity::{eq_chars, str_eq};
use crate::text::{
    chars_of, contains_chars, contains_spec, humanize_iso, humanize_iso_ok, humanize_iso_spec,
    lines_chars, lines_spec, lower_chars, lower_spec, occurs_at_exec, starts_with_spec, string_of, take_chars, take_spec, trim_chars,
    trim_end_matches_chars, trim_end_matches_spec, trim_spec,
};

verus! {

/// The colours the interface draws with.
#[derive(Clone, Copy, Debug, PartialEq, Eq, Structural)]
pub enum Tone {
    Green,
    Red,
    Yellow,
    Magenta,
    Cyan,
    Gray,
    DarkGray,
    Blue,
}

/// A piece of text and its colour; no colour is the terminal's default.
#[derive(Debug)]
pub struct Styled {
    pub text: String,
    pub tone: Option<Tone>,
}

/// `s` cut to at most `n` characters: a longer text keeps its first
/// `n - 1` characters followed by `…`.
pub open spec fn truncate_spec(s: Seq<char>, n: nat) -> Seq<char> {
    if s.len() <= n {
        s
    } else {
        take_spec(s, if n == 0 {
            0
        } else {
            (n - 1) as nat
        }).push('…')
    }
}

/// Cuts a text to at most `n` characters, marking the cut with `…`.
pub fn truncate(s: &str, n: usize) -> (r: String)
    ensures
        r@ == truncate_spec(s@, n as nat),
{
    let v = chars_of(s);
    if v.len() <= n {
        s.to_owned()
    } else {
        let keep = if n == 0 {
            0
        } else {
            n - 1
        };
        let t = take_chars(s, keep);
        let mut w = chars_of(t.as_str());
        w.push('…');
        string_of(&w)
    }
}

/// What `str::to_lowercase` returns for a text: its Unicode lowercase
/// mapping.
pub uninterp spec fn unicode_lowercase(s: Seq<char>) -> Seq<char>;

/// `str::to_lowercase`. Claimed: the result is [`unicode_lowercase`] of
/// the argument, a function of the text alone.
#[verifier::external_body]
fn to_lowercase(s: &str) -> (r: String)
    ensures
        r@ == unicode_lowercase(s@),
{
    s.to_lowercase()
}

/// A GitHub event type shortened for a column: the `Event` suffix
/// removed, the common kinds abbreviated, any other lower-cased.
pub open spec fn short_kind_spec(kind: Seq<char>) -> Seq<char> {
    let t = trim_end_matches_spec(kind, "Event"@);
    if t == "PullRequest"@ {
        "PR"@
    } else if t == "PullRequestReview"@ {
        "PR-review"@
    } else if t == "PullRequestReviewComment"@ {
        "PR-comment"@
    } else if t == "IssueComment"@ {
        "issue-cmt"@
    } else if t == "Issues"@ {
        "issue"@
    } else {
        unicode_lowercase(t)
    }
}

/// Shortens a GitHub event type (see [`short_kind_spec`]).
pub fn short_kind(kind: &str) -> (r: String)
    ensures
        r@ == short_kind_spec(kind@),
{
    let k = chars_of(kind);
    let suffix = chars_of("Event");
    proof {
        reveal_strlit("Event");
    }
    let t = trim_end_matches_chars(&k, &suffix);
    if eq_chars(&t, &chars_of("PullRequest")) {
        "PR".to_string()
    } else if eq_chars(&t, &chars_of("PullRequestReview")) {
        "PR-review".to_string()
    } else if eq_chars(&t, &chars_of("PullRequestReviewComment")) {
        "PR-comment".to_string()
    } else if eq_chars(&t, &chars_of("IssueComment")) {
        "issue-cmt".to_string()
    } else if eq_chars(&t, &chars_of("Issues")) {
        "issue".to_string()
    } else {
        to_lowercase(string_of(&t).as_str())
    }
}

/// Shortens an ISO 8601 timestamp to date and minutes, as
/// [`humanize_iso`] does.
pub fn humanize_short(ts: &str) -> (r: String)
    requires
        humanize_iso_ok(ts@),
    ensures
        r@ == humanize_iso_spec(ts@),
{
    humanize_iso(ts)
}

/// The colour of a `git status` code: untracked magenta, then by the first
/// of added, deleted, modified, renamed that the code holds; gray
/// otherwise.
pub open spec fn status_tone_spec(status: Seq<char>) -> Tone {
    let t = trim_spec(status);
    if t == "??"@ {
        Tone::Magenta
    } else if t.contains('A') {
        Tone::Green
    } else if t.contains('D') {
        Tone::Red
    } else if t.contains('M') {
        Tone::Yellow
    } else if t.contains('R') {
        Tone::Cyan
    } else {
        Tone::Gray
    }
}

fn has_char(s: &Vec<char>, c: char) -> (b: bool)
    ensures
        b == s@.contains(c),
{
    let mut i: usize = 0;
    while i < s.len()
        invariant
            i <= s@.len(),
            forall|j: int| 0 <= j < i ==> s@[j] != c,
        decreases s.len() - i,
    {
        if s[i] == c {
            return true;
        }
        i = i + 1;
    }
    false
}

/// The colour of a `git status` code (see [`status_tone_spec`]).
pub fn status_color(s: &str) -> (r: Tone)
    ensures
        r == status_tone_spec(s@),
{
    let v = chars_of(s);
    let t = trim_chars(&v);
    if eq_chars(&t, &chars_of("??")) {
        Tone::Magenta
    } else if has_char(&t, 'A') {
        Tone::Green
    } else if has_char(&t, 'D') {
        Tone::Red
    } else if has_char(&t, 'M') {
        Tone::Yellow
    } else if has_char(&t, 'R') {
        Tone::Cyan
    } else {
        Tone::Gray
    }
}

/// The label and colour of a pull request's state: drafts first, then
/// open, merged and closed in any letter case; anything else is `?`.
pub open spec fn pr_state_spec(state: Seq<char>, is_draft: bool) -> (Seq<char>, Tone) {
    let l = lower_spec(state);
    if is_draft {
        ("draft"@, Tone::DarkGray)
    } else if l == "open"@ {
        ("open"@, Tone::Green)
    } else if l == "merged"@ {
        ("merged"@, Tone::Magenta)
    } else if l == "closed"@ {
        ("closed"@, Tone::Red)
    } else {
        ("?"@, Tone::Gray)
    }
}

/// The label and colour of a pull request's state (see [`pr_state_spec`]).
pub fn pr_state_style(state: &str, is_draft: bool) -> (r: (&'static str, Tone))
    ensures
        (r.0@, r.1) == pr_state_spec(state@, is_draft),
{
    if is_draft {
        return ("draft", Tone::DarkGray);
    }
    let l = lower_chars(&chars_of(state));
    if eq_chars(&l, &chars_of("open")) {
        ("open", Tone::Green)
    } else if eq_chars(&l, &chars_of("merged")) {
        ("merged", Tone::Magenta)
    } else if eq_chars(&l, &chars_of("closed")) {
        ("closed", Tone::Red)
    } else {
        ("?", Tone::Gray)
    }
}

/// The view of a styled piece.
pub open spec fn styled_view(s: Styled) -> (Seq<char>, Option<Tone>) {
    (s.text@, s.tone)
}

/// The pieces of the part of a stat line after its bar: `+` green, `-`
/// red, every other character plain.
pub open spec fn bar_pieces(right: Seq<char>) -> Seq<(Seq<char>, Option<Tone>)>
    decreases right.len(),
{
    if right.len() == 0 {
        Seq::empty()
    } else {
        let c = right.last();
        bar_pieces(right.drop_last()).push(
            (
                seq![c],
                if c == '+' {
                    Some(Tone::Green)
                } else if c == '-' {
                    Some(Tone::Red)
                } else {
                    None
                },
            ),
        )
    }
}

/// `i` is the first position of `c` in `s`.
pub open spec fn is_first(s: Seq<char>, c: char, i: int) -> bool {
    &&& 0 <= i < s.len()
    &&& s[i] == c
    &&& forall|j: int| 0 <= j < i ==> s[j] != c
}

/// The first position of `c` in `s` (meaningful when `s` holds `c`).
pub open spec fn first_pos(s: Seq<char>, c: char) -> int {
    choose|i: int| is_first(s, c, i)
}

/// A line of `git show --stat`: a line without a bar (the summary) is
/// dark gray as a whole; a file line is its name plain, the bar dark gray,
/// and the rest piece by piece (see [`bar_pieces`]).
pub open spec fn stat_line_pieces(s: Seq<char>) -> Seq<(Seq<char>, Option<Tone>)> {
    if !s.contains('|') {
        seq![(s, Some(Tone::DarkGray))]
    } else {
        let i = first_pos(s, '|');
        seq![(s.take(i), None), (seq!['|'], Some(Tone::DarkGray))] + bar_pieces(s.skip(i + 1))
    }
}

/// Colours a line of `git show --stat` (see [`stat_line_pieces`]).
pub fn colorize_stat_line(s: &str) -> (r: Vec<Styled>)
    ensures
        r@.map_values(|p: Styled| styled_view(p)) == stat_line_pieces(s@),
{
    let v = chars_of(s);
    let mut bar: usize = 0;
    while bar < v.len() && v[bar] != '|'
        invariant
            bar <= v@.len(),
            forall|j: int| 0 <= j < bar ==> v@[j] != '|',
        decreases v.len() - bar,
    {
        bar = bar + 1;
    }
    let mut r: Vec<Styled> = Vec::new();
    if bar == v.len() {
        assert(!s@.contains('|'));
        r.push(Styled { text: s.to_owned(), tone: Some(Tone::DarkGray) });
        assert(r@.map_values(|p: Styled| styled_view(p)) =~= stat_line_pieces(s@));
        return r;
    }
    assert(s@.contains('|'));
    assert(first_pos(s@, '|') == bar as int) by {
        assert(is_first(s@, '|', bar as int));
        let k = first_pos(s@, '|');
        assert(is_first(s@, '|', k));
        if k < bar {
            assert(s@[k] != '|');
        } else if k > bar {
            assert(s@[bar as int] != '|');
        }
    }
    let left = crate::text::slice_chars(&v, 0, bar);
    r.push(Styled { text: string_of(&left), tone: None });
    r.push(Styled { text: "|".to_string(), tone: Some(Tone::DarkGray) });
    proof {
        reveal_strlit("|");
        assert(left@ =~= s@.take(bar as int));
        assert(r@.len() == 2);
        assert(r@[0].text@ == s@.take(bar as int));
        assert(r@[1].text@ =~= seq!['|']);
        assert(r@.take(2).map_values(|p: Styled| styled_view(p)) =~= seq![
            (s@.take(bar as int), None::<Tone>),
            (seq!['|'], Some(Tone::DarkGray)),
        ]);
    }
    let ghost right = s@.skip(bar + 1);
    let mut i: usize = bar + 1;
    assert(right.take(0) =~= Seq::<char>::empty());
    while i < v.len()
        invariant
            bar < i <= v@.len(),
            v@ == s@,
            right == s@.skip(bar + 1),
            r@.len() == 2 + (i - bar - 1),
            r@.take(2).map_values(|p: Styled| styled_view(p)) == seq![
                (s@.take(bar as int), None::<Tone>),
                (seq!['|'], Some(Tone::DarkGray)),
            ],
            r@.skip(2).map_values(|p: Styled| styled_view(p)) == bar_pieces(
                right.take(i - bar - 1),
            ),
        decreases v.len() - i,
    {
        let c = v[i];
        let tone = if c == '+' {
            Some(Tone::Green)
        } else if c == '-' {
            Some(Tone::Red)
        } else {
            None
        };
        let mut one: Vec<char> = Vec::new();
        one.push(c);
        let ghost before = r@;
        r.push(Styled { text: string_of(&one), tone });
        proof {
            let k = i - bar - 1;
            assert(right.take(k + 1).drop_last() =~= right.take(k));
            assert(right.take(k + 1).last() == c);
            assert(r@.take(2) =~= before.take(2));
            assert(r@.skip(2) =~= before.skip(2).push(r@[r@.len() - 1]));
            assert(r@.skip(2).map_values(|p: Styled| styled_view(p)) =~= before.skip(2).map_values(
                |p: Styled| styled_view(p),
            ).push(styled_view(r@[r@.len() - 1])));
        }
        i = i + 1;
    }
    proof {
        assert(right.take(i - bar - 1) =~= right);
        assert(r@ =~= r@.take(2) + r@.skip(2));
        assert(r@.map_values(|p: Styled| styled_view(p)) =~= r@.take(2).map_values(
            |p: Styled| styled_view(p),
        ) + r@.skip(2).map_values(|p: Styled| styled_view(p)));
    }
    r
}

/// The colour of a notification's reason: review requests yellow,
/// mentions magenta, assignments cyan, CI activity red, the rest dark gray.
pub open spec fn reason_tone_spec(reason: Seq<char>) -> Tone {
    if reason == "review_requested"@ {
        Tone::Yellow
    } else if reason == "mention"@ || reason == "team_mention"@ {
        Tone::Magenta
    } else if reason == "assign"@ {
        Tone::Cyan
    } else if reason == "ci_activity"@ {
        Tone::Red
    } else {
        Tone::DarkGray
    }
}

/// The colour of a notification's reason (see [`reason_tone_spec`]).
pub fn reason_tone(reason: &str) -> (r: Tone)
    ensures
        r == reason_tone_spec(reason@),
{
    if str_eq(reason, "review_requested") {
        Tone::Yellow
    } else if str_eq(reason, "mention") || str_eq(reason, "team_mention") {
        Tone::Magenta
    } else if str_eq(reason, "assign") {
        Tone::Cyan
    } else if str_eq(reason, "ci_activity") {
        Tone::Red
    } else {
        Tone::DarkGray
    }
}

/// The height of a commit's header: three lines, then a blank line and the
/// body's lines when the body is not blank; between 4 and 12.
pub open spec fn commit_header_height_spec(body: Seq<char>) -> int {
    let n: int = if trim_spec(body).len() == 0 {
        3
    } else {
        3 + lines_spec(body).len() as int + 1
    };
    if n < 4 {
        4
    } else if n > 12 {
        12
    } else {
        n
    }
}

/// The height of a commit's header (see [`commit_header_height_spec`]).
pub fn commit_header_height(body: &str) -> (r: u16)
    ensures
        r == commit_header_height_spec(body@),
{
    let v = chars_of(body);
    let t = trim_chars(&v);
    if t.len() == 0 {
        return 4;
    }
    let n = lines_chars(&v).len();
    if n >= 9 {
        12
    } else {
        let h: u16 = 3 + n as u16 + 1;
        if h < 4 {
            4
        } else {
            h
        }
    }
}

/// The colour of a line of a unified diff: hunk headers cyan, added lines
/// green, removed lines red, the rest plain.
pub open spec fn diff_line_tone_spec(line: Seq<char>) -> Option<Tone> {
    if starts_with_spec(line, "@@"@) {
        Some(Tone::Cyan)
    } else if starts_with_spec(line, "+"@) {
        Some(Tone::Green)
    } else if starts_with_spec(line, "-"@) {
        Some(Tone::Red)
    } else {
        None
    }
}

/// The colour of a line of a unified diff (see [`diff_line_tone_spec`]).
pub fn diff_line_tone(line: &str) -> (r: Option<Tone>)
    ensures
        r == diff_line_tone_spec(line@),
{
    let v = chars_of(line);
    if occurs_at_exec(&v, &chars_of("@@"), 0) {
        Some(Tone::Cyan)
    } else if occurs_at_exec(&v, &chars_of("+"), 0) {
        Some(Tone::Green)
    } else if occurs_at_exec(&v, &chars_of("-"), 0) {
        Some(Tone::Red)
    } else {
        None
    }
}

} // verus!
