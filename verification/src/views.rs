//! What the panels of the interface show: their titles, and their lines as
//! pieces of coloured text.
use vstd::prelude::*;
use crate::display::{
    pr_state_spec, pr_state_style, reason_tone, reason_tone_spec, short_kind, short_kind_spec,
    truncate, truncate_spec, Tone,
};
use crate::panel::{filter_members, filter_repos, filtered_members, filtered_repos, FilterList, Panel};
use crate::state::{App, OrgState};
use crate::text::{can_humanize, humanize_iso, humanize_iso_ok, humanize_iso_spec};
use crate::text::{append_chars, append_str, chars_of, decimal, decimal_chars, string_of, trim_end_chars, trim_end_spec};
use crate::types::{
    ActivityEvent, Notification, OrgMember, RepoInfo, ReviewRequestedPr, UserActivity, UserCommit,
    UserPr,
};

verus! {

/// A piece of a line: its text, its colour (none is the terminal's
/// default) and whether it is bold.
#[derive(Debug)]
pub struct Piece {
    pub text: String,
    pub tone: Option<Tone>,
    pub bold: bool,
}

/// The view of a piece.
pub open spec fn piece_view(p: Piece) -> (Seq<char>, Option<Tone>, bool) {
    (p.text@, p.tone, p.bold)
}

/// The view of a line.
pub open spec fn row_view(r: Seq<Piece>) -> Seq<(Seq<char>, Option<Tone>, bool)> {
    r.map_values(|p: Piece| piece_view(p))
}

/// The views of lines.
pub open spec fn rows_view(rs: Seq<Vec<Piece>>) -> Seq<Seq<(Seq<char>, Option<Tone>, bool)>> {
    rs.map_values(|r: Vec<Piece>| row_view(r@))
}

/// What a panel holds: a message, or lines of which one may be selected.
#[derive(Debug)]
pub enum Body {
    Note { text: String, tone: Option<Tone>, wrap: bool },
    Rows { rows: Vec<Vec<Piece>>, selected: Option<usize>, highlight: bool },
    /// Lines scrolled down by `scroll`.
    Text { lines: Vec<Vec<Piece>>, scroll: u16, wrap: bool },
}

/// The view of a [`Body`].
pub enum BodyView {
    Note { text: Seq<char>, tone: Option<Tone>, wrap: bool },
    Rows { rows: Seq<Seq<(Seq<char>, Option<Tone>, bool)>>, selected: Option<usize>, highlight: bool },
    Text { lines: Seq<Seq<(Seq<char>, Option<Tone>, bool)>>, scroll: u16, wrap: bool },
}

impl View for Body {
    type V = BodyView;

    open spec fn view(&self) -> BodyView {
        match self {
            Body::Note { text, tone, wrap } => BodyView::Note { text: text@, tone: *tone, wrap: *wrap },
            Body::Rows { rows, selected, highlight } => BodyView::Rows {
                rows: rows_view(rows@),
                selected: *selected,
                highlight: *highlight,
            },
            Body::Text { lines, scroll, wrap } => BodyView::Text {
                lines: rows_view(lines@),
                scroll: *scroll,
                wrap: *wrap,
            },
        }
    }
}

/// A framed panel: its title, whether its frame is lit, and its body.
#[derive(Debug)]
pub struct PanelView {
    pub title: String,
    pub lit: bool,
    pub body: Body,
}

/// The view of a [`PanelView`].
pub struct PanelSpec {
    pub title: Seq<char>,
    pub lit: bool,
    pub body: BodyView,
}

impl View for PanelView {
    type V = PanelSpec;

    open spec fn view(&self) -> PanelSpec {
        PanelSpec { title: self.title@, lit: self.lit, body: self.body@ }
    }
}

/// `n` spaces.
pub open spec fn spaces(n: nat) -> Seq<char> {
    Seq::new(n, |i: int| ' ')
}

/// A text padded with spaces to at least `w` characters (`{:<w}`).
pub open spec fn pad(s: Seq<char>, w: nat) -> Seq<char> {
    if s.len() >= w {
        s
    } else {
        s + spaces((w - s.len()) as nat)
    }
}

pub(crate) fn pad_in_place(v: &mut Vec<char>, w: usize)
    ensures
        final(v)@ == pad(old(v)@, w as nat),
{
    let ghost start = v@;
    if v.len() < w {
        let missing = w - v.len();
        let mut k: usize = 0;
        while k < missing
            invariant
                start.len() + missing == w,
                k <= missing,
                v@ == start + spaces(k as nat),
            decreases missing - k,
        {
            v.push(' ');
            k = k + 1;
            assert(v@ =~= start + spaces(k as nat));
        }
    }
}

pub(crate) fn piece(text: Vec<char>, tone: Option<Tone>) -> (p: Piece)
    ensures
        piece_view(p) == (text@, tone, false),
{
    Piece { text: string_of(&text), tone, bold: false }
}

pub(crate) fn plain(text: &str, tone: Option<Tone>) -> (p: Piece)
    ensures
        piece_view(p) == (text@, tone, false),
{
    Piece { text: text.to_string(), tone, bold: false }
}

/// `#` and the number padded to five places.
pub open spec fn number_cell(n: u64) -> Seq<char> {
    "#"@ + pad(decimal(n as nat), 5)
}

pub(crate) fn number_piece(n: u64) -> (p: Piece)
    ensures
        piece_view(p) == (number_cell(n), Some(Tone::Green), false),
{
    let mut d = decimal_chars(n);
    pad_in_place(&mut d, 5);
    let mut v = chars_of("#");
    append_chars(&mut v, &d);
    piece(v, Some(Tone::Green))
}

/// A text cut to `w` characters and padded to `w`.
pub open spec fn column(s: Seq<char>, w: nat) -> Seq<char> {
    pad(truncate_spec(s, w), w)
}

pub(crate) fn column_chars(s: &str, w: usize) -> (v: Vec<char>)
    ensures
        v@ == column(s@, w as nat),
{
    let t = truncate(s, w);
    let mut v = chars_of(t.as_str());
    pad_in_place(&mut v, w);
    v
}

/// `"  ("`, the text, `")"`.
pub open spec fn in_parens(s: Seq<char>) -> Seq<char> {
    "  ("@ + s + ")"@
}

pub(crate) fn in_parens_piece(s: &str) -> (p: Piece)
    ensures
        piece_view(p) == (in_parens(s@), Some(Tone::DarkGray), false),
{
    let mut v = chars_of("  (");
    append_str(&mut v, s);
    append_str(&mut v, ")");
    piece(v, Some(Tone::DarkGray))
}

/// A line of the review panel: number, repository, title, a draft mark,
/// author and update time.
pub open spec fn review_row(p: ReviewRequestedPr) -> Seq<(Seq<char>, Option<Tone>, bool)> {
    seq![
        (number_cell(p.number), Some(Tone::Green), false),
        (column(p.repo@, 24) + " "@, Some(Tone::Green), false),
        (p.title@, None, false),
        if p.is_draft {
            (" [draft]"@, Some(Tone::DarkGray), false)
        } else {
            (""@, None, false)
        },
        ("  @"@ + p.author@ + " ("@ + p.updated_at@ + ")"@, Some(Tone::DarkGray), false),
    ]
}

fn review_row_exec(p: &ReviewRequestedPr) -> (r: Vec<Piece>)
    ensures
        row_view(r@) == review_row(*p),
{
    let mut repo = column_chars(p.repo.as_str(), 24);
    append_str(&mut repo, " ");
    let mut who = chars_of("  @");
    append_str(&mut who, p.author.as_str());
    append_str(&mut who, " (");
    append_str(&mut who, p.updated_at.as_str());
    append_str(&mut who, ")");
    let mut r: Vec<Piece> = Vec::new();
    r.push(number_piece(p.number));
    r.push(piece(repo, Some(Tone::Green)));
    r.push(Piece { text: p.title.clone(), tone: None, bold: false });
    if p.is_draft {
        r.push(plain(" [draft]", Some(Tone::DarkGray)));
    } else {
        r.push(plain("", None));
    }
    r.push(piece(who, Some(Tone::DarkGray)));
    assert(row_view(r@) =~= review_row(*p));
    r
}

/// A line of the user's pull requests: number, state label, repository,
/// title and update time.
pub open spec fn my_pr_row(p: UserPr) -> Seq<(Seq<char>, Option<Tone>, bool)> {
    let (label, tone) = pr_state_spec(p.state@, p.is_draft);
    seq![
        (number_cell(p.number), Some(Tone::Green), false),
        (pad(label, 7), Some(tone), false),
        (column(p.repo@, 24), Some(Tone::Green), false),
        (" "@, None, false),
        (p.title@, None, false),
        (in_parens(p.updated_at@), Some(Tone::DarkGray), false),
    ]
}

fn my_pr_row_exec(p: &UserPr) -> (r: Vec<Piece>)
    ensures
        row_view(r@) == my_pr_row(*p),
{
    let (label, tone) = pr_state_style(p.state.as_str(), p.is_draft);
    let mut l = chars_of(label);
    pad_in_place(&mut l, 7);
    let mut r: Vec<Piece> = Vec::new();
    r.push(number_piece(p.number));
    r.push(piece(l, Some(tone)));
    r.push(piece(column_chars(p.repo.as_str(), 24), Some(Tone::Green)));
    r.push(plain(" ", None));
    r.push(Piece { text: p.title.clone(), tone: None, bold: false });
    r.push(in_parens_piece(p.updated_at.as_str()));
    assert(row_view(r@) =~= my_pr_row(*p));
    r
}

/// A line of the notifications: an unread mark, the reason, repository,
/// title and update time.
pub open spec fn notification_row(n: Notification) -> Seq<(Seq<char>, Option<Tone>, bool)> {
    seq![
        if n.unread {
            ("● "@, Some(Tone::Yellow), false)
        } else {
            ("  "@, None, false)
        },
        (column(n.reason@, 18), Some(reason_tone_spec(n.reason@)), false),
        (column(n.repo@, 22) + " "@, Some(Tone::Green), false),
        (n.title@, None, false),
        (in_parens(n.updated_at@), Some(Tone::DarkGray), false),
    ]
}

fn notification_row_exec(n: &Notification) -> (r: Vec<Piece>)
    ensures
        row_view(r@) == notification_row(*n),
{
    let mut repo = column_chars(n.repo.as_str(), 22);
    append_str(&mut repo, " ");
    let mut r: Vec<Piece> = Vec::new();
    if n.unread {
        r.push(plain("● ", Some(Tone::Yellow)));
    } else {
        r.push(plain("  ", None));
    }
    r.push(piece(column_chars(n.reason.as_str(), 18), Some(reason_tone(n.reason.as_str()))));
    r.push(piece(repo, Some(Tone::Green)));
    r.push(Piece { text: n.title.clone(), tone: None, bold: false });
    r.push(in_parens_piece(n.updated_at.as_str()));
    assert(row_view(r@) =~= notification_row(*n));
    r
}

/// A line of the user's commits: sha, repository, subject and date.
pub open spec fn my_commit_row(c: UserCommit) -> Seq<(Seq<char>, Option<Tone>, bool)> {
    seq![
        (c.sha@ + " "@, Some(Tone::Yellow), false),
        (column(c.repo@, 24), Some(Tone::Green), false),
        (" "@, None, false),
        (c.subject@, None, false),
        (in_parens(c.date@), Some(Tone::DarkGray), false),
    ]
}

fn my_commit_row_exec(c: &UserCommit) -> (r: Vec<Piece>)
    ensures
        row_view(r@) == my_commit_row(*c),
{
    let mut sha = chars_of(c.sha.as_str());
    append_str(&mut sha, " ");
    let mut r: Vec<Piece> = Vec::new();
    r.push(piece(sha, Some(Tone::Yellow)));
    r.push(piece(column_chars(c.repo.as_str(), 24), Some(Tone::Green)));
    r.push(plain(" ", None));
    r.push(Piece { text: c.subject.clone(), tone: None, bold: false });
    r.push(in_parens_piece(c.date.as_str()));
    assert(row_view(r@) =~= my_commit_row(*c));
    r
}

/// What a list panel holds: a note while it loads, its error, a note when
/// it is empty, else its lines (the selection shown when it has the focus).
pub open spec fn list_body<T>(
    p: Panel<T>,
    rows: Seq<Seq<(Seq<char>, Option<Tone>, bool)>>,
    empty: Seq<char>,
) -> BodyView {
    if !p.loaded {
        BodyView::Note { text: "loading…"@, tone: Some(Tone::DarkGray), wrap: false }
    } else if p.err is Some {
        BodyView::Note { text: "error: "@ + p.err->0@, tone: Some(Tone::Red), wrap: true }
    } else if p.items@.len() == 0 {
        BodyView::Note { text: empty, tone: Some(Tone::DarkGray), wrap: false }
    } else {
        BodyView::Rows { rows, selected: p.selected, highlight: p.focused }
    }
}

fn list_body_exec<T>(p: &Panel<T>, rows: Vec<Vec<Piece>>, empty: &str) -> (b: Body)
    ensures
        b@ == list_body(*p, rows_view(rows@), empty@),
{
    if !p.loaded {
        Body::Note { text: "loading…".to_string(), tone: Some(Tone::DarkGray), wrap: false }
    } else if p.err.is_some() {
        let mut t = chars_of("error: ");
        match &p.err {
            Some(e) => append_str(&mut t, e.as_str()),
            None => {},
        }
        Body::Note { text: string_of(&t), tone: Some(Tone::Red), wrap: true }
    } else if p.items.len() == 0 {
        Body::Note { text: empty.to_string(), tone: Some(Tone::DarkGray), wrap: false }
    } else {
        Body::Rows { rows, selected: p.selected, highlight: p.focused }
    }
}

/// The title of a dashboard panel: its keys while focused, its name when
/// empty, its name and how to focus it otherwise.
pub open spec fn panel_title<T>(p: Panel<T>, focused: Seq<char>, empty: Seq<char>, unfocused: Seq<char>) -> Seq<char> {
    if p.focused {
        focused
    } else if p.items@.len() == 0 {
        empty
    } else {
        unfocused
    }
}

/// The heading of the review panel, with the organisation it looks in.
pub open spec fn review_heading(org: Option<String>) -> Seq<char> {
    match org {
        Some(o) => " awaiting your review — "@ + o@ + " "@,
        None => " awaiting your review "@,
    }
}

/// The review panel; without an organisation it says why.
pub open spec fn review_panel_spec(a: App) -> PanelSpec {
    let p = a.dashboard.review;
    let heading = review_heading(a.dashboard_org);
    PanelSpec {
        title: panel_title(
            p,
            " awaiting your review — ↑↓ Enter, o open, Esc unfocus "@,
            heading,
            trim_end_spec(heading) + "(press v to focus)"@,
        ),
        lit: p.focused,
        body: match a.dashboard_org_err {
            Some(e) => BodyView::Note {
                text: "(no org to scope to: "@ + e@ + ")"@,
                tone: Some(Tone::DarkGray),
                wrap: true,
            },
            None => list_body(
                p,
                p.items@.map_values(|x: ReviewRequestedPr| review_row(x)),
                "no PRs need your review"@,
            ),
        },
    }
}

/// The user's pull requests panel.
pub open spec fn my_prs_panel_spec(a: App) -> PanelSpec {
    let p = a.dashboard.my_prs;
    PanelSpec {
        title: panel_title(
            p,
            " your open PRs — ↑↓ Enter, o open, Esc unfocus "@,
            " your open PRs "@,
            " your open PRs (press p to focus) "@,
        ),
        lit: p.focused,
        body: list_body(p, p.items@.map_values(|x: UserPr| my_pr_row(x)), "no open PRs of yours"@),
    }
}

/// The notifications panel.
pub open spec fn notifications_panel_spec(a: App) -> PanelSpec {
    let p = a.dashboard.notifications;
    PanelSpec {
        title: panel_title(
            p,
            " notifications — ↑↓ Enter, o open, Esc unfocus "@,
            " notifications "@,
            " notifications (press n to focus) "@,
        ),
        lit: p.focused,
        body: list_body(p, p.items@.map_values(|x: Notification| notification_row(x)), "inbox zero"@),
    }
}

/// The user's commits panel.
pub open spec fn my_commits_panel_spec(a: App) -> PanelSpec {
    let p = a.dashboard.my_commits;
    PanelSpec {
        title: panel_title(
            p,
            " your recent commits — ↑↓ Enter, o open, Esc unfocus "@,
            " your recent commits "@,
            " your recent commits (press c to focus) "@,
        ),
        lit: p.focused,
        body: list_body(p, p.items@.map_values(|x: UserCommit| my_commit_row(x)), "no recent commits"@),
    }
}

fn title_exec<T>(p: &Panel<T>, focused: &str, empty: String, unfocused: String) -> (t: String)
    ensures
        t@ == panel_title(*p, focused@, empty@, unfocused@),
{
    if p.focused {
        focused.to_string()
    } else if p.items.len() == 0 {
        empty
    } else {
        unfocused
    }
}

/// The review panel (see [`review_panel_spec`]).
pub fn review_panel(a: &App) -> (v: PanelView)
    ensures
        v@ == review_panel_spec(*a),
{
    let p = &a.dashboard.review;
    let heading = match &a.dashboard_org {
        Some(o) => {
            let mut h = chars_of(" awaiting your review — ");
            append_str(&mut h, o.as_str());
            append_str(&mut h, " ");
            h
        },
        None => chars_of(" awaiting your review "),
    };
    let mut unfocused = trim_end_chars(&heading);
    append_str(&mut unfocused, "(press v to focus)");
    let title = title_exec(
        p,
        " awaiting your review — ↑↓ Enter, o open, Esc unfocus ",
        string_of(&heading),
        string_of(&unfocused),
    );
    let body = match &a.dashboard_org_err {
        Some(e) => {
            let mut t = chars_of("(no org to scope to: ");
            append_str(&mut t, e.as_str());
            append_str(&mut t, ")");
            Body::Note { text: string_of(&t), tone: Some(Tone::DarkGray), wrap: true }
        },
        None => {
            let mut rows: Vec<Vec<Piece>> = Vec::new();
            let mut i: usize = 0;
            while i < p.items.len()
                invariant
                    i <= p.items@.len(),
                    rows_view(rows@) == p.items@.take(i as int).map_values(
                        |x: ReviewRequestedPr| review_row(x),
                    ),
                decreases p.items.len() - i,
            {
                let ghost before = rows@;
                rows.push(review_row_exec(&p.items[i]));
                proof {
                    let f = |x: ReviewRequestedPr| review_row(x);
                    assert(p.items@.take(i + 1 as int) =~= p.items@.take(i as int).push(p.items@[i as int]));
                    assert(rows_view(rows@) =~= rows_view(before).push(row_view(rows@[i as int]@)));
                    assert(p.items@.take(i + 1 as int).map_values(f) =~= p.items@.take(i as int).map_values(f).push(f(p.items@[i as int])));
                }
                i = i + 1;
            }
            assert(p.items@.take(p.items.len() as int) =~= p.items@);
            list_body_exec(p, rows, "no PRs need your review")
        },
    };
    PanelView { title, lit: p.focused, body }
}

/// The user's pull requests panel (see [`my_prs_panel_spec`]).
pub fn my_prs_panel(a: &App) -> (v: PanelView)
    ensures
        v@ == my_prs_panel_spec(*a),
{
    let p = &a.dashboard.my_prs;
    let title = title_exec(
        p,
        " your open PRs — ↑↓ Enter, o open, Esc unfocus ",
        " your open PRs ".to_string(),
        " your open PRs (press p to focus) ".to_string(),
    );
    let mut rows: Vec<Vec<Piece>> = Vec::new();
    let mut i: usize = 0;
    while i < p.items.len()
        invariant
            i <= p.items@.len(),
            rows_view(rows@) == p.items@.take(i as int).map_values(|x: UserPr| my_pr_row(x)),
        decreases p.items.len() - i,
    {
        let ghost before = rows@;
        rows.push(my_pr_row_exec(&p.items[i]));
        proof {
            let f = |x: UserPr| my_pr_row(x);
            assert(p.items@.take(i + 1 as int) =~= p.items@.take(i as int).push(p.items@[i as int]));
            assert(rows_view(rows@) =~= rows_view(before).push(row_view(rows@[i as int]@)));
            assert(p.items@.take(i + 1 as int).map_values(f) =~= p.items@.take(i as int).map_values(f).push(f(p.items@[i as int])));
        }
        i = i + 1;
    }
    assert(p.items@.take(p.items.len() as int) =~= p.items@);
    let body = list_body_exec(p, rows, "no open PRs of yours");
    PanelView { title, lit: p.focused, body }
}

/// The notifications panel (see [`notifications_panel_spec`]).
pub fn notifications_panel(a: &App) -> (v: PanelView)
    ensures
        v@ == notifications_panel_spec(*a),
{
    let p = &a.dashboard.notifications;
    let title = title_exec(
        p,
        " notifications — ↑↓ Enter, o open, Esc unfocus ",
        " notifications ".to_string(),
        " notifications (press n to focus) ".to_string(),
    );
    let mut rows: Vec<Vec<Piece>> = Vec::new();
    let mut i: usize = 0;
    while i < p.items.len()
        invariant
            i <= p.items@.len(),
            rows_view(rows@) == p.items@.take(i as int).map_values(|x: Notification| notification_row(x)),
        decreases p.items.len() - i,
    {
        let ghost before = rows@;
        rows.push(notification_row_exec(&p.items[i]));
        proof {
            let f = |x: Notification| notification_row(x);
            assert(p.items@.take(i + 1 as int) =~= p.items@.take(i as int).push(p.items@[i as int]));
            assert(rows_view(rows@) =~= rows_view(before).push(row_view(rows@[i as int]@)));
            assert(p.items@.take(i + 1 as int).map_values(f) =~= p.items@.take(i as int).map_values(f).push(f(p.items@[i as int])));
        }
        i = i + 1;
    }
    assert(p.items@.take(p.items.len() as int) =~= p.items@);
    let body = list_body_exec(p, rows, "inbox zero");
    PanelView { title, lit: p.focused, body }
}

/// The user's commits panel (see [`my_commits_panel_spec`]).
pub fn my_commits_panel(a: &App) -> (v: PanelView)
    ensures
        v@ == my_commits_panel_spec(*a),
{
    let p = &a.dashboard.my_commits;
    let title = title_exec(
        p,
        " your recent commits — ↑↓ Enter, o open, Esc unfocus ",
        " your recent commits ".to_string(),
        " your recent commits (press c to focus) ".to_string(),
    );
    let mut rows: Vec<Vec<Piece>> = Vec::new();
    let mut i: usize = 0;
    while i < p.items.len()
        invariant
            i <= p.items@.len(),
            rows_view(rows@) == p.items@.take(i as int).map_values(|x: UserCommit| my_commit_row(x)),
        decreases p.items.len() - i,
    {
        let ghost before = rows@;
        rows.push(my_commit_row_exec(&p.items[i]));
        proof {
            let f = |x: UserCommit| my_commit_row(x);
            assert(p.items@.take(i + 1 as int) =~= p.items@.take(i as int).push(p.items@[i as int]));
            assert(rows_view(rows@) =~= rows_view(before).push(row_view(rows@[i as int]@)));
            assert(p.items@.take(i + 1 as int).map_values(f) =~= p.items@.take(i as int).map_values(f).push(f(p.items@[i as int])));
        }
        i = i + 1;
    }
    assert(p.items@.take(p.items.len() as int) =~= p.items@);
    let body = list_body_exec(p, rows, "no recent commits");
    PanelView { title, lit: p.focused, body }
}

/// A note of the Org tab when no organisation could be detected.
pub open spec fn detect_note(e: String) -> BodyView {
    BodyView::Note { text: "could not detect org: "@ + e@, tone: Some(Tone::Red), wrap: true }
}

fn detect_note_exec(e: &String) -> (b: Body)
    ensures
        b@ == detect_note(*e),
{
    let mut t = chars_of("could not detect org: ");
    append_str(&mut t, e.as_str());
    Body::Note { text: string_of(&t), tone: Some(Tone::Red), wrap: true }
}

/// An Org tab title: the noun and, when known, the organisation.
pub open spec fn org_title(noun: Seq<char>, name: Option<String>) -> Seq<char> {
    match name {
        Some(n) => " "@ + noun + " — "@ + n@ + " "@,
        None => " "@ + noun + " "@,
    }
}

fn org_title_exec(noun: &str, name: &Option<String>) -> (t: String)
    ensures
        t@ == org_title(noun@, *name),
{
    let mut v = chars_of(" ");
    append_str(&mut v, noun);
    match name {
        Some(n) => {
            append_str(&mut v, " — ");
            append_str(&mut v, n.as_str());
            append_str(&mut v, " ");
        },
        None => {
            append_str(&mut v, " ");
        },
    }
    string_of(&v)
}

/// The heading line of a member in the activity feed.
pub open spec fn activity_header(u: UserActivity) -> Seq<(Seq<char>, Option<Tone>, bool)> {
    seq![
        ("@"@ + u.login@, Some(Tone::Cyan), true),
        ("  ("@ + decimal(u.events@.len()) + " events)"@, Some(Tone::DarkGray), false),
    ]
}

/// A line of an event in the activity feed.
pub open spec fn event_row(e: ActivityEvent) -> Seq<(Seq<char>, Option<Tone>, bool)> {
    seq![
        ("  "@, None, false),
        (pad(short_kind_spec(e.kind@), 10), Some(Tone::Magenta), false),
        (" "@, None, false),
        (column(e.repo@, 28), Some(Tone::Green), false),
        (" "@, None, false),
        (e.detail@, None, false),
        (in_parens(e.when@), Some(Tone::DarkGray), false),
    ]
}

/// The lines of one member in the feed: the heading, one per event, and a
/// blank line.
pub open spec fn user_block(u: UserActivity) -> Seq<Seq<(Seq<char>, Option<Tone>, bool)>> {
    seq![activity_header(u)] + u.events@.map_values(|e: ActivityEvent| event_row(e)) + seq![
        Seq::<(Seq<char>, Option<Tone>, bool)>::empty(),
    ]
}

/// The lines of the activity feed.
pub open spec fn activity_text(acts: Seq<UserActivity>) -> Seq<Seq<(Seq<char>, Option<Tone>, bool)>>
    decreases acts.len(),
{
    if acts.len() == 0 {
        Seq::empty()
    } else {
        activity_text(acts.drop_last()) + user_block(acts.last())
    }
}

/// The activity view of the Org tab.
pub open spec fn activity_view_spec(o: OrgState) -> PanelSpec {
    PanelSpec {
        title: match o.name {
            Some(n) => " activity by user — "@ + n@ + " "@,
            None => " activity by user "@,
        },
        lit: false,
        body: if o.detect_err is Some {
            detect_note(o.detect_err->0)
        } else if !o.activity_loaded {
            BodyView::Note { text: "loading…"@, tone: Some(Tone::DarkGray), wrap: false }
        } else if o.activity_err is Some {
            BodyView::Note { text: "error: "@ + o.activity_err->0@, tone: Some(Tone::Red), wrap: true }
        } else if o.activity@.len() == 0 {
            BodyView::Note { text: "no recent activity"@, tone: Some(Tone::DarkGray), wrap: false }
        } else {
            BodyView::Text { lines: activity_text(o.activity@), scroll: o.scroll, wrap: false }
        },
    }
}

fn event_row_exec(e: &ActivityEvent) -> (r: Vec<Piece>)
    ensures
        row_view(r@) == event_row(*e),
{
    let mut kind = chars_of(short_kind(e.kind.as_str()).as_str());
    pad_in_place(&mut kind, 10);
    let mut r: Vec<Piece> = Vec::new();
    r.push(plain("  ", None));
    r.push(piece(kind, Some(Tone::Magenta)));
    r.push(plain(" ", None));
    r.push(piece(column_chars(e.repo.as_str(), 28), Some(Tone::Green)));
    r.push(plain(" ", None));
    r.push(Piece { text: e.detail.clone(), tone: None, bold: false });
    r.push(in_parens_piece(e.when.as_str()));
    assert(row_view(r@) =~= event_row(*e));
    r
}

fn push_user_block(lines: &mut Vec<Vec<Piece>>, u: &UserActivity)
    ensures
        rows_view(final(lines)@) == rows_view(old(lines)@) + user_block(*u),
{
    let ghost start = rows_view(lines@);
    let mut login = chars_of("@");
    append_str(&mut login, u.login.as_str());
    let mut count = chars_of("  (");
    append_chars(&mut count, &decimal_chars(u.events.len() as u64));
    append_str(&mut count, " events)");
    let mut header: Vec<Piece> = Vec::new();
    header.push(Piece { text: string_of(&login), tone: Some(Tone::Cyan), bold: true });
    header.push(piece(count, Some(Tone::DarkGray)));
    assert(row_view(header@) =~= activity_header(*u));
    let ghost before = lines@;
    lines.push(header);
    assert(rows_view(lines@) =~= start + seq![activity_header(*u)]);
    let mut k: usize = 0;
    while k < u.events.len()
        invariant
            k <= u.events@.len(),
            rows_view(lines@) == start + seq![activity_header(*u)] + u.events@.take(k as int).map_values(
                |e: ActivityEvent| event_row(e),
            ),
        decreases u.events.len() - k,
    {
        let ghost b = lines@;
        lines.push(event_row_exec(&u.events[k]));
        proof {
            let f = |e: ActivityEvent| event_row(e);
            assert(u.events@.take(k + 1 as int) =~= u.events@.take(k as int).push(u.events@[k as int]));
            assert(rows_view(lines@) =~= rows_view(b).push(row_view(lines@[lines@.len() - 1]@)));
            assert(u.events@.take(k + 1 as int).map_values(f) =~= u.events@.take(k as int).map_values(f).push(f(u.events@[k as int])));
        }
        k = k + 1;
    }
    assert(u.events@.take(u.events.len() as int) =~= u.events@);
    let ghost b = lines@;
    let blank: Vec<Piece> = Vec::new();
    assert(row_view(blank@) =~= Seq::<(Seq<char>, Option<Tone>, bool)>::empty());
    lines.push(blank);
    assert(rows_view(lines@) =~= rows_view(b).push(Seq::<(Seq<char>, Option<Tone>, bool)>::empty()));
    assert(rows_view(lines@) =~= start + user_block(*u));
}

/// The activity view of the Org tab (see [`activity_view_spec`]).
pub fn activity_view(o: &OrgState) -> (v: PanelView)
    ensures
        v@ == activity_view_spec(*o),
{
    let title = match &o.name {
        Some(n) => {
            let mut t = chars_of(" activity by user — ");
            append_str(&mut t, n.as_str());
            append_str(&mut t, " ");
            string_of(&t)
        },
        None => " activity by user ".to_string(),
    };
    let body = match &o.detect_err {
        Some(e) => detect_note_exec(e),
        None => {
            if !o.activity_loaded {
                Body::Note { text: "loading…".to_string(), tone: Some(Tone::DarkGray), wrap: false }
            } else {
                match &o.activity_err {
                    Some(e) => {
                        let mut t = chars_of("error: ");
                        append_str(&mut t, e.as_str());
                        Body::Note { text: string_of(&t), tone: Some(Tone::Red), wrap: true }
                    },
                    None => {
                        if o.activity.len() == 0 {
                            Body::Note {
                                text: "no recent activity".to_string(),
                                tone: Some(Tone::DarkGray),
                                wrap: false,
                            }
                        } else {
                            let mut lines: Vec<Vec<Piece>> = Vec::new();
                            let mut i: usize = 0;
                            while i < o.activity.len()
                                invariant
                                    i <= o.activity@.len(),
                                    rows_view(lines@) == activity_text(o.activity@.take(i as int)),
                                decreases o.activity.len() - i,
                            {
                                push_user_block(&mut lines, &o.activity[i]);
                                proof {
                                    let t = o.activity@.take(i + 1 as int);
                                    assert(t.drop_last() =~= o.activity@.take(i as int));
                                    assert(t.last() == o.activity@[i as int]);
                                }
                                i = i + 1;
                            }
                            assert(o.activity@.take(o.activity.len() as int) =~= o.activity@);
                            Body::Text { lines, scroll: o.scroll, wrap: false }
                        }
                    },
                }
            }
        },
    };
    PanelView { title, lit: false, body }
}

/// The time a repository was last pushed to, shortened, or `?`.
pub open spec fn pushed_text(r: RepoInfo) -> Seq<char> {
    match r.pushed_at {
        Some(p) => humanize_iso_spec(p@),
        None => "?"@,
    }
}

/// The push time of a repository, if it has one, can be shortened.
pub open spec fn pushed_ok(r: RepoInfo) -> bool {
    r.pushed_at matches Some(p) ==> humanize_iso_ok(p@)
}

/// The repository list shows rows (no detection error, loaded, no error).
pub open spec fn repo_rows_shown(o: OrgState) -> bool {
    o.detect_err is None && o.repos.loaded && o.repos.err is None
}

/// Every push time that the repository list shows can be shortened.
pub open spec fn shown_pushed_ok(o: OrgState) -> bool {
    let idx = filtered_repos(o.repos.items@, o.repos.filter@);
    repo_rows_shown(o) ==> forall|j: int|
        0 <= j < idx.len() ==> pushed_ok(o.repos.items@[#[trigger] idx[j] as int])
}

/// A line of the repository list: a lock for private ones, the name, the
/// language, the stars and the last push.
pub open spec fn repo_row(r: RepoInfo) -> Seq<(Seq<char>, Option<Tone>, bool)> {
    seq![
        ((if r.is_private { "🔒"@ } else { "  "@ }) + " "@, None, false),
        (column(r.name@, 38), Some(Tone::Green), false),
        (column(match r.primary_language { Some(l) => l@, None => "-"@ }, 14), Some(Tone::Cyan), false),
        (if r.stargazer_count > 0 { "★"@ + pad(decimal(r.stargazer_count as nat), 4) } else { "     "@ }, Some(Tone::Yellow), false),
        (" "@, None, false),
        ("pushed "@ + pushed_text(r), Some(Tone::DarkGray), false),
    ]
}

/// A line of the member list.
pub open spec fn member_row(m: OrgMember) -> Seq<(Seq<char>, Option<Tone>, bool)> {
    seq![("@"@ + m.login@, Some(Tone::Cyan), false)]
}

/// A searchable list of the Org tab: the rows of the matching items, or
/// why there are none.
pub open spec fn org_list_body<T>(
    o: OrgState,
    l: FilterList<T>,
    rows: Seq<Seq<(Seq<char>, Option<Tone>, bool)>>,
    none: Seq<char>,
) -> BodyView {
    if o.detect_err is Some {
        detect_note(o.detect_err->0)
    } else if !l.loaded {
        BodyView::Note { text: "loading…"@, tone: Some(Tone::DarkGray), wrap: false }
    } else if l.err is Some {
        BodyView::Note { text: "error: "@ + l.err->0@, tone: Some(Tone::Red), wrap: true }
    } else if rows.len() == 0 {
        BodyView::Note {
            text: if l.filter@.len() == 0 { none } else { "no matches"@ },
            tone: Some(Tone::DarkGray),
            wrap: false,
        }
    } else {
        BodyView::Rows { rows, selected: l.selected, highlight: true }
    }
}

/// The repository list of the Org tab.
pub open spec fn repo_list_spec(o: OrgState) -> PanelSpec {
    let l = o.repos;
    PanelSpec {
        title: org_title("repos"@, o.name),
        lit: false,
        body: org_list_body(
            o,
            l,
            filtered_repos(l.items@, l.filter@).map_values(|i: usize| repo_row(l.items@[i as int])),
            "no repos found"@,
        ),
    }
}

/// The member list of the Org tab.
pub open spec fn member_list_spec(o: OrgState) -> PanelSpec {
    let l = o.users;
    PanelSpec {
        title: org_title("users"@, o.name),
        lit: false,
        body: org_list_body(
            o,
            l,
            filtered_members(l.items@, l.filter@).map_values(|i: usize| member_row(l.items@[i as int])),
            "no visible members"@,
        ),
    }
}

fn org_list_body_exec<T>(o: &OrgState, l: &FilterList<T>, rows: Vec<Vec<Piece>>, none: &str) -> (b: Body)
    ensures
        b@ == org_list_body(*o, *l, rows_view(rows@), none@),
{
    match &o.detect_err {
        Some(e) => detect_note_exec(e),
        None => {
            if !l.loaded {
                Body::Note { text: "loading…".to_string(), tone: Some(Tone::DarkGray), wrap: false }
            } else {
                match &l.err {
                    Some(e) => {
                        let mut t = chars_of("error: ");
                        append_str(&mut t, e.as_str());
                        Body::Note { text: string_of(&t), tone: Some(Tone::Red), wrap: true }
                    },
                    None => {
                        if rows.len() == 0 {
                            let text = if l.filter.len() == 0 {
                                none.to_string()
                            } else {
                                "no matches".to_string()
                            };
                            Body::Note { text, tone: Some(Tone::DarkGray), wrap: false }
                        } else {
                            Body::Rows { rows, selected: l.selected, highlight: true }
                        }
                    },
                }
            }
        },
    }
}

fn repo_row_exec(r: &RepoInfo) -> (p: Vec<Piece>)
    requires
        (r.pushed_at matches Some(x) ==> humanize_iso_ok(x@)),
    ensures
        row_view(p@) == repo_row(*r),
{
    let mut lock = if r.is_private {
        chars_of("🔒")
    } else {
        chars_of("  ")
    };
    append_str(&mut lock, " ");
    let lang = match &r.primary_language {
        Some(l) => column_chars(l.as_str(), 14),
        None => column_chars("-", 14),
    };
    let stars = if r.stargazer_count > 0 {
        let mut d = decimal_chars(r.stargazer_count);
        pad_in_place(&mut d, 4);
        let mut s = chars_of("★");
        append_chars(&mut s, &d);
        s
    } else {
        chars_of("     ")
    };
    let mut pushed = chars_of("pushed ");
    match &r.pushed_at {
        Some(x) => append_str(&mut pushed, humanize_iso(x.as_str()).as_str()),
        None => append_str(&mut pushed, "?"),
    }
    let mut v: Vec<Piece> = Vec::new();
    v.push(piece(lock, None));
    v.push(piece(column_chars(r.name.as_str(), 38), Some(Tone::Green)));
    v.push(piece(lang, Some(Tone::Cyan)));
    v.push(piece(stars, Some(Tone::Yellow)));
    v.push(plain(" ", None));
    v.push(piece(pushed, Some(Tone::DarkGray)));
    assert(row_view(v@) =~= repo_row(*r));
    v
}

/// Whether every push time that the repository list shows can be
/// shortened (see [`shown_pushed_ok`]).
pub fn shown_pushed_times_ok(o: &OrgState) -> (b: bool)
    ensures
        b == shown_pushed_ok(*o),
{
    let l = &o.repos;
    if !(o.detect_err.is_none() && l.loaded && l.err.is_none()) {
        return true;
    }
    let idx = filter_repos(&l.items, l.filter.as_slice());
    proof {
        crate::panel::lemma_filtered_repos_positions(l.items@, l.filter@);
    }
    let mut k: usize = 0;
    while k < idx.len()
        invariant
            k <= idx@.len(),
            idx@ == filtered_repos(l.items@, l.filter@),
            forall|j: int| 0 <= j < idx@.len() ==> #[trigger] idx@[j] < l.items@.len(),
            forall|j: int| 0 <= j < k ==> pushed_ok(l.items@[#[trigger] idx@[j] as int]),
            repo_rows_shown(*o),
            *l == o.repos,
        decreases idx.len() - k,
    {
        let i = idx[k];
        assert(idx@[k as int] < l.items@.len());
        if let Some(p) = &l.items[i].pushed_at {
            if !crate::text::can_humanize(p.as_str()) {
                proof {
                    if shown_pushed_ok(*o) {
                        let ghost fr = filtered_repos(o.repos.items@, o.repos.filter@);
                        assert(pushed_ok(o.repos.items@[fr[k as int] as int]));
                    }
                }
                return false;
            }
        }
        k = k + 1;
    }
    true
}

/// The repository list of the Org tab (see [`repo_list_spec`]); every push
/// time it shows must be one that can be shortened.
pub fn repo_list(o: &OrgState) -> (v: PanelView)
    requires
        shown_pushed_ok(*o),
    ensures
        v@ == repo_list_spec(*o),
{
    let l = &o.repos;
    let ghost want = filtered_repos(l.items@, l.filter@).map_values(|i: usize| repo_row(l.items@[i as int]));
    let mut rows: Vec<Vec<Piece>> = Vec::new();
    if o.detect_err.is_none() && l.loaded && l.err.is_none() {
        let idx = filter_repos(&l.items, l.filter.as_slice());
        proof {
            crate::panel::lemma_filtered_repos_positions(l.items@, l.filter@);
        }
        let ghost f = |i: usize| repo_row(l.items@[i as int]);
        let mut k: usize = 0;
        while k < idx.len()
            invariant
                k <= idx@.len(),
                idx@ == filtered_repos(l.items@, l.filter@),
                forall|j: int| 0 <= j < idx@.len() ==> #[trigger] idx@[j] < l.items@.len(),
                forall|j: int| 0 <= j < idx@.len() ==> pushed_ok(l.items@[#[trigger] idx@[j] as int]),
                f == (|i: usize| repo_row(l.items@[i as int])),
                rows_view(rows@) == idx@.take(k as int).map_values(f),
            decreases idx.len() - k,
        {
            let i = idx[k];
            assert(idx@[k as int] < l.items@.len());
            assert(pushed_ok(l.items@[idx@[k as int] as int]));
            let ghost b = rows@;
            rows.push(repo_row_exec(&l.items[i]));
            proof {
                assert(idx@.take(k + 1 as int) =~= idx@.take(k as int).push(idx@[k as int]));
                assert(rows_view(rows@) =~= rows_view(b).push(row_view(rows@[k as int]@)));
                assert(idx@.take(k + 1 as int).map_values(f) =~= idx@.take(k as int).map_values(f).push(
                    f(idx@[k as int]),
                ));
            }
            k = k + 1;
        }
        assert(idx@.take(idx.len() as int) =~= idx@);
    }
    let body = org_list_body_exec(o, l, rows, "no repos found");
    assert(body@ == org_list_body(*o, *l, want, "no repos found"@));
    PanelView { title: org_title_exec("repos", &o.name), lit: false, body }
}

/// The member list of the Org tab (see [`member_list_spec`]).
pub fn member_list(o: &OrgState) -> (v: PanelView)
    ensures
        v@ == member_list_spec(*o),
{
    let l = &o.users;
    let idx = filter_members(&l.items, l.filter.as_slice());
    proof {
        crate::panel::lemma_filtered_members_positions(l.items@, l.filter@);
    }
    let ghost f = |i: usize| member_row(l.items@[i as int]);
    let mut rows: Vec<Vec<Piece>> = Vec::new();
    let mut k: usize = 0;
    while k < idx.len()
        invariant
            k <= idx@.len(),
            idx@ == filtered_members(l.items@, l.filter@),
            forall|j: int| 0 <= j < idx@.len() ==> #[trigger] idx@[j] < l.items@.len(),
            f == (|i: usize| member_row(l.items@[i as int])),
            rows_view(rows@) == idx@.take(k as int).map_values(f),
        decreases idx.len() - k,
    {
        let i = idx[k];
        assert(idx@[k as int] < l.items@.len());
        let mut login = chars_of("@");
        append_str(&mut login, l.items[i].login.as_str());
        let mut row: Vec<Piece> = Vec::new();
        row.push(piece(login, Some(Tone::Cyan)));
        assert(row_view(row@) =~= member_row(l.items@[i as int]));
        let ghost b = rows@;
        rows.push(row);
        proof {
            assert(idx@.take(k + 1 as int) =~= idx@.take(k as int).push(idx@[k as int]));
            assert(rows_view(rows@) =~= rows_view(b).push(row_view(rows@[k as int]@)));
            assert(idx@.take(k + 1 as int).map_values(f) =~= idx@.take(k as int).map_values(f).push(f(idx@[k as int])));
        }
        k = k + 1;
    }
    assert(idx@.take(idx.len() as int) =~= idx@);
    let body = org_list_body_exec(o, l, rows, "no visible members");
    PanelView { title: org_title_exec("users", &o.name), lit: false, body }
}

/// The search field above a list: how it is used, the text typed (with a
/// cursor while typing), yellow while typing.
pub open spec fn search_field_spec<T>(l: FilterList<T>) -> PanelSpec {
    PanelSpec {
        title: if l.filtering {
            " filter (typing — Enter to confirm, Esc to clear) "@
        } else if l.filter@.len() == 0 {
            " filter (/ to start) "@
        } else {
            " filter (/ to edit, Esc to clear) "@
        },
        lit: false,
        body: BodyView::Note {
            text: l.filter@ + if l.filtering { "▏"@ } else { ""@ },
            tone: Some(if l.filtering { Tone::Yellow } else { Tone::Gray }),
            wrap: false,
        },
    }
}

/// The search field above a list (see [`search_field_spec`]).
pub fn search_field<T>(l: &FilterList<T>) -> (v: PanelView)
    ensures
        v@ == search_field_spec(*l),
{
    let title = if l.filtering {
        " filter (typing — Enter to confirm, Esc to clear) ".to_string()
    } else if l.filter.len() == 0 {
        " filter (/ to start) ".to_string()
    } else {
        " filter (/ to edit, Esc to clear) ".to_string()
    };
    let mut text = crate::text::slice_chars(l.filter.as_slice(), 0, l.filter.len());
    assert(l.filter@.subrange(0, l.filter@.len() as int) =~= l.filter@);
    if l.filtering {
        append_str(&mut text, "▏");
    } else {
        append_str(&mut text, "");
    }
    let tone = if l.filtering {
        Tone::Yellow
    } else {
        Tone::Gray
    };
    PanelView { title, lit: false, body: Body::Note { text: string_of(&text), tone: Some(tone), wrap: false } }
}

} // verus!
