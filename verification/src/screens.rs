//! What the Repo tab and the detail screens show, as titles and lines of
//! coloured text.
use vstd::prelude::*;
use crate::display::{
    colorize_stat_line, diff_line_tone, diff_line_tone_spec, pr_state_spec, pr_state_style,
    reason_tone, reason_tone_spec, stat_line_pieces, status_color, status_tone_spec, styled_view,
    truncate, truncate_spec, Styled, Tone,
};
use crate::git::nonempty_lines;
use crate::panel::Panel;
use crate::state::{
    CommitDetailView, DiffView, PrDetailView, RepoDetailState, RepoTab, UserDetailState,
};
use crate::text::{
    append_chars, append_str, chars_of, decimal, decimal_chars, humanize_iso, humanize_iso_ok,
    humanize_iso_spec, lines_chars, lines_spec, replace_all_chars, replace_all_spec, string_of,
    take_chars, take_spec, trim_chars, trim_spec, views,
};
use crate::types::{
    Commit, CommitDetail, Contributor, DirtyFile, Notification, PrDetail, PullRequest, RepoInfo,
    RepoSummary, UserCommit, UserPr,
};
use crate::views::{
    column, column_chars, in_parens, in_parens_piece, number_cell, number_piece, pad, pad_in_place,
    piece, piece_view, plain, row_view, rows_view, Body, BodyView, PanelSpec, PanelView, Piece,
};

verus! {

/// `"error: "` and the message, in red.
pub open spec fn error_note(e: String, wrap: bool) -> BodyView {
    BodyView::Note { text: "error: "@ + e@, tone: Some(Tone::Red), wrap }
}

fn error_note_exec(e: &String, wrap: bool) -> (b: Body)
    ensures
        b@ == error_note(*e, wrap),
{
    let mut t = chars_of("error: ");
    append_str(&mut t, e.as_str());
    Body::Note { text: string_of(&t), tone: Some(Tone::Red), wrap }
}

/// A dark gray note.
pub open spec fn gray_note(text: Seq<char>) -> BodyView {
    BodyView::Note { text, tone: Some(Tone::DarkGray), wrap: false }
}

fn gray_note_exec(text: &str) -> (b: Body)
    ensures
        b@ == gray_note(text@),
{
    Body::Note { text: text.to_string(), tone: Some(Tone::DarkGray), wrap: false }
}

/// A line of a key and its value, the key padded to thirteen places.
pub open spec fn kv_row(key: Seq<char>, val: Seq<char>) -> Seq<(Seq<char>, Option<Tone>, bool)> {
    seq![(pad(key, 13), Some(Tone::DarkGray), false), (val, None, false)]
}

fn kv_row_exec(key: &str, val: &str) -> (r: Vec<Piece>)
    ensures
        row_view(r@) == kv_row(key@, val@),
{
    let mut k = chars_of(key);
    pad_in_place(&mut k, 13);
    let mut r: Vec<Piece> = Vec::new();
    r.push(piece(k, Some(Tone::DarkGray)));
    r.push(plain(val, None));
    assert(row_view(r@) =~= kv_row(key@, val@));
    r
}

/// A text, or a stand-in when there is none.
pub open spec fn or_else(o: Option<String>, d: Seq<char>) -> Seq<char> {
    match o {
        Some(s) => s@,
        None => d,
    }
}

fn or_else_exec(o: &Option<String>, d: &str) -> (r: String)
    ensures
        r@ == or_else(*o, d@),
{
    match o {
        Some(s) => s.clone(),
        None => d.to_string(),
    }
}

/// The summary of the repository: root, branch, upstream, remote,
/// ahead/behind and last fetch; or its error; or a note while it loads.
pub open spec fn summary_spec(r: RepoTab) -> PanelSpec {
    PanelSpec {
        title: " repo "@,
        lit: false,
        body: BodyView::Text {
            lines: match r.summary {
                Some(s) => seq![
                    kv_row("root"@, s.root@),
                    kv_row("branch"@, s.branch@),
                    kv_row("upstream"@, or_else(s.upstream, "(none)"@)),
                    kv_row("remote"@, or_else(s.remote_url, "(none)"@)),
                    kv_row("ahead/behind"@, decimal(s.ahead as nat) + " / "@ + decimal(s.behind as nat)),
                    kv_row("last fetch"@, or_else(s.last_fetch, "(unknown)"@)),
                ],
                None => match r.summary_err {
                    Some(e) => seq![seq![("error: "@ + e@, Some(Tone::Red), false)]],
                    None => seq![seq![("loading..."@, None, false)]],
                },
            },
            scroll: 0,
            wrap: true,
        },
    }
}

/// The summary of the repository (see [`summary_spec`]).
pub fn summary_view(r: &RepoTab) -> (v: PanelView)
    ensures
        v@ == summary_spec(*r),
{
    let mut lines: Vec<Vec<Piece>> = Vec::new();
    match &r.summary {
        Some(s) => {
            let mut ab = decimal_chars(s.ahead as u64);
            append_str(&mut ab, " / ");
            append_chars(&mut ab, &decimal_chars(s.behind as u64));
            lines.push(kv_row_exec("root", s.root.as_str()));
            lines.push(kv_row_exec("branch", s.branch.as_str()));
            lines.push(kv_row_exec("upstream", or_else_exec(&s.upstream, "(none)").as_str()));
            lines.push(kv_row_exec("remote", or_else_exec(&s.remote_url, "(none)").as_str()));
            lines.push(kv_row_exec("ahead/behind", string_of(&ab).as_str()));
            lines.push(kv_row_exec("last fetch", or_else_exec(&s.last_fetch, "(unknown)").as_str()));
            assert(rows_view(lines@) =~= seq![
                kv_row("root"@, s.root@),
                kv_row("branch"@, s.branch@),
                kv_row("upstream"@, or_else(s.upstream, "(none)"@)),
                kv_row("remote"@, or_else(s.remote_url, "(none)"@)),
                kv_row("ahead/behind"@, decimal(s.ahead as nat) + " / "@ + decimal(s.behind as nat)),
                kv_row("last fetch"@, or_else(s.last_fetch, "(unknown)"@)),
            ]);
        },
        None => {
            let mut row: Vec<Piece> = Vec::new();
            match &r.summary_err {
                Some(e) => {
                    let mut t = chars_of("error: ");
                    append_str(&mut t, e.as_str());
                    row.push(piece(t, Some(Tone::Red)));
                },
                None => row.push(plain("loading...", None)),
            }
            lines.push(row);
            assert(rows_view(lines@) =~= seq![row_view(row@)]);
            assert(row_view(row@) =~= match r.summary_err {
                Some(e) => seq![("error: "@ + e@, Some(Tone::Red), false)],
                None => seq![("loading..."@, None, false)],
            });
        },
    }
    PanelView { title: " repo ".to_string(), lit: false, body: Body::Text { lines, scroll: 0, wrap: true } }
}

/// A dirty file's line: its status, coloured, and its path.
pub open spec fn dirty_row(d: DirtyFile) -> Seq<(Seq<char>, Option<Tone>, bool)> {
    seq![(d.status@ + " "@, Some(status_tone_spec(d.status@)), false), (d.path@, None, false)]
}

fn dirty_row_exec(d: &DirtyFile) -> (r: Vec<Piece>)
    ensures
        row_view(r@) == dirty_row(*d),
{
    let mut st = chars_of(d.status.as_str());
    append_str(&mut st, " ");
    let mut r: Vec<Piece> = Vec::new();
    r.push(piece(st, Some(status_color(d.status.as_str()))));
    r.push(Piece { text: d.path.clone(), tone: None, bold: false });
    assert(row_view(r@) =~= dirty_row(*d));
    r
}

/// The dirty files: how to focus them, or the keys while focused; their
/// error, a note for a clean tree, or their lines.
pub open spec fn dirty_spec(p: Panel<DirtyFile>) -> PanelSpec {
    PanelSpec {
        title: if p.focused {
            " dirty files — ↑↓ Enter diff, Esc unfocus "@
        } else if p.items@.len() == 0 {
            " dirty files "@
        } else {
            " dirty files (press d to focus) "@
        },
        lit: p.focused,
        body: if p.err is Some {
            error_note(p.err->0, true)
        } else if p.items@.len() == 0 {
            gray_note("clean working tree"@)
        } else {
            BodyView::Rows {
                rows: p.items@.map_values(|d: DirtyFile| dirty_row(d)),
                selected: p.selected,
                highlight: p.focused,
            }
        },
    }
}

/// A commit's line: sha, author, subject and date.
pub open spec fn commit_row(c: Commit) -> Seq<(Seq<char>, Option<Tone>, bool)> {
    seq![
        (c.sha@ + " "@, Some(Tone::Yellow), false),
        (column(c.author@, 14), Some(Tone::Cyan), false),
        (" "@, None, false),
        (c.subject@, None, false),
        (in_parens(c.date@), Some(Tone::DarkGray), false),
    ]
}

fn commit_row_exec(c: &Commit) -> (r: Vec<Piece>)
    ensures
        row_view(r@) == commit_row(*c),
{
    let mut sha = chars_of(c.sha.as_str());
    append_str(&mut sha, " ");
    let mut r: Vec<Piece> = Vec::new();
    r.push(piece(sha, Some(Tone::Yellow)));
    r.push(piece(column_chars(c.author.as_str(), 14), Some(Tone::Cyan)));
    r.push(plain(" ", None));
    r.push(Piece { text: c.subject.clone(), tone: None, bold: false });
    r.push(in_parens_piece(c.date.as_str()));
    assert(row_view(r@) =~= commit_row(*c));
    r
}

/// A pull request's line: number, title, a draft mark, author and branch.
pub open spec fn pr_row(p: PullRequest) -> Seq<(Seq<char>, Option<Tone>, bool)> {
    seq![
        (number_cell(p.number), Some(Tone::Green), false),
        (p.title@, None, false),
        if p.is_draft {
            (" [draft]"@, Some(Tone::DarkGray), false)
        } else {
            (""@, None, false)
        },
        ("  @"@ + p.author.login@ + " ("@ + p.head@ + ")"@, Some(Tone::DarkGray), false),
    ]
}

fn pr_row_exec(p: &PullRequest) -> (r: Vec<Piece>)
    ensures
        row_view(r@) == pr_row(*p),
{
    let mut who = chars_of("  @");
    append_str(&mut who, p.author.login.as_str());
    append_str(&mut who, " (");
    append_str(&mut who, p.head.as_str());
    append_str(&mut who, ")");
    let mut r: Vec<Piece> = Vec::new();
    r.push(number_piece(p.number));
    r.push(Piece { text: p.title.clone(), tone: None, bold: false });
    if p.is_draft {
        r.push(plain(" [draft]", Some(Tone::DarkGray)));
    } else {
        r.push(plain("", None));
    }
    r.push(piece(who, Some(Tone::DarkGray)));
    assert(row_view(r@) =~= pr_row(*p));
    r
}

/// A contributor's line: login and number of commits.
pub open spec fn contributor_row(c: Contributor) -> Seq<(Seq<char>, Option<Tone>, bool)> {
    seq![
        ("@"@ + column(c.login@, 22), Some(Tone::Cyan), false),
        (decimal(c.contributions as nat) + " commits"@, Some(Tone::DarkGray), false),
    ]
}

fn contributor_row_exec(c: &Contributor) -> (r: Vec<Piece>)
    ensures
        row_view(r@) == contributor_row(*c),
{
    let mut l = chars_of("@");
    append_chars(&mut l, &column_chars(c.login.as_str(), 22));
    let mut n = decimal_chars(c.contributions);
    append_str(&mut n, " commits");
    let mut r: Vec<Piece> = Vec::new();
    r.push(piece(l, Some(Tone::Cyan)));
    r.push(piece(n, Some(Tone::DarkGray)));
    assert(row_view(r@) =~= contributor_row(*c));
    r
}

/// A member's commit line: sha, repository, subject and date.
pub open spec fn user_commit_row(c: UserCommit) -> Seq<(Seq<char>, Option<Tone>, bool)> {
    seq![
        (c.sha@ + " "@, Some(Tone::Yellow), false),
        (column(c.repo@, 28), Some(Tone::Green), false),
        (" "@, None, false),
        (c.subject@, None, false),
        (in_parens(c.date@), Some(Tone::DarkGray), false),
    ]
}

fn user_commit_row_exec(c: &UserCommit) -> (r: Vec<Piece>)
    ensures
        row_view(r@) == user_commit_row(*c),
{
    let mut sha = chars_of(c.sha.as_str());
    append_str(&mut sha, " ");
    let mut r: Vec<Piece> = Vec::new();
    r.push(piece(sha, Some(Tone::Yellow)));
    r.push(piece(column_chars(c.repo.as_str(), 28), Some(Tone::Green)));
    r.push(plain(" ", None));
    r.push(Piece { text: c.subject.clone(), tone: None, bold: false });
    r.push(in_parens_piece(c.date.as_str()));
    assert(row_view(r@) =~= user_commit_row(*c));
    r
}

/// A member's pull request line: number, state, repository, title, the
/// author when asked for and known, and the update time.
pub open spec fn user_pr_row(p: UserPr, show_author: bool) -> Seq<(Seq<char>, Option<Tone>, bool)> {
    let (label, tone) = pr_state_spec(p.state@, p.is_draft);
    seq![
        (number_cell(p.number), Some(Tone::Green), false),
        (pad(label, 7), Some(tone), false),
        (column(p.repo@, 28), Some(Tone::Green), false),
        (" "@, None, false),
        (p.title@, None, false),
    ] + (if show_author && p.author@.len() > 0 {
        seq![("  @"@ + p.author@, Some(Tone::Cyan), false)]
    } else {
        Seq::empty()
    }) + seq![(in_parens(p.updated_at@), Some(Tone::DarkGray), false)]
}

fn user_pr_row_exec(p: &UserPr, show_author: bool) -> (r: Vec<Piece>)
    ensures
        row_view(r@) == user_pr_row(*p, show_author),
{
    let (label, tone) = pr_state_style(p.state.as_str(), p.is_draft);
    let mut l = chars_of(label);
    pad_in_place(&mut l, 7);
    let mut r: Vec<Piece> = Vec::new();
    r.push(number_piece(p.number));
    r.push(piece(l, Some(tone)));
    r.push(piece(column_chars(p.repo.as_str(), 28), Some(Tone::Green)));
    r.push(plain(" ", None));
    r.push(Piece { text: p.title.clone(), tone: None, bold: false });
    if show_author && !p.author.as_str().is_empty() {
        let mut a = chars_of("  @");
        append_str(&mut a, p.author.as_str());
        r.push(piece(a, Some(Tone::Cyan)));
    }
    r.push(in_parens_piece(p.updated_at.as_str()));
    assert(row_view(r@) =~= user_pr_row(*p, show_author));
    r
}

fn dirty_rows(items: &Vec<DirtyFile>) -> (rows: Vec<Vec<Piece>>)
    ensures
        rows_view(rows@) == items@.map_values(|x: DirtyFile| dirty_row(x)),
{
    let mut rows: Vec<Vec<Piece>> = Vec::new();
    let mut i: usize = 0;
    while i < items.len()
        invariant
            i <= items@.len(),
            rows_view(rows@) == items@.take(i as int).map_values(|x: DirtyFile| dirty_row(x)),
        decreases items.len() - i,
    {
        let ghost before = rows@;
        rows.push(dirty_row_exec(&items[i]));
        proof {
            let f = |x: DirtyFile| dirty_row(x);
            assert(items@.take(i + 1 as int) =~= items@.take(i as int).push(items@[i as int]));
            assert(rows_view(rows@) =~= rows_view(before).push(row_view(rows@[i as int]@)));
            assert(items@.take(i + 1 as int).map_values(f) =~= items@.take(i as int).map_values(f).push(
                f(items@[i as int]),
            ));
        }
        i = i + 1;
    }
    assert(items@.take(items.len() as int) =~= items@);
    rows
}

fn commit_rows(items: &Vec<Commit>) -> (rows: Vec<Vec<Piece>>)
    ensures
        rows_view(rows@) == items@.map_values(|x: Commit| commit_row(x)),
{
    let mut rows: Vec<Vec<Piece>> = Vec::new();
    let mut i: usize = 0;
    while i < items.len()
        invariant
            i <= items@.len(),
            rows_view(rows@) == items@.take(i as int).map_values(|x: Commit| commit_row(x)),
        decreases items.len() - i,
    {
        let ghost before = rows@;
        rows.push(commit_row_exec(&items[i]));
        proof {
            let f = |x: Commit| commit_row(x);
            assert(items@.take(i + 1 as int) =~= items@.take(i as int).push(items@[i as int]));
            assert(rows_view(rows@) =~= rows_view(before).push(row_view(rows@[i as int]@)));
            assert(items@.take(i + 1 as int).map_values(f) =~= items@.take(i as int).map_values(f).push(
                f(items@[i as int]),
            ));
        }
        i = i + 1;
    }
    assert(items@.take(items.len() as int) =~= items@);
    rows
}

fn pr_rows(items: &Vec<PullRequest>) -> (rows: Vec<Vec<Piece>>)
    ensures
        rows_view(rows@) == items@.map_values(|x: PullRequest| pr_row(x)),
{
    let mut rows: Vec<Vec<Piece>> = Vec::new();
    let mut i: usize = 0;
    while i < items.len()
        invariant
            i <= items@.len(),
            rows_view(rows@) == items@.take(i as int).map_values(|x: PullRequest| pr_row(x)),
        decreases items.len() - i,
    {
        let ghost before = rows@;
        rows.push(pr_row_exec(&items[i]));
        proof {
            let f = |x: PullRequest| pr_row(x);
            assert(items@.take(i + 1 as int) =~= items@.take(i as int).push(items@[i as int]));
            assert(rows_view(rows@) =~= rows_view(before).push(row_view(rows@[i as int]@)));
            assert(items@.take(i + 1 as int).map_values(f) =~= items@.take(i as int).map_values(f).push(
                f(items@[i as int]),
            ));
        }
        i = i + 1;
    }
    assert(items@.take(items.len() as int) =~= items@);
    rows
}

fn contributor_rows(items: &Vec<Contributor>) -> (rows: Vec<Vec<Piece>>)
    ensures
        rows_view(rows@) == items@.map_values(|x: Contributor| contributor_row(x)),
{
    let mut rows: Vec<Vec<Piece>> = Vec::new();
    let mut i: usize = 0;
    while i < items.len()
        invariant
            i <= items@.len(),
            rows_view(rows@) == items@.take(i as int).map_values(|x: Contributor| contributor_row(x)),
        decreases items.len() - i,
    {
        let ghost before = rows@;
        rows.push(contributor_row_exec(&items[i]));
        proof {
            let f = |x: Contributor| contributor_row(x);
            assert(items@.take(i + 1 as int) =~= items@.take(i as int).push(items@[i as int]));
            assert(rows_view(rows@) =~= rows_view(before).push(row_view(rows@[i as int]@)));
            assert(items@.take(i + 1 as int).map_values(f) =~= items@.take(i as int).map_values(f).push(
                f(items@[i as int]),
            ));
        }
        i = i + 1;
    }
    assert(items@.take(items.len() as int) =~= items@);
    rows
}

fn user_commit_rows(items: &Vec<UserCommit>) -> (rows: Vec<Vec<Piece>>)
    ensures
        rows_view(rows@) == items@.map_values(|x: UserCommit| user_commit_row(x)),
{
    let mut rows: Vec<Vec<Piece>> = Vec::new();
    let mut i: usize = 0;
    while i < items.len()
        invariant
            i <= items@.len(),
            rows_view(rows@) == items@.take(i as int).map_values(|x: UserCommit| user_commit_row(x)),
        decreases items.len() - i,
    {
        let ghost before = rows@;
        rows.push(user_commit_row_exec(&items[i]));
        proof {
            let f = |x: UserCommit| user_commit_row(x);
            assert(items@.take(i + 1 as int) =~= items@.take(i as int).push(items@[i as int]));
            assert(rows_view(rows@) =~= rows_view(before).push(row_view(rows@[i as int]@)));
            assert(items@.take(i + 1 as int).map_values(f) =~= items@.take(i as int).map_values(f).push(
                f(items@[i as int]),
            ));
        }
        i = i + 1;
    }
    assert(items@.take(items.len() as int) =~= items@);
    rows
}

fn user_pr_rows(items: &Vec<UserPr>, show_author: bool) -> (rows: Vec<Vec<Piece>>)
    ensures
        rows_view(rows@) == items@.map_values(|x: UserPr| user_pr_row(x, show_author)),
{
    let mut rows: Vec<Vec<Piece>> = Vec::new();
    let mut i: usize = 0;
    while i < items.len()
        invariant
            i <= items@.len(),
            rows_view(rows@) == items@.take(i as int).map_values(|x: UserPr| user_pr_row(x, show_author)),
        decreases items.len() - i,
    {
        let ghost before = rows@;
        rows.push(user_pr_row_exec(&items[i], show_author));
        proof {
            let f = |x: UserPr| user_pr_row(x, show_author);
            assert(items@.take(i + 1 as int) =~= items@.take(i as int).push(items@[i as int]));
            assert(rows_view(rows@) =~= rows_view(before).push(row_view(rows@[i as int]@)));
            assert(items@.take(i + 1 as int).map_values(f) =~= items@.take(i as int).map_values(f).push(
                f(items@[i as int]),
            ));
        }
        i = i + 1;
    }
    assert(items@.take(items.len() as int) =~= items@);
    rows
}

/// The dirty files (see [`dirty_spec`]).
pub fn dirty_view(p: &Panel<DirtyFile>) -> (v: PanelView)
    ensures
        v@ == dirty_spec(*p),
{
    let title = if p.focused {
        " dirty files — ↑↓ Enter diff, Esc unfocus ".to_string()
    } else if p.items.len() == 0 {
        " dirty files ".to_string()
    } else {
        " dirty files (press d to focus) ".to_string()
    };
    let body = match &p.err {
        Some(e) => error_note_exec(e, true),
        None => {
            if p.items.len() == 0 {
                gray_note_exec("clean working tree")
            } else {
                Body::Rows { rows: dirty_rows(&p.items), selected: p.selected, highlight: p.focused }
            }
        },
    };
    PanelView { title, lit: p.focused, body }
}

/// The recent commits of the Repo tab: their error, or their lines.
pub open spec fn commits_spec(p: Panel<Commit>) -> PanelSpec {
    PanelSpec {
        title: if p.focused {
            " recent commits — ↑↓ Enter, Esc to unfocus "@
        } else {
            " recent commits (press c to focus) "@
        },
        lit: p.focused,
        body: if p.err is Some {
            error_note(p.err->0, false)
        } else {
            BodyView::Rows {
                rows: p.items@.map_values(|c: Commit| commit_row(c)),
                selected: p.selected,
                highlight: p.focused,
            }
        },
    }
}

/// The recent commits of the Repo tab (see [`commits_spec`]).
pub fn commits_view(p: &Panel<Commit>) -> (v: PanelView)
    ensures
        v@ == commits_spec(*p),
{
    let title = if p.focused {
        " recent commits — ↑↓ Enter, Esc to unfocus ".to_string()
    } else {
        " recent commits (press c to focus) ".to_string()
    };
    let body = match &p.err {
        Some(e) => error_note_exec(e, false),
        None => Body::Rows { rows: commit_rows(&p.items), selected: p.selected, highlight: p.focused },
    };
    PanelView { title, lit: p.focused, body }
}

/// A plain list of commits under a title: the error, or the lines.
pub open spec fn commit_list_spec(title: Seq<char>, commits: Seq<Commit>, err: Option<String>) -> PanelSpec {
    PanelSpec {
        title,
        lit: false,
        body: match err {
            Some(e) => error_note(e, false),
            None => BodyView::Rows {
                rows: commits.map_values(|c: Commit| commit_row(c)),
                selected: None,
                highlight: false,
            },
        },
    }
}

/// A plain list of pull requests under a title: the error, a note when
/// there are none, or the lines.
pub open spec fn pr_list_spec(
    title: Seq<char>,
    prs: Seq<PullRequest>,
    err: Option<String>,
    empty: Seq<char>,
) -> PanelSpec {
    PanelSpec {
        title,
        lit: false,
        body: match err {
            Some(e) => error_note(e, true),
            None => if prs.len() == 0 {
                gray_note(empty)
            } else {
                BodyView::Rows {
                    rows: prs.map_values(|p: PullRequest| pr_row(p)),
                    selected: None,
                    highlight: false,
                }
            },
        },
    }
}

/// A plain list of commits under a title (see [`commit_list_spec`]).
pub fn commit_list(title: &str, commits: &Vec<Commit>, err: &Option<String>) -> (v: PanelView)
    ensures
        v@ == commit_list_spec(title@, commits@, *err),
{
    let body = match err {
        Some(e) => error_note_exec(e, false),
        None => Body::Rows { rows: commit_rows(commits), selected: None, highlight: false },
    };
    PanelView { title: title.to_string(), lit: false, body }
}

/// A plain list of pull requests under a title (see [`pr_list_spec`]).
pub fn pr_list(title: &str, prs: &Vec<PullRequest>, err: &Option<String>, empty: &str) -> (v: PanelView)
    ensures
        v@ == pr_list_spec(title@, prs@, *err, empty@),
{
    let body = match err {
        Some(e) => error_note_exec(e, true),
        None => {
            if prs.len() == 0 {
                gray_note_exec(empty)
            } else {
                Body::Rows { rows: pr_rows(prs), selected: None, highlight: false }
            }
        },
    };
    PanelView { title: title.to_string(), lit: false, body }
}

/// The diff shown on the Repo tab: added lines green, removed red, hunk
/// headers cyan; or its error; or a note when there is no change.
pub open spec fn diff_spec(d: DiffView) -> PanelSpec {
    PanelSpec {
        title: " diff — "@ + d.path@ + " (Esc to close) "@,
        lit: true,
        body: if d.error is Some {
            error_note(d.error->0, true)
        } else if d.lines@.len() == 0 {
            gray_note("(no changes)"@)
        } else {
            BodyView::Text {
                lines: d.lines@.map_values(|l: String| seq![(l@, diff_line_tone_spec(l@), false)]),
                scroll: 0,
                wrap: false,
            }
        },
    }
}

/// The diff shown on the Repo tab (see [`diff_spec`]).
pub fn diff_view(d: &DiffView) -> (v: PanelView)
    ensures
        v@ == diff_spec(*d),
{
    let mut t = chars_of(" diff — ");
    append_str(&mut t, d.path.as_str());
    append_str(&mut t, " (Esc to close) ");
    let body = match &d.error {
        Some(e) => error_note_exec(e, true),
        None => {
            if d.lines.len() == 0 {
                gray_note_exec("(no changes)")
            } else {
                let ghost f = |l: String| seq![(l@, diff_line_tone_spec(l@), false)];
                let mut lines: Vec<Vec<Piece>> = Vec::new();
                let mut i: usize = 0;
                while i < d.lines.len()
                    invariant
                        i <= d.lines@.len(),
                        f == (|l: String| seq![(l@, diff_line_tone_spec(l@), false)]),
                        rows_view(lines@) == d.lines@.take(i as int).map_values(f),
                    decreases d.lines.len() - i,
                {
                    let l = &d.lines[i];
                    let mut row: Vec<Piece> = Vec::new();
                    row.push(Piece { text: l.clone(), tone: diff_line_tone(l.as_str()), bold: false });
                    assert(row_view(row@) =~= f(d.lines@[i as int]));
                    let ghost before = lines@;
                    lines.push(row);
                    proof {
                        assert(d.lines@.take(i + 1 as int) =~= d.lines@.take(i as int).push(d.lines@[i as int]));
                        assert(rows_view(lines@) =~= rows_view(before).push(row_view(lines@[i as int]@)));
                        assert(d.lines@.take(i + 1 as int).map_values(f) =~= d.lines@.take(i as int).map_values(f).push(
                            f(d.lines@[i as int]),
                        ));
                    }
                    i = i + 1;
                }
                assert(d.lines@.take(d.lines.len() as int) =~= d.lines@);
                Body::Text { lines, scroll: 0, wrap: false }
            }
        },
    };
    PanelView { title: string_of(&t), lit: true, body }
}

/// A piece of the form `key: value`.
pub open spec fn kv_text(key: Seq<char>, val: Seq<char>) -> (Seq<char>, Option<Tone>, bool) {
    (key + ": "@ + val, None, false)
}

fn kv_piece(key: &str, val: &str) -> (p: Piece)
    ensures
        piece_view(p) == kv_text(key@, val@),
{
    let mut t = chars_of(key);
    append_str(&mut t, ": ");
    append_str(&mut t, val);
    piece(t, None)
}

/// The repository's metadata at the head of its detail: description,
/// language, default branch, last push, visibility and stars.
pub open spec fn repo_header_spec(d: RepoDetailState) -> PanelSpec {
    PanelSpec {
        title: " "@ + d.full_name@ + " "@,
        lit: false,
        body: BodyView::Text {
            lines: match d.info {
                Some(info) => (match info.description {
                    Some(desc) => seq![seq![(desc@, None, false)]],
                    None => Seq::empty(),
                }) + seq![
                    seq![
                        kv_text("language"@, or_else(info.primary_language, "-"@)),
                        ("   "@, None, false),
                        kv_text("default"@, or_else(info.default_branch, "-"@)),
                        ("   "@, None, false),
                        kv_text("pushed"@, match info.pushed_at {
                            Some(p) => humanize_iso_spec(p@),
                            None => "?"@,
                        }),
                        ("   "@, None, false),
                        kv_text("visibility"@, if info.is_private { "private"@ } else { "public"@ }),
                    ],
                    seq![kv_text("stars"@, decimal(info.stargazer_count as nat))],
                ],
                None => seq![seq![("(metadata unavailable)"@, Some(Tone::DarkGray), false)]],
            },
            scroll: 0,
            wrap: true,
        },
    }
}

/// The repository's metadata (see [`repo_header_spec`]).
pub fn repo_header(d: &RepoDetailState) -> (v: PanelView)
    requires
        (d.info matches Some(i) ==> (i.pushed_at matches Some(p) ==> humanize_iso_ok(p@))),
    ensures
        v@ == repo_header_spec(*d),
{
    let mut t = chars_of(" ");
    append_str(&mut t, d.full_name.as_str());
    append_str(&mut t, " ");
    let mut lines: Vec<Vec<Piece>> = Vec::new();
    match &d.info {
        Some(info) => {
            match &info.description {
                Some(desc) => {
                    let mut row: Vec<Piece> = Vec::new();
                    row.push(Piece { text: desc.clone(), tone: None, bold: false });
                    assert(row_view(row@) =~= seq![(desc@, None, false)]);
                    lines.push(row);
                    assert(rows_view(lines@) =~= seq![seq![(desc@, None, false)]]);
                },
                None => {},
            }
            let pushed = match &info.pushed_at {
                Some(p) => humanize_iso(p.as_str()),
                None => "?".to_string(),
            };
            let ghost head = rows_view(lines@);
            assert(head =~= match info.description {
                Some(desc) => seq![seq![(desc@, None, false)]],
                None => Seq::empty(),
            });
            let mut row: Vec<Piece> = Vec::new();
            row.push(kv_piece("language", or_else_exec(&info.primary_language, "-").as_str()));
            row.push(plain("   ", None));
            row.push(kv_piece("default", or_else_exec(&info.default_branch, "-").as_str()));
            row.push(plain("   ", None));
            row.push(kv_piece("pushed", pushed.as_str()));
            row.push(plain("   ", None));
            row.push(kv_piece("visibility", if info.is_private { "private" } else { "public" }));
            let mut stars: Vec<Piece> = Vec::new();
            stars.push(kv_piece("stars", string_of(&decimal_chars(info.stargazer_count)).as_str()));
            let ghost before = lines@;
            lines.push(row);
            lines.push(stars);
            assert(lines@ =~= before.push(row).push(stars));
            assert(row_view(row@) =~= seq![
                kv_text("language"@, or_else(info.primary_language, "-"@)),
                ("   "@, None, false),
                kv_text("default"@, or_else(info.default_branch, "-"@)),
                ("   "@, None, false),
                kv_text("pushed"@, match info.pushed_at {
                    Some(p) => humanize_iso_spec(p@),
                    None => "?"@,
                }),
                ("   "@, None, false),
                kv_text("visibility"@, if info.is_private { "private"@ } else { "public"@ }),
            ]);
            assert(row_view(stars@) =~= seq![kv_text("stars"@, decimal(info.stargazer_count as nat))]);
            assert(rows_view(lines@) =~= head.push(row_view(row@)).push(row_view(stars@)));
            assert(rows_view(lines@) =~= repo_header_spec(*d).body->Text_lines);
        },
        None => {
            let mut row: Vec<Piece> = Vec::new();
            row.push(plain("(metadata unavailable)", Some(Tone::DarkGray)));
            assert(row_view(row@) =~= seq![("(metadata unavailable)"@, Some(Tone::DarkGray), false)]);
            lines.push(row);
            assert(rows_view(lines@) =~= seq![seq![("(metadata unavailable)"@, Some(Tone::DarkGray), false)]]);
            assert(rows_view(lines@) =~= repo_header_spec(*d).body->Text_lines);
        },
    }
    PanelView { title: string_of(&t), lit: false, body: Body::Text { lines, scroll: 0, wrap: true } }
}

/// The top contributors of a repository: the error, `none`, or the lines.
pub open spec fn contributors_spec(d: RepoDetailState) -> PanelSpec {
    PanelSpec {
        title: " top contributors "@,
        lit: false,
        body: if d.contributors_err is Some {
            error_note(d.contributors_err->0, true)
        } else if d.contributors@.len() == 0 {
            gray_note("none"@)
        } else {
            BodyView::Rows {
                rows: d.contributors@.map_values(|c: Contributor| contributor_row(c)),
                selected: None,
                highlight: false,
            }
        },
    }
}

/// The top contributors of a repository (see [`contributors_spec`]).
pub fn contributors_view(d: &RepoDetailState) -> (v: PanelView)
    ensures
        v@ == contributors_spec(*d),
{
    let body = match &d.contributors_err {
        Some(e) => error_note_exec(e, true),
        None => {
            if d.contributors.len() == 0 {
                gray_note_exec("none")
            } else {
                Body::Rows { rows: contributor_rows(&d.contributors), selected: None, highlight: false }
            }
        },
    };
    PanelView { title: " top contributors ".to_string(), lit: false, body }
}

/// The heading of a member's detail: the organisation and the counts of
/// commits, submitted and reviewed pull requests.
pub open spec fn user_header_spec(d: UserDetailState, org: Option<String>) -> PanelSpec {
    PanelSpec {
        title: " @"@ + d.login@ + " "@,
        lit: false,
        body: BodyView::Text {
            lines: seq![
                seq![
                    ("org: "@, Some(Tone::DarkGray), false),
                    (or_else(org, "(unknown)"@), None, false),
                    ("   "@, None, false),
                    ("commits: "@, Some(Tone::DarkGray), false),
                    (decimal(d.commits@.len()), None, false),
                    ("   "@, None, false),
                    ("submitted: "@, Some(Tone::DarkGray), false),
                    (decimal(d.submitted_prs@.len()), None, false),
                    ("   "@, None, false),
                    ("reviewed: "@, Some(Tone::DarkGray), false),
                    (decimal(d.reviewed_prs@.len()), None, false),
                ],
            ],
            scroll: 0,
            wrap: false,
        },
    }
}

/// The heading of a member's detail (see [`user_header_spec`]).
pub fn user_header(d: &UserDetailState, org: &Option<String>) -> (v: PanelView)
    ensures
        v@ == user_header_spec(*d, *org),
{
    let mut t = chars_of(" @");
    append_str(&mut t, d.login.as_str());
    append_str(&mut t, " ");
    let mut row: Vec<Piece> = Vec::new();
    row.push(plain("org: ", Some(Tone::DarkGray)));
    row.push(Piece { text: or_else_exec(org, "(unknown)"), tone: None, bold: false });
    row.push(plain("   ", None));
    row.push(plain("commits: ", Some(Tone::DarkGray)));
    row.push(piece(decimal_chars(d.commits.len() as u64), None));
    row.push(plain("   ", None));
    row.push(plain("submitted: ", Some(Tone::DarkGray)));
    row.push(piece(decimal_chars(d.submitted_prs.len() as u64), None));
    row.push(plain("   ", None));
    row.push(plain("reviewed: ", Some(Tone::DarkGray)));
    row.push(piece(decimal_chars(d.reviewed_prs.len() as u64), None));
    let mut lines: Vec<Vec<Piece>> = Vec::new();
    lines.push(row);
    assert(row_view(row@) =~= user_header_spec(*d, *org).body->Text_lines[0]);
    assert(rows_view(lines@) =~= user_header_spec(*d, *org).body->Text_lines);
    PanelView { title: string_of(&t), lit: false, body: Body::Text { lines, scroll: 0, wrap: false } }
}

/// A member's commits: the error, a note when there are none, or the lines.
pub open spec fn user_commits_spec(d: UserDetailState) -> PanelSpec {
    PanelSpec {
        title: " recent commits "@,
        lit: false,
        body: if d.commits_err is Some {
            error_note(d.commits_err->0, true)
        } else if d.commits@.len() == 0 {
            gray_note("no recent commits"@)
        } else {
            BodyView::Rows {
                rows: d.commits@.map_values(|c: UserCommit| user_commit_row(c)),
                selected: None,
                highlight: false,
            }
        },
    }
}

/// A member's commits (see [`user_commits_spec`]).
pub fn user_commits_view(d: &UserDetailState) -> (v: PanelView)
    ensures
        v@ == user_commits_spec(*d),
{
    let body = match &d.commits_err {
        Some(e) => error_note_exec(e, true),
        None => {
            if d.commits.len() == 0 {
                gray_note_exec("no recent commits")
            } else {
                Body::Rows { rows: user_commit_rows(&d.commits), selected: None, highlight: false }
            }
        },
    };
    PanelView { title: " recent commits ".to_string(), lit: false, body }
}

/// A member's pull requests under a title: the error, a note when there are
/// none, or the lines.
pub open spec fn user_prs_spec(
    title: Seq<char>,
    prs: Seq<UserPr>,
    err: Option<String>,
    empty: Seq<char>,
    show_author: bool,
) -> PanelSpec {
    PanelSpec {
        title,
        lit: false,
        body: match err {
            Some(e) => error_note(e, true),
            None => if prs.len() == 0 {
                gray_note(empty)
            } else {
                BodyView::Rows {
                    rows: prs.map_values(|p: UserPr| user_pr_row(p, show_author)),
                    selected: None,
                    highlight: false,
                }
            },
        },
    }
}

/// A member's pull requests under a title (see [`user_prs_spec`]).
pub fn user_prs_view(
    title: &str,
    prs: &Vec<UserPr>,
    err: &Option<String>,
    empty: &str,
    show_author: bool,
) -> (v: PanelView)
    ensures
        v@ == user_prs_spec(title@, prs@, *err, empty@, show_author),
{
    let body = match err {
        Some(e) => error_note_exec(e, true),
        None => {
            if prs.len() == 0 {
                gray_note_exec(empty)
            } else {
                Body::Rows { rows: user_pr_rows(prs, show_author), selected: None, highlight: false }
            }
        },
    };
    PanelView { title: title.to_string(), lit: false, body }
}

/// A detail screen that could not be read: its title and the error.
pub open spec fn detail_error_spec(title: Seq<char>, e: String) -> PanelSpec {
    PanelSpec { title, lit: false, body: error_note(e, true) }
}

/// A detail screen that could not be read (see [`detail_error_spec`]).
pub fn detail_error(title: &str, e: &String) -> (v: PanelView)
    ensures
        v@ == detail_error_spec(title@, *e),
{
    PanelView { title: title.to_string(), lit: false, body: error_note_exec(e, true) }
}

/// One piece making a line.
pub open spec fn single(text: Seq<char>, tone: Option<Tone>) -> Seq<(Seq<char>, Option<Tone>, bool)> {
    seq![(text, tone, false)]
}

fn push_text_lines(out: &mut Vec<Vec<Piece>>, lines: &Vec<Vec<char>>, tone: Option<Tone>)
    ensures
        rows_view(final(out)@) == rows_view(old(out)@) + views(lines@).map_values(
            |l: Seq<char>| single(l, tone),
        ),
{
    let ghost f = |l: Seq<char>| single(l, tone);
    let ghost start = rows_view(out@);
    let mut i: usize = 0;
    while i < lines.len()
        invariant
            i <= lines@.len(),
            f == (|l: Seq<char>| single(l, tone)),
            rows_view(out@) == start + views(lines@).take(i as int).map_values(f),
        decreases lines.len() - i,
    {
        let mut row: Vec<Piece> = Vec::new();
        row.push(Piece { text: string_of(lines[i].as_slice()), tone, bold: false });
        assert(row_view(row@) =~= f(views(lines@)[i as int]));
        let ghost before = out@;
        out.push(row);
        proof {
            let v = views(lines@);
            assert(v.take(i + 1 as int) =~= v.take(i as int).push(v[i as int]));
            assert(rows_view(out@) =~= rows_view(before).push(row_view(out@[before.len() as int]@)));
            assert(v.take(i + 1 as int).map_values(f) =~= v.take(i as int).map_values(f).push(
                f(v[i as int]),
            ));
            assert(rows_view(out@) =~= start + v.take(i + 1 as int).map_values(f));
        }
        i = i + 1;
    }
    assert(views(lines@).take(lines.len() as int) =~= views(lines@));
}

/// The head of a commit's detail: author and email, date, subject in bold,
/// then, when the body is not blank, a blank line and the body's lines.
pub open spec fn commit_header_spec(d: CommitDetail) -> PanelSpec {
    PanelSpec {
        title: " "@ + take_spec(d.sha@, 12) + " "@,
        lit: false,
        body: BodyView::Text {
            lines: seq![
                seq![
                    ("author  "@, Some(Tone::DarkGray), false),
                    (d.author@, Some(Tone::Cyan), false),
                    (" <"@ + d.email@ + ">"@, None, false),
                ],
                seq![("date    "@, Some(Tone::DarkGray), false), (d.date@, None, false)],
                seq![("subject "@, Some(Tone::DarkGray), false), (d.subject@, None, true)],
            ] + if trim_spec(d.body@).len() == 0 {
                Seq::empty()
            } else {
                seq![Seq::<(Seq<char>, Option<Tone>, bool)>::empty()] + lines_spec(d.body@).map_values(
                    |l: Seq<char>| single(l, None),
                )
            },
            scroll: 0,
            wrap: true,
        },
    }
}

/// The head of a commit's detail (see [`commit_header_spec`]).
pub fn commit_header(d: &CommitDetail) -> (v: PanelView)
    ensures
        v@ == commit_header_spec(*d),
{
    let mut t = chars_of(" ");
    append_str(&mut t, take_chars(d.sha.as_str(), 12).as_str());
    append_str(&mut t, " ");
    let mut who = chars_of(" <");
    append_str(&mut who, d.email.as_str());
    append_str(&mut who, ">");
    let mut r1: Vec<Piece> = Vec::new();
    r1.push(plain("author  ", Some(Tone::DarkGray)));
    r1.push(Piece { text: d.author.clone(), tone: Some(Tone::Cyan), bold: false });
    r1.push(piece(who, None));
    let mut r2: Vec<Piece> = Vec::new();
    r2.push(plain("date    ", Some(Tone::DarkGray)));
    r2.push(Piece { text: d.date.clone(), tone: None, bold: false });
    let mut r3: Vec<Piece> = Vec::new();
    r3.push(plain("subject ", Some(Tone::DarkGray)));
    r3.push(Piece { text: d.subject.clone(), tone: None, bold: true });
    let ghost spec_lines = commit_header_spec(*d).body->Text_lines;
    let ghost first = seq![row_view(r1@), row_view(r2@), row_view(r3@)];
    assert(row_view(r1@) =~= spec_lines[0]);
    assert(row_view(r2@) =~= spec_lines[1]);
    assert(row_view(r3@) =~= spec_lines[2]);
    let mut lines: Vec<Vec<Piece>> = Vec::new();
    lines.push(r1);
    lines.push(r2);
    lines.push(r3);
    assert(rows_view(lines@) =~= first);
    let bv = chars_of(d.body.as_str());
    let trimmed = trim_chars(&bv);
    if trimmed.len() > 0 {
        let body_lines = lines_chars(&bv);
        let ghost before = rows_view(lines@);
        let blank: Vec<Piece> = Vec::new();
        assert(row_view(blank@) =~= Seq::empty());
        lines.push(blank);
        assert(rows_view(lines@) =~= before.push(Seq::empty()));
        push_text_lines(&mut lines, &body_lines, None);
        assert(rows_view(lines@) =~= spec_lines);
    } else {
        assert(rows_view(lines@) =~= spec_lines);
    }
    PanelView { title: string_of(&t), lit: false, body: Body::Text { lines, scroll: 0, wrap: true } }
}


/// A line of the files a commit changed, coloured as
/// [`stat_line_pieces`] says.
pub open spec fn stat_row(s: Seq<char>) -> Seq<(Seq<char>, Option<Tone>, bool)> {
    stat_line_pieces(s).map_values(|p: (Seq<char>, Option<Tone>)| (p.0, p.1, false))
}

fn stat_row_exec(s: &String) -> (r: Vec<Piece>)
    ensures
        row_view(r@) == stat_row(s@),
{
    let styled = colorize_stat_line(s.as_str());
    let ghost want = stat_row(s@);
    proof {
        assert(styled@.map_values(|p: Styled| styled_view(p)).len() == styled@.len());
    }
    let mut r: Vec<Piece> = Vec::new();
    let mut i: usize = 0;
    while i < styled.len()
        invariant
            i <= styled@.len(),
            want == stat_row(s@),
            styled@.map_values(|p: Styled| styled_view(p)) == stat_line_pieces(s@),
            row_view(r@) == want.take(i as int),
        decreases styled.len() - i,
    {
        let p = Piece { text: styled[i].text.clone(), tone: styled[i].tone, bold: false };
        proof {
            assert(styled_view(styled@[i as int]) == stat_line_pieces(s@)[i as int]);
        }
        let ghost before = r@;
        r.push(p);
        assert(row_view(r@) =~= row_view(before).push(piece_view(p)));
        assert(want.take(i + 1 as int) =~= want.take(i as int).push(want[i as int]));
        i = i + 1;
    }
    assert(want.take(styled.len() as int) =~= want);
    r
}

/// The files a commit changed, one coloured line each, scrolled down by
/// `scroll`; a dark gray note when there are none.
pub open spec fn commit_files_spec(d: CommitDetail, scroll: u16) -> PanelSpec {
    PanelSpec {
        title: " files changed "@,
        lit: false,
        body: if d.stat_lines@.len() == 0 {
            gray_note("(no file changes)"@)
        } else {
            BodyView::Text {
                lines: d.stat_lines@.map_values(|l: String| stat_row(l@)),
                scroll,
                wrap: false,
            }
        },
    }
}

/// The files a commit changed (see [`commit_files_spec`]).
pub fn commit_files(d: &CommitDetail, scroll: u16) -> (v: PanelView)
    ensures
        v@ == commit_files_spec(*d, scroll),
{
    if d.stat_lines.len() == 0 {
        return PanelView {
            title: " files changed ".to_string(),
            lit: false,
            body: gray_note_exec("(no file changes)"),
        };
    }
    let ghost want = d.stat_lines@.map_values(|l: String| stat_row(l@));
    let mut lines: Vec<Vec<Piece>> = Vec::new();
    let mut i: usize = 0;
    while i < d.stat_lines.len()
        invariant
            i <= d.stat_lines@.len(),
            want == d.stat_lines@.map_values(|l: String| stat_row(l@)),
            rows_view(lines@) == want.take(i as int),
        decreases d.stat_lines.len() - i,
    {
        let row = stat_row_exec(&d.stat_lines[i]);
        let ghost before = lines@;
        lines.push(row);
        assert(rows_view(lines@) =~= rows_view(before).push(row_view(row@)));
        assert(want.take(i + 1 as int) =~= want.take(i as int).push(want[i as int]));
        i = i + 1;
    }
    assert(want.take(d.stat_lines.len() as int) =~= want);
    PanelView {
        title: " files changed ".to_string(),
        lit: false,
        body: Body::Text { lines, scroll, wrap: false },
    }
}

/// The title of a pull request's detail: its number and its title cut to
/// eighty characters.
pub open spec fn pr_title(d: PrDetail) -> Seq<char> {
    " #"@ + decimal(d.number as nat) + " — "@ + truncate_spec(d.title@, 80) + " "@
}

/// The head of a pull request's detail: state, author and update time;
/// branches and line counts; the link.
pub open spec fn pr_header_spec(d: PrDetail) -> PanelSpec {
    let st = pr_state_spec(d.state@, d.is_draft);
    PanelSpec {
        title: pr_title(d),
        lit: false,
        body: BodyView::Text {
            lines: seq![
                seq![
                    ("state    "@, Some(Tone::DarkGray), false),
                    (st.0, Some(st.1), false),
                    ("   "@, None, false),
                    ("author "@, Some(Tone::DarkGray), false),
                    ("@"@ + d.author@, Some(Tone::Cyan), false),
                    ("   "@, None, false),
                    ("updated "@, Some(Tone::DarkGray), false),
                    (d.updated_at@, None, false),
                ],
                seq![
                    ("branch   "@, Some(Tone::DarkGray), false),
                    (d.head_ref@, Some(Tone::Yellow), false),
                    (" → "@, Some(Tone::DarkGray), false),
                    (d.base_ref@, Some(Tone::Yellow), false),
                    ("   "@, None, false),
                    ("+"@ + decimal(d.additions as nat), Some(Tone::Green), false),
                    (" "@, None, false),
                    ("-"@ + decimal(d.deletions as nat), Some(Tone::Red), false),
                ],
                seq![
                    ("url      "@, Some(Tone::DarkGray), false),
                    (d.url@, Some(Tone::Blue), false),
                    ("   (press 'o' to open)"@, Some(Tone::DarkGray), false),
                ],
            ],
            scroll: 0,
            wrap: true,
        },
    }
}

fn pr_title_exec(d: &PrDetail) -> (t: String)
    ensures
        t@ == pr_title(*d),
{
    let mut t = chars_of(" #");
    append_chars(&mut t, &decimal_chars(d.number));
    append_str(&mut t, " — ");
    append_str(&mut t, truncate(d.title.as_str(), 80).as_str());
    append_str(&mut t, " ");
    string_of(&t)
}

fn prefixed(p: &str, v: Vec<char>, tone: Option<Tone>) -> (r: Piece)
    ensures
        piece_view(r) == (p@ + v@, tone, false),
{
    let mut t = chars_of(p);
    append_chars(&mut t, &v);
    piece(t, tone)
}

/// The head of a pull request's detail (see [`pr_header_spec`]).
pub fn pr_header(d: &PrDetail) -> (v: PanelView)
    ensures
        v@ == pr_header_spec(*d),
{
    let st = pr_state_style(d.state.as_str(), d.is_draft);
    let ghost want = pr_header_spec(*d).body->Text_lines;
    let mut r1: Vec<Piece> = Vec::new();
    r1.push(plain("state    ", Some(Tone::DarkGray)));
    r1.push(plain(st.0, Some(st.1)));
    r1.push(plain("   ", None));
    r1.push(plain("author ", Some(Tone::DarkGray)));
    r1.push(prefixed("@", chars_of(d.author.as_str()), Some(Tone::Cyan)));
    r1.push(plain("   ", None));
    r1.push(plain("updated ", Some(Tone::DarkGray)));
    r1.push(plain(d.updated_at.as_str(), None));
    assert(row_view(r1@) =~= want[0]);
    let mut r2: Vec<Piece> = Vec::new();
    r2.push(plain("branch   ", Some(Tone::DarkGray)));
    r2.push(plain(d.head_ref.as_str(), Some(Tone::Yellow)));
    r2.push(plain(" → ", Some(Tone::DarkGray)));
    r2.push(plain(d.base_ref.as_str(), Some(Tone::Yellow)));
    r2.push(plain("   ", None));
    r2.push(prefixed("+", decimal_chars(d.additions), Some(Tone::Green)));
    r2.push(plain(" ", None));
    r2.push(prefixed("-", decimal_chars(d.deletions), Some(Tone::Red)));
    assert(row_view(r2@) =~= want[1]);
    let mut r3: Vec<Piece> = Vec::new();
    r3.push(plain("url      ", Some(Tone::DarkGray)));
    r3.push(plain(d.url.as_str(), Some(Tone::Blue)));
    r3.push(plain("   (press 'o' to open)", Some(Tone::DarkGray)));
    assert(row_view(r3@) =~= want[2]);
    let mut lines: Vec<Vec<Piece>> = Vec::new();
    lines.push(r1);
    lines.push(r2);
    lines.push(r3);
    assert(rows_view(lines@) =~= want);
    PanelView { title: pr_title_exec(d), lit: false, body: Body::Text { lines, scroll: 0, wrap: true } }
}

/// A pull request's description, scrolled down by `scroll`: its lines once
/// `\r\n` is made `\n`, or `(no description)` in dark gray when it is blank.
pub open spec fn pr_body_spec(d: PrDetail, scroll: u16) -> PanelSpec {
    PanelSpec {
        title: " description "@,
        lit: false,
        body: BodyView::Text {
            lines: if trim_spec(d.body@).len() == 0 {
                seq![single("(no description)"@, Some(Tone::DarkGray))]
            } else {
                lines_spec(replace_all_spec(d.body@, "\r\n"@, "\n"@)).map_values(
                    |l: Seq<char>| single(l, None),
                )
            },
            scroll,
            wrap: true,
        },
    }
}

/// A pull request's description (see [`pr_body_spec`]).
pub fn pr_body(d: &PrDetail, scroll: u16) -> (v: PanelView)
    ensures
        v@ == pr_body_spec(*d, scroll),
{
    let bv = chars_of(d.body.as_str());
    let ghost want = pr_body_spec(*d, scroll).body->Text_lines;
    let mut lines: Vec<Vec<Piece>> = Vec::new();
    if trim_chars(&bv).len() == 0 {
        let mut row: Vec<Piece> = Vec::new();
        row.push(plain("(no description)", Some(Tone::DarkGray)));
        assert(row_view(row@) =~= single("(no description)"@, Some(Tone::DarkGray)));
        lines.push(row);
        assert(rows_view(lines@) =~= want);
    } else {
        proof {
            reveal_strlit("\r\n");
        }
        let fixed = replace_all_chars(&bv, &chars_of("\r\n"), &chars_of("\n"));
        let split = lines_chars(&fixed);
        assert(rows_view(lines@) =~= Seq::empty());
        push_text_lines(&mut lines, &split, None);
        assert(rows_view(lines@) =~= want);
    }
    PanelView {
        title: " description ".to_string(),
        lit: false,
        body: Body::Text { lines, scroll, wrap: true },
    }
}

/// A notification in full: reason (coloured by [`reason_tone_spec`]),
/// type, repository, title in bold, read state, update time, a blank line,
/// the link and how to open it.
pub open spec fn notification_detail_spec(n: Notification) -> PanelSpec {
    PanelSpec {
        title: " notification — "@ + n.kind@ + " "@,
        lit: false,
        body: BodyView::Text {
            lines: seq![
                seq![
                    ("reason  "@, Some(Tone::DarkGray), false),
                    (n.reason@, Some(reason_tone_spec(n.reason@)), false),
                ],
                seq![("type    "@, Some(Tone::DarkGray), false), (n.kind@, None, false)],
                seq![("repo    "@, Some(Tone::DarkGray), false), (n.repo@, Some(Tone::Green), false)],
                seq![("title   "@, Some(Tone::DarkGray), false), (n.title@, None, true)],
                seq![
                    ("status  "@, Some(Tone::DarkGray), false),
                    if n.unread {
                        ("● unread"@, Some(Tone::Yellow), false)
                    } else {
                        ("read"@, Some(Tone::DarkGray), false)
                    },
                ],
                seq![("updated "@, Some(Tone::DarkGray), false), (n.updated_at@, None, false)],
                Seq::empty(),
                seq![("url     "@, Some(Tone::DarkGray), false), (n.web_url@, Some(Tone::Blue), false)],
                single("(press 'o' to open in browser)"@, Some(Tone::DarkGray)),
            ],
            scroll: 0,
            wrap: true,
        },
    }
}

fn label_row(label: &str, p: Piece) -> (r: Vec<Piece>)
    ensures
        row_view(r@) == seq![(label@, Some(Tone::DarkGray), false), piece_view(p)],
{
    let mut r: Vec<Piece> = Vec::new();
    r.push(plain(label, Some(Tone::DarkGray)));
    r.push(p);
    assert(row_view(r@) =~= seq![(label@, Some(Tone::DarkGray), false), piece_view(p)]);
    r
}

/// A notification in full (see [`notification_detail_spec`]).
pub fn notification_detail(n: &Notification) -> (v: PanelView)
    ensures
        v@ == notification_detail_spec(*n),
{
    let ghost want = notification_detail_spec(*n).body->Text_lines;
    let mut t = chars_of(" notification — ");
    append_str(&mut t, n.kind.as_str());
    append_str(&mut t, " ");
    let mut lines: Vec<Vec<Piece>> = Vec::new();
    lines.push(label_row("reason  ", plain(n.reason.as_str(), Some(reason_tone(n.reason.as_str())))));
    lines.push(label_row("type    ", plain(n.kind.as_str(), None)));
    lines.push(label_row("repo    ", plain(n.repo.as_str(), Some(Tone::Green))));
    lines.push(label_row("title   ", Piece { text: n.title.clone(), tone: None, bold: true }));
    let status = if n.unread {
        plain("● unread", Some(Tone::Yellow))
    } else {
        plain("read", Some(Tone::DarkGray))
    };
    lines.push(label_row("status  ", status));
    lines.push(label_row("updated ", plain(n.updated_at.as_str(), None)));
    let blank: Vec<Piece> = Vec::new();
    assert(row_view(blank@) =~= Seq::empty());
    lines.push(blank);
    lines.push(label_row("url     ", plain(n.web_url.as_str(), Some(Tone::Blue))));
    let mut last: Vec<Piece> = Vec::new();
    last.push(plain("(press 'o' to open in browser)", Some(Tone::DarkGray)));
    assert(row_view(last@) =~= want[8]);
    lines.push(last);
    assert(rows_view(lines@) =~= want);
    PanelView { title: string_of(&t), lit: false, body: Body::Text { lines, scroll: 0, wrap: true } }
}

/// What the Repo tab shows outside a git repository.
pub open spec fn outside_repo_spec() -> PanelSpec {
    PanelSpec {
        title: " repo "@,
        lit: false,
        body: BodyView::Note {
            text: "current directory is not a git repository\n\nrun gitcycle from inside a git repo to use this tab"@,
            tone: Some(Tone::DarkGray),
            wrap: true,
        },
    }
}

/// What the Repo tab shows outside a git repository (see
/// [`outside_repo_spec`]).
pub fn outside_repo() -> (v: PanelView)
    ensures
        v@ == outside_repo_spec(),
{
    PanelView {
        title: " repo ".to_string(),
        lit: false,
        body: Body::Note {
            text: "current directory is not a git repository\n\nrun gitcycle from inside a git repo to use this tab".to_string(),
            tone: Some(Tone::DarkGray),
            wrap: true,
        },
    }
}

} // verus!
