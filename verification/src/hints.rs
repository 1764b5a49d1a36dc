//! The key hints of the footer and the tab that is lit, for each state of
//! the interface.
use vstd::prelude::*;
use crate::keys::any_focused;
use crate::state::{App, DetailOrigin, OrgSubview, Screen};
use crate::text::{append_str, chars_of, string_of};

verus! {

/// A piece of the footer: its text, and whether it is a key (drawn bold).
#[derive(Debug)]
pub struct Hint {
    pub text: String,
    pub bold: bool,
}

/// The views of footer pieces.
pub open spec fn hint_views(v: Seq<Hint>) -> Seq<(Seq<char>, bool)> {
    v.map_values(|h: Hint| (h.text@, h.bold))
}

/// The hints shown everywhere but in search typing.
pub open spec fn common_hints() -> Seq<(Seq<char>, bool)> {
    seq![
        ("q"@, true),
        (" quit  "@, false),
        ("r"@, true),
        (" reload  "@, false),
        ("1/2"@, true),
        (" or "@, false),
        ("←/→"@, true),
        (" tabs"@, false),
    ]
}

/// The hints of search typing, which replace all others.
pub open spec fn search_hints() -> Seq<(Seq<char>, bool)> {
    seq![
        ("type to filter"@, true),
        ("  "@, false),
        ("Backspace"@, true),
        (" delete  "@, false),
        ("Enter"@, true),
        (" confirm  "@, false),
        ("Esc"@, true),
        (" clear"@, false),
    ]
}

/// The hints of a focused list: move, act with Enter (`enter` says how),
/// and leave with Esc (`esc` says how).
pub open spec fn list_hints(enter: Seq<char>, esc: Seq<char>) -> Seq<(Seq<char>, bool)> {
    seq![
        ("  "@, false),
        ("↑↓/jk"@, true),
        (" select  "@, false),
        ("Enter"@, true),
        (enter, false),
        ("Esc"@, true),
        (esc, false),
    ]
}

/// The hints of a searchable list of the Org tab.
pub open spec fn org_list_hints() -> Seq<(Seq<char>, bool)> {
    seq![
        ("  "@, false),
        ("[ ]"@, true),
        (" sub-view"@, false),
        ("  "@, false),
        ("↑↓/jk"@, true),
        (" select  "@, false),
        ("Enter"@, true),
        (" open  "@, false),
        ("/"@, true),
        (" filter"@, false),
    ]
}

/// The footer of each state.
pub open spec fn footer_spec(a: App) -> Seq<(Seq<char>, bool)> {
    match a.screen {
        Screen::Dashboard => common_hints() + if any_focused(a.dashboard) {
            seq![
                ("  "@, false),
                ("↑↓/jk"@, true),
                (" select  "@, false),
                ("Enter"@, true),
                (" detail  "@, false),
                ("o"@, true),
                (" open in browser  "@, false),
                ("Esc"@, true),
                (" unfocus"@, false),
            ]
        } else {
            seq![
                ("  "@, false),
                ("v"@, true),
                (" review  "@, false),
                ("p"@, true),
                (" my PRs  "@, false),
                ("n"@, true),
                (" notifications  "@, false),
                ("c"@, true),
                (" my commits"@, false),
            ]
        },
        Screen::PrDetail | Screen::NotificationDetail => common_hints() + seq![
            ("  "@, false),
            ("↑↓/jk PgUp/PgDn"@, true),
            (" scroll  "@, false),
            ("o"@, true),
            (" open in browser  "@, false),
            ("Esc"@, true),
            (" back"@, false),
        ],
        Screen::Repo => common_hints() + if a.repo.commits.focused {
            list_hints(" detail  "@, " unfocus"@)
        } else if a.repo.dirty.focused {
            if a.repo.diff is Some {
                list_hints(" diff  "@, " close diff"@)
            } else {
                list_hints(" diff  "@, " unfocus"@)
            }
        } else {
            seq![
                ("  "@, false),
                ("c"@, true),
                (" focus commits  "@, false),
                ("d"@, true),
                (" focus dirty files"@, false),
            ]
        },
        Screen::CommitDetail => common_hints() + seq![
            ("  "@, false),
            ("↑↓/jk PgUp/PgDn"@, true),
            (" scroll  "@, false),
            ("Esc"@, true),
            (" back"@, false),
        ],
        Screen::Org => match a.org.subview {
            OrgSubview::Activity => common_hints() + seq![
                ("  "@, false),
                ("[ ]"@, true),
                (" sub-view"@, false),
                ("  "@, false),
                ("↑↓/jk"@, true),
                (" scroll  "@, false),
                ("g/G"@, true),
                (" top/bot"@, false),
            ],
            OrgSubview::Repos => if a.org.repos.filtering {
                search_hints()
            } else {
                common_hints() + org_list_hints()
            },
            OrgSubview::Users => if a.org.users.filtering {
                search_hints()
            } else {
                common_hints() + org_list_hints()
            },
        },
        Screen::RepoDetail | Screen::UserDetail => common_hints() + seq![
            ("  "@, false),
            ("Esc"@, true),
            (" back"@, false),
        ],
    }
}

fn put(v: &mut Vec<Hint>, text: &str, bold: bool)
    ensures
        hint_views(final(v)@) == hint_views(old(v)@).push((text@, bold)),
{
    let ghost before = v@;
    v.push(Hint { text: text.to_string(), bold });
    assert(hint_views(v@) =~= hint_views(before).push((text@, bold)));
}

fn put_common(v: &mut Vec<Hint>)
    ensures
        hint_views(final(v)@) == hint_views(old(v)@) + common_hints(),
{
    let ghost before = hint_views(v@);
    put(v, "q", true);
    put(v, " quit  ", false);
    put(v, "r", true);
    put(v, " reload  ", false);
    put(v, "1/2", true);
    put(v, " or ", false);
    put(v, "←/→", true);
    put(v, " tabs", false);
    assert(hint_views(v@) =~= before + common_hints());
}

fn put_list(v: &mut Vec<Hint>, enter: &str, esc: &str)
    ensures
        hint_views(final(v)@) == hint_views(old(v)@) + list_hints(enter@, esc@),
{
    let ghost before = hint_views(v@);
    put(v, "  ", false);
    put(v, "↑↓/jk", true);
    put(v, " select  ", false);
    put(v, "Enter", true);
    put(v, enter, false);
    put(v, "Esc", true);
    put(v, esc, false);
    assert(hint_views(v@) =~= before + list_hints(enter@, esc@));
}

fn put_org_list(v: &mut Vec<Hint>)
    ensures
        hint_views(final(v)@) == hint_views(old(v)@) + org_list_hints(),
{
    let ghost before = hint_views(v@);
    put(v, "  ", false);
    put(v, "[ ]", true);
    put(v, " sub-view", false);
    put(v, "  ", false);
    put(v, "↑↓/jk", true);
    put(v, " select  ", false);
    put(v, "Enter", true);
    put(v, " open  ", false);
    put(v, "/", true);
    put(v, " filter", false);
    assert(hint_views(v@) =~= before + org_list_hints());
}

fn search(v: &mut Vec<Hint>)
    ensures
        hint_views(final(v)@) == hint_views(old(v)@) + search_hints(),
{
    let ghost before = hint_views(v@);
    put(v, "type to filter", true);
    put(v, "  ", false);
    put(v, "Backspace", true);
    put(v, " delete  ", false);
    put(v, "Enter", true);
    put(v, " confirm  ", false);
    put(v, "Esc", true);
    put(v, " clear", false);
    assert(hint_views(v@) =~= before + search_hints());
}

/// The footer's key hints for a state (see [`footer_spec`]).
pub fn footer_hints(a: &App) -> (r: Vec<Hint>)
    ensures
        hint_views(r@) == footer_spec(*a),
{
    let mut v: Vec<Hint> = Vec::new();
    assert(hint_views(v@) =~= Seq::<(Seq<char>, bool)>::empty());
    match a.screen {
        Screen::Dashboard => {
            put_common(&mut v);
            let ghost mid = hint_views(v@);
            let d = &a.dashboard;
            if d.review.focused || d.my_prs.focused || d.notifications.focused
                || d.my_commits.focused {
                put(&mut v, "  ", false);
                put(&mut v, "↑↓/jk", true);
                put(&mut v, " select  ", false);
                put(&mut v, "Enter", true);
                put(&mut v, " detail  ", false);
                put(&mut v, "o", true);
                put(&mut v, " open in browser  ", false);
                put(&mut v, "Esc", true);
                put(&mut v, " unfocus", false);
            } else {
                put(&mut v, "  ", false);
                put(&mut v, "v", true);
                put(&mut v, " review  ", false);
                put(&mut v, "p", true);
                put(&mut v, " my PRs  ", false);
                put(&mut v, "n", true);
                put(&mut v, " notifications  ", false);
                put(&mut v, "c", true);
                put(&mut v, " my commits", false);
            }
            assert(hint_views(v@) =~= footer_spec(*a));
        },
        Screen::PrDetail | Screen::NotificationDetail => {
            put_common(&mut v);
            put(&mut v, "  ", false);
            put(&mut v, "↑↓/jk PgUp/PgDn", true);
            put(&mut v, " scroll  ", false);
            put(&mut v, "o", true);
            put(&mut v, " open in browser  ", false);
            put(&mut v, "Esc", true);
            put(&mut v, " back", false);
            assert(hint_views(v@) =~= footer_spec(*a));
        },
        Screen::Repo => {
            put_common(&mut v);
            if a.repo.commits.focused {
                put_list(&mut v, " detail  ", " unfocus");
            } else if a.repo.dirty.focused {
                if a.repo.diff.is_some() {
                    put_list(&mut v, " diff  ", " close diff");
                } else {
                    put_list(&mut v, " diff  ", " unfocus");
                }
            } else {
                put(&mut v, "  ", false);
                put(&mut v, "c", true);
                put(&mut v, " focus commits  ", false);
                put(&mut v, "d", true);
                put(&mut v, " focus dirty files", false);
            }
            assert(hint_views(v@) =~= footer_spec(*a));
        },
        Screen::CommitDetail => {
            put_common(&mut v);
            put(&mut v, "  ", false);
            put(&mut v, "↑↓/jk PgUp/PgDn", true);
            put(&mut v, " scroll  ", false);
            put(&mut v, "Esc", true);
            put(&mut v, " back", false);
            assert(hint_views(v@) =~= footer_spec(*a));
        },
        Screen::Org => {
            match a.org.subview {
                OrgSubview::Activity => {
                    put_common(&mut v);
                    put(&mut v, "  ", false);
                    put(&mut v, "[ ]", true);
                    put(&mut v, " sub-view", false);
                    put(&mut v, "  ", false);
                    put(&mut v, "↑↓/jk", true);
                    put(&mut v, " scroll  ", false);
                    put(&mut v, "g/G", true);
                    put(&mut v, " top/bot", false);
                },
                OrgSubview::Repos => {
                    if a.org.repos.filtering {
                        search(&mut v);
                    } else {
                        put_common(&mut v);
                        put_org_list(&mut v);
                    }
                },
                OrgSubview::Users => {
                    if a.org.users.filtering {
                        search(&mut v);
                    } else {
                        put_common(&mut v);
                        put_org_list(&mut v);
                    }
                },
            }
            assert(hint_views(v@) =~= footer_spec(*a));
        },
        Screen::RepoDetail | Screen::UserDetail => {
            put_common(&mut v);
            put(&mut v, "  ", false);
            put(&mut v, "Esc", true);
            put(&mut v, " back", false);
            assert(hint_views(v@) =~= footer_spec(*a));
        },
    }
    v
}

/// The tab lit for a state: the dashboard for its details, the Org tab for
/// its, and a commit detail under the tab it was opened from.
pub open spec fn tab_index_spec(a: App) -> usize {
    match a.screen {
        Screen::Dashboard | Screen::PrDetail | Screen::NotificationDetail => 0,
        Screen::Repo => 1,
        Screen::CommitDetail => match a.commit_detail {
            Some(v) => match v.origin {
                DetailOrigin::Dashboard => 0,
                DetailOrigin::Repo => 1,
            },
            None => 1,
        },
        Screen::Org | Screen::RepoDetail | Screen::UserDetail => 2,
    }
}

/// The tab lit for a state (see [`tab_index_spec`]).
pub fn tab_index(a: &App) -> (r: usize)
    ensures
        r == tab_index_spec(*a),
{
    match a.screen {
        Screen::Dashboard | Screen::PrDetail | Screen::NotificationDetail => 0,
        Screen::Repo => 1,
        Screen::CommitDetail => match &a.commit_detail {
            Some(v) => match v.origin {
                DetailOrigin::Dashboard => 0,
                DetailOrigin::Repo => 1,
            },
            None => 1,
        },
        Screen::Org | Screen::RepoDetail | Screen::UserDetail => 2,
    }
}

/// The labels of the three tabs: the dashboard names the signed-in user and
/// the Org tab its organisation, when they are known.
pub open spec fn tab_labels_spec(a: App) -> Seq<Seq<char>> {
    seq![
        match a.authed_user {
            Some(u) => "1 Dashboard (@"@ + u@ + ")"@,
            None => "1 Dashboard"@,
        },
        "2 Repo"@,
        match a.org.name {
            Some(n) => "3 Org ("@ + n@ + ")"@,
            None => "3 Org"@,
        },
    ]
}

/// The labels of the three tabs (see [`tab_labels_spec`]).
pub fn tab_labels(a: &App) -> (r: Vec<String>)
    ensures
        r@.map_values(|s: String| s@) == tab_labels_spec(*a),
{
    let dash = match &a.authed_user {
        Some(u) => {
            let mut t = chars_of("1 Dashboard (@");
            append_str(&mut t, u.as_str());
            append_str(&mut t, ")");
            string_of(&t)
        },
        None => "1 Dashboard".to_string(),
    };
    let org = match &a.org.name {
        Some(n) => {
            let mut t = chars_of("3 Org (");
            append_str(&mut t, n.as_str());
            append_str(&mut t, ")");
            string_of(&t)
        },
        None => "3 Org".to_string(),
    };
    let mut r: Vec<String> = Vec::new();
    r.push(dash);
    r.push("2 Repo".to_string());
    r.push(org);
    assert(r@.map_values(|s: String| s@) =~= tab_labels_spec(*a));
    r
}

/// The position of the Org tab's view among Activity, Repos and Users.
pub open spec fn subview_index_spec(v: OrgSubview) -> usize {
    match v {
        OrgSubview::Activity => 0,
        OrgSubview::Repos => 1,
        OrgSubview::Users => 2,
    }
}

/// The position of the Org tab's view (see [`subview_index_spec`]).
pub fn subview_index(v: OrgSubview) -> (r: usize)
    ensures
        r == subview_index_spec(v),
{
    match v {
        OrgSubview::Activity => 0,
        OrgSubview::Repos => 1,
        OrgSubview::Users => 2,
    }
}

} // verus!
