//! What a key press does: the next state of the interface, and the outside
//! work it asks for.
use vstd::prelude::*;
use crate::activity::str_eq;
use crate::github::{split_full_name, split_full_name_spec};
use crate::panel::{
    filter_members, filter_repos, filtered_members, filtered_repos, focused_panel,
    lemma_filtered_members_positions, lemma_filtered_repos_positions, move_within,
    moved_or_cleared, popped, reset_sel, selected_item, stepped_cleared, stepped_kept,
    FilterList, Panel,
};
use crate::state::{
    Action, ActionView, App, CommitDetailView, DashboardState, DetailOrigin, Key, OrgState,
    OrgSubview, PrDetailView, RepoDetailState, RepoTab, Screen, UserDetailState,
};
use crate::text::{append_chars, append_str, chars_of, decimal, decimal_chars, string_of};
use crate::types::{Notification, RepoInfo, UserActivity};

verus! {

/// The screen the Tab key moves to.
pub open spec fn next_tab(s: Screen) -> Screen {
    match s {
        Screen::Dashboard => Screen::Repo,
        Screen::Repo => Screen::Org,
        Screen::Org => Screen::Dashboard,
        _ => Screen::Dashboard,
    }
}

/// The screen the BackTab key moves to.
pub open spec fn prev_tab(s: Screen) -> Screen {
    match s {
        Screen::Dashboard => Screen::Org,
        Screen::Repo => Screen::Dashboard,
        Screen::Org => Screen::Repo,
        _ => Screen::Dashboard,
    }
}

/// The Org view that `]` moves to.
pub open spec fn next_subview(v: OrgSubview) -> OrgSubview {
    match v {
        OrgSubview::Activity => OrgSubview::Repos,
        OrgSubview::Repos => OrgSubview::Users,
        OrgSubview::Users => OrgSubview::Activity,
    }
}

/// The Org view that `[` moves to.
pub open spec fn prev_subview(v: OrgSubview) -> OrgSubview {
    match v {
        OrgSubview::Activity => OrgSubview::Users,
        OrgSubview::Repos => OrgSubview::Activity,
        OrgSubview::Users => OrgSubview::Repos,
    }
}

pub(crate) fn next_tab_exec(s: Screen) -> (r: Screen)
    ensures
        r == next_tab(s),
{
    match s {
        Screen::Dashboard => Screen::Repo,
        Screen::Repo => Screen::Org,
        Screen::Org => Screen::Dashboard,
        _ => Screen::Dashboard,
    }
}

pub(crate) fn prev_tab_exec(s: Screen) -> (r: Screen)
    ensures
        r == prev_tab(s),
{
    match s {
        Screen::Dashboard => Screen::Org,
        Screen::Repo => Screen::Dashboard,
        Screen::Org => Screen::Repo,
        _ => Screen::Dashboard,
    }
}

pub(crate) fn next_subview_exec(v: OrgSubview) -> (r: OrgSubview)
    ensures
        r == next_subview(v),
{
    match v {
        OrgSubview::Activity => OrgSubview::Repos,
        OrgSubview::Repos => OrgSubview::Users,
        OrgSubview::Users => OrgSubview::Activity,
    }
}

pub(crate) fn prev_subview_exec(v: OrgSubview) -> (r: OrgSubview)
    ensures
        r == prev_subview(v),
{
    match v {
        OrgSubview::Activity => OrgSubview::Users,
        OrgSubview::Repos => OrgSubview::Activity,
        OrgSubview::Users => OrgSubview::Repos,
    }
}

/// How far a key moves a selection, if it moves one.
pub open spec fn step_delta(k: Key) -> Option<int> {
    match k {
        Key::Down => Some(1),
        Key::Up => Some(-1),
        Key::PageDown => Some(10),
        Key::PageUp => Some(-10),
        Key::Home => Some(-9999),
        Key::End => Some(9999),
        Key::Char(c) => if c == 'j' {
            Some(1)
        } else if c == 'k' {
            Some(-1)
        } else if c == 'g' {
            Some(-9999)
        } else if c == 'G' {
            Some(9999)
        } else {
            None
        },
        _ => None,
    }
}

pub(crate) fn step_delta_exec(k: Key) -> (r: Option<i32>)
    ensures
        match r {
            Some(d) => step_delta(k) == Some(d as int),
            None => step_delta(k) is None,
        },
{
    match k {
        Key::Down => Some(1),
        Key::Up => Some(-1),
        Key::PageDown => Some(10),
        Key::PageUp => Some(-10),
        Key::Home => Some(-9999),
        Key::End => Some(9999),
        Key::Char(c) => {
            if c == 'j' {
                Some(1)
            } else if c == 'k' {
                Some(-1)
            } else if c == 'g' {
                Some(-9999)
            } else if c == 'G' {
                Some(9999)
            } else {
                None
            }
        },
        _ => None,
    }
}

/// `x + d` saturating at the bounds of a `u16`.
pub open spec fn sat16(x: u16, d: int) -> u16 {
    if x + d > 0xffff {
        0xffff
    } else if x + d < 0 {
        0
    } else {
        (x + d) as u16
    }
}

pub(crate) fn sat16_exec(x: u16, d: i32) -> (r: u16)
    requires
        -100 <= d <= 100,
    ensures
        r == sat16(x, d as int),
{
    let y: i32 = x as i32 + d;
    if y > 0xffff {
        0xffff
    } else if y < 0 {
        0
    } else {
        y as u16
    }
}

/// How a key scrolls a detail view, if it scrolls it.
pub open spec fn detail_scroll(k: Key, x: u16) -> Option<u16> {
    match k {
        Key::Down => Some(sat16(x, 1)),
        Key::Up => Some(sat16(x, -1)),
        Key::PageDown => Some(sat16(x, 10)),
        Key::PageUp => Some(sat16(x, -10)),
        Key::Home => Some(0),
        Key::Char(c) => if c == 'j' {
            Some(sat16(x, 1))
        } else if c == 'k' {
            Some(sat16(x, -1))
        } else if c == 'g' {
            Some(0)
        } else {
            None
        },
        _ => None,
    }
}

pub(crate) fn detail_scroll_exec(k: Key, x: u16) -> (r: Option<u16>)
    ensures
        r == detail_scroll(k, x),
{
    match k {
        Key::Down => Some(sat16_exec(x, 1)),
        Key::Up => Some(sat16_exec(x, -1)),
        Key::PageDown => Some(sat16_exec(x, 10)),
        Key::PageUp => Some(sat16_exec(x, -10)),
        Key::Home => Some(0),
        Key::Char(c) => {
            if c == 'j' {
                Some(sat16_exec(x, 1))
            } else if c == 'k' {
                Some(sat16_exec(x, -1))
            } else if c == 'g' {
                Some(0)
            } else {
                None
            }
        },
        _ => None,
    }
}

/// The number of lines the activity feed takes: a heading and a blank line
/// per user, plus one line per event.
pub open spec fn activity_lines(activity: Seq<UserActivity>) -> nat
    decreases activity.len(),
{
    if activity.len() == 0 {
        0
    } else {
        activity_lines(activity.drop_last()) + 2 + activity.last().events@.len()
    }
}

/// The feed's line count as a `u16`, saturating.
pub open spec fn org_total_lines_spec(activity: Seq<UserActivity>) -> u16 {
    if activity_lines(activity) > 0xffff {
        0xffff
    } else {
        activity_lines(activity) as u16
    }
}

/// The feed scroll kept within the feed: at most one less than its lines.
pub open spec fn clamped_scroll(scroll: u16, activity: Seq<UserActivity>) -> u16 {
    let t = org_total_lines_spec(activity);
    let max: u16 = if t == 0 {
        0
    } else {
        (t - 1) as u16
    };
    if scroll > max {
        max
    } else {
        scroll
    }
}

/// How a key scrolls the activity feed, if it scrolls it.
pub open spec fn feed_scroll(k: Key, x: u16, activity: Seq<UserActivity>) -> Option<u16> {
    match k {
        Key::Down => Some(clamped_scroll(sat16(x, 1), activity)),
        Key::Up => Some(sat16(x, -1)),
        Key::PageDown => Some(clamped_scroll(sat16(x, 10), activity)),
        Key::PageUp => Some(sat16(x, -10)),
        Key::Home => Some(0),
        Key::End => Some(clamped_scroll(0xffff, activity)),
        Key::Char(c) => if c == 'j' {
            Some(clamped_scroll(sat16(x, 1), activity))
        } else if c == 'k' {
            Some(sat16(x, -1))
        } else if c == 'g' {
            Some(0)
        } else if c == 'G' {
            Some(clamped_scroll(0xffff, activity))
        } else {
            None
        },
        _ => None,
    }
}

/// The feed's line count as a `u16`, saturating.
pub fn org_total_lines(activity: &Vec<UserActivity>) -> (r: u16)
    ensures
        r == org_total_lines_spec(activity@),
{
    let mut acc: u64 = 0;
    let mut i: usize = 0;
    assert(activity@.take(0) == Seq::<UserActivity>::empty());
    while i < activity.len()
        invariant
            i <= activity@.len(),
            acc == (if activity_lines(activity@.take(i as int)) > 0xffff {
                0x10000
            } else {
                activity_lines(activity@.take(i as int))
            }),
        decreases activity.len() - i,
    {
        let ghost t = activity@.take(i + 1 as int);
        assert(t.drop_last() == activity@.take(i as int));
        assert(t.last() == activity@[i as int]);
        let n = activity[i].events.len() as u64;
        if acc <= 0xffff && n <= 0xffff {
            acc = acc + 2 + n;
            if acc > 0xffff {
                acc = 0x10000;
            }
        } else {
            acc = 0x10000;
        }
        i = i + 1;
    }
    assert(activity@.take(activity.len() as int) == activity@);
    if acc > 0xffff {
        0xffff
    } else {
        acc as u16
    }
}

/// The feed scroll kept within the feed.
pub fn clamp_scroll(scroll: u16, activity: &Vec<UserActivity>) -> (r: u16)
    ensures
        r == clamped_scroll(scroll, activity@),
{
    let t = org_total_lines(activity);
    let max: u16 = if t == 0 {
        0
    } else {
        t - 1
    };
    if scroll > max {
        max
    } else {
        scroll
    }
}

pub(crate) fn feed_scroll_exec(k: Key, x: u16, activity: &Vec<UserActivity>) -> (r: Option<u16>)
    ensures
        r == feed_scroll(k, x, activity@),
{
    match k {
        Key::Down => Some(clamp_scroll(sat16_exec(x, 1), activity)),
        Key::Up => Some(sat16_exec(x, -1)),
        Key::PageDown => Some(clamp_scroll(sat16_exec(x, 10), activity)),
        Key::PageUp => Some(sat16_exec(x, -10)),
        Key::Home => Some(0),
        Key::End => Some(clamp_scroll(0xffff, activity)),
        Key::Char(c) => {
            if c == 'j' {
                Some(clamp_scroll(sat16_exec(x, 1), activity))
            } else if c == 'k' {
                Some(sat16_exec(x, -1))
            } else if c == 'g' {
                Some(0)
            } else if c == 'G' {
                Some(clamp_scroll(0xffff, activity))
            } else {
                None
            }
        },
        _ => None,
    }
}

/// A list without the focus.
pub open spec fn unfocused<T>(p: Panel<T>) -> Panel<T> {
    Panel { focused: false, ..p }
}

/// No dashboard panel focused.
pub open spec fn unfocused_dashboard(d: DashboardState) -> DashboardState {
    DashboardState {
        review: unfocused(d.review),
        my_prs: unfocused(d.my_prs),
        notifications: unfocused(d.notifications),
        my_commits: unfocused(d.my_commits),
    }
}

/// Some dashboard panel has the focus.
pub open spec fn any_focused(d: DashboardState) -> bool {
    d.review.focused || d.my_prs.focused || d.notifications.focused || d.my_commits.focused
}

/// Neither Repo-tab list focused, and no diff shown.
pub open spec fn unfocused_repo(r: RepoTab) -> RepoTab {
    RepoTab { commits: unfocused(r.commits), dirty: unfocused(r.dirty), diff: None, ..r }
}

/// Every detail view closed.
pub open spec fn cleared_details(a: App) -> App {
    App {
        repo_detail: None,
        commit_detail: None,
        user_detail: None,
        pr_detail: None,
        notification_detail: None,
        ..a
    }
}

/// Key `1`: the dashboard.
pub open spec fn key1(a: App) -> App {
    App { screen: Screen::Dashboard, repo: unfocused_repo(a.repo), ..cleared_details(a) }
}

/// Key `2`: the repository.
pub open spec fn key2(a: App) -> App {
    App { screen: Screen::Repo, dashboard: unfocused_dashboard(a.dashboard), ..cleared_details(a) }
}

/// A move to screen `s` with every detail closed and nothing focused (key
/// `3`, Tab and BackTab).
pub open spec fn tabbed(a: App, s: Screen) -> App {
    App {
        screen: s,
        repo: unfocused_repo(a.repo),
        dashboard: unfocused_dashboard(a.dashboard),
        ..cleared_details(a)
    }
}

/// Focus on the recent commits, if there are any; the diff gives way.
pub open spec fn focused_commits(r: RepoTab) -> RepoTab {
    if r.commits.items@.len() == 0 {
        r
    } else {
        RepoTab {
            commits: focused_panel(r.commits),
            dirty: unfocused(r.dirty),
            diff: None,
            ..r
        }
    }
}

/// Focus on the dirty files, if there are any.
pub open spec fn focused_dirty(r: RepoTab) -> RepoTab {
    if r.dirty.items@.len() == 0 {
        r
    } else {
        RepoTab { dirty: focused_panel(r.dirty), commits: unfocused(r.commits), ..r }
    }
}

/// Focus on the review panel, if it lists anything.
pub open spec fn focused_review(d: DashboardState) -> DashboardState {
    if d.review.items@.len() == 0 {
        d
    } else {
        DashboardState { review: focused_panel(d.review), ..unfocused_dashboard(d) }
    }
}

/// Focus on the user's pull requests, if there are any.
pub open spec fn focused_my_prs(d: DashboardState) -> DashboardState {
    if d.my_prs.items@.len() == 0 {
        d
    } else {
        DashboardState { my_prs: focused_panel(d.my_prs), ..unfocused_dashboard(d) }
    }
}

/// Focus on the notifications, if there are any.
pub open spec fn focused_notifications(d: DashboardState) -> DashboardState {
    if d.notifications.items@.len() == 0 {
        d
    } else {
        DashboardState { notifications: focused_panel(d.notifications), ..unfocused_dashboard(d) }
    }
}

/// Focus on the user's commits, if there are any.
pub open spec fn focused_my_commits(d: DashboardState) -> DashboardState {
    if d.my_commits.items@.len() == 0 {
        d
    } else {
        DashboardState { my_commits: focused_panel(d.my_commits), ..unfocused_dashboard(d) }
    }
}

/// The screen a commit detail returns to.
pub open spec fn origin_screen(o: DetailOrigin) -> Screen {
    match o {
        DetailOrigin::Repo => Screen::Repo,
        DetailOrigin::Dashboard => Screen::Dashboard,
    }
}

/// The commit detail closed, back where it was opened from.
pub open spec fn closed_commit_detail(a: App) -> App {
    App {
        commit_detail: None,
        screen: match a.commit_detail {
            Some(v) => origin_screen(v.origin),
            None => Screen::Repo,
        },
        ..a
    }
}

/// The Org tab on the given view.
pub open spec fn with_subview(o: OrgState, v: OrgSubview) -> OrgState {
    OrgState { subview: v, ..o }
}

/// The repository detail closed, back on the repository list.
pub open spec fn closed_repo_detail(a: App) -> App {
    App {
        repo_detail: None,
        screen: Screen::Org,
        org: with_subview(a.org, OrgSubview::Repos),
        ..a
    }
}

/// The member detail closed, back on the member list.
pub open spec fn closed_user_detail(a: App) -> App {
    App {
        user_detail: None,
        screen: Screen::Org,
        org: with_subview(a.org, OrgSubview::Users),
        ..a
    }
}

/// `https://github.com/{repo}/pull/{number}`.
pub open spec fn pull_url(repo: Seq<char>, number: u64) -> Seq<char> {
    "https://github.com/"@ + repo + "/pull/"@ + decimal(number as nat)
}

/// `https://github.com/{repo}/commit/{sha}`.
pub open spec fn commit_url(repo: Seq<char>, sha: Seq<char>) -> Seq<char> {
    "https://github.com/"@ + repo + "/commit/"@ + sha
}

/// What `o` opens on the dashboard: the selected item of the focused panel.
pub open spec fn dashboard_browser(d: DashboardState) -> ActionView {
    if d.review.focused {
        match selected_item(d.review.items@, d.review.selected) {
            Some(p) => ActionView::OpenBrowser { url: pull_url(p.repo@, p.number) },
            None => ActionView::Nothing,
        }
    } else if d.my_prs.focused {
        match selected_item(d.my_prs.items@, d.my_prs.selected) {
            Some(p) => ActionView::OpenBrowser { url: pull_url(p.repo@, p.number) },
            None => ActionView::Nothing,
        }
    } else if d.notifications.focused {
        match selected_item(d.notifications.items@, d.notifications.selected) {
            Some(n) => ActionView::OpenBrowser { url: n.web_url@ },
            None => ActionView::Nothing,
        }
    } else if d.my_commits.focused {
        match selected_item(d.my_commits.items@, d.my_commits.selected) {
            Some(c) => ActionView::OpenBrowser { url: commit_url(c.repo@, c.sha@) },
            None => ActionView::Nothing,
        }
    } else {
        ActionView::Nothing
    }
}

/// What `o` opens on the pull request detail: its address.
pub open spec fn pr_browser(a: App) -> ActionView {
    match a.pr_detail {
        Some(v) => match v.detail {
            Some(d) => ActionView::OpenBrowser { url: d.url@ },
            None => ActionView::Nothing,
        },
        None => ActionView::Nothing,
    }
}

/// What `o` opens on the notification detail: its address.
pub open spec fn notification_browser(a: App) -> ActionView {
    match a.notification_detail {
        Some(n) => ActionView::OpenBrowser { url: n.web_url@ },
        None => ActionView::Nothing,
    }
}

/// The pull request detail to fetch for a repository name and number.
pub open spec fn pr_detail_action(repo: Seq<char>, number: u64) -> ActionView {
    match split_full_name_spec(repo) {
        Some((o, r)) => ActionView::LoadPrDetail { owner: o, repo: r, number },
        None => ActionView::Nothing,
    }
}

/// The first repository with the given full name.
pub open spec fn find_repo(repos: Seq<RepoInfo>, full: Seq<char>) -> Option<RepoInfo>
    decreases repos.len(),
{
    if repos.len() == 0 {
        None
    } else if repos[0].full_name@ == full {
        Some(repos[0])
    } else {
        find_repo(repos.drop_first(), full)
    }
}

/// The message shown for a repository name that does not split.
pub open spec fn unparsable_message(full: Seq<char>) -> Seq<char> {
    "could not parse owner/repo from "@ + full
}

/// A repository detail just opened on `full`: nothing fetched yet, unless
/// the name does not split, in which case it is complete with that error.
pub open spec fn fresh_repo_detail(d: RepoDetailState, full: String, info: Option<RepoInfo>) -> bool {
    let unparsable = split_full_name_spec(full@) is None;
    &&& d.full_name == full
    &&& d.info == info
    &&& d.commits@.len() == 0
    &&& (if unparsable {
        d.commits_err matches Some(e) && e@ == unparsable_message(full@)
    } else {
        d.commits_err is None
    })
    &&& d.prs@.len() == 0
    &&& d.prs_err is None
    &&& d.contributors@.len() == 0
    &&& d.contributors_err is None
    &&& d.loaded == unparsable
}

/// The organisation of the Org tab is known and non-empty.
pub open spec fn has_org(o: OrgState) -> bool {
    o.name matches Some(n) && n@.len() > 0
}

/// A member detail just opened on `login`: nothing fetched yet, or, with no
/// organisation known, the error that says so.
pub open spec fn fresh_user_detail(d: UserDetailState, login: String, no_org: bool) -> bool {
    &&& d.login == login
    &&& d.commits@.len() == 0
    &&& (if no_org {
        d.commits_err matches Some(e) && e@ == "no org detected"@
    } else {
        d.commits_err is None
    })
    &&& d.submitted_prs@.len() == 0
    &&& d.submitted_err is None
    &&& d.reviewed_prs@.len() == 0
    &&& d.reviewed_err is None
}

/// How many recent commits a repository's detail shows.
pub const DETAIL_COMMITS: usize = 15;

/// How many recent pull requests a repository's detail shows.
pub const DETAIL_PRS: usize = 10;

/// How many top contributors a repository's detail shows.
pub const DETAIL_CONTRIBUTORS: usize = 10;

/// How many commits, and how many pull requests of each kind, a member's
/// detail shows.
pub const MEMBER_ITEMS: usize = 15;

/// Opening the detail of repository `full`: the detail screen, and the
/// fetch when the name splits into owner and repository.
pub open spec fn opened_repo(a: App, full: String, b: App, act: ActionView) -> bool {
    &&& b == App { repo_detail: b.repo_detail, screen: Screen::RepoDetail, ..a }
    &&& b.repo_detail matches Some(d) && fresh_repo_detail(d, full, find_repo(a.org.repos.items@, full@))
    &&& act == match split_full_name_spec(full@) {
        Some((o, r)) => ActionView::LoadRepoDetail {
            owner: o,
            repo: r,
            commits: DETAIL_COMMITS,
            prs: DETAIL_PRS,
            contributors: DETAIL_CONTRIBUTORS,
        },
        None => ActionView::Nothing,
    }
}

/// Opening the detail of member `login`: the detail screen, and the fetch
/// when the organisation is known.
pub open spec fn opened_user(a: App, login: String, b: App, act: ActionView) -> bool {
    &&& b == App { user_detail: b.user_detail, screen: Screen::UserDetail, ..a }
    &&& b.user_detail matches Some(d) && fresh_user_detail(d, login, !has_org(a.org))
    &&& act == if has_org(a.org) {
        ActionView::LoadUserDetail { org: a.org.name->0@, login: login@, limit: MEMBER_ITEMS }
    } else {
        ActionView::Nothing
    }
}

/// The Repo tab with its commits replaced.
pub open spec fn with_commits(a: App, p: Panel<crate::types::Commit>) -> App {
    App { repo: RepoTab { commits: p, ..a.repo }, ..a }
}

/// The Repo tab with its dirty files replaced.
pub open spec fn with_dirty(a: App, p: Panel<crate::types::DirtyFile>) -> App {
    App { repo: RepoTab { dirty: p, ..a.repo }, ..a }
}

/// The key effects on the recent-commits list.
pub open spec fn commits_key(a: App, k: Key, b: App, act: ActionView) -> bool {
    match step_delta(k) {
        Some(d) => act == ActionView::Nothing && b == with_commits(a, stepped_kept(a.repo.commits, d)),
        None => b == a && act == if k is Enter {
            match selected_item(a.repo.commits.items@, a.repo.commits.selected) {
                Some(c) => ActionView::LoadCommitDetail { sha: c.sha@ },
                None => ActionView::Nothing,
            }
        } else {
            ActionView::Nothing
        },
    }
}

/// The key effects on the dirty-files list.
pub open spec fn dirty_key(a: App, k: Key, b: App, act: ActionView) -> bool {
    match step_delta(k) {
        Some(d) => act == ActionView::Nothing && b == with_dirty(a, stepped_kept(a.repo.dirty, d)),
        None => b == a && act == if k is Enter {
            match selected_item(a.repo.dirty.items@, a.repo.dirty.selected) {
                Some(f) => ActionView::LoadDiff { path: f.path@, status: f.status@ },
                None => ActionView::Nothing,
            }
        } else {
            ActionView::Nothing
        },
    }
}

/// The dashboard replaced.
pub open spec fn with_dashboard(a: App, d: DashboardState) -> App {
    App { dashboard: d, ..a }
}

/// The key effects on the review panel.
pub open spec fn review_key(a: App, k: Key, b: App, act: ActionView) -> bool {
    let d = a.dashboard;
    match step_delta(k) {
        Some(x) => act == ActionView::Nothing && b == with_dashboard(
            a,
            DashboardState { review: stepped_kept(d.review, x), ..d },
        ),
        None => b == a && act == if k is Enter {
            match selected_item(d.review.items@, d.review.selected) {
                Some(p) => pr_detail_action(p.repo@, p.number),
                None => ActionView::Nothing,
            }
        } else {
            ActionView::Nothing
        },
    }
}

/// The key effects on the user's pull requests.
pub open spec fn my_prs_key(a: App, k: Key, b: App, act: ActionView) -> bool {
    let d = a.dashboard;
    match step_delta(k) {
        Some(x) => act == ActionView::Nothing && b == with_dashboard(
            a,
            DashboardState { my_prs: stepped_cleared(d.my_prs, x), ..d },
        ),
        None => b == a && act == if k is Enter {
            match selected_item(d.my_prs.items@, d.my_prs.selected) {
                Some(p) => pr_detail_action(p.repo@, p.number),
                None => ActionView::Nothing,
            }
        } else {
            ActionView::Nothing
        },
    }
}

/// The key effects on the notifications.
pub open spec fn notifications_key(a: App, k: Key, b: App, act: ActionView) -> bool {
    let d = a.dashboard;
    &&& act == ActionView::Nothing
    &&& match step_delta(k) {
        Some(x) => b == with_dashboard(
            a,
            DashboardState { notifications: stepped_cleared(d.notifications, x), ..d },
        ),
        None => if k is Enter {
            match selected_item(d.notifications.items@, d.notifications.selected) {
                Some(n) => b == App {
                    notification_detail: Some(n),
                    screen: Screen::NotificationDetail,
                    ..a
                },
                None => b == a,
            }
        } else {
            b == a
        },
    }
}

/// The key effects on the user's commits.
pub open spec fn my_commits_key(a: App, k: Key, b: App, act: ActionView) -> bool {
    let d = a.dashboard;
    match step_delta(k) {
        Some(x) => act == ActionView::Nothing && b == with_dashboard(
            a,
            DashboardState { my_commits: stepped_cleared(d.my_commits, x), ..d },
        ),
        None => b == a && act == if k is Enter {
            match selected_item(d.my_commits.items@, d.my_commits.selected) {
                Some(c) => match split_full_name_spec(c.repo@) {
                    Some((o, r)) => ActionView::LoadOrgCommitDetail { owner: o, repo: r, sha: c.sha@ },
                    None => ActionView::Nothing,
                },
                None => ActionView::Nothing,
            }
        } else {
            ActionView::Nothing
        },
    }
}

/// The repository list replaced.
pub open spec fn with_repos(a: App, l: FilterList<RepoInfo>) -> App {
    App { org: OrgState { repos: l, ..a.org }, ..a }
}

/// The member list replaced.
pub open spec fn with_users(a: App, l: FilterList<crate::types::OrgMember>) -> App {
    App { org: OrgState { users: l, ..a.org }, ..a }
}

/// The key effects on the repository list.
pub open spec fn repos_key(a: App, k: Key, b: App, act: ActionView) -> bool {
    let l = a.org.repos;
    let idx = filtered_repos(l.items@, l.filter@);
    match step_delta(k) {
        Some(d) => act == ActionView::Nothing && b == with_repos(
            a,
            FilterList { selected: moved_or_cleared(l.selected, idx.len(), d), ..l },
        ),
        None => if k == Key::Char('/') {
            act == ActionView::Nothing && b == with_repos(a, FilterList { filtering: true, ..l })
        } else if k is Enter {
            match selected_item(idx, l.selected) {
                Some(actual) => opened_repo(a, l.items@[actual as int].full_name, b, act),
                None => b == a && act == ActionView::Nothing,
            }
        } else {
            b == a && act == ActionView::Nothing
        },
    }
}

/// The key effects on the member list.
pub open spec fn users_key(a: App, k: Key, b: App, act: ActionView) -> bool {
    let l = a.org.users;
    let idx = filtered_members(l.items@, l.filter@);
    match step_delta(k) {
        Some(d) => act == ActionView::Nothing && b == with_users(
            a,
            FilterList { selected: moved_or_cleared(l.selected, idx.len(), d), ..l },
        ),
        None => if k == Key::Char('/') {
            act == ActionView::Nothing && b == with_users(a, FilterList { filtering: true, ..l })
        } else if k is Enter {
            match selected_item(idx, l.selected) {
                Some(actual) => opened_user(a, l.items@[actual as int].login, b, act),
                None => b == a && act == ActionView::Nothing,
            }
        } else {
            b == a && act == ActionView::Nothing
        },
    }
}

/// The key effects on the commit detail: scrolling.
pub open spec fn commit_detail_key(a: App, k: Key, b: App) -> bool {
    match a.commit_detail {
        Some(v) => match detail_scroll(k, v.scroll) {
            Some(x) => b == App { commit_detail: Some(CommitDetailView { scroll: x, ..v }), ..a },
            None => b == a,
        },
        None => b == a,
    }
}

/// The key effects on the pull request detail: scrolling.
pub open spec fn pr_detail_key(a: App, k: Key, b: App) -> bool {
    match a.pr_detail {
        Some(v) => match detail_scroll(k, v.scroll) {
            Some(x) => b == App { pr_detail: Some(PrDetailView { scroll: x, ..v }), ..a },
            None => b == a,
        },
        None => b == a,
    }
}

/// The key effects on the activity feed: scrolling.
pub open spec fn activity_key(a: App, k: Key, b: App) -> bool {
    match feed_scroll(k, a.org.scroll, a.org.activity@) {
        Some(x) => b == App { org: OrgState { scroll: x, ..a.org }, ..a },
        None => b == a,
    }
}

/// The key effects that depend on the screen and the focus.
pub open spec fn screen_key(a: App, k: Key, b: App, act: ActionView) -> bool {
    match a.screen {
        Screen::Repo => if a.repo.commits.focused {
            commits_key(a, k, b, act)
        } else if a.repo.dirty.focused {
            dirty_key(a, k, b, act)
        } else {
            b == a && act == ActionView::Nothing
        },
        Screen::Dashboard => if a.dashboard.review.focused {
            review_key(a, k, b, act)
        } else if a.dashboard.my_prs.focused {
            my_prs_key(a, k, b, act)
        } else if a.dashboard.notifications.focused {
            notifications_key(a, k, b, act)
        } else if a.dashboard.my_commits.focused {
            my_commits_key(a, k, b, act)
        } else {
            b == a && act == ActionView::Nothing
        },
        Screen::CommitDetail => act == ActionView::Nothing && commit_detail_key(a, k, b),
        Screen::PrDetail => act == ActionView::Nothing && pr_detail_key(a, k, b),
        Screen::Org => match a.org.subview {
            OrgSubview::Activity => act == ActionView::Nothing && activity_key(a, k, b),
            OrgSubview::Repos => repos_key(a, k, b, act),
            OrgSubview::Users => users_key(a, k, b, act),
        },
        _ => b == a && act == ActionView::Nothing,
    }
}

/// What Esc does: close the open detail, close the diff, unfocus the
/// focused list, or quit.
pub open spec fn esc_key(a: App, b: App, act: ActionView) -> bool {
    match a.screen {
        Screen::RepoDetail => act == ActionView::Nothing && b == closed_repo_detail(a),
        Screen::CommitDetail => act == ActionView::Nothing && b == closed_commit_detail(a),
        Screen::UserDetail => act == ActionView::Nothing && b == closed_user_detail(a),
        Screen::PrDetail => act == ActionView::Nothing && b == App {
            pr_detail: None,
            screen: Screen::Dashboard,
            ..a
        },
        Screen::NotificationDetail => act == ActionView::Nothing && b == App {
            notification_detail: None,
            screen: Screen::Dashboard,
            ..a
        },
        Screen::Repo => if a.repo.commits.focused {
            act == ActionView::Nothing && b == with_commits(a, unfocused(a.repo.commits))
        } else if a.repo.dirty.focused {
            act == ActionView::Nothing && if a.repo.diff is Some {
                b == App { repo: RepoTab { diff: None, ..a.repo }, ..a }
            } else {
                b == with_dirty(a, unfocused(a.repo.dirty))
            }
        } else {
            act == ActionView::Quit && b == a
        },
        Screen::Dashboard => if any_focused(a.dashboard) {
            act == ActionView::Nothing && b == with_dashboard(a, unfocused_dashboard(a.dashboard))
        } else {
            act == ActionView::Quit && b == a
        },
        Screen::Org => act == ActionView::Quit && b == a,
    }
}

/// What a character key does outside search typing.
pub open spec fn char_key(a: App, c: char, b: App, act: ActionView) -> bool {
    if c == 'q' {
        act == ActionView::Quit && b == a
    } else if c == 'r' {
        act == ActionView::Reload && b == a
    } else if c == '1' {
        act == ActionView::Nothing && b == key1(a)
    } else if c == '2' {
        act == ActionView::Nothing && b == key2(a)
    } else if c == '3' {
        act == ActionView::Nothing && b == tabbed(a, Screen::Org)
    } else if c == ']' && a.screen == Screen::Org {
        act == ActionView::Nothing && b == App {
            org: with_subview(a.org, next_subview(a.org.subview)),
            ..a
        }
    } else if c == '[' && a.screen == Screen::Org {
        act == ActionView::Nothing && b == App {
            org: with_subview(a.org, prev_subview(a.org.subview)),
            ..a
        }
    } else if c == 'c' && a.screen == Screen::Repo {
        act == ActionView::Nothing && b == App { repo: focused_commits(a.repo), ..a }
    } else if c == 'd' && a.screen == Screen::Repo {
        act == ActionView::Nothing && b == App { repo: focused_dirty(a.repo), ..a }
    } else if c == 'v' && a.screen == Screen::Dashboard {
        act == ActionView::Nothing && b == with_dashboard(a, focused_review(a.dashboard))
    } else if c == 'p' && a.screen == Screen::Dashboard {
        act == ActionView::Nothing && b == with_dashboard(a, focused_my_prs(a.dashboard))
    } else if c == 'n' && a.screen == Screen::Dashboard {
        act == ActionView::Nothing && b == with_dashboard(a, focused_notifications(a.dashboard))
    } else if c == 'c' && a.screen == Screen::Dashboard {
        act == ActionView::Nothing && b == with_dashboard(a, focused_my_commits(a.dashboard))
    } else if c == 'o' && a.screen == Screen::Dashboard {
        b == a && act == dashboard_browser(a.dashboard)
    } else if c == 'o' && a.screen == Screen::PrDetail {
        b == a && act == pr_browser(a)
    } else if c == 'o' && a.screen == Screen::NotificationDetail {
        b == a && act == notification_browser(a)
    } else {
        screen_key(a, Key::Char(c), b, act)
    }
}

/// Typing in the repository search.
pub open spec fn repo_filter_key(a: App, k: Key, b: App) -> bool {
    let l = a.org.repos;
    match k {
        Key::Esc => b == with_repos(
            a,
            FilterList {
                filter: b.org.repos.filter,
                filtering: false,
                selected: reset_sel(filtered_repos(l.items@, Seq::empty())),
                ..l
            },
        ) && b.org.repos.filter@ == Seq::<char>::empty(),
        Key::Enter => b == with_repos(a, FilterList { filtering: false, ..l }),
        Key::Backspace => b == with_repos(
            a,
            FilterList {
                filter: b.org.repos.filter,
                selected: reset_sel(filtered_repos(l.items@, popped(l.filter@))),
                ..l
            },
        ) && b.org.repos.filter@ == popped(l.filter@),
        Key::Char(c) => b == with_repos(
            a,
            FilterList {
                filter: b.org.repos.filter,
                selected: reset_sel(filtered_repos(l.items@, l.filter@.push(c))),
                ..l
            },
        ) && b.org.repos.filter@ == l.filter@.push(c),
        _ => b == a,
    }
}

/// Typing in the member search.
pub open spec fn user_filter_key(a: App, k: Key, b: App) -> bool {
    let l = a.org.users;
    match k {
        Key::Esc => b == with_users(
            a,
            FilterList {
                filter: b.org.users.filter,
                filtering: false,
                selected: reset_sel(filtered_members(l.items@, Seq::empty())),
                ..l
            },
        ) && b.org.users.filter@ == Seq::<char>::empty(),
        Key::Enter => b == with_users(a, FilterList { filtering: false, ..l }),
        Key::Backspace => b == with_users(
            a,
            FilterList {
                filter: b.org.users.filter,
                selected: reset_sel(filtered_members(l.items@, popped(l.filter@))),
                ..l
            },
        ) && b.org.users.filter@ == popped(l.filter@),
        Key::Char(c) => b == with_users(
            a,
            FilterList {
                filter: b.org.users.filter,
                selected: reset_sel(filtered_members(l.items@, l.filter@.push(c))),
                ..l
            },
        ) && b.org.users.filter@ == l.filter@.push(c),
        _ => b == a,
    }
}

/// Typing in the repository search is under way.
pub open spec fn repo_filter_mode(a: App) -> bool {
    a.screen == Screen::Org && a.org.subview == OrgSubview::Repos && a.org.repos.filtering
}

/// Typing in the member search is under way.
pub open spec fn user_filter_mode(a: App) -> bool {
    a.screen == Screen::Org && a.org.subview == OrgSubview::Users && a.org.users.filtering
}

/// The whole effect of a key press: the next state `b` and the action.
pub open spec fn key_step(a: App, k: Key, b: App, act: ActionView) -> bool {
    if repo_filter_mode(a) {
        act == ActionView::Nothing && repo_filter_key(a, k, b)
    } else if user_filter_mode(a) {
        act == ActionView::Nothing && user_filter_key(a, k, b)
    } else {
        match k {
            Key::Char(c) => char_key(a, c, b, act),
            Key::Esc => esc_key(a, b, act),
            Key::Tab | Key::Right => act == ActionView::Nothing && b == tabbed(a, next_tab(a.screen)),
            Key::BackTab | Key::Left => act == ActionView::Nothing && b == tabbed(
                a,
                prev_tab(a.screen),
            ),
            _ => screen_key(a, k, b, act),
        }
    }
}

fn copy_opt(o: &Option<String>) -> (r: Option<String>)
    ensures
        r == *o,
{
    match o {
        Some(s) => Some(s.clone()),
        None => None,
    }
}

/// A copy of a repository record.
pub fn copy_repo_info(r: &RepoInfo) -> (c: RepoInfo)
    ensures
        c == *r,
{
    RepoInfo {
        name: r.name.clone(),
        full_name: r.full_name.clone(),
        description: copy_opt(&r.description),
        pushed_at: copy_opt(&r.pushed_at),
        default_branch: copy_opt(&r.default_branch),
        primary_language: copy_opt(&r.primary_language),
        stargazer_count: r.stargazer_count,
        is_private: r.is_private,
    }
}

/// A copy of a notification.
pub fn copy_notification(n: &Notification) -> (c: Notification)
    ensures
        c == *n,
{
    Notification {
        reason: n.reason.clone(),
        title: n.title.clone(),
        repo: n.repo.clone(),
        kind: n.kind.clone(),
        unread: n.unread,
        updated_at: n.updated_at.clone(),
        web_url: n.web_url.clone(),
    }
}

/// The first repository named `full`.
pub fn find_repo_exec(repos: &Vec<RepoInfo>, full: &str) -> (r: Option<RepoInfo>)
    ensures
        r == find_repo(repos@, full@),
{
    let mut i: usize = 0;
    assert(repos@.skip(0) == repos@);
    while i < repos.len()
        invariant
            i <= repos@.len(),
            find_repo(repos@, full@) == find_repo(repos@.skip(i as int), full@),
        decreases repos.len() - i,
    {
        assert(repos@.skip(i as int)[0] == repos@[i as int]);
        if str_eq(repos[i].full_name.as_str(), full) {
            return Some(copy_repo_info(&repos[i]));
        }
        assert(repos@.skip(i as int).drop_first() == repos@.skip(i + 1 as int));
        i = i + 1;
    }
    None
}

pub(crate) fn pull_url_exec(repo: &String, number: u64) -> (r: String)
    ensures
        r@ == pull_url(repo@, number),
{
    let mut v = chars_of("https://github.com/");
    append_str(&mut v, repo.as_str());
    append_str(&mut v, "/pull/");
    append_chars(&mut v, &decimal_chars(number));
    string_of(&v)
}

pub(crate) fn commit_url_exec(repo: &String, sha: &String) -> (r: String)
    ensures
        r@ == commit_url(repo@, sha@),
{
    let mut v = chars_of("https://github.com/");
    append_str(&mut v, repo.as_str());
    append_str(&mut v, "/commit/");
    append_str(&mut v, sha.as_str());
    string_of(&v)
}

pub(crate) fn pr_detail_action_exec(repo: &String, number: u64) -> (r: Action)
    ensures
        r@ == pr_detail_action(repo@, number),
{
    match split_full_name(repo.as_str()) {
        Some((o, r)) => Action::LoadPrDetail { owner: o, repo: r, number },
        None => Action::Nothing,
    }
}

} // verus!
