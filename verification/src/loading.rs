//! How the interface starts, what it queries in the background, and how
//! answers to queries enter the state.
use vstd::prelude::*;
use crate::keys::{opened_repo, opened_user, with_subview};
use crate::panel::{filled, filled_list, FilterList, Panel};
use crate::state::{
    Action, ActionView, App, CommitDetailView, DashboardState, DetailOrigin, DiffView, OrgState,
    OrgSubview, PrDetailView, RepoDetailState, RepoTab, Screen, UserDetailState,
};
use crate::types::{
    Commit, CommitDetail, Contributor, DirtyFile, Notification, OrgMember, PrDetail, PullRequest,
    RepoInfo, RepoSummary, ReviewRequestedPr, UserActivity, UserCommit, UserPr,
};

verus! {

/// The value of a result, or `None`.
pub open spec fn ok_of<T>(r: Result<T, String>) -> Option<T> {
    match r {
        Ok(v) => Some(v),
        Err(_) => None,
    }
}

/// The error of a result, or `None`.
pub open spec fn err_of<T>(r: Result<T, String>) -> Option<String> {
    match r {
        Ok(_) => None,
        Err(e) => Some(e),
    }
}

fn split_result<T>(r: Result<T, String>) -> (p: (Option<T>, Option<String>))
    ensures
        p.0 == ok_of(r),
        p.1 == err_of(r),
{
    match r {
        Ok(v) => (Some(v), None),
        Err(e) => (None, Some(e)),
    }
}

fn split_list<T>(r: Result<Vec<T>, String>) -> (p: (Vec<T>, Option<String>))
    ensures
        match r {
            Ok(v) => p.0 == v,
            Err(_) => p.0@.len() == 0,
        },
        p.1 == err_of(r),
{
    match r {
        Ok(v) => (v, None),
        Err(e) => (Vec::new(), Some(e)),
    }
}

/// The Repo tab holds nothing: no summary, no lists, no errors, nothing
/// focused or selected, no diff.
pub open spec fn is_outside_tab(r: RepoTab) -> bool {
    &&& r.summary is None
    &&& r.summary_err is None
    &&& r.commits.items@.len() == 0 && r.commits.err is None && !r.commits.loaded
    &&& !r.commits.focused && r.commits.selected is None
    &&& r.prs@.len() == 0
    &&& r.prs_err is None
    &&& r.dirty.items@.len() == 0 && r.dirty.err is None && !r.dirty.loaded
    &&& !r.dirty.focused && r.dirty.selected is None
    &&& r.diff is None
}

/// How many recent commits the Repo tab shows.
pub const RECENT_COMMITS: usize = 15;

/// How many open pull requests the Repo tab shows.
pub const OPEN_PRS: usize = 10;

/// A query about the git repository the program starts in.
#[derive(Clone, Copy, Debug, PartialEq, Eq, Structural)]
pub enum RepoQuery {
    /// Its summary; an answer for [`RepoTab::from_results`].
    Summary,
    /// Its latest `limit` commits; an answer for [`RepoTab::from_results`].
    RecentCommits { limit: usize },
    /// Its first `limit` open pull requests; an answer for
    /// [`RepoTab::from_results`].
    OpenPrs { limit: usize },
    /// Its uncommitted files; an answer for [`RepoTab::from_results`].
    DirtyFiles,
    /// The organisation of its remote; the second part of [`App::new`]'s
    /// `repo`.
    DetectOrg,
}

/// The queries made at start-up about the repository: none outside a git
/// repository.
pub open spec fn repo_queries_spec(in_git_repo: bool) -> Seq<RepoQuery> {
    if in_git_repo {
        seq![
            RepoQuery::Summary,
            RepoQuery::RecentCommits { limit: RECENT_COMMITS },
            RepoQuery::OpenPrs { limit: OPEN_PRS },
            RepoQuery::DirtyFiles,
            RepoQuery::DetectOrg,
        ]
    } else {
        Seq::empty()
    }
}

/// The queries made at start-up about the repository (see
/// [`repo_queries_spec`]).
pub fn repo_queries(in_git_repo: bool) -> (r: Vec<RepoQuery>)
    ensures
        r@ == repo_queries_spec(in_git_repo),
{
    if in_git_repo {
        let r = vec![
            RepoQuery::Summary,
            RepoQuery::RecentCommits { limit: RECENT_COMMITS },
            RepoQuery::OpenPrs { limit: OPEN_PRS },
            RepoQuery::DirtyFiles,
            RepoQuery::DetectOrg,
        ];
        assert(r@ =~= repo_queries_spec(in_git_repo));
        r
    } else {
        Vec::new()
    }
}

impl RepoTab {
    /// The Repo tab outside a git repository: nothing to show.
    pub fn outside_repo() -> (r: Self)
        ensures
            r.summary is None,
            r.summary_err is None,
            r.commits.items@.len() == 0 && r.commits.err is None && !r.commits.loaded,
            !r.commits.focused && r.commits.selected is None,
            r.prs@.len() == 0,
            r.prs_err is None,
            r.dirty.items@.len() == 0 && r.dirty.err is None && !r.dirty.loaded,
            !r.dirty.focused && r.dirty.selected is None,
            r.diff is None,
    {
        RepoTab {
            summary: None,
            summary_err: None,
            commits: Panel::new(),
            prs: Vec::new(),
            prs_err: None,
            dirty: Panel::new(),
            diff: None,
        }
    }

    /// The Repo tab from what was read of the repository: each part, or the
    /// error in its place.
    pub fn from_results(
        summary: Result<RepoSummary, String>,
        commits: Result<Vec<Commit>, String>,
        prs: Result<Vec<PullRequest>, String>,
        dirty: Result<Vec<DirtyFile>, String>,
    ) -> (r: Self)
        ensures
            r.summary == ok_of(summary),
            r.summary_err == err_of(summary),
            r.commits.err == err_of(commits),
            match commits {
                Ok(c) => r.commits.items == c,
                Err(_) => r.commits.items@.len() == 0,
            },
            !r.commits.focused && r.commits.selected is None,
            r.prs_err == err_of(prs),
            match prs {
                Ok(p) => r.prs == p,
                Err(_) => r.prs@.len() == 0,
            },
            r.dirty.err == err_of(dirty),
            match dirty {
                Ok(d) => r.dirty.items == d,
                Err(_) => r.dirty.items@.len() == 0,
            },
            !r.dirty.focused && r.dirty.selected is None,
            r.diff is None,
    {
        let (summary, summary_err) = split_result(summary);
        let (prs, prs_err) = split_list(prs);
        RepoTab {
            summary,
            summary_err,
            commits: Panel::from_result(commits),
            prs,
            prs_err,
            dirty: Panel::from_result(dirty),
            diff: None,
        }
    }
}

impl App {
    /// The interface as it starts, on the dashboard. `repo` is what was read
    /// of the git repository the program runs in (see [`repo_queries`]):
    /// its tab and the organisation read from its remote; `None` outside a
    /// git repository, where the Repo tab is empty and no organisation is
    /// known. `dashboard_org` is the organisation the dashboard works in;
    /// `authed_user` the signed-in login, if it could be read.
    pub fn new(
        repo: Option<(RepoTab, Result<String, String>)>,
        dashboard_org: Result<String, String>,
        authed_user: Option<String>,
    ) -> (a: App)
        ensures
            a.screen == Screen::Dashboard,
            a.in_git_repo == repo is Some,
            match repo {
                Some((tab, detected)) => {
                    &&& a.repo == tab
                    &&& a.org.name == ok_of(detected)
                    &&& a.org.detect_err == err_of(detected)
                },
                None => {
                    &&& is_outside_tab(a.repo)
                    &&& a.org.name is None
                    &&& a.org.detect_err is None
                },
            },
            a.dashboard_org == ok_of(dashboard_org),
            a.dashboard_org_err == err_of(dashboard_org),
            a.authed_user == authed_user,
            a.org.activity@.len() == 0 && a.org.activity_err is None && !a.org.activity_loaded,
            a.org.subview == OrgSubview::Activity,
            a.org.scroll == 0,
            a.org.repos.items@.len() == 0 && !a.org.repos.loaded && a.org.repos.err is None,
            a.org.repos.filter@.len() == 0 && !a.org.repos.filtering,
            a.org.repos.selected is None,
            a.org.users.items@.len() == 0 && !a.org.users.loaded && a.org.users.err is None,
            a.org.users.filter@.len() == 0 && !a.org.users.filtering,
            a.org.users.selected is None,
            a.dashboard.review.items@.len() == 0 && !a.dashboard.review.loaded,
            a.dashboard.my_prs.items@.len() == 0 && !a.dashboard.my_prs.loaded,
            a.dashboard.notifications.items@.len() == 0 && !a.dashboard.notifications.loaded,
            a.dashboard.my_commits.items@.len() == 0 && !a.dashboard.my_commits.loaded,
            a.dashboard.review.err is None && a.dashboard.my_prs.err is None,
            a.dashboard.notifications.err is None && a.dashboard.my_commits.err is None,
            !a.dashboard.review.focused && !a.dashboard.my_prs.focused,
            !a.dashboard.notifications.focused && !a.dashboard.my_commits.focused,
            a.dashboard.review.selected is None && a.dashboard.my_prs.selected is None,
            a.dashboard.notifications.selected is None && a.dashboard.my_commits.selected is None,
            a.commit_detail is None && a.pr_detail is None && a.notification_detail is None,
            a.repo_detail is None && a.user_detail is None,
    {
        let in_git_repo = repo.is_some();
        let (tab, (name, detect_err)) = match repo {
            Some((tab, detected)) => (tab, split_result(detected)),
            None => (RepoTab::outside_repo(), (None, None)),
        };
        let (dashboard_org, dashboard_org_err) = split_result(dashboard_org);
        App {
            screen: Screen::Dashboard,
            in_git_repo,
            dashboard_org,
            dashboard_org_err,
            authed_user,
            repo: tab,
            dashboard: DashboardState {
                review: Panel::new(),
                my_prs: Panel::new(),
                notifications: Panel::new(),
                my_commits: Panel::new(),
            },
            org: OrgState {
                name,
                detect_err,
                activity: Vec::new(),
                activity_err: None,
                activity_loaded: false,
                subview: OrgSubview::Activity,
                scroll: 0,
                repos: FilterList::new(),
                users: FilterList::new(),
            },
            commit_detail: None,
            pr_detail: None,
            notification_detail: None,
            repo_detail: None,
            user_detail: None,
        }
    }
}

/// The number of activity events kept per member.
pub const ACTIVITY_PER_USER: usize = 8;

/// How many review requests, own pull requests and own commits the
/// dashboard asks for.
pub const DASHBOARD_LIMIT: usize = 15;

/// How many notifications the dashboard asks for.
pub const NOTIFICATIONS_LIMIT: usize = 20;

/// A query started in the background when the interface starts.
#[derive(Debug)]
pub enum Prefetch {
    /// The organisation's recent activity, at most `per_user_limit` events
    /// per member.
    Activity { org: String, per_user_limit: usize },
    /// The organisation's repositories.
    Repos { org: String },
    /// The organisation's members.
    Members { org: String },
    /// Pull requests in `org` awaiting the user's review.
    Review { org: String, limit: usize },
    /// The user's own open pull requests.
    MyPrs { limit: usize },
    /// The user's notifications.
    Notifications { limit: usize },
    /// The user's recent commits.
    MyCommits { login: String, limit: usize },
}

/// The view of a [`Prefetch`].
pub enum PrefetchView {
    Activity { org: Seq<char>, per_user_limit: usize },
    Repos { org: Seq<char> },
    Members { org: Seq<char> },
    Review { org: Seq<char>, limit: usize },
    MyPrs { limit: usize },
    Notifications { limit: usize },
    MyCommits { login: Seq<char>, limit: usize },
}

impl View for Prefetch {
    type V = PrefetchView;

    open spec fn view(&self) -> PrefetchView {
        match self {
            Prefetch::Activity { org, per_user_limit } => PrefetchView::Activity {
                org: org@,
                per_user_limit: *per_user_limit,
            },
            Prefetch::Repos { org } => PrefetchView::Repos { org: org@ },
            Prefetch::Members { org } => PrefetchView::Members { org: org@ },
            Prefetch::Review { org, limit } => PrefetchView::Review { org: org@, limit: *limit },
            Prefetch::MyPrs { limit } => PrefetchView::MyPrs { limit: *limit },
            Prefetch::Notifications { limit } => PrefetchView::Notifications { limit: *limit },
            Prefetch::MyCommits { login, limit } => PrefetchView::MyCommits {
                login: login@,
                limit: *limit,
            },
        }
    }
}

/// The background queries: the organisation's activity, repositories and
/// members when the repository's organisation is known; the review
/// requests when the dashboard has an organisation; the user's pull
/// requests and notifications always; the user's commits when the login is
/// known.
pub open spec fn prefetch_plan(
    org: Option<String>,
    dashboard_org: Option<String>,
    authed_user: Option<String>,
) -> Seq<PrefetchView> {
    let org_part = match org {
        Some(o) => seq![
            PrefetchView::Activity { org: o@, per_user_limit: ACTIVITY_PER_USER },
            PrefetchView::Repos { org: o@ },
            PrefetchView::Members { org: o@ },
        ],
        None => Seq::empty(),
    };
    let review_part = match dashboard_org {
        Some(d) => seq![PrefetchView::Review { org: d@, limit: DASHBOARD_LIMIT }],
        None => Seq::empty(),
    };
    let global = seq![
        PrefetchView::MyPrs { limit: DASHBOARD_LIMIT },
        PrefetchView::Notifications { limit: NOTIFICATIONS_LIMIT },
    ];
    let commits_part = match authed_user {
        Some(l) => seq![PrefetchView::MyCommits { login: l@, limit: DASHBOARD_LIMIT }],
        None => Seq::empty(),
    };
    org_part + review_part + global + commits_part
}

pub open spec fn prefetch_views(v: Seq<Prefetch>) -> Seq<PrefetchView> {
    v.map_values(|p: Prefetch| p@)
}

/// An answer to a background query.
#[derive(Debug)]
pub enum BgMessage {
    Activity(Result<Vec<UserActivity>, String>),
    Repos(Result<Vec<RepoInfo>, String>),
    Members(Result<Vec<OrgMember>, String>),
    Review(Result<Vec<ReviewRequestedPr>, String>),
    MyPrs(Result<Vec<UserPr>, String>),
    Notifications(Result<Vec<Notification>, String>),
    MyCommits(Result<Vec<UserCommit>, String>),
}

/// The state after a background answer: the list it answers takes it in;
/// the repository, member and review lists select their first item if
/// nothing was selected.
pub open spec fn applied(a: App, m: BgMessage) -> App {
    let d = a.dashboard;
    match m {
        BgMessage::Activity(r) => App {
            org: match r {
                Ok(v) => OrgState { activity: v, activity_loaded: true, activity_err: None, ..a.org },
                Err(e) => OrgState { activity_loaded: true, activity_err: Some(e), ..a.org },
            },
            ..a
        },
        BgMessage::Repos(r) => App { org: OrgState { repos: filled_list(a.org.repos, r), ..a.org }, ..a },
        BgMessage::Members(r) => App { org: OrgState { users: filled_list(a.org.users, r), ..a.org }, ..a },
        BgMessage::Review(r) => App {
            dashboard: DashboardState { review: filled(d.review, r, true), ..d },
            ..a
        },
        BgMessage::MyPrs(r) => App {
            dashboard: DashboardState { my_prs: filled(d.my_prs, r, false), ..d },
            ..a
        },
        BgMessage::Notifications(r) => App {
            dashboard: DashboardState { notifications: filled(d.notifications, r, false), ..d },
            ..a
        },
        BgMessage::MyCommits(r) => App {
            dashboard: DashboardState { my_commits: filled(d.my_commits, r, false), ..d },
            ..a
        },
    }
}

/// The commit detail as it stands once read: the details or the error,
/// scrolled to the top, on the detail screen.
pub open spec fn shown_commit_detail(a: App, r: Result<CommitDetail, String>, origin: DetailOrigin) -> App {
    App {
        commit_detail: Some(
            CommitDetailView { detail: ok_of(r), error: err_of(r), scroll: 0, origin },
        ),
        screen: Screen::CommitDetail,
        ..a
    }
}

/// What the interface remembers across a reload.
#[derive(Debug)]
pub struct ReloadMemory {
    pub screen: Screen,
    pub subview: OrgSubview,
    /// The repository whose detail was open.
    pub repo_name: Option<String>,
    /// The member whose detail was open.
    pub user_login: Option<String>,
}

/// What a reload keeps of a state.
pub open spec fn memory_of(a: App) -> ReloadMemory {
    ReloadMemory {
        screen: a.screen,
        subview: a.org.subview,
        repo_name: match a.repo_detail {
            Some(d) => Some(d.full_name),
            None => None,
        },
        user_login: match a.user_detail {
            Some(d) => Some(d.login),
            None => None,
        },
    }
}

/// A fresh state after a reload, back where the old one was: on the same
/// screen and Org view, with the repository or member detail opened again
/// (or, without one, the list it came from), and a commit, pull request or
/// notification detail given up for the tab it belongs to.
pub open spec fn restored(a: App, m: ReloadMemory, b: App, act: ActionView) -> bool {
    let a1 = App { screen: m.screen, org: with_subview(a.org, m.subview), ..a };
    match m.screen {
        Screen::RepoDetail => match m.repo_name {
            Some(full) => opened_repo(a1, full, b, act),
            None => act == ActionView::Nothing && b == App { screen: Screen::Org, ..a1 },
        },
        Screen::UserDetail => match m.user_login {
            Some(login) => opened_user(a1, login, b, act),
            None => act == ActionView::Nothing && b == App {
                screen: Screen::Org,
                org: with_subview(a1.org, OrgSubview::Users),
                ..a1
            },
        },
        Screen::CommitDetail => act == ActionView::Nothing && b == App { screen: Screen::Repo, ..a1 },
        Screen::PrDetail | Screen::NotificationDetail => act == ActionView::Nothing && b == App {
            screen: Screen::Dashboard,
            ..a1
        },
        _ => act == ActionView::Nothing && b == a1,
    }
}

impl App {
    /// The queries to start in the background (see [`prefetch_plan`]).
    pub fn prefetches(&self) -> (r: Vec<Prefetch>)
        ensures
            prefetch_views(r@) == prefetch_plan(self.org.name, self.dashboard_org, self.authed_user),
    {
        let mut r: Vec<Prefetch> = Vec::new();
        match &self.org.name {
            Some(o) => {
                r.push(Prefetch::Activity { org: o.clone(), per_user_limit: ACTIVITY_PER_USER });
                r.push(Prefetch::Repos { org: o.clone() });
                r.push(Prefetch::Members { org: o.clone() });
            },
            None => {},
        }
        match &self.dashboard_org {
            Some(d) => {
                r.push(Prefetch::Review { org: d.clone(), limit: DASHBOARD_LIMIT });
            },
            None => {},
        }
        r.push(Prefetch::MyPrs { limit: DASHBOARD_LIMIT });
        r.push(Prefetch::Notifications { limit: NOTIFICATIONS_LIMIT });
        match &self.authed_user {
            Some(l) => {
                r.push(Prefetch::MyCommits { login: l.clone(), limit: DASHBOARD_LIMIT });
            },
            None => {},
        }
        assert(prefetch_views(r@) =~= prefetch_plan(
            self.org.name,
            self.dashboard_org,
            self.authed_user,
        ));
        r
    }

    /// Takes in an answer to a background query (see [`applied`]).
    pub fn apply(&mut self, m: BgMessage)
        ensures
            *final(self) == applied(*old(self), m),
    {
        match m {
            BgMessage::Activity(r) => match r {
                Ok(v) => {
                    self.org.activity = v;
                    self.org.activity_loaded = true;
                    self.org.activity_err = None;
                },
                Err(e) => {
                    self.org.activity_loaded = true;
                    self.org.activity_err = Some(e);
                },
            },
            BgMessage::Repos(r) => self.org.repos.fill(r),
            BgMessage::Members(r) => self.org.users.fill(r),
            BgMessage::Review(r) => self.dashboard.review.fill(r, true),
            BgMessage::MyPrs(r) => self.dashboard.my_prs.fill(r, false),
            BgMessage::Notifications(r) => self.dashboard.notifications.fill(r, false),
            BgMessage::MyCommits(r) => self.dashboard.my_commits.fill(r, false),
        }
    }

    fn show_commit_detail(&mut self, r: Result<CommitDetail, String>, origin: DetailOrigin)
        ensures
            *final(self) == shown_commit_detail(*old(self), r, origin),
    {
        let (detail, error) = split_result(r);
        self.commit_detail = Some(CommitDetailView { detail, error, scroll: 0, origin });
        self.screen = Screen::CommitDetail;
    }

    /// Shows a commit of the repository read after
    /// [`Action::LoadCommitDetail`]; Esc returns to the Repo tab.
    pub fn finish_commit_detail(&mut self, r: Result<CommitDetail, String>)
        ensures
            *final(self) == shown_commit_detail(*old(self), r, DetailOrigin::Repo),
    {
        self.show_commit_detail(r, DetailOrigin::Repo);
    }

    /// Shows a commit fetched after [`Action::LoadOrgCommitDetail`]; Esc
    /// returns to the dashboard.
    pub fn finish_org_commit_detail(&mut self, r: Result<CommitDetail, String>)
        ensures
            *final(self) == shown_commit_detail(*old(self), r, DetailOrigin::Dashboard),
    {
        self.show_commit_detail(r, DetailOrigin::Dashboard);
    }

    /// Shows a pull request fetched after [`Action::LoadPrDetail`].
    pub fn finish_pr_detail(&mut self, r: Result<PrDetail, String>)
        ensures
            *final(self) == (App {
                pr_detail: Some(PrDetailView { detail: ok_of(r), error: err_of(r), scroll: 0 }),
                screen: Screen::PrDetail,
                ..*old(self)
            }),
    {
        let (detail, error) = split_result(r);
        self.pr_detail = Some(PrDetailView { detail, error, scroll: 0 });
        self.screen = Screen::PrDetail;
    }

    /// Shows the diff read after [`Action::LoadDiff`] in place of the
    /// commits and pull requests.
    pub fn finish_diff(&mut self, path: String, r: Result<Vec<String>, String>)
        ensures
            *final(self) == (App {
                repo: RepoTab { diff: final(self).repo.diff, ..old(self).repo },
                ..*old(self)
            }),
            final(self).repo.diff matches Some(d) && d.path == path && d.error == err_of(r)
                && match r {
                Ok(lines) => d.lines == lines,
                Err(_) => d.lines@.len() == 0,
            },
    {
        let (lines, error) = split_list(r);
        self.repo.diff = Some(DiffView { path, lines, error });
    }

    /// Fills the open repository detail with what was fetched after
    /// [`Action::LoadRepoDetail`]; each part, or the error in its place.
    pub fn finish_repo_detail(
        &mut self,
        commits: Result<Vec<Commit>, String>,
        prs: Result<Vec<PullRequest>, String>,
        contributors: Result<Vec<Contributor>, String>,
    )
        ensures
            *final(self) == (App { repo_detail: final(self).repo_detail, ..*old(self) }),
            match old(self).repo_detail {
                Some(d) => final(self).repo_detail matches Some(n) && n == (RepoDetailState {
                    commits: n.commits,
                    commits_err: err_of(commits),
                    prs: n.prs,
                    prs_err: err_of(prs),
                    contributors: n.contributors,
                    contributors_err: err_of(contributors),
                    loaded: true,
                    ..d
                }) && (match commits {
                    Ok(c) => n.commits == c,
                    Err(_) => n.commits == d.commits,
                }) && (match prs {
                    Ok(p) => n.prs == p,
                    Err(_) => n.prs == d.prs,
                }) && (match contributors {
                    Ok(c) => n.contributors == c,
                    Err(_) => n.contributors == d.contributors,
                }),
                None => final(self).repo_detail is None,
            },
    {
        match &mut self.repo_detail {
            Some(d) => {
                match commits {
                    Ok(c) => {
                        d.commits = c;
                        d.commits_err = None;
                    },
                    Err(e) => {
                        d.commits_err = Some(e);
                    },
                }
                match prs {
                    Ok(p) => {
                        d.prs = p;
                        d.prs_err = None;
                    },
                    Err(e) => {
                        d.prs_err = Some(e);
                    },
                }
                match contributors {
                    Ok(c) => {
                        d.contributors = c;
                        d.contributors_err = None;
                    },
                    Err(e) => {
                        d.contributors_err = Some(e);
                    },
                }
                d.loaded = true;
            },
            None => {},
        }
    }

    /// Fills the open member detail with what was fetched after
    /// [`Action::LoadUserDetail`]; each part, or the error in its place.
    pub fn finish_user_detail(
        &mut self,
        commits: Result<Vec<UserCommit>, String>,
        submitted: Result<Vec<UserPr>, String>,
        reviewed: Result<Vec<UserPr>, String>,
    )
        ensures
            *final(self) == (App { user_detail: final(self).user_detail, ..*old(self) }),
            match old(self).user_detail {
                Some(d) => final(self).user_detail matches Some(n) && n == (UserDetailState {
                    commits: n.commits,
                    commits_err: err_of(commits),
                    submitted_prs: n.submitted_prs,
                    submitted_err: err_of(submitted),
                    reviewed_prs: n.reviewed_prs,
                    reviewed_err: err_of(reviewed),
                    ..d
                }) && (match commits {
                    Ok(c) => n.commits == c,
                    Err(_) => n.commits == d.commits,
                }) && (match submitted {
                    Ok(p) => n.submitted_prs == p,
                    Err(_) => n.submitted_prs == d.submitted_prs,
                }) && (match reviewed {
                    Ok(p) => n.reviewed_prs == p,
                    Err(_) => n.reviewed_prs == d.reviewed_prs,
                }),
                None => final(self).user_detail is None,
            },
    {
        match &mut self.user_detail {
            Some(d) => {
                match commits {
                    Ok(c) => {
                        d.commits = c;
                        d.commits_err = None;
                    },
                    Err(e) => {
                        d.commits_err = Some(e);
                    },
                }
                match submitted {
                    Ok(p) => {
                        d.submitted_prs = p;
                        d.submitted_err = None;
                    },
                    Err(e) => {
                        d.submitted_err = Some(e);
                    },
                }
                match reviewed {
                    Ok(p) => {
                        d.reviewed_prs = p;
                        d.reviewed_err = None;
                    },
                    Err(e) => {
                        d.reviewed_err = Some(e);
                    },
                }
            },
            None => {},
        }
    }

    /// What a reload has to keep.
    pub fn reload_memory(&self) -> (m: ReloadMemory)
        ensures
            m == memory_of(*self),
    {
        ReloadMemory {
            screen: self.screen,
            subview: self.org.subview,
            repo_name: match &self.repo_detail {
                Some(d) => Some(d.full_name.clone()),
                None => None,
            },
            user_login: match &self.user_detail {
                Some(d) => Some(d.login.clone()),
                None => None,
            },
        }
    }

    /// Brings a freshly loaded state back where the old one was (see
    /// [`restored`]); the action fetches a reopened detail.
    pub fn restore(&mut self, m: ReloadMemory) -> (act: Action)
        ensures
            restored(*old(self), m, *final(self), act@),
    {
        self.screen = m.screen;
        self.org.subview = m.subview;
        match m.screen {
            Screen::RepoDetail => match m.repo_name {
                Some(full) => self.open_repo_detail(full),
                None => {
                    self.screen = Screen::Org;
                    Action::Nothing
                },
            },
            Screen::UserDetail => match m.user_login {
                Some(login) => self.open_user_detail(login),
                None => {
                    self.screen = Screen::Org;
                    self.org.subview = OrgSubview::Users;
                    Action::Nothing
                },
            },
            Screen::CommitDetail => {
                self.screen = Screen::Repo;
                Action::Nothing
            },
            Screen::PrDetail | Screen::NotificationDetail => {
                self.screen = Screen::Dashboard;
                Action::Nothing
            },
            _ => Action::Nothing,
        }
    }
}

} // verus!
