//! The state of the terminal interface, as plain values, and the outside
//! work a key press can ask for.
use vstd::prelude::*;
use crate::panel::{FilterList, Panel};
use crate::types::{
    Commit, CommitDetail, Contributor, DirtyFile, Notification, OrgMember, PrDetail, PullRequest,
    RepoInfo, RepoSummary, ReviewRequestedPr, UserActivity, UserCommit, UserPr,
};

verus! {

/// The screens.
#[derive(Clone, Copy, Debug, PartialEq, Eq, Structural)]
pub enum Screen {
    Dashboard,
    Repo,
    Org,
    RepoDetail,
    CommitDetail,
    UserDetail,
    PrDetail,
    NotificationDetail,
}

/// Where a commit detail was opened from.
#[derive(Clone, Copy, Debug, PartialEq, Eq, Structural)]
pub enum DetailOrigin {
    Repo,
    Dashboard,
}

/// The views of the Org tab.
#[derive(Clone, Copy, Debug, PartialEq, Eq, Structural)]
pub enum OrgSubview {
    Activity,
    Repos,
    Users,
}

/// A key press.
#[derive(Clone, Copy, Debug)]
pub enum Key {
    Char(char),
    Esc,
    Enter,
    Backspace,
    Tab,
    BackTab,
    Left,
    Right,
    Up,
    Down,
    PageUp,
    PageDown,
    Home,
    End,
    Other,
}

/// A commit's details, or why they could not be read.
#[derive(Debug)]
pub struct CommitDetailView {
    pub detail: Option<CommitDetail>,
    pub error: Option<String>,
    pub scroll: u16,
    pub origin: DetailOrigin,
}

/// A pull request's details, or why they could not be read.
#[derive(Debug)]
pub struct PrDetailView {
    pub detail: Option<PrDetail>,
    pub error: Option<String>,
    pub scroll: u16,
}

/// The diff of one dirty file, or why it could not be read.
#[derive(Debug)]
pub struct DiffView {
    pub path: String,
    pub lines: Vec<String>,
    pub error: Option<String>,
}

/// A repository opened from the Org tab.
#[derive(Debug)]
pub struct RepoDetailState {
    pub full_name: String,
    pub info: Option<RepoInfo>,
    pub commits: Vec<Commit>,
    pub commits_err: Option<String>,
    pub prs: Vec<PullRequest>,
    pub prs_err: Option<String>,
    pub contributors: Vec<Contributor>,
    pub contributors_err: Option<String>,
    pub loaded: bool,
}

/// A member opened from the Org tab.
#[derive(Debug)]
pub struct UserDetailState {
    pub login: String,
    pub commits: Vec<UserCommit>,
    pub commits_err: Option<String>,
    pub submitted_prs: Vec<UserPr>,
    pub submitted_err: Option<String>,
    pub reviewed_prs: Vec<UserPr>,
    pub reviewed_err: Option<String>,
}

/// The Repo tab: the repository the program runs in.
#[derive(Debug)]
pub struct RepoTab {
    pub summary: Option<RepoSummary>,
    pub summary_err: Option<String>,
    pub commits: Panel<Commit>,
    pub prs: Vec<PullRequest>,
    pub prs_err: Option<String>,
    pub dirty: Panel<DirtyFile>,
    /// The diff shown in place of the commits and pull requests.
    pub diff: Option<DiffView>,
}

/// The Dashboard tab.
#[derive(Debug)]
pub struct DashboardState {
    pub review: Panel<ReviewRequestedPr>,
    pub my_prs: Panel<UserPr>,
    pub notifications: Panel<Notification>,
    pub my_commits: Panel<UserCommit>,
}

/// The Org tab.
#[derive(Debug)]
pub struct OrgState {
    pub name: Option<String>,
    pub detect_err: Option<String>,
    pub activity: Vec<UserActivity>,
    pub activity_err: Option<String>,
    pub activity_loaded: bool,
    pub subview: OrgSubview,
    /// The first line of the activity feed shown.
    pub scroll: u16,
    pub repos: FilterList<RepoInfo>,
    pub users: FilterList<OrgMember>,
}

/// The whole state of the interface.
#[derive(Debug)]
pub struct App {
    pub screen: Screen,
    pub in_git_repo: bool,
    pub dashboard_org: Option<String>,
    pub dashboard_org_err: Option<String>,
    pub authed_user: Option<String>,
    pub repo: RepoTab,
    pub dashboard: DashboardState,
    pub org: OrgState,
    pub commit_detail: Option<CommitDetailView>,
    pub pr_detail: Option<PrDetailView>,
    pub notification_detail: Option<Notification>,
    pub repo_detail: Option<RepoDetailState>,
    pub user_detail: Option<UserDetailState>,
}

/// What the caller should do after a key press.
#[derive(Debug)]
pub enum Action {
    /// Nothing to do.
    Nothing,
    Quit,
    /// Reload everything, then hand the old state's [`ReloadMemory`] to
    /// [`App::restore`].
    Reload,
    /// Read a local commit with git; hand the result to `finish_commit_detail`.
    LoadCommitDetail { sha: String },
    /// Read a commit from GitHub; hand the result to `finish_commit_detail`.
    LoadOrgCommitDetail { owner: String, repo: String, sha: String },
    /// Fetch a repository's latest `commits` commits, `prs` pull requests
    /// and `contributors` top contributors; hand them to
    /// `finish_repo_detail`.
    LoadRepoDetail { owner: String, repo: String, commits: usize, prs: usize, contributors: usize },
    /// Fetch a member's latest `limit` commits, submitted and reviewed pull
    /// requests; hand them to `finish_user_detail`.
    LoadUserDetail { org: String, login: String, limit: usize },
    /// Fetch a pull request; hand the result to `finish_pr_detail`.
    LoadPrDetail { owner: String, repo: String, number: u64 },
    /// Read the diff of a dirty file; hand the result to `finish_diff`.
    LoadDiff { path: String, status: String },
    /// Open an address in the browser.
    OpenBrowser { url: String },
}

/// The view of an [`Action`].
pub enum ActionView {
    Nothing,
    Quit,
    Reload,
    LoadCommitDetail { sha: Seq<char> },
    LoadOrgCommitDetail { owner: Seq<char>, repo: Seq<char>, sha: Seq<char> },
    LoadRepoDetail { owner: Seq<char>, repo: Seq<char>, commits: usize, prs: usize, contributors: usize },
    LoadUserDetail { org: Seq<char>, login: Seq<char>, limit: usize },
    LoadPrDetail { owner: Seq<char>, repo: Seq<char>, number: u64 },
    LoadDiff { path: Seq<char>, status: Seq<char> },
    OpenBrowser { url: Seq<char> },
}

impl View for Action {
    type V = ActionView;

    open spec fn view(&self) -> ActionView {
        match self {
            Action::Nothing => ActionView::Nothing,
            Action::Quit => ActionView::Quit,
            Action::Reload => ActionView::Reload,
            Action::LoadCommitDetail { sha } => ActionView::LoadCommitDetail { sha: sha@ },
            Action::LoadOrgCommitDetail { owner, repo, sha } => ActionView::LoadOrgCommitDetail {
                owner: owner@,
                repo: repo@,
                sha: sha@,
            },
            Action::LoadRepoDetail { owner, repo, commits, prs, contributors } => {
                ActionView::LoadRepoDetail {
                    owner: owner@,
                    repo: repo@,
                    commits: *commits,
                    prs: *prs,
                    contributors: *contributors,
                }
            },
            Action::LoadUserDetail { org, login, limit } => ActionView::LoadUserDetail {
                org: org@,
                login: login@,
                limit: *limit,
            },
            Action::LoadPrDetail { owner, repo, number } => ActionView::LoadPrDetail {
                owner: owner@,
                repo: repo@,
                number: *number,
            },
            Action::LoadDiff { path, status } => ActionView::LoadDiff {
                path: path@,
                status: status@,
            },
            Action::OpenBrowser { url } => ActionView::OpenBrowser { url: url@ },
        }
    }
}

} // verus!
