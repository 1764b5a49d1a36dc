//! The data the library works on: what git and the GitHub CLI report, as
//! plain values, and the records built from it.
use vstd::prelude::*;
use crate::text::{append_str, chars_of, string_of};

verus! {

/// What a finished process reported.
#[derive(Clone, Debug)]
pub struct CommandOutput {
    /// The process exited with status zero.
    pub success: bool,
    pub stdout: Vec<u8>,
    pub stderr: Vec<u8>,
}

/// Why a query for data failed.
#[derive(Clone, Debug)]
pub enum DataError {
    /// The program could not be started; the system's message.
    LaunchFailed(String),
    /// The program exited unsuccessfully; its standard error, decoded.
    CommandFailed(String),
    /// A remote URL from which no owner could be read.
    UnparsableRemote(String),
    /// The authenticated user's login came back empty.
    EmptyLogin,
    /// The user belongs to no organization.
    NoOrgs,
    /// The named owner is not an organization whose members are visible.
    NotAnOrganization(String),
}

/// The view of a [`DataError`]: the same cases over character sequences.
pub enum DataErrorView {
    LaunchFailed(Seq<char>),
    CommandFailed(Seq<char>),
    UnparsableRemote(Seq<char>),
    EmptyLogin,
    NoOrgs,
    NotAnOrganization(Seq<char>),
}

impl View for DataError {
    type V = DataErrorView;

    open spec fn view(&self) -> DataErrorView {
        match self {
            DataError::LaunchFailed(s) => DataErrorView::LaunchFailed(s@),
            DataError::CommandFailed(s) => DataErrorView::CommandFailed(s@),
            DataError::UnparsableRemote(s) => DataErrorView::UnparsableRemote(s@),
            DataError::EmptyLogin => DataErrorView::EmptyLogin,
            DataError::NoOrgs => DataErrorView::NoOrgs,
            DataError::NotAnOrganization(s) => DataErrorView::NotAnOrganization(s@),
        }
    }
}

/// What the program says of an error: the system's or the command's own
/// words, or a sentence naming the value at fault.
pub open spec fn message_spec(e: DataErrorView) -> Seq<char> {
    match e {
        DataErrorView::LaunchFailed(s) => s,
        DataErrorView::CommandFailed(s) => s,
        DataErrorView::UnparsableRemote(u) => "could not parse owner from remote URL: "@ + u,
        DataErrorView::EmptyLogin => "gh api user returned empty login"@,
        DataErrorView::NoOrgs => "user belongs to no orgs"@,
        DataErrorView::NotAnOrganization(o) => "'"@ + o
            + "' is not a GitHub organization (or members are not visible)"@,
    }
}

impl DataError {
    /// What the program says of the error (see [`message_spec`]).
    pub fn message(&self) -> (r: String)
        ensures
            r@ == message_spec(self@),
    {
        match self {
            DataError::LaunchFailed(s) => s.clone(),
            DataError::CommandFailed(s) => s.clone(),
            DataError::UnparsableRemote(u) => {
                let mut t = chars_of("could not parse owner from remote URL: ");
                append_str(&mut t, u.as_str());
                string_of(&t)
            },
            DataError::EmptyLogin => "gh api user returned empty login".to_string(),
            DataError::NoOrgs => "user belongs to no orgs".to_string(),
            DataError::NotAnOrganization(o) => {
                let mut t = chars_of("'");
                append_str(&mut t, o.as_str());
                append_str(&mut t, "' is not a GitHub organization (or members are not visible)");
                string_of(&t)
            },
        }
    }
}

#[derive(Clone, Debug)]
pub struct RepoSummary {
    pub root: String,
    pub branch: String,
    pub remote_url: Option<String>,
    pub upstream: Option<String>,
    pub ahead: u32,
    pub behind: u32,
    pub last_fetch: Option<String>,
}

#[derive(Clone, Debug)]
pub struct Commit {
    pub sha: String,
    pub author: String,
    pub date: String,
    pub subject: String,
}

#[derive(Clone, Debug)]
pub struct PrAuthor {
    pub login: String,
}

#[derive(Clone, Debug)]
pub struct PullRequest {
    pub number: u64,
    pub title: String,
    pub author: PrAuthor,
    pub head: String,
    pub is_draft: bool,
}

#[derive(Clone, Debug)]
pub struct ActivityEvent {
    pub kind: String,
    pub repo: String,
    pub detail: String,
    pub when: String,
}

#[derive(Clone, Debug)]
pub struct UserActivity {
    pub login: String,
    pub events: Vec<ActivityEvent>,
}

/// The view of an [`ActivityEvent`].
pub struct EventView {
    pub kind: Seq<char>,
    pub repo: Seq<char>,
    pub detail: Seq<char>,
    pub when: Seq<char>,
}

impl View for ActivityEvent {
    type V = EventView;

    open spec fn view(&self) -> EventView {
        EventView { kind: self.kind@, repo: self.repo@, detail: self.detail@, when: self.when@ }
    }
}

/// The views of a sequence of events.
pub open spec fn event_views(s: Seq<ActivityEvent>) -> Seq<EventView> {
    s.map_values(|e: ActivityEvent| e@)
}

/// The view of a [`UserActivity`].
pub struct UserActivityView {
    pub login: Seq<char>,
    pub events: Seq<EventView>,
}

impl View for UserActivity {
    type V = UserActivityView;

    open spec fn view(&self) -> UserActivityView {
        UserActivityView { login: self.login@, events: event_views(self.events@) }
    }
}

#[derive(Clone, Debug)]
pub struct RepoInfo {
    pub name: String,
    pub full_name: String,
    pub description: Option<String>,
    pub pushed_at: Option<String>,
    pub default_branch: Option<String>,
    pub primary_language: Option<String>,
    pub stargazer_count: u64,
    pub is_private: bool,
}

#[derive(Clone, Debug)]
pub struct Contributor {
    pub login: String,
    pub contributions: u64,
}

#[derive(Clone, Debug)]
pub struct CommitDetail {
    pub sha: String,
    pub author: String,
    pub email: String,
    pub date: String,
    pub subject: String,
    pub body: String,
    pub stat_lines: Vec<String>,
}

#[derive(Clone, Debug)]
pub struct DirtyFile {
    pub status: String,
    pub path: String,
}

#[derive(Clone, Debug)]
pub struct ReviewRequestedPr {
    pub number: u64,
    pub title: String,
    pub repo: String,
    pub author: String,
    pub updated_at: String,
    pub is_draft: bool,
}

#[derive(Clone, Debug)]
pub struct Notification {
    pub reason: String,
    pub title: String,
    pub repo: String,
    pub kind: String,
    pub unread: bool,
    pub updated_at: String,
    pub web_url: String,
}

#[derive(Clone, Debug)]
pub struct PrDetail {
    pub number: u64,
    pub title: String,
    pub body: String,
    pub url: String,
    pub author: String,
    pub state: String,
    pub is_draft: bool,
    pub head_ref: String,
    pub base_ref: String,
    pub additions: u64,
    pub deletions: u64,
    pub updated_at: String,
}

#[derive(Clone, Debug)]
pub struct OrgMember {
    pub login: String,
}

#[derive(Clone, Debug)]
pub struct UserCommit {
    pub sha: String,
    pub repo: String,
    pub subject: String,
    pub date: String,
}

#[derive(Clone, Debug)]
pub struct UserPr {
    pub number: u64,
    pub title: String,
    pub repo: String,
    pub state: String,
    pub is_draft: bool,
    pub author: String,
    pub updated_at: String,
}

// ---- Records as the GitHub CLI reports them ----
#[derive(Clone, Debug)]
pub struct SearchAuthor {
    pub login: String,
}

#[derive(Clone, Debug)]
pub struct SearchRepo {
    pub name_with_owner: String,
}

/// One pull request from `gh search prs`.
#[derive(Clone, Debug)]
pub struct SearchPr {
    pub number: u64,
    pub title: String,
    pub author: Option<SearchAuthor>,
    pub repository: SearchRepo,
    pub state: String,
    pub is_draft: bool,
    pub updated_at: String,
}

/// One issue from `gh search issues`.
#[derive(Clone, Debug)]
pub struct SearchIssue {
    pub number: u64,
    pub title: String,
    pub author: Option<SearchAuthor>,
    pub repository: SearchRepo,
    pub state: String,
    pub updated_at: String,
}

#[derive(Clone, Debug)]
pub struct RawDefaultBranch {
    pub name: String,
}

#[derive(Clone, Debug)]
pub struct RawLanguage {
    pub name: String,
}

/// One repository from `gh repo list`.
#[derive(Clone, Debug)]
pub struct RawRepoListItem {
    pub name: String,
    pub name_with_owner: String,
    pub description: Option<String>,
    pub pushed_at: Option<String>,
    pub default_branch_ref: Option<RawDefaultBranch>,
    pub primary_language: Option<RawLanguage>,
    pub stargazer_count: u64,
    pub is_private: bool,
}

#[derive(Clone, Debug)]
pub struct RawContributor {
    pub login: String,
    pub contributions: u64,
}

#[derive(Clone, Debug)]
pub struct RawCommitAuthor {
    pub name: String,
    pub date: String,
}

#[derive(Clone, Debug)]
pub struct RawCommitInner {
    pub author: RawCommitAuthor,
    pub message: String,
}

#[derive(Clone, Debug)]
pub struct RawApiAuthor {
    pub login: String,
}

/// One commit from the repository commits endpoint.
#[derive(Clone, Debug)]
pub struct RawApiCommit {
    pub sha: String,
    pub commit: RawCommitInner,
    pub author: Option<RawApiAuthor>,
}

#[derive(Clone, Debug)]
pub struct RawApiCommitFile {
    pub filename: String,
    pub additions: u64,
    pub deletions: u64,
    pub status: String,
}

/// One commit, with its files, from the single-commit endpoint.
#[derive(Clone, Debug)]
pub struct RawApiCommitFull {
    pub sha: String,
    pub commit: RawCommitInner,
    pub files: Vec<RawApiCommitFile>,
}

#[derive(Clone, Debug)]
pub struct RawUserOrg {
    pub login: String,
}

#[derive(Clone, Debug)]
pub struct RawNotificationSubject {
    pub title: String,
    pub kind: String,
    pub url: Option<String>,
}

#[derive(Clone, Debug)]
pub struct RawNotificationRepo {
    pub full_name: String,
}

/// One entry of the notifications endpoint.
#[derive(Clone, Debug)]
pub struct RawNotification {
    pub reason: String,
    pub unread: bool,
    pub updated_at: String,
    pub subject: RawNotificationSubject,
    pub repository: RawNotificationRepo,
}

/// A pull request from `gh pr view`.
#[derive(Clone, Debug)]
pub struct RawPrDetail {
    pub number: u64,
    pub title: String,
    pub body: String,
    pub url: String,
    pub author: Option<SearchAuthor>,
    pub state: String,
    pub is_draft: bool,
    pub head_ref_name: String,
    pub base_ref_name: String,
    pub additions: u64,
    pub deletions: u64,
    pub updated_at: String,
}

#[derive(Clone, Debug)]
pub struct RawOrgMember {
    pub login: String,
}

#[derive(Clone, Debug)]
pub struct CommitSearchRepo {
    pub full_name: String,
}

#[derive(Clone, Debug)]
pub struct RawSearchCommitAuthor {
    pub date: String,
}

#[derive(Clone, Debug)]
pub struct RawSearchCommitInner {
    pub author: RawSearchCommitAuthor,
    pub message: String,
}

/// One commit from `gh search commits`.
#[derive(Clone, Debug)]
pub struct RawSearchCommit {
    pub sha: String,
    pub commit: RawSearchCommitInner,
    pub repository: CommitSearchRepo,
}

} // verus!
