//! The command lines the library asks the GitHub CLI to run, and the one
//! that opens a link in the browser.
use vstd::prelude::*;
use crate::text::{append_chars, append_str, chars_of, decimal, decimal_chars, string_of};

verus! {

/// The views of a list of arguments.
pub open spec fn arg_views(v: Seq<String>) -> Seq<Seq<char>> {
    v.map_values(|s: String| s@)
}

/// `n` in decimal, as a string.
fn num(n: u64) -> (r: String)
    ensures
        r@ == decimal(n as nat),
{
    string_of(&decimal_chars(n))
}

/// `/repos/{owner}/{repo}/{tail}`.
pub open spec fn repo_path(owner: Seq<char>, repo: Seq<char>, tail: Seq<char>) -> Seq<char> {
    "/repos/"@ + owner + "/"@ + repo + "/"@ + tail
}

fn repo_path_exec(owner: &str, repo: &str, tail: &[char]) -> (r: Vec<char>)
    ensures
        r@ == repo_path(owner@, repo@, tail@),
{
    let mut v = chars_of("/repos/");
    append_str(&mut v, owner);
    append_str(&mut v, "/");
    append_str(&mut v, repo);
    append_str(&mut v, "/");
    append_chars(&mut v, tail);
    v
}

/// The JSON fields asked of `gh search prs`.
pub open spec fn search_pr_fields() -> Seq<char> {
    "number,title,author,repository,state,isDraft,updatedAt"@
}

/// The fields asked of `gh pr list`.
pub open spec fn pr_list_fields() -> Seq<char> {
    "number,title,author,headRefName,isDraft"@
}

/// `gh pr list` for the open pull requests of the current repository.
pub open spec fn open_pull_requests_spec(limit: nat) -> Seq<Seq<char>> {
    seq!["pr"@, "list"@, "--state"@, "open"@, "--limit"@, decimal(limit), "--json"@, pr_list_fields()]
}

pub fn open_pull_requests_args(limit: usize) -> (r: Vec<String>)
    ensures
        arg_views(r@) == open_pull_requests_spec(limit as nat),
{
    let r = vec![
        "pr".to_string(),
        "list".to_string(),
        "--state".to_string(),
        "open".to_string(),
        "--limit".to_string(),
        num(limit as u64),
        "--json".to_string(),
        "number,title,author,headRefName,isDraft".to_string(),
    ];
    assert(arg_views(r@) =~= open_pull_requests_spec(limit as nat));
    r
}

/// `gh search prs` over an organisation's unarchived repositories, most
/// recently updated first, for the activity feed.
pub open spec fn activity_prs_spec(org: Seq<char>) -> Seq<Seq<char>> {
    seq![
        "search"@,
        "prs"@,
        "--archived=false"@,
        "--owner"@,
        org,
        "--sort"@,
        "updated"@,
        "--limit"@,
        "100"@,
        "--json"@,
        search_pr_fields(),
    ]
}

pub fn activity_prs_args(org: &str) -> (r: Vec<String>)
    ensures
        arg_views(r@) == activity_prs_spec(org@),
{
    let r = vec![
        "search".to_string(),
        "prs".to_string(),
        "--archived=false".to_string(),
        "--owner".to_string(),
        org.to_owned(),
        "--sort".to_string(),
        "updated".to_string(),
        "--limit".to_string(),
        "100".to_string(),
        "--json".to_string(),
        "number,title,author,repository,state,isDraft,updatedAt".to_string(),
    ];
    assert(arg_views(r@) =~= activity_prs_spec(org@));
    r
}

/// `gh search issues` over an organisation's unarchived repositories.
pub open spec fn activity_issues_spec(org: Seq<char>) -> Seq<Seq<char>> {
    seq![
        "search"@,
        "issues"@,
        "--archived=false"@,
        "--owner"@,
        org,
        "--sort"@,
        "updated"@,
        "--limit"@,
        "100"@,
        "--json"@,
        "number,title,author,repository,state,updatedAt"@,
    ]
}

pub fn activity_issues_args(org: &str) -> (r: Vec<String>)
    ensures
        arg_views(r@) == activity_issues_spec(org@),
{
    let r = vec![
        "search".to_string(),
        "issues".to_string(),
        "--archived=false".to_string(),
        "--owner".to_string(),
        org.to_owned(),
        "--sort".to_string(),
        "updated".to_string(),
        "--limit".to_string(),
        "100".to_string(),
        "--json".to_string(),
        "number,title,author,repository,state,updatedAt".to_string(),
    ];
    assert(arg_views(r@) =~= activity_issues_spec(org@));
    r
}

/// `gh repo list` of an organisation's unarchived repositories.
pub open spec fn org_repos_spec(org: Seq<char>) -> Seq<Seq<char>> {
    seq![
        "repo"@,
        "list"@,
        org,
        "--limit"@,
        "500"@,
        "--no-archived"@,
        "--json"@,
        "name,nameWithOwner,description,pushedAt,defaultBranchRef,primaryLanguage,stargazerCount,isPrivate"@,
    ]
}

pub fn org_repos_args(org: &str) -> (r: Vec<String>)
    ensures
        arg_views(r@) == org_repos_spec(org@),
{
    let r = vec![
        "repo".to_string(),
        "list".to_string(),
        org.to_owned(),
        "--limit".to_string(),
        "500".to_string(),
        "--no-archived".to_string(),
        "--json".to_string(),
        "name,nameWithOwner,description,pushedAt,defaultBranchRef,primaryLanguage,stargazerCount,isPrivate".to_string(),
    ];
    assert(arg_views(r@) =~= org_repos_spec(org@));
    r
}

/// `gh api` for a repository's recent commits.
pub open spec fn repo_commits_spec(owner: Seq<char>, repo: Seq<char>, limit: nat) -> Seq<Seq<char>> {
    seq!["api"@, repo_path(owner, repo, "commits?per_page="@ + decimal(limit))]
}

pub fn repo_commits_args(owner: &str, repo: &str, limit: usize) -> (r: Vec<String>)
    ensures
        arg_views(r@) == repo_commits_spec(owner@, repo@, limit as nat),
{
    let mut tail = chars_of("commits?per_page=");
    append_chars(&mut tail, &decimal_chars(limit as u64));
    let path = repo_path_exec(owner, repo, &tail);
    let r = vec!["api".to_string(), string_of(&path)];
    assert(arg_views(r@) =~= repo_commits_spec(owner@, repo@, limit as nat));
    r
}

/// `gh api` for a repository's top contributors.
pub open spec fn repo_contributors_spec(owner: Seq<char>, repo: Seq<char>, limit: nat) -> Seq<
    Seq<char>,
> {
    seq!["api"@, repo_path(owner, repo, "contributors?per_page="@ + decimal(limit))]
}

pub fn repo_contributors_args(owner: &str, repo: &str, limit: usize) -> (r: Vec<String>)
    ensures
        arg_views(r@) == repo_contributors_spec(owner@, repo@, limit as nat),
{
    let mut tail = chars_of("contributors?per_page=");
    append_chars(&mut tail, &decimal_chars(limit as u64));
    let path = repo_path_exec(owner, repo, &tail);
    let r = vec!["api".to_string(), string_of(&path)];
    assert(arg_views(r@) =~= repo_contributors_spec(owner@, repo@, limit as nat));
    r
}

/// `gh api` for one commit with its files.
pub open spec fn org_commit_spec(owner: Seq<char>, repo: Seq<char>, sha: Seq<char>) -> Seq<
    Seq<char>,
> {
    seq!["api"@, repo_path(owner, repo, "commits/"@ + sha)]
}

pub fn org_commit_args(owner: &str, repo: &str, sha: &str) -> (r: Vec<String>)
    ensures
        arg_views(r@) == org_commit_spec(owner@, repo@, sha@),
{
    let mut tail = chars_of("commits/");
    append_str(&mut tail, sha);
    let path = repo_path_exec(owner, repo, &tail);
    let r = vec!["api".to_string(), string_of(&path)];
    assert(arg_views(r@) =~= org_commit_spec(owner@, repo@, sha@));
    r
}

/// `owner/repo`.
pub open spec fn full_name(owner: Seq<char>, repo: Seq<char>) -> Seq<char> {
    owner + "/"@ + repo
}

fn full_name_exec(owner: &str, repo: &str) -> (r: String)
    ensures
        r@ == full_name(owner@, repo@),
{
    let mut v = chars_of(owner);
    append_str(&mut v, "/");
    append_str(&mut v, repo);
    string_of(&v)
}

/// `gh pr list` of any state for a repository.
pub open spec fn repo_prs_spec(owner: Seq<char>, repo: Seq<char>, limit: nat) -> Seq<Seq<char>> {
    seq![
        "pr"@,
        "list"@,
        "--repo"@,
        full_name(owner, repo),
        "--state"@,
        "all"@,
        "--limit"@,
        decimal(limit),
        "--json"@,
        pr_list_fields(),
    ]
}

pub fn repo_prs_args(owner: &str, repo: &str, limit: usize) -> (r: Vec<String>)
    ensures
        arg_views(r@) == repo_prs_spec(owner@, repo@, limit as nat),
{
    let r = vec![
        "pr".to_string(),
        "list".to_string(),
        "--repo".to_string(),
        full_name_exec(owner, repo),
        "--state".to_string(),
        "all".to_string(),
        "--limit".to_string(),
        num(limit as u64),
        "--json".to_string(),
        "number,title,author,headRefName,isDraft".to_string(),
    ];
    assert(arg_views(r@) =~= repo_prs_spec(owner@, repo@, limit as nat));
    r
}

/// `gh search prs` for the open pull requests in an organisation that
/// await the user's review.
pub open spec fn review_requested_spec(org: Seq<char>, limit: nat) -> Seq<Seq<char>> {
    seq![
        "search"@,
        "prs"@,
        "--archived=false"@,
        "--owner"@,
        org,
        "--review-requested"@,
        "@me"@,
        "--state"@,
        "open"@,
        "--sort"@,
        "updated"@,
        "--limit"@,
        decimal(limit),
        "--json"@,
        search_pr_fields(),
    ]
}

pub fn review_requested_args(org: &str, limit: usize) -> (r: Vec<String>)
    ensures
        arg_views(r@) == review_requested_spec(org@, limit as nat),
{
    let r = vec![
        "search".to_string(),
        "prs".to_string(),
        "--archived=false".to_string(),
        "--owner".to_string(),
        org.to_owned(),
        "--review-requested".to_string(),
        "@me".to_string(),
        "--state".to_string(),
        "open".to_string(),
        "--sort".to_string(),
        "updated".to_string(),
        "--limit".to_string(),
        num(limit as u64),
        "--json".to_string(),
        "number,title,author,repository,state,isDraft,updatedAt".to_string(),
    ];
    assert(arg_views(r@) =~= review_requested_spec(org@, limit as nat));
    r
}

/// `gh search prs` for the user's own open pull requests.
pub open spec fn dashboard_open_prs_spec(limit: nat) -> Seq<Seq<char>> {
    seq![
        "search"@,
        "prs"@,
        "--archived=false"@,
        "--author"@,
        "@me"@,
        "--state"@,
        "open"@,
        "--sort"@,
        "updated"@,
        "--limit"@,
        decimal(limit),
        "--json"@,
        search_pr_fields(),
    ]
}

pub fn dashboard_open_prs_args(limit: usize) -> (r: Vec<String>)
    ensures
        arg_views(r@) == dashboard_open_prs_spec(limit as nat),
{
    let r = vec![
        "search".to_string(),
        "prs".to_string(),
        "--archived=false".to_string(),
        "--author".to_string(),
        "@me".to_string(),
        "--state".to_string(),
        "open".to_string(),
        "--sort".to_string(),
        "updated".to_string(),
        "--limit".to_string(),
        num(limit as u64),
        "--json".to_string(),
        "number,title,author,repository,state,isDraft,updatedAt".to_string(),
    ];
    assert(arg_views(r@) =~= dashboard_open_prs_spec(limit as nat));
    r
}

/// The page size asked of the notifications endpoint: at most 50.
pub open spec fn notifications_page(limit: nat) -> nat {
    if limit <= 50 {
        limit
    } else {
        50
    }
}

/// `gh api` for the user's notifications.
pub open spec fn notifications_spec(limit: nat) -> Seq<Seq<char>> {
    seq!["api"@, "/notifications?per_page="@ + decimal(notifications_page(limit))]
}

pub fn notifications_args(limit: usize) -> (r: Vec<String>)
    ensures
        arg_views(r@) == notifications_spec(limit as nat),
{
    let page: usize = if limit <= 50 {
        limit
    } else {
        50
    };
    let mut path = chars_of("/notifications?per_page=");
    append_chars(&mut path, &decimal_chars(page as u64));
    let r = vec!["api".to_string(), string_of(&path)];
    assert(arg_views(r@) =~= notifications_spec(limit as nat));
    r
}

/// `gh search commits` by an author, newest first.
pub open spec fn my_commits_spec(login: Seq<char>, limit: nat) -> Seq<Seq<char>> {
    seq![
        "search"@,
        "commits"@,
        "--author"@,
        login,
        "--sort"@,
        "author-date"@,
        "--order"@,
        "desc"@,
        "--limit"@,
        decimal(limit),
        "--json"@,
        "sha,commit,repository"@,
    ]
}

pub fn my_commits_args(login: &str, limit: usize) -> (r: Vec<String>)
    ensures
        arg_views(r@) == my_commits_spec(login@, limit as nat),
{
    let r = vec![
        "search".to_string(),
        "commits".to_string(),
        "--author".to_string(),
        login.to_owned(),
        "--sort".to_string(),
        "author-date".to_string(),
        "--order".to_string(),
        "desc".to_string(),
        "--limit".to_string(),
        num(limit as u64),
        "--json".to_string(),
        "sha,commit,repository".to_string(),
    ];
    assert(arg_views(r@) =~= my_commits_spec(login@, limit as nat));
    r
}

/// `gh search commits` by an author within an organisation.
pub open spec fn user_commits_spec(org: Seq<char>, user: Seq<char>, limit: nat) -> Seq<Seq<char>> {
    seq![
        "search"@,
        "commits"@,
        "--owner"@,
        org,
        "--author"@,
        user,
        "--sort"@,
        "author-date"@,
        "--order"@,
        "desc"@,
        "--limit"@,
        decimal(limit),
        "--json"@,
        "sha,commit,repository"@,
    ]
}

pub fn user_commits_args(org: &str, user: &str, limit: usize) -> (r: Vec<String>)
    ensures
        arg_views(r@) == user_commits_spec(org@, user@, limit as nat),
{
    let r = vec![
        "search".to_string(),
        "commits".to_string(),
        "--owner".to_string(),
        org.to_owned(),
        "--author".to_string(),
        user.to_owned(),
        "--sort".to_string(),
        "author-date".to_string(),
        "--order".to_string(),
        "desc".to_string(),
        "--limit".to_string(),
        num(limit as u64),
        "--json".to_string(),
        "sha,commit,repository".to_string(),
    ];
    assert(arg_views(r@) =~= user_commits_spec(org@, user@, limit as nat));
    r
}

/// `gh search prs` of a user within an organisation, where `role` is
/// `--author` (submitted) or `--reviewed-by` (reviewed).
pub open spec fn user_prs_spec(role: Seq<char>, org: Seq<char>, user: Seq<char>, limit: nat) -> Seq<
    Seq<char>,
> {
    seq![
        "search"@,
        "prs"@,
        "--archived=false"@,
        "--owner"@,
        org,
        role,
        user,
        "--sort"@,
        "updated"@,
        "--limit"@,
        decimal(limit),
        "--json"@,
        search_pr_fields(),
    ]
}

fn user_prs_args(role: &str, org: &str, user: &str, limit: usize) -> (r: Vec<String>)
    ensures
        arg_views(r@) == user_prs_spec(role@, org@, user@, limit as nat),
{
    let r = vec![
        "search".to_string(),
        "prs".to_string(),
        "--archived=false".to_string(),
        "--owner".to_string(),
        org.to_owned(),
        role.to_owned(),
        user.to_owned(),
        "--sort".to_string(),
        "updated".to_string(),
        "--limit".to_string(),
        num(limit as u64),
        "--json".to_string(),
        "number,title,author,repository,state,isDraft,updatedAt".to_string(),
    ];
    assert(arg_views(r@) =~= user_prs_spec(role@, org@, user@, limit as nat));
    r
}

/// The `gh` arguments of the search for the pull requests a user submitted
/// in an organisation, most recently updated first.
pub fn user_submitted_prs(org: &str, user: &str, limit: usize) -> (r: Vec<String>)
    ensures
        arg_views(r@) == user_prs_spec("--author"@, org@, user@, limit as nat),
{
    user_prs_args("--author", org, user, limit)
}

/// The `gh` arguments of the search for the pull requests a user reviewed
/// in an organisation, most recently updated first.
pub fn user_reviewed_prs(org: &str, user: &str, limit: usize) -> (r: Vec<String>)
    ensures
        arg_views(r@) == user_prs_spec("--reviewed-by"@, org@, user@, limit as nat),
{
    user_prs_args("--reviewed-by", org, user, limit)
}

/// `gh pr view` of one pull request.
pub open spec fn pr_detail_spec(owner: Seq<char>, repo: Seq<char>, number: nat) -> Seq<Seq<char>> {
    seq![
        "pr"@,
        "view"@,
        decimal(number),
        "--repo"@,
        full_name(owner, repo),
        "--json"@,
        "number,title,body,url,author,state,isDraft,headRefName,baseRefName,additions,deletions,updatedAt"@,
    ]
}

pub fn pr_detail_args(owner: &str, repo: &str, number: u64) -> (r: Vec<String>)
    ensures
        arg_views(r@) == pr_detail_spec(owner@, repo@, number as nat),
{
    let r = vec![
        "pr".to_string(),
        "view".to_string(),
        num(number),
        "--repo".to_string(),
        full_name_exec(owner, repo),
        "--json".to_string(),
        "number,title,body,url,author,state,isDraft,headRefName,baseRefName,additions,deletions,updatedAt".to_string(),
    ];
    assert(arg_views(r@) =~= pr_detail_spec(owner@, repo@, number as nat));
    r
}

/// `gh api --paginate` of an organisation's members.
pub open spec fn org_members_spec(org: Seq<char>) -> Seq<Seq<char>> {
    seq!["api"@, "--paginate"@, "/orgs/"@ + org + "/members?per_page=100"@]
}

pub fn org_members_args(org: &str) -> (r: Vec<String>)
    ensures
        arg_views(r@) == org_members_spec(org@),
{
    let mut path = chars_of("/orgs/");
    append_str(&mut path, org);
    append_str(&mut path, "/members?per_page=100");
    let r = vec!["api".to_string(), "--paginate".to_string(), string_of(&path)];
    assert(arg_views(r@) =~= org_members_spec(org@));
    r
}

/// The systems whose way of opening a link differs.
#[derive(Clone, Copy, Debug, PartialEq, Eq, Structural)]
pub enum Platform {
    MacOs,
    Windows,
    Other,
}

/// The program that opens a link in the browser, and its arguments: `open`
/// on macOS, `cmd /C start "" <url>` on Windows, `xdg-open` elsewhere.
pub open spec fn browser_command_spec(p: Platform, url: Seq<char>) -> (Seq<char>, Seq<Seq<char>>) {
    match p {
        Platform::MacOs => ("open"@, seq![url]),
        Platform::Windows => ("cmd"@, seq!["/C"@, "start"@, ""@, url]),
        Platform::Other => ("xdg-open"@, seq![url]),
    }
}

/// The program that opens a link and its arguments (see
/// [`browser_command_spec`]).
pub fn browser_command(p: Platform, url: &str) -> (r: (String, Vec<String>))
    ensures
        (r.0@, arg_views(r.1@)) == browser_command_spec(p, url@),
{
    let r = match p {
        Platform::MacOs => ("open".to_string(), vec![url.to_string()]),
        Platform::Windows => (
            "cmd".to_string(),
            vec!["/C".to_string(), "start".to_string(), "".to_string(), url.to_string()],
        ),
        Platform::Other => ("xdg-open".to_string(), vec![url.to_string()]),
    };
    assert(arg_views(r.1@) =~= browser_command_spec(p, url@).1);
    r
}

} // verus!
