use gitcycle::activity::{can_build_activity, org_activity};
use gitcycle::args::{
    activity_prs_args, dashboard_open_prs_args, notifications_args, org_members_args,
    org_repos_args, pr_detail_args, review_requested_args, user_reviewed_prs, user_submitted_prs,
};
use gitcycle::github::{
    authed_user_login, cwd_dashboard_org, first_org_login, notification_web_url, notifications,
    pr_detail, repo_recent_commits, repo_top_contributors, review_requested_prs, split_full_name,
    user_commits, user_prs,
};
use gitcycle::orgs::{
    message_body_of, org_commit_detail, org_members, org_members_error, org_members_json, org_repos,
};
use gitcycle::types::{
    CommitSearchRepo, DataError, RawApiAuthor, RawApiCommit, RawApiCommitFile, RawApiCommitFull,
    RawCommitAuthor, RawCommitInner, RawContributor, RawDefaultBranch, RawNotification,
    RawNotificationRepo, RawNotificationSubject, RawOrgMember, RawPrDetail, RawRepoListItem,
    RawSearchCommit, RawSearchCommitAuthor, RawSearchCommitInner, RawUserOrg, SearchAuthor,
    SearchIssue, SearchPr, SearchRepo,
};

fn search_pr(number: u64, author: &str, state: &str, draft: bool, updated: &str) -> SearchPr {
    SearchPr {
        number,
        title: format!("PR {}", number),
        author: if author.is_empty() { None } else { Some(SearchAuthor { login: author.to_string() }) },
        repository: SearchRepo { name_with_owner: "acme/widgets".to_string() },
        state: state.to_string(),
        is_draft: draft,
        updated_at: updated.to_string(),
    }
}

fn search_issue(number: u64, author: &str, state: &str, updated: &str) -> SearchIssue {
    SearchIssue {
        number,
        title: format!("Issue {}", number),
        author: Some(SearchAuthor { login: author.to_string() }),
        repository: SearchRepo { name_with_owner: "acme/gadgets".to_string() },
        state: state.to_string(),
        updated_at: updated.to_string(),
    }
}

#[test]
fn review_requests_keep_search_fields() {
    let raw = vec![search_pr(7, "bob", "OPEN", true, "2024-05-01T10:20:30Z"), search_pr(8, "", "OPEN", false, "soon")];
    let prs = review_requested_prs(&raw);
    assert_eq!(prs.len(), 2);
    assert_eq!(prs[0].number, 7);
    assert_eq!(prs[0].repo, "acme/widgets");
    assert_eq!(prs[0].author, "bob");
    assert!(prs[0].is_draft);
    assert_eq!(prs[0].updated_at, "2024-05-01 10:20");
    assert_eq!(prs[1].author, "");
    assert_eq!(prs[1].updated_at, "soon");
}

#[test]
fn user_prs_from_search() {
    let raw = vec![search_pr(3, "carol", "MERGED", false, "2023-12-31T23:59:59Z")];
    let prs = user_prs(&raw);
    assert_eq!(prs.len(), 1);
    assert_eq!(prs[0].title, "PR 3");
    assert_eq!(prs[0].state, "MERGED");
    assert_eq!(prs[0].author, "carol");
    assert_eq!(prs[0].updated_at, "2023-12-31 23:59");
}

#[test]
fn notification_addresses() {
    assert_eq!(
        notification_web_url(Some("https://api.github.com/repos/acme/w/pulls/12"), "PullRequest", "acme/w"),
        "https://github.com/acme/w/pull/12"
    );
    assert_eq!(
        notification_web_url(Some("https://api.github.com/repos/acme/w/commits/abc"), "Commit", "acme/w"),
        "https://github.com/acme/w/commit/abc"
    );
    assert_eq!(
        notification_web_url(Some("https://api.github.com/repos/acme/w/issues/4"), "Issue", "acme/w"),
        "https://github.com/acme/w/issues/4"
    );
    assert_eq!(notification_web_url(None, "Release", "acme/w"), "https://github.com/acme/w");
    assert_eq!(
        notification_web_url(Some("https://example.com/x"), "Issue", "acme/w"),
        "https://github.com/acme/w"
    );
}

#[test]
fn notifications_from_the_endpoint() {
    let raw = vec![RawNotification {
        reason: "review_requested".to_string(),
        unread: true,
        updated_at: "2024-01-02T03:04:05Z".to_string(),
        subject: RawNotificationSubject {
            title: "Add thing".to_string(),
            kind: "PullRequest".to_string(),
            url: Some("https://api.github.com/repos/acme/w/pulls/9".to_string()),
        },
        repository: RawNotificationRepo { full_name: "acme/w".to_string() },
    }];
    let n = notifications(&raw);
    assert_eq!(n.len(), 1);
    assert_eq!(n[0].reason, "review_requested");
    assert_eq!(n[0].title, "Add thing");
    assert_eq!(n[0].repo, "acme/w");
    assert_eq!(n[0].kind, "PullRequest");
    assert!(n[0].unread);
    assert_eq!(n[0].updated_at, "2024-01-02 03:04");
    assert_eq!(n[0].web_url, "https://github.com/acme/w/pull/9");
}

#[test]
fn user_commits_from_search() {
    let raw = vec![RawSearchCommit {
        sha: "0123456789abcdef".to_string(),
        commit: RawSearchCommitInner {
            author: RawSearchCommitAuthor { date: "2024-02-03T04:05:06.000Z".to_string() },
            message: "Subject\n\nBody".to_string(),
        },
        repository: CommitSearchRepo { full_name: "acme/w".to_string() },
    }];
    let c = user_commits(&raw);
    assert_eq!(c.len(), 1);
    assert_eq!(c[0].sha, "0123456");
    assert_eq!(c[0].repo, "acme/w");
    assert_eq!(c[0].subject, "Subject");
    assert_eq!(c[0].date, "2024-02-03 04:05");
}

#[test]
fn repository_commits_prefer_the_login() {
    let raw = vec![
        RawApiCommit {
            sha: "abcdef0123".to_string(),
            commit: RawCommitInner {
                author: RawCommitAuthor { name: "Alice A".to_string(), date: "2024-06-07T08:09:10Z".to_string() },
                message: "First line\nsecond".to_string(),
            },
            author: Some(RawApiAuthor { login: "alice".to_string() }),
        },
        RawApiCommit {
            sha: "abc".to_string(),
            commit: RawCommitInner {
                author: RawCommitAuthor { name: "Bob B".to_string(), date: "yesterday".to_string() },
                message: "".to_string(),
            },
            author: None,
        },
    ];
    let c = repo_recent_commits(&raw);
    assert_eq!(c[0].sha, "abcdef0");
    assert_eq!(c[0].author, "alice");
    assert_eq!(c[0].date, "2024-06-07 08:09");
    assert_eq!(c[0].subject, "First line");
    assert_eq!(c[1].sha, "abc");
    assert_eq!(c[1].author, "Bob B");
    assert_eq!(c[1].date, "yesterday");
    assert_eq!(c[1].subject, "");
}

#[test]
fn contributors_or_none() {
    let raw = Some(vec![RawContributor { login: "alice".to_string(), contributions: 42 }]);
    let c = repo_top_contributors(&raw);
    assert_eq!(c.len(), 1);
    assert_eq!(c[0].login, "alice");
    assert_eq!(c[0].contributions, 42);
    assert!(repo_top_contributors(&None).is_empty());
}

#[test]
fn pull_request_detail() {
    let raw = RawPrDetail {
        number: 12,
        title: "Title".to_string(),
        body: "Body".to_string(),
        url: "https://github.com/acme/w/pull/12".to_string(),
        author: None,
        state: "OPEN".to_string(),
        is_draft: false,
        head_ref_name: "feature".to_string(),
        base_ref_name: "main".to_string(),
        additions: 10,
        deletions: 2,
        updated_at: "2024-07-08T09:10:11Z".to_string(),
    };
    let d = pr_detail(&raw);
    assert_eq!(d.number, 12);
    assert_eq!(d.author, "");
    assert_eq!(d.head_ref, "feature");
    assert_eq!(d.base_ref, "main");
    assert_eq!((d.additions, d.deletions), (10, 2));
    assert_eq!(d.updated_at, "2024-07-08 09:10");
}

#[test]
fn full_names_split_at_the_first_slash() {
    assert_eq!(split_full_name("acme/widgets"), Some(("acme".to_string(), "widgets".to_string())));
    assert_eq!(split_full_name("acme/w/x"), Some(("acme".to_string(), "w/x".to_string())));
    assert_eq!(split_full_name("acme"), None);
    assert_eq!(split_full_name("/widgets"), None);
    assert_eq!(split_full_name("acme/"), None);
}

#[test]
fn authenticated_login() {
    assert_eq!(authed_user_login(b"octocat\n").unwrap(), "octocat");
    assert!(matches!(authed_user_login(b"  \n"), Err(DataError::EmptyLogin)));
}

#[test]
fn dashboard_organisation() {
    assert_eq!(cwd_dashboard_org(Some("acme")).as_deref(), Some("acme"));
    assert_eq!(cwd_dashboard_org(Some("")), None);
    assert_eq!(cwd_dashboard_org(None), None);
    let orgs = vec![RawUserOrg { login: "first".to_string() }, RawUserOrg { login: "second".to_string() }];
    assert_eq!(first_org_login(&orgs).unwrap(), "first");
    assert!(matches!(first_org_login(&Vec::new()), Err(DataError::NoOrgs)));
}

#[test]
fn activity_groups_by_author() {
    let prs = vec![
        search_pr(1, "bob", "OPEN", false, "2024-01-01T00:00:00Z"),
        search_pr(2, "alice", "MERGED", true, "2024-01-03T00:00:00Z"),
        search_pr(3, "bob", "CLOSED", false, "2024-01-05T12:30:00Z"),
        search_pr(4, "", "OPEN", false, "2024-01-09T00:00:00Z"),
    ];
    let issues = vec![search_issue(9, "alice", "OPEN", "2024-01-04T00:00:00Z")];
    let a = org_activity(&prs, &issues, 8);
    assert_eq!(a.len(), 2);
    assert_eq!(a[0].login, "alice");
    assert_eq!(a[0].events.len(), 2);
    assert_eq!(a[0].events[0].kind, "issue");
    assert_eq!(a[0].events[0].detail, "open #9: Issue 9");
    assert_eq!(a[0].events[0].when, "2024-01-04 00:00");
    assert_eq!(a[0].events[1].kind, "PR-draft");
    assert_eq!(a[0].events[1].detail, "merged #2: PR 2");
    assert_eq!(a[1].login, "bob");
    assert_eq!(a[1].events[0].detail, "closed #3: PR 3");
    assert_eq!(a[1].events[0].when, "2024-01-05 12:30");
    assert_eq!(a[1].events[1].detail, "active #1: PR 1");
}

#[test]
fn activity_keeps_the_newest_per_author() {
    let prs = vec![
        search_pr(1, "bob", "OPEN", false, "2024-01-01T00:00:00Z"),
        search_pr(2, "bob", "OPEN", false, "2024-01-02T00:00:00Z"),
        search_pr(3, "bob", "OPEN", false, "2024-01-03T00:00:00Z"),
        search_pr(4, "zed", "OPEN", false, "2024-01-04T00:00:00Z"),
    ];
    let a = org_activity(&prs, &Vec::new(), 2);
    assert_eq!(a.len(), 2);
    assert_eq!(a[0].login, "bob");
    assert_eq!(a[0].events.len(), 2);
    assert_eq!(a[0].events[0].detail, "active #3: PR 3");
    assert_eq!(a[0].events[1].detail, "active #2: PR 2");
    assert_eq!(a[1].login, "zed");
}

fn repo_item(name: &str, pushed: Option<&str>) -> RawRepoListItem {
    RawRepoListItem {
        name: name.to_string(),
        name_with_owner: format!("acme/{}", name),
        description: None,
        pushed_at: pushed.map(|p| p.to_string()),
        default_branch_ref: Some(RawDefaultBranch { name: "main".to_string() }),
        primary_language: None,
        stargazer_count: 5,
        is_private: false,
    }
}

#[test]
fn repositories_most_recently_pushed_first() {
    let raw = vec![
        repo_item("old", Some("2020-01-01T00:00:00Z")),
        repo_item("never", None),
        repo_item("new", Some("2024-01-01T00:00:00Z")),
        repo_item("also-old", Some("2020-01-01T00:00:00Z")),
    ];
    let r = org_repos(&raw);
    let names: Vec<&str> = r.iter().map(|x| x.name.as_str()).collect();
    assert_eq!(names, vec!["new", "old", "also-old", "never"]);
    assert_eq!(r[0].full_name, "acme/new");
    assert_eq!(r[0].default_branch.as_deref(), Some("main"));
    assert_eq!(r[0].primary_language, None);
}

#[test]
fn members_by_login_ignoring_case() {
    let raw = vec![
        RawOrgMember { login: "bob".to_string() },
        RawOrgMember { login: "Alice".to_string() },
        RawOrgMember { login: "carol".to_string() },
    ];
    let m = org_members(&raw);
    let logins: Vec<&str> = m.iter().map(|x| x.login.as_str()).collect();
    assert_eq!(logins, vec!["Alice", "bob", "carol"]);
}

#[test]
fn member_pages_join_into_one_array() {
    assert_eq!(org_members_json(b"[{\"login\":\"a\"}][{\"login\":\"b\"}]"), "[{\"login\":\"a\"},{\"login\":\"b\"}]");
    assert_eq!(org_members_json(b"[]"), "[]");
}

#[test]
fn members_of_a_user_account() {
    match org_members_error(DataError::CommandFailed("HTTP 404: Not Found".to_string()), "someone") {
        DataError::NotAnOrganization(o) => assert_eq!(o, "someone"),
        other => panic!("unexpected {:?}", other),
    }
    match org_members_error(DataError::CommandFailed("HTTP 500".to_string()), "acme") {
        DataError::CommandFailed(e) => assert_eq!(e, "HTTP 500"),
        other => panic!("unexpected {:?}", other),
    }
}

#[test]
fn commit_message_bodies() {
    assert_eq!(message_body_of("Subject\n\n\nFirst\nSecond  \n"), "First\nSecond");
    assert_eq!(message_body_of("Only a subject"), "");
}

#[test]
fn commit_detail_from_the_api() {
    let raw = RawApiCommitFull {
        sha: "abc123".to_string(),
        commit: RawCommitInner {
            author: RawCommitAuthor { name: "Alice".to_string(), date: "2024-04-05T06:07:08Z".to_string() },
            message: "Subject\n\nBody line".to_string(),
        },
        files: vec![
            RawApiCommitFile { filename: "a.rs".to_string(), additions: 3, deletions: 1, status: "modified".to_string() },
            RawApiCommitFile { filename: "b.rs".to_string(), additions: 10, deletions: 0, status: "added".to_string() },
            RawApiCommitFile { filename: "c.rs".to_string(), additions: 0, deletions: 2, status: "copied".to_string() },
        ],
    };
    let d = org_commit_detail(&raw);
    assert_eq!(d.sha, "abc123");
    assert_eq!(d.author, "Alice");
    assert_eq!(d.email, "");
    assert_eq!(d.date, "2024-04-05 06:07");
    assert_eq!(d.subject, "Subject");
    assert_eq!(d.body, "Body line");
    assert_eq!(
        d.stat_lines,
        vec![
            " M a.rs  +3 -1".to_string(),
            " + b.rs  +10 -0".to_string(),
            " copied c.rs  +0 -2".to_string(),
            " 3 files changed, 13 insertions(+), 3 deletions(-)".to_string(),
        ]
    );
}

#[test]
fn search_arguments() {
    assert_eq!(
        user_submitted_prs("acme", "bob", 15),
        vec![
            "search", "prs", "--archived=false", "--owner", "acme", "--author", "bob", "--sort",
            "updated", "--limit", "15", "--json",
            "number,title,author,repository,state,isDraft,updatedAt"
        ]
    );
    assert_eq!(user_reviewed_prs("acme", "bob", 15)[5], "--reviewed-by");
    assert!(activity_prs_args("acme").contains(&"--archived=false".to_string()));
    assert!(review_requested_args("acme", 15).contains(&"--archived=false".to_string()));
    assert!(dashboard_open_prs_args(15).contains(&"--archived=false".to_string()));
    assert_eq!(notifications_args(80)[1], "/notifications?per_page=50");
    assert_eq!(notifications_args(20)[1], "/notifications?per_page=20");
    assert_eq!(org_members_args("acme"), vec!["api", "--paginate", "/orgs/acme/members?per_page=100"]);
    assert_eq!(pr_detail_args("acme", "w", 5)[2], "5");
    assert_eq!(pr_detail_args("acme", "w", 5)[4], "acme/w");
    assert!(org_repos_args("acme").contains(&"acme".to_string()));
}

#[test]
fn error_messages() {
    assert_eq!(DataError::CommandFailed("boom".to_string()).message(), "boom");
    assert_eq!(
        DataError::UnparsableRemote("x".to_string()).message(),
        "could not parse owner from remote URL: x"
    );
    assert_eq!(DataError::EmptyLogin.message(), "gh api user returned empty login");
    assert_eq!(DataError::NoOrgs.message(), "user belongs to no orgs");
    assert_eq!(
        DataError::NotAnOrganization("bob".to_string()).message(),
        "'bob' is not a GitHub organization (or members are not visible)"
    );
}

#[test]
fn only_shown_event_times_must_be_shortenable() {
    let prs = vec![
        search_pr(1, "bob", "OPEN", false, "2023-01-01T00:0é"),
        search_pr(2, "bob", "OPEN", false, "2024-01-02T00:00:00Z"),
        search_pr(3, "bob", "OPEN", false, "2024-01-03T00:00:00Z"),
    ];
    assert!(can_build_activity(&prs, &Vec::new(), 2));
    assert_eq!(org_activity(&prs, &Vec::new(), 2)[0].events.len(), 2);
    assert!(!can_build_activity(&prs, &Vec::new(), 3));
}
