use gitcycle::display::{
    colorize_stat_line, diff_line_tone, humanize_short, pr_state_style, short_kind, status_color,
    truncate, Tone,
};
use gitcycle::loading::{BgMessage, Prefetch};
use gitcycle::panel::{move_within, Panel};
use gitcycle::state::{Action, App, DetailOrigin, Key, OrgSubview, RepoTab, Screen};
use gitcycle::text::humanize_iso;
use gitcycle::types::{
    Commit, CommitDetail, DirtyFile, Notification, OrgMember, PrDetail, RepoInfo,
    ReviewRequestedPr, UserActivity, UserCommit, UserPr, ActivityEvent,
};

fn commit(sha: &str) -> Commit {
    Commit { sha: sha.to_string(), author: "a".to_string(), date: "now".to_string(), subject: "s".to_string() }
}

fn repo(name: &str, description: Option<&str>) -> RepoInfo {
    RepoInfo {
        name: name.to_string(),
        full_name: format!("acme/{}", name),
        description: description.map(|d| d.to_string()),
        pushed_at: None,
        default_branch: None,
        primary_language: None,
        stargazer_count: 0,
        is_private: false,
    }
}

fn review(number: u64) -> ReviewRequestedPr {
    ReviewRequestedPr {
        number,
        title: "t".to_string(),
        repo: "acme/widgets".to_string(),
        author: "bob".to_string(),
        updated_at: "now".to_string(),
        is_draft: false,
    }
}

fn notification() -> Notification {
    Notification {
        reason: "mention".to_string(),
        title: "Hello".to_string(),
        repo: "acme/w".to_string(),
        kind: "Issue".to_string(),
        unread: true,
        updated_at: "now".to_string(),
        web_url: "https://github.com/acme/w/issues/1".to_string(),
    }
}

fn detail() -> CommitDetail {
    CommitDetail {
        sha: "abc".to_string(),
        author: "a".to_string(),
        email: "".to_string(),
        date: "d".to_string(),
        subject: "s".to_string(),
        body: "".to_string(),
        stat_lines: Vec::new(),
    }
}

fn app() -> App {
    let repo_tab = RepoTab::from_results(
        Err("no summary".to_string()),
        Ok(vec![commit("c1"), commit("c2"), commit("c3")]),
        Ok(Vec::new()),
        Ok(vec![DirtyFile { status: "??".to_string(), path: "new.txt".to_string() }]),
    );
    App::new(
        Some((repo_tab, Ok("acme".to_string()))),
        Ok("acme".to_string()),
        Some("me".to_string()),
    )
}

fn press(a: &mut App, k: Key) -> Action {
    a.handle_key(k)
}

#[test]
fn starts_on_the_dashboard() {
    let a = app();
    assert_eq!(a.screen, Screen::Dashboard);
    assert_eq!(a.org.name.as_deref(), Some("acme"));
    assert_eq!(a.dashboard_org.as_deref(), Some("acme"));
    assert_eq!(a.repo.summary_err.as_deref(), Some("no summary"));
    assert_eq!(a.repo.commits.items.len(), 3);
    assert_eq!(a.org.subview, OrgSubview::Activity);
}

#[test]
fn prefetch_plan_follows_what_is_known() {
    let a = app();
    let p = a.prefetches();
    assert_eq!(p.len(), 7);
    assert!(matches!(&p[0], Prefetch::Activity { org, per_user_limit: 8 } if org == "acme"));
    assert!(matches!(&p[1], Prefetch::Repos { org } if org == "acme"));
    assert!(matches!(&p[2], Prefetch::Members { org } if org == "acme"));
    assert!(matches!(&p[3], Prefetch::Review { org, limit: 15 } if org == "acme"));
    assert!(matches!(&p[4], Prefetch::MyPrs { limit: 15 }));
    assert!(matches!(&p[5], Prefetch::Notifications { limit: 20 }));
    assert!(matches!(&p[6], Prefetch::MyCommits { login, limit: 15 } if login == "me"));
    let outside = App::new(None, Err("no orgs".to_string()), None);
    let q = outside.prefetches();
    assert_eq!(q.len(), 2);
    assert!(matches!(&q[0], Prefetch::MyPrs { .. }));
    assert!(matches!(&q[1], Prefetch::Notifications { .. }));
    assert_eq!(outside.dashboard_org_err.as_deref(), Some("no orgs"));
}

#[test]
fn tabs_cycle_both_ways() {
    let mut a = app();
    assert!(matches!(press(&mut a, Key::Tab), Action::Nothing));
    assert_eq!(a.screen, Screen::Repo);
    press(&mut a, Key::Tab);
    assert_eq!(a.screen, Screen::Org);
    press(&mut a, Key::Right);
    assert_eq!(a.screen, Screen::Dashboard);
    press(&mut a, Key::BackTab);
    assert_eq!(a.screen, Screen::Org);
    press(&mut a, Key::Left);
    assert_eq!(a.screen, Screen::Repo);
    press(&mut a, Key::Char('1'));
    assert_eq!(a.screen, Screen::Dashboard);
    press(&mut a, Key::Char('3'));
    assert_eq!(a.screen, Screen::Org);
    press(&mut a, Key::Char('2'));
    assert_eq!(a.screen, Screen::Repo);
}

#[test]
fn quit_and_reload_keys() {
    let mut a = app();
    assert!(matches!(press(&mut a, Key::Char('q')), Action::Quit));
    assert!(matches!(press(&mut a, Key::Char('r')), Action::Reload));
    assert!(matches!(press(&mut a, Key::Esc), Action::Quit));
}

#[test]
fn commits_focus_move_and_open() {
    let mut a = app();
    press(&mut a, Key::Char('2'));
    press(&mut a, Key::Char('c'));
    assert!(a.repo.commits.focused);
    assert_eq!(a.repo.commits.selected, Some(0));
    press(&mut a, Key::Down);
    press(&mut a, Key::Char('j'));
    press(&mut a, Key::Down);
    assert_eq!(a.repo.commits.selected, Some(2));
    press(&mut a, Key::Char('g'));
    assert_eq!(a.repo.commits.selected, Some(0));
    press(&mut a, Key::End);
    assert_eq!(a.repo.commits.selected, Some(2));
    match press(&mut a, Key::Enter) {
        Action::LoadCommitDetail { sha } => assert_eq!(sha, "c3"),
        other => panic!("unexpected {:?}", other),
    }
    a.finish_commit_detail(Ok(detail()));
    assert_eq!(a.screen, Screen::CommitDetail);
    press(&mut a, Key::PageDown);
    assert_eq!(a.commit_detail.as_ref().unwrap().scroll, 10);
    press(&mut a, Key::Up);
    assert_eq!(a.commit_detail.as_ref().unwrap().scroll, 9);
    press(&mut a, Key::Home);
    assert_eq!(a.commit_detail.as_ref().unwrap().scroll, 0);
    press(&mut a, Key::Esc);
    assert_eq!(a.screen, Screen::Repo);
    assert!(a.commit_detail.is_none());
    assert!(a.repo.commits.focused);
    press(&mut a, Key::Esc);
    assert!(!a.repo.commits.focused);
}

#[test]
fn commit_detail_from_the_dashboard_returns_there() {
    let mut a = app();
    a.finish_org_commit_detail(Err("HTTP 404".to_string()));
    assert_eq!(a.screen, Screen::CommitDetail);
    let v = a.commit_detail.as_ref().unwrap();
    assert_eq!(v.origin, DetailOrigin::Dashboard);
    assert_eq!(v.error.as_deref(), Some("HTTP 404"));
    press(&mut a, Key::Esc);
    assert_eq!(a.screen, Screen::Dashboard);
}

#[test]
fn dirty_files_show_a_diff() {
    let mut a = app();
    press(&mut a, Key::Char('2'));
    press(&mut a, Key::Char('d'));
    assert!(a.repo.dirty.focused);
    assert!(!a.repo.commits.focused);
    match press(&mut a, Key::Enter) {
        Action::LoadDiff { path, status } => {
            assert_eq!(path, "new.txt");
            assert_eq!(status, "??");
            a.finish_diff(path, Ok(vec!["+hello".to_string()]));
        }
        other => panic!("unexpected {:?}", other),
    }
    assert_eq!(a.repo.diff.as_ref().unwrap().lines, vec!["+hello".to_string()]);
    press(&mut a, Key::Esc);
    assert!(a.repo.diff.is_none());
    assert!(a.repo.dirty.focused);
    press(&mut a, Key::Esc);
    assert!(!a.repo.dirty.focused);
    assert!(matches!(press(&mut a, Key::Esc), Action::Quit));
}

#[test]
fn review_panel_opens_pull_requests() {
    let mut a = app();
    a.apply(BgMessage::Review(Ok(vec![review(5), review(6)])));
    assert!(a.dashboard.review.loaded);
    assert_eq!(a.dashboard.review.selected, Some(0));
    press(&mut a, Key::Char('v'));
    assert!(a.dashboard.review.focused);
    press(&mut a, Key::Down);
    match press(&mut a, Key::Enter) {
        Action::LoadPrDetail { owner, repo, number } => {
            assert_eq!((owner.as_str(), repo.as_str(), number), ("acme", "widgets", 6));
        }
        other => panic!("unexpected {:?}", other),
    }
    match press(&mut a, Key::Char('o')) {
        Action::OpenBrowser { url } => assert_eq!(url, "https://github.com/acme/widgets/pull/6"),
        other => panic!("unexpected {:?}", other),
    }
    let d = PrDetail {
        number: 6,
        title: "t".to_string(),
        body: "b".to_string(),
        url: "https://github.com/acme/widgets/pull/6".to_string(),
        author: "bob".to_string(),
        state: "OPEN".to_string(),
        is_draft: false,
        head_ref: "h".to_string(),
        base_ref: "main".to_string(),
        additions: 1,
        deletions: 0,
        updated_at: "now".to_string(),
    };
    a.finish_pr_detail(Ok(d));
    assert_eq!(a.screen, Screen::PrDetail);
    match press(&mut a, Key::Char('o')) {
        Action::OpenBrowser { url } => assert_eq!(url, "https://github.com/acme/widgets/pull/6"),
        other => panic!("unexpected {:?}", other),
    }
    press(&mut a, Key::Esc);
    assert_eq!(a.screen, Screen::Dashboard);
    assert!(a.dashboard.review.focused);
    press(&mut a, Key::Esc);
    assert!(!a.dashboard.review.focused);
}

#[test]
fn only_one_dashboard_panel_is_focused() {
    let mut a = app();
    a.apply(BgMessage::Review(Ok(vec![review(1)])));
    a.apply(BgMessage::Notifications(Ok(vec![notification()])));
    assert_eq!(a.dashboard.notifications.selected, None);
    press(&mut a, Key::Char('v'));
    press(&mut a, Key::Char('n'));
    assert!(!a.dashboard.review.focused);
    assert!(a.dashboard.notifications.focused);
    assert_eq!(a.dashboard.notifications.selected, Some(0));
    press(&mut a, Key::Char('p'));
    assert!(a.dashboard.notifications.focused, "an empty panel takes no focus");
}

#[test]
fn notifications_open_in_place() {
    let mut a = app();
    a.apply(BgMessage::Notifications(Ok(vec![notification()])));
    press(&mut a, Key::Char('n'));
    assert!(matches!(press(&mut a, Key::Enter), Action::Nothing));
    assert_eq!(a.screen, Screen::NotificationDetail);
    assert_eq!(a.notification_detail.as_ref().unwrap().title, "Hello");
    match press(&mut a, Key::Char('o')) {
        Action::OpenBrowser { url } => assert_eq!(url, "https://github.com/acme/w/issues/1"),
        other => panic!("unexpected {:?}", other),
    }
    press(&mut a, Key::Esc);
    assert_eq!(a.screen, Screen::Dashboard);
    assert!(a.notification_detail.is_none());
}

#[test]
fn my_commits_open_the_remote_commit() {
    let mut a = app();
    let c = UserCommit {
        sha: "abc1234".to_string(),
        repo: "acme/w".to_string(),
        subject: "s".to_string(),
        date: "d".to_string(),
    };
    a.apply(BgMessage::MyCommits(Ok(vec![c])));
    press(&mut a, Key::Char('c'));
    assert_eq!(a.dashboard.my_commits.selected, Some(0));
    match press(&mut a, Key::Enter) {
        Action::LoadOrgCommitDetail { owner, repo, sha } => {
            assert_eq!((owner.as_str(), repo.as_str(), sha.as_str()), ("acme", "w", "abc1234"));
        }
        other => panic!("unexpected {:?}", other),
    }
    match press(&mut a, Key::Char('o')) {
        Action::OpenBrowser { url } => assert_eq!(url, "https://github.com/acme/w/commit/abc1234"),
        other => panic!("unexpected {:?}", other),
    }
}

#[test]
fn failed_answers_keep_the_list() {
    let mut a = app();
    let p = UserPr {
        number: 1,
        title: "t".to_string(),
        repo: "acme/w".to_string(),
        state: "OPEN".to_string(),
        is_draft: false,
        author: "me".to_string(),
        updated_at: "now".to_string(),
    };
    a.apply(BgMessage::MyPrs(Ok(vec![p])));
    a.apply(BgMessage::MyPrs(Err("HTTP 502".to_string())));
    assert_eq!(a.dashboard.my_prs.items.len(), 1);
    assert_eq!(a.dashboard.my_prs.err.as_deref(), Some("HTTP 502"));
    a.apply(BgMessage::Activity(Err("boom".to_string())));
    assert!(a.org.activity_loaded);
    assert_eq!(a.org.activity_err.as_deref(), Some("boom"));
}

#[test]
fn org_views_cycle_and_repositories_open() {
    let mut a = app();
    a.apply(BgMessage::Repos(Ok(vec![
        repo("widgets", Some("Makes widgets")),
        repo("gadgets", None),
        repo("docs", Some("All about GADGETS")),
    ])));
    press(&mut a, Key::Char('3'));
    press(&mut a, Key::Char(']'));
    assert_eq!(a.org.subview, OrgSubview::Repos);
    assert_eq!(a.org.repos.selected, Some(0));
    press(&mut a, Key::Char('/'));
    assert!(a.org.repos.filtering);
    for c in "gadg".chars() {
        press(&mut a, Key::Char(c));
    }
    assert_eq!(a.org.repos.filter.iter().collect::<String>(), "gadg");
    assert!(matches!(press(&mut a, Key::Char('q')), Action::Nothing), "q is typed into the search");
    press(&mut a, Key::Backspace);
    press(&mut a, Key::Enter);
    assert!(!a.org.repos.filtering);
    press(&mut a, Key::Down);
    assert_eq!(a.org.repos.selected, Some(1));
    match press(&mut a, Key::Enter) {
        Action::LoadRepoDetail { owner, repo, commits, prs, contributors } => {
            assert_eq!((owner.as_str(), repo.as_str()), ("acme", "docs"));
            assert_eq!((commits, prs, contributors), (15, 10, 10));
        }
        other => panic!("unexpected {:?}", other),
    }
    assert_eq!(a.screen, Screen::RepoDetail);
    let d = a.repo_detail.as_ref().unwrap();
    assert_eq!(d.full_name, "acme/docs");
    assert_eq!(d.info.as_ref().unwrap().name, "docs");
    assert!(!d.loaded);
    a.finish_repo_detail(Ok(vec![commit("x")]), Err("no prs".to_string()), Ok(Vec::new()));
    let d = a.repo_detail.as_ref().unwrap();
    assert!(d.loaded);
    assert_eq!(d.commits.len(), 1);
    assert_eq!(d.prs_err.as_deref(), Some("no prs"));
    press(&mut a, Key::Esc);
    assert_eq!(a.screen, Screen::Org);
    assert_eq!(a.org.subview, OrgSubview::Repos);
    assert_eq!(a.org.repos.selected, Some(1));
    press(&mut a, Key::Char('['));
    assert_eq!(a.org.subview, OrgSubview::Activity);
}

#[test]
fn search_escape_clears_the_text() {
    let mut a = app();
    a.apply(BgMessage::Members(Ok(vec![
        OrgMember { login: "Alice".to_string() },
        OrgMember { login: "bob".to_string() },
    ])));
    press(&mut a, Key::Char('3'));
    press(&mut a, Key::Char('['));
    assert_eq!(a.org.subview, OrgSubview::Users);
    press(&mut a, Key::Char('/'));
    press(&mut a, Key::Char('z'));
    assert_eq!(a.org.users.selected, None);
    press(&mut a, Key::Esc);
    assert!(!a.org.users.filtering);
    assert!(a.org.users.filter.is_empty());
    assert_eq!(a.org.users.selected, Some(0));
    press(&mut a, Key::Char('/'));
    press(&mut a, Key::Char('B'));
    press(&mut a, Key::Enter);
    match press(&mut a, Key::Enter) {
        Action::LoadUserDetail { org, login, limit } => {
            assert_eq!((org.as_str(), login.as_str()), ("acme", "bob"));
            assert_eq!(limit, 15);
        }
        other => panic!("unexpected {:?}", other),
    }
    assert_eq!(a.screen, Screen::UserDetail);
    a.finish_user_detail(Ok(Vec::new()), Err("x".to_string()), Ok(Vec::new()));
    assert_eq!(a.user_detail.as_ref().unwrap().submitted_err.as_deref(), Some("x"));
    press(&mut a, Key::Esc);
    assert_eq!(a.screen, Screen::Org);
    assert_eq!(a.org.subview, OrgSubview::Users);
}

#[test]
fn member_detail_without_an_organisation() {
    let mut a = App::new(None, Ok("acme".to_string()), None);
    a.apply(BgMessage::Members(Ok(vec![OrgMember { login: "bob".to_string() }])));
    press(&mut a, Key::Char('3'));
    press(&mut a, Key::Char('['));
    assert!(matches!(press(&mut a, Key::Enter), Action::Nothing));
    let d = a.user_detail.as_ref().unwrap();
    assert_eq!(d.commits_err.as_deref(), Some("no org detected"));
}

#[test]
fn unparsable_repository_name() {
    let mut a = app();
    let act = a.open_repo_detail("nonsense".to_string());
    assert!(matches!(act, Action::Nothing));
    let d = a.repo_detail.as_ref().unwrap();
    assert!(d.loaded);
    assert_eq!(d.commits_err.as_deref(), Some("could not parse owner/repo from nonsense"));
}

#[test]
fn activity_feed_scrolls_within_its_lines() {
    let mut a = app();
    let ev = ActivityEvent { kind: "PR".to_string(), repo: "r".to_string(), detail: "d".to_string(), when: "w".to_string() };
    a.apply(BgMessage::Activity(Ok(vec![UserActivity { login: "bob".to_string(), events: vec![ev.clone(), ev] }])));
    press(&mut a, Key::Char('3'));
    press(&mut a, Key::End);
    assert_eq!(a.org.scroll, 3);
    press(&mut a, Key::Down);
    assert_eq!(a.org.scroll, 3);
    press(&mut a, Key::PageUp);
    assert_eq!(a.org.scroll, 0);
    press(&mut a, Key::Char('j'));
    assert_eq!(a.org.scroll, 1);
}

#[test]
fn reload_returns_to_the_same_place() {
    let mut a = app();
    a.apply(BgMessage::Repos(Ok(vec![repo("widgets", None)])));
    press(&mut a, Key::Char('3'));
    press(&mut a, Key::Char(']'));
    press(&mut a, Key::Enter);
    assert!(matches!(press(&mut a, Key::Char('r')), Action::Reload));
    let memory = a.reload_memory();
    let mut fresh = app();
    match fresh.restore(memory) {
        Action::LoadRepoDetail { owner, repo, .. } => assert_eq!((owner.as_str(), repo.as_str()), ("acme", "widgets")),
        other => panic!("unexpected {:?}", other),
    }
    assert_eq!(fresh.screen, Screen::RepoDetail);
    assert_eq!(fresh.org.subview, OrgSubview::Repos);

    let mut b = app();
    b.finish_commit_detail(Ok(detail()));
    let mut fresh = app();
    assert!(matches!(fresh.restore(b.reload_memory()), Action::Nothing));
    assert_eq!(fresh.screen, Screen::Repo);
}

#[test]
fn selection_moves_are_clamped() {
    assert_eq!(move_within(None, 3, 1), Some(1));
    assert_eq!(move_within(Some(2), 3, 10), Some(2));
    assert_eq!(move_within(Some(1), 3, -9999), Some(0));
    assert_eq!(move_within(Some(7), 3, 0), Some(2));
    let mut p: Panel<u8> = Panel::new();
    p.step_cleared(1);
    assert_eq!(p.selected, None);
    p.selected = Some(4);
    p.step_kept(1);
    assert_eq!(p.selected, Some(4));
}

#[test]
fn truncation_marks_the_cut() {
    assert_eq!(truncate("short", 10), "short");
    assert_eq!(truncate("exactly", 7), "exactly");
    assert_eq!(truncate("a longer text", 6), "a lon…");
    assert_eq!(truncate("héllo wörld", 4), "hél…");
    assert_eq!(truncate("abc", 0), "…");
}

#[test]
fn event_kinds_are_shortened() {
    assert_eq!(short_kind("PullRequestEvent"), "PR");
    assert_eq!(short_kind("PullRequestReviewEvent"), "PR-review");
    assert_eq!(short_kind("PullRequestReviewCommentEvent"), "PR-comment");
    assert_eq!(short_kind("IssueCommentEvent"), "issue-cmt");
    assert_eq!(short_kind("IssuesEvent"), "issue");
    assert_eq!(short_kind("PushEvent"), "push");
    assert_eq!(short_kind("ÉtéEventEvent"), "été");
}

#[test]
fn timestamps_are_shortened() {
    assert_eq!(humanize_short("2024-05-06T07:08:09Z"), "2024-05-06 07:08");
    assert_eq!(humanize_iso("2024-05-06T07:08"), "2024-05-06 07:08");
    assert_eq!(humanize_iso("2024-05-06 07:08"), "2024-05-06 07:08");
    assert_eq!(humanize_iso("3 days ago"), "3 days ago");
}

#[test]
fn status_colours() {
    assert_eq!(status_color("??"), Tone::Magenta);
    assert_eq!(status_color(" A"), Tone::Green);
    assert_eq!(status_color("AD"), Tone::Green);
    assert_eq!(status_color(" D"), Tone::Red);
    assert_eq!(status_color("MM"), Tone::Yellow);
    assert_eq!(status_color("R "), Tone::Cyan);
    assert_eq!(status_color("UU"), Tone::Gray);
}

#[test]
fn pull_request_states() {
    assert_eq!(pr_state_style("OPEN", true), ("draft", Tone::DarkGray));
    assert_eq!(pr_state_style("OPEN", false), ("open", Tone::Green));
    assert_eq!(pr_state_style("Merged", false), ("merged", Tone::Magenta));
    assert_eq!(pr_state_style("closed", false), ("closed", Tone::Red));
    assert_eq!(pr_state_style("weird", false), ("?", Tone::Gray));
}

#[test]
fn stat_lines_are_coloured() {
    let summary = colorize_stat_line(" 2 files changed, 3 insertions(+)");
    assert_eq!(summary.len(), 1);
    assert_eq!(summary[0].tone, Some(Tone::DarkGray));
    let line = colorize_stat_line(" a.rs | 3 +-");
    let texts: Vec<&str> = line.iter().map(|s| s.text.as_str()).collect();
    assert_eq!(texts, vec![" a.rs ", "|", " ", "3", " ", "+", "-"]);
    let tones: Vec<Option<Tone>> = line.iter().map(|s| s.tone).collect();
    assert_eq!(
        tones,
        vec![None, Some(Tone::DarkGray), None, None, None, Some(Tone::Green), Some(Tone::Red)]
    );
}

#[test]
fn diff_lines_are_coloured() {
    assert_eq!(diff_line_tone("@@ -1,2 +1,3 @@"), Some(Tone::Cyan));
    assert_eq!(diff_line_tone("+added"), Some(Tone::Green));
    assert_eq!(diff_line_tone("-removed"), Some(Tone::Red));
    assert_eq!(diff_line_tone(" context"), None);
    assert_eq!(diff_line_tone(""), None);
}
