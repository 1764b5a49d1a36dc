use gitcycle::panel::filter_repos;
use gitcycle::types::ReviewRequestedPr;
use gitcycle::args::{browser_command, Platform};
use gitcycle::display::{commit_header_height, reason_tone, Tone};
use gitcycle::hints::{footer_hints, subview_index, tab_index, tab_labels};
use gitcycle::loading::{repo_queries, BgMessage, RepoQuery, OPEN_PRS, RECENT_COMMITS};
use gitcycle::screens::{
    commit_files, commit_header, detail_error, notification_detail, outside_repo, pr_body,
    pr_header,
};
use gitcycle::state::{App, Key, OrgSubview, RepoTab};
use gitcycle::types::DirtyFile;
use gitcycle::types::{CommitDetail, Notification, PrDetail, RepoInfo};
use gitcycle::views::{repo_list, search_field, shown_pushed_times_ok, Body, PanelView, Piece};

fn texts(row: &[Piece]) -> Vec<(String, Option<Tone>, bool)> {
    row.iter().map(|p| (p.text.clone(), p.tone, p.bold)).collect()
}

fn lines(v: &PanelView) -> &Vec<Vec<Piece>> {
    match &v.body {
        Body::Text { lines, .. } => lines,
        Body::Rows { rows, .. } => rows,
        Body::Note { .. } => panic!("a note, not lines"),
    }
}

fn note(v: &PanelView) -> (String, Option<Tone>) {
    match &v.body {
        Body::Note { text, tone, .. } => (text.clone(), *tone),
        _ => panic!("not a note"),
    }
}

fn plain_app() -> App {
    App::new(Some((RepoTab::outside_repo(), Ok("acme".to_string()))), Ok("acme".to_string()), Some("me".to_string()))
}

fn pr() -> PrDetail {
    PrDetail {
        number: 42,
        title: "Add widgets".to_string(),
        body: "line one\r\nline two".to_string(),
        url: "https://github.com/acme/w/pull/42".to_string(),
        author: "bob".to_string(),
        state: "MERGED".to_string(),
        is_draft: false,
        head_ref: "feature".to_string(),
        base_ref: "main".to_string(),
        additions: 12,
        deletions: 3,
        updated_at: "2024-05-01".to_string(),
    }
}

fn commit_detail(body: &str, stats: Vec<&str>) -> CommitDetail {
    CommitDetail {
        sha: "0123456789abcdef".to_string(),
        author: "Ann".to_string(),
        email: "ann@example.com".to_string(),
        date: "2024-05-01".to_string(),
        subject: "Fix it".to_string(),
        body: body.to_string(),
        stat_lines: stats.into_iter().map(|s| s.to_string()).collect(),
    }
}

fn repo(name: &str, pushed: Option<&str>) -> RepoInfo {
    RepoInfo {
        name: name.to_string(),
        full_name: format!("acme/{}", name),
        description: None,
        pushed_at: pushed.map(|p| p.to_string()),
        default_branch: None,
        primary_language: Some("Rust".to_string()),
        stargazer_count: 7,
        is_private: true,
    }
}

#[test]
fn tabs_name_the_user_and_the_organisation() {
    let a = plain_app();
    assert_eq!(tab_labels(&a), vec!["1 Dashboard (@me)", "2 Repo", "3 Org (acme)"]);
    assert_eq!(tab_index(&a), 0);
    let b = App::new(None, Err("none".to_string()), None);
    assert_eq!(tab_labels(&b), vec!["1 Dashboard", "2 Repo", "3 Org"]);
    assert_eq!(subview_index(OrgSubview::Users), 2);
}

#[test]
fn dashboard_footer_names_the_focus_keys() {
    let a = plain_app();
    let hints: Vec<(String, bool)> = footer_hints(&a).into_iter().map(|h| (h.text, h.bold)).collect();
    assert_eq!(hints[0], ("q".to_string(), true));
    assert!(hints.contains(&("v".to_string(), true)));
    assert!(hints.contains(&(" my commits".to_string(), false)));
}

#[test]
fn commit_header_height_is_clamped() {
    assert_eq!(commit_header_height(""), 4);
    assert_eq!(commit_header_height("   \n "), 4);
    assert_eq!(commit_header_height("one"), 5);
    assert_eq!(commit_header_height("1\n2\n3\n4\n5\n6\n7\n8\n9\n10"), 12);
}

#[test]
fn notification_reasons_are_coloured() {
    assert_eq!(reason_tone("review_requested"), Tone::Yellow);
    assert_eq!(reason_tone("team_mention"), Tone::Magenta);
    assert_eq!(reason_tone("assign"), Tone::Cyan);
    assert_eq!(reason_tone("ci_activity"), Tone::Red);
    assert_eq!(reason_tone("subscribed"), Tone::DarkGray);
}

#[test]
fn pull_request_header_lines() {
    let v = pr_header(&pr());
    assert_eq!(v.title, " #42 — Add widgets ");
    let l = lines(&v);
    assert_eq!(l.len(), 3);
    assert_eq!(texts(&l[0])[1], ("merged".to_string(), Some(Tone::Magenta), false));
    assert_eq!(texts(&l[0])[4], ("@bob".to_string(), Some(Tone::Cyan), false));
    assert_eq!(texts(&l[1])[5], ("+12".to_string(), Some(Tone::Green), false));
    assert_eq!(texts(&l[1])[7], ("-3".to_string(), Some(Tone::Red), false));
    assert_eq!(texts(&l[2])[1].1, Some(Tone::Blue));
}

#[test]
fn pull_request_description_lines() {
    let v = pr_body(&pr(), 2);
    let l = lines(&v);
    assert_eq!(l.len(), 2);
    assert_eq!(l[0][0].text, "line one");
    assert_eq!(l[1][0].text, "line two");
    assert!(matches!(v.body, Body::Text { scroll: 2, wrap: true, .. }));
    let mut blank = pr();
    blank.body = " \n ".to_string();
    let w = pr_body(&blank, 0);
    assert_eq!(texts(&lines(&w)[0]), vec![("(no description)".to_string(), Some(Tone::DarkGray), false)]);
}

#[test]
fn commit_detail_panels() {
    let d = commit_detail("why\n\nbecause", vec![" a.rs | 2 +-", " 1 file changed"]);
    let h = commit_header(&d);
    assert_eq!(h.title, " 0123456789ab ");
    let l = lines(&h);
    assert_eq!(l.len(), 3 + 1 + 3);
    assert_eq!(texts(&l[2])[1], ("Fix it".to_string(), None, true));
    assert!(l[3].is_empty());
    assert_eq!(l[6][0].text, "because");
    let files = commit_files(&d, 1);
    let fl = lines(&files);
    assert_eq!(fl.len(), 2);
    let first: Vec<String> = fl[0].iter().map(|p| p.text.clone()).collect();
    assert_eq!(first, vec![" a.rs ", "|", " ", "2", " ", "+", "-"]);
    assert_eq!(fl[0][5].tone, Some(Tone::Green));
    assert_eq!(texts(&fl[1]), vec![(" 1 file changed".to_string(), Some(Tone::DarkGray), false)]);
    let none = commit_files(&commit_detail("", vec![]), 0);
    assert_eq!(note(&none), ("(no file changes)".to_string(), Some(Tone::DarkGray)));
    assert_eq!(lines(&commit_header(&commit_detail(" ", vec![]))).len(), 3);
}

#[test]
fn notification_in_full() {
    let n = Notification {
        reason: "review_requested".to_string(),
        title: "Please look".to_string(),
        repo: "acme/w".to_string(),
        kind: "PullRequest".to_string(),
        unread: false,
        updated_at: "now".to_string(),
        web_url: "https://github.com/acme/w/pull/1".to_string(),
    };
    let v = notification_detail(&n);
    assert_eq!(v.title, " notification — PullRequest ");
    let l = lines(&v);
    assert_eq!(l.len(), 9);
    assert_eq!(l[0][1].tone, Some(Tone::Yellow));
    assert_eq!(texts(&l[4])[1], ("read".to_string(), Some(Tone::DarkGray), false));
    assert!(l[6].is_empty());
    assert_eq!(l[7][1].tone, Some(Tone::Blue));
}

#[test]
fn error_and_outside_notes() {
    let e = detail_error(" commit ", &"boom".to_string());
    assert_eq!(note(&e), ("error: boom".to_string(), Some(Tone::Red)));
    let o = outside_repo();
    assert!(note(&o).0.starts_with("current directory is not a git repository"));
}

#[test]
fn repository_rows_and_push_times() {
    let mut a = plain_app();
    a.apply(BgMessage::Repos(Ok(vec![repo("widgets", Some("2024-05-01T10:20:30Z")), repo("gadgets", None)])));
    assert!(shown_pushed_times_ok(&a.org));
    let v = repo_list(&a.org);
    assert_eq!(v.title, " repos — acme ");
    let rows = lines(&v);
    assert_eq!(rows.len(), 2);
    assert_eq!(rows[0][0].text, "🔒 ");
    assert_eq!(rows[0][3].text, "★7   ");
    assert_eq!(rows[0][5].text, "pushed 2024-05-01 10:20");
    assert_eq!(rows[1][5].text, "pushed ?");
    assert!(matches!(v.body, Body::Rows { selected: Some(0), highlight: true, .. }));
    let mut b = plain_app();
    b.apply(BgMessage::Repos(Ok(vec![repo("odd", Some("2024-05-01T10:2é"))])));
    assert!(!shown_pushed_times_ok(&b.org));
    b.org.repos.filter = vec!['z'];
    assert!(shown_pushed_times_ok(&b.org));
    let f = search_field(&b.org.repos);
    assert_eq!(f.title, " filter (/ to edit, Esc to clear) ");
}

#[test]
fn links_open_per_platform() {
    let u = "https://github.com/acme/w";
    assert_eq!(browser_command(Platform::MacOs, u), ("open".to_string(), vec![u.to_string()]));
    assert_eq!(
        browser_command(Platform::Windows, u),
        ("cmd".to_string(), vec!["/C".to_string(), "start".to_string(), "".to_string(), u.to_string()])
    );
    assert_eq!(browser_command(Platform::Other, u).0, "xdg-open");
}

#[test]
fn repo_footer_advertises_both_focus_keys() {
    let tab = RepoTab::from_results(
        Err("no summary".to_string()),
        Ok(Vec::new()),
        Ok(Vec::new()),
        Ok(vec![DirtyFile { status: " M".to_string(), path: "a.rs".to_string() }]),
    );
    let mut a = App::new(Some((tab, Err("no remote".to_string()))), Err("none".to_string()), None);
    a.handle_key(Key::Char('2'));
    let hints: Vec<(String, bool)> = footer_hints(&a).into_iter().map(|h| (h.text, h.bold)).collect();
    let tail: Vec<(String, bool)> = hints[hints.len() - 4..].to_vec();
    assert_eq!(
        tail,
        vec![
            ("c".to_string(), true),
            (" focus commits  ".to_string(), false),
            ("d".to_string(), true),
            (" focus dirty files".to_string(), false),
        ]
    );
    a.handle_key(Key::Char('d'));
    let hints: Vec<String> = footer_hints(&a).into_iter().map(|h| h.text).collect();
    assert!(hints.contains(&" diff  ".to_string()));
}

#[test]
fn outside_a_repository_nothing_is_read_of_it() {
    assert!(repo_queries(false).is_empty());
    assert_eq!(
        repo_queries(true),
        vec![
            RepoQuery::Summary,
            RepoQuery::RecentCommits { limit: RECENT_COMMITS },
            RepoQuery::OpenPrs { limit: OPEN_PRS },
            RepoQuery::DirtyFiles,
            RepoQuery::DetectOrg,
        ]
    );
    assert_eq!((RECENT_COMMITS, OPEN_PRS), (15, 10));
    let a = App::new(None, Ok("acme".to_string()), None);
    assert!(!a.in_git_repo);
    assert!(a.org.name.is_none() && a.org.detect_err.is_none());
    assert!(a.repo.summary.is_none() && a.repo.commits.items.is_empty() && a.repo.prs.is_empty());
}

#[test]
fn typing_narrows_the_repository_search() {
    let repos = vec![repo("widgets", None), repo("wires", None), repo("gadgets", None)];
    assert_eq!(filter_repos(&repos, &['w']), vec![0, 1]);
    assert_eq!(filter_repos(&repos, &['w', 'i']), vec![0, 1]);
    assert_eq!(filter_repos(&repos, &['w', 'i', 'd']), vec![0]);
    assert_eq!(filter_repos(&repos, &[]), vec![0, 1, 2]);
}

#[test]
fn v_focuses_the_review_panel_alone() {
    let mut a = plain_app();
    let before = format!("{:?}", a.dashboard);
    a.handle_key(Key::Char('v'));
    assert_eq!(format!("{:?}", a.dashboard), before);
    a.apply(BgMessage::Review(Ok(vec![ReviewRequestedPr {
        number: 1,
        title: "t".to_string(),
        repo: "acme/w".to_string(),
        author: "bob".to_string(),
        updated_at: "now".to_string(),
        is_draft: false,
    }])));
    a.handle_key(Key::Char('p'));
    a.handle_key(Key::Char('v'));
    assert!(a.dashboard.review.focused);
    assert_eq!(a.dashboard.review.selected, Some(0));
    assert!(!a.dashboard.my_prs.focused && !a.dashboard.notifications.focused && !a.dashboard.my_commits.focused);
}
