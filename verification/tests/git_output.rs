use gitcycle::command::{is_git_repo, is_transient, run_git_opt, GhRetry, GhStep};
use gitcycle::git::{
    can_list_dirty, commit_detail, detect_org, dirty_file_list, file_diff, file_diff_args, parse_org_from_url,
    recent_commits, recent_commits_args, repo_summary,
};
use gitcycle::types::{CommandOutput, DataError};

fn ok(out: &str) -> Result<CommandOutput, String> {
    Ok(CommandOutput { success: true, stdout: out.as_bytes().to_vec(), stderr: Vec::new() })
}

fn failed(err: &str) -> Result<CommandOutput, String> {
    Ok(CommandOutput { success: false, stdout: Vec::new(), stderr: err.as_bytes().to_vec() })
}

#[test]
fn recent_commits_reads_four_fields_per_line() {
    let out = ok("abc1234\u{1f}Alice\u{1f}2 days ago\u{1f}Fix the bug\n\
                  def5678\u{1f}Bob\u{1f}3 days ago\u{1f}Add a feature\n");
    let commits = recent_commits(&out).unwrap();
    assert_eq!(commits.len(), 2);
    assert_eq!(commits[0].sha, "abc1234");
    assert_eq!(commits[0].author, "Alice");
    assert_eq!(commits[0].date, "2 days ago");
    assert_eq!(commits[0].subject, "Fix the bug");
    assert_eq!(commits[1].sha, "def5678");
    assert_eq!(commits[1].subject, "Add a feature");
}

#[test]
fn recent_commits_skips_short_lines() {
    let out = ok("only\u{1f}three\u{1f}fields\nabc\u{1f}A\u{1f}now\u{1f}s\u{1f}extra");
    let commits = recent_commits(&out).unwrap();
    assert_eq!(commits.len(), 1);
    assert_eq!(commits[0].sha, "abc");
    assert_eq!(commits[0].subject, "s");
}

#[test]
fn recent_commits_reports_git_failure() {
    match recent_commits(&failed("fatal: not a git repository")) {
        Err(DataError::CommandFailed(e)) => assert_eq!(e, "fatal: not a git repository"),
        other => panic!("unexpected {:?}", other),
    }
    match recent_commits(&Err("no such program".to_string())) {
        Err(DataError::LaunchFailed(e)) => assert_eq!(e, "no such program"),
        other => panic!("unexpected {:?}", other),
    }
}

#[test]
fn recent_commits_args_ask_for_the_limit() {
    assert_eq!(
        recent_commits_args(15),
        vec!["log".to_string(), "-n15".to_string(), "--pretty=format:%h%x1f%an%x1f%cr%x1f%s".to_string()]
    );
}

#[test]
fn dirty_files_split_status_and_path() {
    let out = ok("M  src/main.rs\n?? notes.txt\nR  a -> b\nx\n");
    let files = dirty_file_list(&out).unwrap();
    assert_eq!(files.len(), 3);
    assert_eq!(files[0].status, "M ");
    assert_eq!(files[0].path, "src/main.rs");
    assert_eq!(files[1].status, "??");
    assert_eq!(files[1].path, "notes.txt");
    assert_eq!(files[2].path, "a -> b");
}

#[test]
fn dirty_files_keep_a_leading_space_in_the_status() {
    let out = ok(" M a.rs\n?? b.txt\n");
    assert!(can_list_dirty(&out));
    let files = dirty_file_list(&out).unwrap();
    assert_eq!(files.len(), 2);
    assert_eq!(files[0].status, " M");
    assert_eq!(files[0].path, "a.rs");
    assert_eq!(files[1].status, "??");
    assert_eq!(files[1].path, "b.txt");
}

#[test]
fn dirty_lines_that_cannot_be_sliced() {
    assert!(!can_list_dirty(&ok("Mé x\n")));
    assert!(!can_list_dirty(&ok("MMé\n")));
    assert!(can_list_dirty(&ok("é\n")));
    assert!(can_list_dirty(&failed("fatal")));
    assert!(matches!(dirty_file_list(&failed("fatal")), Err(DataError::CommandFailed(e)) if e == "fatal"));
}

#[test]
fn dirty_files_of_a_clean_tree() {
    assert!(dirty_file_list(&ok("")).unwrap().is_empty());
}

#[test]
fn commit_detail_reads_metadata_and_stat() {
    let meta = "0123456789abcdef\u{1f}Alice\u{1f}alice@example.com\u{1f}2024-03-05T14:22:10+01:00\u{1f}Subject line\u{1f}Body text\n\n";
    let stat = ok(" src/a.rs | 3 ++-\n\n 1 file changed, 2 insertions(+), 1 deletion(-)\n");
    let d = commit_detail(meta, &stat).unwrap();
    assert_eq!(d.sha, "0123456789abcdef");
    assert_eq!(d.author, "Alice");
    assert_eq!(d.email, "alice@example.com");
    assert_eq!(d.date, "2024-03-05 14:22");
    assert_eq!(d.subject, "Subject line");
    assert_eq!(d.body, "Body text");
    assert_eq!(
        d.stat_lines,
        vec![
            "src/a.rs | 3 ++-".to_string(),
            " 1 file changed, 2 insertions(+), 1 deletion(-)".to_string()
        ]
    );
}

#[test]
fn commit_detail_with_missing_fields() {
    let d = commit_detail("abc", &ok("")).unwrap();
    assert_eq!(d.sha, "abc");
    assert_eq!(d.author, "");
    assert_eq!(d.date, "");
    assert_eq!(d.body, "");
    assert!(d.stat_lines.is_empty());
    assert!(matches!(commit_detail("abc", &failed("bad")), Err(DataError::CommandFailed(_))));
}

#[test]
fn repo_summary_with_upstream() {
    let s = repo_summary(
        &ok("/home/me/project\n"),
        &ok("main\n"),
        &ok("git@github.com:acme/project.git\n"),
        &ok("origin/main"),
        &Some(ok("3\t1\n")),
        &ok("2 hours ago"),
    )
    .unwrap();
    assert_eq!(s.root, "/home/me/project");
    assert_eq!(s.branch, "main");
    assert_eq!(s.remote_url.as_deref(), Some("git@github.com:acme/project.git"));
    assert_eq!(s.upstream.as_deref(), Some("origin/main"));
    assert_eq!((s.ahead, s.behind), (3, 1));
    assert_eq!(s.last_fetch.as_deref(), Some("2 hours ago"));
}

#[test]
fn repo_summary_without_upstream_or_branch() {
    let s = repo_summary(
        &ok("/r"),
        &failed("fatal"),
        &ok(""),
        &failed("no upstream"),
        &Some(ok("5 5")),
        &failed("no FETCH_HEAD"),
    )
    .unwrap();
    assert_eq!(s.branch, "HEAD");
    assert_eq!(s.remote_url, None);
    assert_eq!(s.upstream, None);
    assert_eq!((s.ahead, s.behind), (0, 0));
    assert_eq!(s.last_fetch, None);
}

#[test]
fn repo_summary_counts_that_are_not_numbers() {
    let s = repo_summary(&ok("/r"), &ok("dev"), &ok(""), &ok("origin/dev"), &Some(ok("x 7")), &ok(""))
        .unwrap();
    assert_eq!((s.ahead, s.behind), (0, 7));
}

#[test]
fn repo_summary_fails_without_a_top_level() {
    let r = repo_summary(&failed("not a repo"), &ok("main"), &ok(""), &ok(""), &None, &ok(""));
    assert!(matches!(r, Err(DataError::CommandFailed(e)) if e == "not a repo"));
}

#[test]
fn org_from_remote_urls() {
    assert_eq!(parse_org_from_url("git@github.com:acme/widgets.git").as_deref(), Some("acme"));
    assert_eq!(parse_org_from_url("ssh://git@github.com/acme/widgets").as_deref(), Some("acme"));
    assert_eq!(parse_org_from_url("https://github.com/acme/widgets.git\n").as_deref(), Some("acme"));
    assert_eq!(parse_org_from_url("http://github.com/acme").as_deref(), Some("acme"));
    assert_eq!(parse_org_from_url("github.com/acme/x").as_deref(), Some("acme"));
    assert_eq!(parse_org_from_url("https://gitlab.com/acme/widgets"), None);
    assert_eq!(parse_org_from_url("https://github.com/acme.git.git").as_deref(), Some("acme"));
}

#[test]
fn detect_org_from_the_origin_remote() {
    assert_eq!(detect_org(&ok("git@github.com:acme/w.git\n")).unwrap(), "acme");
    match detect_org(&ok("https://example.com/x")) {
        Err(DataError::UnparsableRemote(u)) => assert_eq!(u, "https://example.com/x"),
        other => panic!("unexpected {:?}", other),
    }
    assert!(matches!(detect_org(&failed("")), Err(DataError::CommandFailed(_))));
}

#[test]
fn git_repo_probe() {
    assert!(is_git_repo(&ok("true\n")));
    assert!(!is_git_repo(&failed("fatal: not a git repository")));
    assert!(!is_git_repo(&Err("git missing".to_string())));
}

#[test]
fn optional_git_text() {
    assert_eq!(run_git_opt(&ok("  value \n")).as_deref(), Some("value"));
    assert_eq!(run_git_opt(&ok("   \n")), None);
    assert_eq!(run_git_opt(&failed("x")), None);
}

#[test]
fn diff_arguments_by_status() {
    assert_eq!(
        file_diff_args("new.txt", "??"),
        vec!["diff", "--no-index", "--no-color", "/dev/null", "new.txt"]
    );
    assert_eq!(file_diff_args("src/a.rs", " M"), vec!["diff", "HEAD", "--no-color", "--", "src/a.rs"]);
}

#[test]
fn diff_lines_and_failures() {
    let differ = Ok(CommandOutput {
        success: false,
        stdout: b"+added\n-removed\n".to_vec(),
        stderr: Vec::new(),
    });
    assert_eq!(file_diff(&differ).unwrap(), vec!["+added".to_string(), "-removed".to_string()]);
    let silent = Ok(CommandOutput { success: false, stdout: Vec::new(), stderr: b"  \n".to_vec() });
    assert!(file_diff(&silent).unwrap().is_empty());
    match file_diff(&failed("fatal: bad path\n")) {
        Err(DataError::CommandFailed(e)) => assert_eq!(e, "fatal: bad path"),
        other => panic!("unexpected {:?}", other),
    }
}

#[test]
fn transient_failures() {
    assert!(is_transient("HTTP 502: Bad Gateway"));
    assert!(is_transient("error: HTTP 429 too many requests"));
    assert!(is_transient("i/o TIMEOUT"));
    assert!(is_transient("read: connection reset by peer"));
    assert!(!is_transient("HTTP 404: Not Found"));
    assert!(!is_transient("could not resolve to a Repository"));
}

#[test]
fn gh_retry_schedule() {
    let s1 = GhRetry::new();
    assert_eq!((s1.attempt, s1.delay_ms), (1, 300));
    let s2 = match s1.step(&failed("HTTP 503")) {
        GhStep::Retry { delay_ms, next } => {
            assert_eq!(delay_ms, 300);
            next
        }
        other => panic!("unexpected {:?}", other),
    };
    assert_eq!((s2.attempt, s2.delay_ms), (2, 900));
    let s3 = match s2.step(&failed("timed out")) {
        GhStep::Retry { delay_ms, next } => {
            assert_eq!(delay_ms, 900);
            next
        }
        other => panic!("unexpected {:?}", other),
    };
    match s3.step(&failed(" HTTP 503 \n")) {
        GhStep::Finish(Err(DataError::CommandFailed(e))) => assert_eq!(e, "HTTP 503"),
        other => panic!("unexpected {:?}", other),
    }
}

#[test]
fn gh_success_and_permanent_failure() {
    let s = GhRetry::new();
    match s.step(&ok("[]")) {
        GhStep::Finish(Ok(b)) => assert_eq!(b, b"[]".to_vec()),
        other => panic!("unexpected {:?}", other),
    }
    match s.step(&failed("HTTP 404: Not Found")) {
        GhStep::Finish(Err(DataError::CommandFailed(e))) => assert_eq!(e, "HTTP 404: Not Found"),
        other => panic!("unexpected {:?}", other),
    }
    match s.step(&Err("gh not found".to_string())) {
        GhStep::Finish(Err(DataError::LaunchFailed(e))) => assert_eq!(e, "gh not found"),
        other => panic!("unexpected {:?}", other),
    }
}
