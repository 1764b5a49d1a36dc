//! Properties that span the library's functions.
use vstd::prelude::*;
use crate::activity::{by_newest, kept_events, take_n, user_events};
use crate::args::{
    activity_issues_spec, activity_prs_spec, dashboard_open_prs_spec, full_name,
    review_requested_spec, user_prs_spec,
};
use crate::command::{next_retry, retries, GhRetry, GH_FIRST_DELAY_MS};
use crate::github::split_full_name_spec;
use crate::keys::{
    key_step, next_subview, DETAIL_COMMITS, DETAIL_CONTRIBUTORS, DETAIL_PRS, next_tab, opened_repo, opened_user, origin_screen, prev_subview,
    prev_tab, repo_filter_mode, user_filter_mode, with_subview,
};
use crate::display::truncate_spec;
use crate::loading::{
    applied, err_of, memory_of, ok_of, prefetch_plan, restored, shown_commit_detail, BgMessage,
    PrefetchView, ACTIVITY_PER_USER,
};
use crate::orgs::{by_login_ignoring_case, by_recent_push, pushed_key, repo_info};
use crate::panel::{
    filtered_members, filtered_repos, first_if_none, member_matches, repo_matches, reset_sel, selected_item, stepped_cleared, stepped_kept, Panel,
};
use crate::sort::{
    lemma_stable_sort_multiset, lemma_stable_sort_sorted, sorted_by, stable_sort,
    strict_weak_order,
};
use crate::state::{
    ActionView, App, DetailOrigin, DiffView, Key, OrgSubview, PrDetailView, RepoTab, Screen,
};
use crate::text::{
    contains_spec, find_from, lemma_find_from_occurs, lower_char, lemma_lex_asymmetric, lemma_lex_irreflexive,
    lemma_lex_total, lemma_lex_transitive, lex_lt, lower_spec, occurs_at,
};
use crate::types::{EventView, OrgMember, PrDetail, RawOrgMember, RawRepoListItem, RepoInfo};
use crate::types::{RawApiCommitFile, SearchIssue, SearchPr};
use crate::activity::{event_detail, issue_action_spec, issue_event, pr_action_spec, pr_event};
use crate::git::counts_spec;
use crate::keys::pull_url;
use crate::views::number_cell;
use crate::screens::pr_title;
use crate::args::open_pull_requests_spec;
use crate::orgs::{commit_stat_lines, file_stat_line, status_symbol};
use crate::text::{
    all_digits, decimal, digits_value, is_ws, lemma_decimal_reads_back, lemma_words_after_gap,
    parse_u32_spec, words_spec,
};

verus! {

/// Archived repositories are left out of every pull-request and issue
/// search the library asks for.
pub proof fn law_searches_exclude_archived(
    org: Seq<char>,
    user: Seq<char>,
    role: Seq<char>,
    limit: nat,
)
    ensures
        activity_prs_spec(org).contains("--archived=false"@),
        activity_issues_spec(org).contains("--archived=false"@),
        review_requested_spec(org, limit).contains("--archived=false"@),
        dashboard_open_prs_spec(limit).contains("--archived=false"@),
        user_prs_spec(role, org, user, limit).contains("--archived=false"@),
{
    assert(activity_prs_spec(org)[2] == "--archived=false"@);
    assert(activity_issues_spec(org)[2] == "--archived=false"@);
    assert(review_requested_spec(org, limit)[2] == "--archived=false"@);
    assert(dashboard_open_prs_spec(limit)[2] == "--archived=false"@);
    assert(user_prs_spec(role, org, user, limit)[2] == "--archived=false"@);
}

/// A `gh` command runs at most three times: a transient failure of the
/// first run is retried after 300 ms, one of the second after 900 ms, and
/// the third run is final.
pub proof fn law_gh_retry_schedule(
    o1: Result<crate::types::CommandOutput, String>,
    o2: Result<crate::types::CommandOutput, String>,
    o3: Result<crate::types::CommandOutput, String>,
)
    ensures
        ({
            let s1 = GhRetry { attempt: 1, delay_ms: GH_FIRST_DELAY_MS };
            let s2 = next_retry(s1);
            let s3 = next_retry(s2);
            &&& s1.delay_ms == 300
            &&& s2 == GhRetry { attempt: 2, delay_ms: 900 }
            &&& s3 == GhRetry { attempt: 3, delay_ms: 2700 }
            &&& !retries(s3, o3)
        }),
{
}

/// One of the three tabs.
pub open spec fn is_tab(s: Screen) -> bool {
    s == Screen::Dashboard || s == Screen::Repo || s == Screen::Org
}

/// The tabs form a cycle: BackTab undoes Tab, Tab undoes BackTab, and three
/// Tabs come back to the start.
pub proof fn law_tab_cycle(s: Screen)
    requires
        is_tab(s),
    ensures
        prev_tab(next_tab(s)) == s,
        next_tab(prev_tab(s)) == s,
        next_tab(next_tab(next_tab(s))) == s,
{
}

/// Tab and then BackTab bring the user back to the tab they were on, and
/// neither key asks for outside work.
pub proof fn law_tab_then_backtab(a: App, b: App, c: App, x: ActionView, y: ActionView)
    requires
        is_tab(a.screen),
        !a.org.repos.filtering,
        !a.org.users.filtering,
        key_step(a, Key::Tab, b, x),
        key_step(b, Key::BackTab, c, y),
    ensures
        c.screen == a.screen,
        x == ActionView::Nothing,
        y == ActionView::Nothing,
{
}

/// The Org views form a cycle: `[` undoes `]`, and three `]` come back.
pub proof fn law_subview_cycle(v: OrgSubview)
    ensures
        prev_subview(next_subview(v)) == v,
        next_subview(prev_subview(v)) == v,
        next_subview(next_subview(next_subview(v))) == v,
{
}

/// `]` and then `[` on the Org tab bring back the view that was shown.
pub proof fn law_subview_keys(a: App, b: App, c: App, x: ActionView, y: ActionView)
    requires
        a.screen == Screen::Org,
        !a.org.repos.filtering,
        !a.org.users.filtering,
        key_step(a, Key::Char(']'), b, x),
        key_step(b, Key::Char('['), c, y),
    ensures
        c == a,
        x == ActionView::Nothing,
        y == ActionView::Nothing,
{
    assert(c.org == a.org);
}

/// `q` quits from anywhere outside search typing, and changes nothing.
pub proof fn law_q_quits(a: App, b: App, act: ActionView)
    requires
        !repo_filter_mode(a),
        !user_filter_mode(a),
        key_step(a, Key::Char('q'), b, act),
    ensures
        act == ActionView::Quit,
        b == a,
{
}

/// Esc on a commit detail goes back to the screen the commit was opened
/// from, and forgets the detail.
pub proof fn law_commit_detail_back(
    a: App,
    r: Result<crate::types::CommitDetail, String>,
    origin: DetailOrigin,
    b: App,
    act: ActionView,
)
    requires
        key_step(shown_commit_detail(a, r, origin), Key::Esc, b, act),
    ensures
        b == (App { commit_detail: None, screen: origin_screen(origin), ..a }),
        act == ActionView::Nothing,
{
}

/// Opening a commit from the recent-commits list and closing it again
/// leaves the interface as it was, the list still focused and selected.
pub proof fn law_commit_open_close(
    a: App,
    b: App,
    act: ActionView,
    r: Result<crate::types::CommitDetail, String>,
    c: App,
    act2: ActionView,
)
    requires
        a.screen == Screen::Repo,
        a.repo.commits.focused,
        a.commit_detail is None,
        key_step(a, Key::Enter, b, act),
        act is LoadCommitDetail,
        key_step(shown_commit_detail(b, r, DetailOrigin::Repo), Key::Esc, c, act2),
    ensures
        c == a,
        act2 == ActionView::Nothing,
{
}

/// Esc on a repository detail goes back to the repository list, as it was
/// when the detail was opened.
pub proof fn law_repo_detail_back(
    a: App,
    full: String,
    b: App,
    act: ActionView,
    c: App,
    act2: ActionView,
)
    requires
        opened_repo(a, full, b, act),
        key_step(b, Key::Esc, c, act2),
    ensures
        c == (App {
            repo_detail: None,
            screen: Screen::Org,
            org: with_subview(a.org, OrgSubview::Repos),
            ..a
        }),
        act2 == ActionView::Nothing,
{
}

/// Esc on a member detail goes back to the member list, as it was when the
/// detail was opened.
pub proof fn law_user_detail_back(
    a: App,
    login: String,
    b: App,
    act: ActionView,
    c: App,
    act2: ActionView,
)
    requires
        opened_user(a, login, b, act),
        key_step(b, Key::Esc, c, act2),
    ensures
        c == (App {
            user_detail: None,
            screen: Screen::Org,
            org: with_subview(a.org, OrgSubview::Users),
            ..a
        }),
        act2 == ActionView::Nothing,
{
}

/// Esc on a pull request detail goes back to the dashboard.
pub proof fn law_pr_detail_back(a: App, r: Result<PrDetail, String>, c: App, act: ActionView)
    requires
        key_step(
            App {
                pr_detail: Some(PrDetailView { detail: ok_of(r), error: err_of(r), scroll: 0 }),
                screen: Screen::PrDetail,
                ..a
            },
            Key::Esc,
            c,
            act,
        ),
    ensures
        c == (App { pr_detail: None, screen: Screen::Dashboard, ..a }),
        act == ActionView::Nothing,
{
}

/// Opening a notification from the dashboard and closing it again leaves
/// the dashboard as it was.
pub proof fn law_notification_open_close(a: App, b: App, x: ActionView, c: App, y: ActionView)
    requires
        a.screen == Screen::Dashboard,
        a.notification_detail is None,
        key_step(a, Key::Enter, b, x),
        b.screen == Screen::NotificationDetail,
        key_step(b, Key::Esc, c, y),
    ensures
        c == a,
        x == ActionView::Nothing,
        y == ActionView::Nothing,
{
}

/// The Repo tab with a diff shown.
pub open spec fn with_diff(a: App, d: DiffView) -> App {
    App { repo: RepoTab { diff: Some(d), ..a.repo }, ..a }
}

/// Esc on a diff closes it and brings back the panels it replaced, the
/// dirty files still focused.
pub proof fn law_diff_close(a: App, d: DiffView, b: App, act: ActionView)
    requires
        a.screen == Screen::Repo,
        !a.repo.commits.focused,
        a.repo.dirty.focused,
        a.repo.diff is None,
        key_step(with_diff(a, d), Key::Esc, b, act),
    ensures
        b == a,
        act == ActionView::Nothing,
{
}

/// Enter on the focused dirty files asks for the selected file's diff and
/// changes nothing; once the diff is shown, Esc gives back the Repo tab as
/// it was.
pub proof fn law_diff_open_close(
    a: App,
    b: App,
    act: ActionView,
    d: DiffView,
    c: App,
    act2: ActionView,
)
    requires
        a.screen == Screen::Repo,
        !a.repo.commits.focused,
        a.repo.dirty.focused,
        a.repo.diff is None,
        key_step(a, Key::Enter, b, act),
        key_step(with_diff(b, d), Key::Esc, c, act2),
    ensures
        b == a,
        act == (match selected_item(a.repo.dirty.items@, a.repo.dirty.selected) {
            Some(f) => ActionView::LoadDiff { path: f.path@, status: f.status@ },
            None => ActionView::Nothing,
        }),
        c == a,
        act2 == ActionView::Nothing,
{
}

/// Typing a character into the repository search and deleting it gives
/// back the search text, with the first match selected.
pub proof fn law_search_type_delete(a: App, ch: char, b: App, c: App, x: ActionView, y: ActionView)
    requires
        repo_filter_mode(a),
        key_step(a, Key::Char(ch), b, x),
        key_step(b, Key::Backspace, c, y),
    ensures
        c.org.repos.filter@ == a.org.repos.filter@,
        c.org.repos.filtering,
        c.org.repos.items == a.org.repos.items,
        c.org.repos.selected == reset_sel(filtered_repos(a.org.repos.items@, a.org.repos.filter@)),
        c.screen == a.screen,
        x == ActionView::Nothing,
        y == ActionView::Nothing,
{
    assert(b.org.repos.filter@.drop_last() =~= a.org.repos.filter@);
}

/// The repository search shows exactly the repositories that match it, by
/// position.
pub proof fn law_search_shows_matches(repos: Seq<RepoInfo>, filter: Seq<char>, k: int)
    requires
        repos.len() <= usize::MAX,
    ensures
        filtered_repos(repos, filter).contains(k as usize) && 0 <= k <= usize::MAX <==> 0 <= k
            < repos.len() && repo_matches(repos[k], lower_spec(filter)),
    decreases repos.len(),
{
    if repos.len() > 0 {
        law_search_shows_matches(repos.drop_last(), filter, k);
        let rest = filtered_repos(repos.drop_last(), filter);
        let n = repos.len() - 1;
        crate::panel::lemma_filtered_repos_positions(repos.drop_last(), filter);
        if repo_matches(repos.last(), lower_spec(filter)) {
            assert(filtered_repos(repos, filter) == rest.push(n as usize));
            if k == n {
                assert(filtered_repos(repos, filter)[rest.len() as int] == k as usize);
            } else if 0 <= k <= usize::MAX && filtered_repos(repos, filter).contains(k as usize) {
                let j = choose|j: int|
                    0 <= j < filtered_repos(repos, filter).len() && filtered_repos(repos, filter)[j]
                        == k as usize;
                if j < rest.len() {
                    assert(rest.contains(k as usize));
                }
            }
            if 0 <= k < n && repo_matches(repos[k], lower_spec(filter)) {
                assert(repos.drop_last()[k] == repos[k]);
                assert(rest.contains(k as usize));
                let j = choose|j: int| 0 <= j < rest.len() && rest[j] == k as usize;
                assert(filtered_repos(repos, filter)[j] == k as usize);
            }
            if 0 <= k < n && rest.contains(k as usize) {
                assert(repos.drop_last()[k] == repos[k]);
            }
        } else {
            assert(filtered_repos(repos, filter) == rest);
            if 0 <= k < n {
                assert(repos.drop_last()[k] == repos[k]);
            }
            if k == n && rest.contains(k as usize) {
                let j = choose|j: int| 0 <= j < rest.len() && rest[j] == k as usize;
                assert(rest[j] < repos.drop_last().len());
            }
        }
    } else {
        assert(filtered_repos(repos, filter).len() == 0);
    }
}

/// An empty search matches every repository, in order.
pub proof fn law_empty_search_repos(repos: Seq<RepoInfo>)
    requires
        repos.len() <= usize::MAX,
    ensures
        filtered_repos(repos, Seq::empty()).len() == repos.len(),
        forall|i: int| 0 <= i < repos.len() ==> filtered_repos(repos, Seq::empty())[i] == i,
    decreases repos.len(),
{
    if repos.len() > 0 {
        law_empty_search_repos(repos.drop_last());
        assert(lower_spec(Seq::<char>::empty()) =~= Seq::<char>::empty());
    }
}

/// An empty search matches every member, in order.
pub proof fn law_empty_search_members(members: Seq<OrgMember>)
    requires
        members.len() <= usize::MAX,
    ensures
        filtered_members(members, Seq::empty()).len() == members.len(),
        forall|i: int| 0 <= i < members.len() ==> filtered_members(members, Seq::empty())[i] == i,
    decreases members.len(),
{
    if members.len() > 0 {
        law_empty_search_members(members.drop_last());
        assert(lower_spec(Seq::<char>::empty()) =~= Seq::<char>::empty());
    }
}

/// `a` is a subsequence of `b`: `b` with some of its elements left out.
pub open spec fn is_subsequence(a: Seq<usize>, b: Seq<usize>) -> bool
    decreases b.len(),
{
    if a.len() == 0 {
        true
    } else if b.len() == 0 {
        false
    } else if a.last() == b.last() {
        is_subsequence(a.drop_last(), b.drop_last())
    } else {
        is_subsequence(a, b.drop_last())
    }
}

/// A text that holds `q` followed by a character holds `q`.
proof fn lemma_longer_query(s: Seq<char>, q: Seq<char>, c: char)
    requires
        contains_spec(s, q.push(c)),
    ensures
        contains_spec(s, q),
{
    let i = choose|i: int| occurs_at(s, q.push(c), i);
    assert(s.subrange(i, i + q.len()) =~= q.push(c).subrange(0, q.len() as int));
    assert(q.push(c).subrange(0, q.len() as int) =~= q);
    assert(occurs_at(s, q, i));
}

/// Lower-casing a search text with one more character adds its lower case.
proof fn lemma_lower_push(f: Seq<char>, c: char)
    ensures
        lower_spec(f.push(c)) == lower_spec(f).push(lower_char(c)),
{
    assert(lower_spec(f.push(c)) =~= lower_spec(f).push(lower_char(c)));
}

/// What matches a longer search also matches the shorter one.
proof fn lemma_repo_match_narrows(r: RepoInfo, f: Seq<char>, c: char)
    requires
        repo_matches(r, lower_spec(f.push(c))),
    ensures
        repo_matches(r, lower_spec(f)),
{
    lemma_lower_push(f, c);
    let q = lower_spec(f);
    let x = lower_char(c);
    if contains_spec(lower_spec(r.name@), q.push(x)) {
        lemma_longer_query(lower_spec(r.name@), q, x);
    } else if contains_spec(lower_spec(r.full_name@), q.push(x)) {
        lemma_longer_query(lower_spec(r.full_name@), q, x);
    } else if r.description matches Some(d) && contains_spec(lower_spec(d@), q.push(x)) {
        lemma_longer_query(lower_spec(r.description->0@), q, x);
    }
}

proof fn lemma_subsequence_extend(a: Seq<usize>, b: Seq<usize>, x: usize)
    requires
        is_subsequence(a, b),
        forall|i: int| 0 <= i < a.len() ==> #[trigger] a[i] < x,
    ensures
        is_subsequence(a, b.push(x)),
{
    if a.len() > 0 {
        assert(a[a.len() - 1] < x);
        assert(b.push(x).drop_last() =~= b);
    }
}

/// Typing one more character into the repository search narrows the list:
/// the matches of the longer search are some of the matches of the shorter
/// one, in the same order.
pub proof fn law_search_narrows_repos(repos: Seq<RepoInfo>, filter: Seq<char>, c: char)
    requires
        repos.len() <= usize::MAX,
    ensures
        is_subsequence(filtered_repos(repos, filter.push(c)), filtered_repos(repos, filter)),
    decreases repos.len(),
{
    if repos.len() > 0 {
        let rest = repos.drop_last();
        law_search_narrows_repos(rest, filter, c);
        crate::panel::lemma_filtered_repos_positions(rest, filter.push(c));
        let a = filtered_repos(rest, filter.push(c));
        let b = filtered_repos(rest, filter);
        let n = (repos.len() - 1) as usize;
        if repo_matches(repos.last(), lower_spec(filter.push(c))) {
            lemma_repo_match_narrows(repos.last(), filter, c);
            assert(a.push(n).drop_last() =~= a);
            assert(b.push(n).drop_last() =~= b);
        } else if repo_matches(repos.last(), lower_spec(filter)) {
            lemma_subsequence_extend(a, b, n);
        }
    }
}

/// Typing one more character into the member search narrows the list the
/// same way.
pub proof fn law_search_narrows_members(members: Seq<OrgMember>, filter: Seq<char>, c: char)
    requires
        members.len() <= usize::MAX,
    ensures
        is_subsequence(filtered_members(members, filter.push(c)), filtered_members(members, filter)),
    decreases members.len(),
{
    if members.len() > 0 {
        let rest = members.drop_last();
        law_search_narrows_members(rest, filter, c);
        crate::panel::lemma_filtered_members_positions(rest, filter.push(c));
        let a = filtered_members(rest, filter.push(c));
        let b = filtered_members(rest, filter);
        let n = (members.len() - 1) as usize;
        let m = members.last();
        if member_matches(m, lower_spec(filter.push(c))) {
            lemma_lower_push(filter, c);
            if lower_spec(filter.push(c)).len() != 0 {
                lemma_longer_query(lower_spec(m.login@), lower_spec(filter), lower_char(c));
            }
            assert(a.push(n).drop_last() =~= a);
            assert(b.push(n).drop_last() =~= b);
        } else if member_matches(m, lower_spec(filter)) {
            lemma_subsequence_extend(a, b, n);
        }
    }
}

/// A cut text is never longer than the room it was cut for (when there is
/// any room), and a text that fits is left alone.
pub proof fn law_truncate_fits(s: Seq<char>, n: nat)
    ensures
        n >= 1 ==> truncate_spec(s, n).len() <= n,
        s.len() <= n ==> truncate_spec(s, n) == s,
        s.len() > n && n >= 1 ==> truncate_spec(s, n).last() == '…',
{
}

/// Whenever the repository's organisation is known, its activity,
/// repositories and members are queried in the background from the start.
pub proof fn law_org_data_prefetched(
    org: String,
    dashboard_org: Option<String>,
    authed_user: Option<String>,
)
    ensures
        prefetch_plan(Some(org), dashboard_org, authed_user).contains(
            PrefetchView::Activity { org: org@, per_user_limit: ACTIVITY_PER_USER },
        ),
        prefetch_plan(Some(org), dashboard_org, authed_user).contains(
            PrefetchView::Repos { org: org@ },
        ),
        prefetch_plan(Some(org), dashboard_org, authed_user).contains(
            PrefetchView::Members { org: org@ },
        ),
{
    let p = prefetch_plan(Some(org), dashboard_org, authed_user);
    assert(p[0] == PrefetchView::Activity { org: org@, per_user_limit: ACTIVITY_PER_USER });
    assert(p[1] == PrefetchView::Repos { org: org@ });
    assert(p[2] == PrefetchView::Members { org: org@ });
}

/// A moved selection of a non-empty list points into it; on an empty list
/// the clearing move leaves nothing selected.
pub proof fn law_step_in_bounds<T>(p: Panel<T>, d: int)
    ensures
        p.items@.len() > 0 ==> (stepped_kept(p, d).selected matches Some(i) && i < p.items@.len()),
        p.items@.len() > 0 ==> (stepped_cleared(p, d).selected matches Some(i) && i
            < p.items@.len()),
        p.items@.len() == 0 ==> stepped_cleared(p, d).selected is None,
        p.items@.len() == 0 ==> stepped_kept(p, d) == p,
{
}

/// After a reload on one of the tabs, the interface is back on that tab and
/// Org view, and nothing more is fetched.
pub proof fn law_reload_keeps_tab(a: App, fresh: App, b: App, act: ActionView)
    requires
        is_tab(a.screen),
        restored(fresh, memory_of(a), b, act),
    ensures
        b.screen == a.screen,
        b.org.subview == a.org.subview,
        act == ActionView::Nothing,
{
}

/// After a reload on a repository detail, the same repository's detail is
/// open again and fetched anew.
pub proof fn law_reload_reopens_repo(a: App, fresh: App, b: App, act: ActionView)
    requires
        a.screen == Screen::RepoDetail,
        a.repo_detail is Some,
        restored(fresh, memory_of(a), b, act),
    ensures
        b.screen == Screen::RepoDetail,
        b.repo_detail matches Some(d) && d.full_name == a.repo_detail->0.full_name,
        b.org.subview == a.org.subview,
        act == match split_full_name_spec(a.repo_detail->0.full_name@) {
            Some((o, r)) => ActionView::LoadRepoDetail {
                owner: o,
                repo: r,
                commits: DETAIL_COMMITS,
                prs: DETAIL_PRS,
                contributors: DETAIL_CONTRIBUTORS,
            },
            None => ActionView::Nothing,
        },
{
}

/// At most one list of the Repo tab, and at most one of the dashboard, has
/// the focus.
pub open spec fn focus_ok(a: App) -> bool {
    let d = a.dashboard;
    &&& !(a.repo.commits.focused && a.repo.dirty.focused)
    &&& !(d.review.focused && d.my_prs.focused)
    &&& !(d.review.focused && d.notifications.focused)
    &&& !(d.review.focused && d.my_commits.focused)
    &&& !(d.my_prs.focused && d.notifications.focused)
    &&& !(d.my_prs.focused && d.my_commits.focused)
    &&& !(d.notifications.focused && d.my_commits.focused)
}

/// Every key press keeps the focus on at most one list per tab.
#[verifier::rlimit(40)]
pub proof fn law_focus_exclusive(a: App, k: Key, b: App, act: ActionView)
    requires
        focus_ok(a),
        key_step(a, k, b, act),
    ensures
        focus_ok(b),
{
}

/// A dashboard panel given the focus: the first item selected if nothing
/// was.
pub open spec fn took_focus<T>(before: Panel<T>, after: Panel<T>) -> bool {
    after == Panel { focused: true, selected: first_if_none(before.selected), ..before }
}

/// A dashboard panel that lost the focus and nothing else.
pub open spec fn lost_focus<T>(before: Panel<T>, after: Panel<T>) -> bool {
    after == Panel { focused: false, ..before }
}

/// On the dashboard, `v`, `p`, `n` and `c` give the focus to the review
/// panel, the user's pull requests, the notifications and the user's
/// commits: when that panel lists something it alone has the focus, with
/// its selection kept or the first item selected, and nothing else
/// changes; when it is empty nothing changes at all.
pub proof fn law_dashboard_focus_keys(a: App, c: char, b: App, act: ActionView)
    requires
        a.screen == Screen::Dashboard,
        c == 'v' || c == 'p' || c == 'n' || c == 'c',
        key_step(a, Key::Char(c), b, act),
    ensures
        act == ActionView::Nothing,
        b == (App { dashboard: b.dashboard, ..a }),
        c == 'v' ==> if a.dashboard.review.items@.len() == 0 {
            b == a
        } else {
            &&& took_focus(a.dashboard.review, b.dashboard.review)
            &&& lost_focus(a.dashboard.my_prs, b.dashboard.my_prs)
            &&& lost_focus(a.dashboard.notifications, b.dashboard.notifications)
            &&& lost_focus(a.dashboard.my_commits, b.dashboard.my_commits)
        },
        c == 'p' ==> if a.dashboard.my_prs.items@.len() == 0 {
            b == a
        } else {
            &&& lost_focus(a.dashboard.review, b.dashboard.review)
            &&& took_focus(a.dashboard.my_prs, b.dashboard.my_prs)
            &&& lost_focus(a.dashboard.notifications, b.dashboard.notifications)
            &&& lost_focus(a.dashboard.my_commits, b.dashboard.my_commits)
        },
        c == 'n' ==> if a.dashboard.notifications.items@.len() == 0 {
            b == a
        } else {
            &&& lost_focus(a.dashboard.review, b.dashboard.review)
            &&& lost_focus(a.dashboard.my_prs, b.dashboard.my_prs)
            &&& took_focus(a.dashboard.notifications, b.dashboard.notifications)
            &&& lost_focus(a.dashboard.my_commits, b.dashboard.my_commits)
        },
        c == 'c' ==> if a.dashboard.my_commits.items@.len() == 0 {
            b == a
        } else {
            &&& lost_focus(a.dashboard.review, b.dashboard.review)
            &&& lost_focus(a.dashboard.my_prs, b.dashboard.my_prs)
            &&& lost_focus(a.dashboard.notifications, b.dashboard.notifications)
            &&& took_focus(a.dashboard.my_commits, b.dashboard.my_commits)
        },
{
}

/// On the Repo tab, `c` and `d` give the focus to the recent commits and to
/// the dirty files in the same way; `c` also closes a diff.
pub proof fn law_repo_focus_keys(a: App, c: char, b: App, act: ActionView)
    requires
        a.screen == Screen::Repo,
        c == 'c' || c == 'd',
        key_step(a, Key::Char(c), b, act),
    ensures
        act == ActionView::Nothing,
        b == (App { repo: b.repo, ..a }),
        c == 'c' ==> if a.repo.commits.items@.len() == 0 {
            b == a
        } else {
            &&& took_focus(a.repo.commits, b.repo.commits)
            &&& lost_focus(a.repo.dirty, b.repo.dirty)
            &&& b.repo.diff is None
        },
        c == 'd' ==> if a.repo.dirty.items@.len() == 0 {
            b == a
        } else {
            &&& lost_focus(a.repo.commits, b.repo.commits)
            &&& took_focus(a.repo.dirty, b.repo.dirty)
            &&& b.repo.diff == a.repo.diff
        },
{
}

/// Answers to background queries never change the focus.
pub proof fn law_focus_kept_by_answers(a: App, m: BgMessage)
    ensures
        applied(a, m).repo == a.repo,
        applied(a, m).dashboard.review.focused == a.dashboard.review.focused,
        applied(a, m).dashboard.my_prs.focused == a.dashboard.my_prs.focused,
        applied(a, m).dashboard.notifications.focused == a.dashboard.notifications.focused,
        applied(a, m).dashboard.my_commits.focused == a.dashboard.my_commits.focused,
        applied(a, m).screen == a.screen,
{
}

/// Most recently pushed first is a strict weak order.
pub proof fn lemma_by_recent_push_order()
    ensures
        strict_weak_order(by_recent_push()),
{
    let b = by_recent_push();
    assert forall|x: RepoInfo, y: RepoInfo| #[trigger] b(x, y) implies !b(y, x) by {
        lemma_lex_asymmetric(pushed_key(x), pushed_key(y));
    }
    assert forall|x: RepoInfo, y: RepoInfo, z: RepoInfo|
        #![trigger b(x, y), b(y, z)]
        !b(x, y) && !b(y, z) implies !b(x, z) by {
        lemma_lex_total(pushed_key(x), pushed_key(y));
        lemma_lex_total(pushed_key(y), pushed_key(z));
        lemma_lex_transitive(pushed_key(x), pushed_key(y), pushed_key(z));
        lemma_lex_asymmetric(pushed_key(x), pushed_key(z));
        lemma_lex_irreflexive(pushed_key(x));
    }
}

/// Login order ignoring case is a strict weak order.
pub proof fn lemma_by_login_order()
    ensures
        strict_weak_order(by_login_ignoring_case()),
{
    let b = by_login_ignoring_case();
    assert forall|x: OrgMember, y: OrgMember| #[trigger] b(x, y) implies !b(y, x) by {
        lemma_lex_asymmetric(lower_spec(x.login@), lower_spec(y.login@));
    }
    assert forall|x: OrgMember, y: OrgMember, z: OrgMember|
        #![trigger b(x, y), b(y, z)]
        !b(x, y) && !b(y, z) implies !b(x, z) by {
        let (kx, ky, kz) = (lower_spec(x.login@), lower_spec(y.login@), lower_spec(z.login@));
        lemma_lex_total(kx, ky);
        lemma_lex_total(ky, kz);
        lemma_lex_transitive(kz, ky, kx);
        lemma_lex_asymmetric(kx, kz);
        lemma_lex_irreflexive(kx);
    }
}

/// Newest first is a strict weak order.
pub proof fn lemma_by_newest_order()
    ensures
        strict_weak_order(by_newest()),
{
    let b = by_newest();
    assert forall|x: EventView, y: EventView| #[trigger] b(x, y) implies !b(y, x) by {
        lemma_lex_asymmetric(x.when, y.when);
    }
    assert forall|x: EventView, y: EventView, z: EventView|
        #![trigger b(x, y), b(y, z)]
        !b(x, y) && !b(y, z) implies !b(x, z) by {
        lemma_lex_total(x.when, y.when);
        lemma_lex_total(y.when, z.when);
        lemma_lex_transitive(x.when, y.when, z.when);
        lemma_lex_asymmetric(x.when, z.when);
        lemma_lex_irreflexive(x.when);
    }
}

/// The repository list holds exactly the repositories listed, most recently
/// pushed first.
pub proof fn law_org_repos_sorted(raw: Seq<RawRepoListItem>)
    ensures
        sorted_by(
            stable_sort(raw.map_values(|x: RawRepoListItem| repo_info(x)), by_recent_push()),
            by_recent_push(),
        ),
        stable_sort(raw.map_values(|x: RawRepoListItem| repo_info(x)), by_recent_push()).to_multiset()
            == raw.map_values(|x: RawRepoListItem| repo_info(x)).to_multiset(),
{
    lemma_by_recent_push_order();
    lemma_stable_sort_sorted(raw.map_values(|x: RawRepoListItem| repo_info(x)), by_recent_push());
    lemma_stable_sort_multiset(raw.map_values(|x: RawRepoListItem| repo_info(x)), by_recent_push());
}

/// The member list holds exactly the members listed, in login order
/// ignoring case.
pub proof fn law_org_members_sorted(raw: Seq<RawOrgMember>)
    ensures
        sorted_by(
            stable_sort(
                raw.map_values(|m: RawOrgMember| OrgMember { login: m.login }),
                by_login_ignoring_case(),
            ),
            by_login_ignoring_case(),
        ),
        stable_sort(
            raw.map_values(|m: RawOrgMember| OrgMember { login: m.login }),
            by_login_ignoring_case(),
        ).to_multiset() == raw.map_values(|m: RawOrgMember| OrgMember { login: m.login }).to_multiset(),
{
    let s = raw.map_values(|m: RawOrgMember| OrgMember { login: m.login });
    lemma_by_login_order();
    lemma_stable_sort_sorted(s, by_login_ignoring_case());
    lemma_stable_sort_multiset(s, by_login_ignoring_case());
}

/// Each member's activity holds at most `limit` events, newest first.
pub proof fn law_activity_newest_first(
    entries: Seq<(Seq<char>, EventView)>,
    login: Seq<char>,
    limit: nat,
)
    ensures
        kept_events(entries, login, limit).len() <= limit,
        user_events(entries, login, limit).len() <= limit,
        sorted_by(kept_events(entries, login, limit), by_newest()),
{
    let s = stable_sort(crate::activity::events_of(entries, login), by_newest());
    lemma_by_newest_order();
    lemma_stable_sort_sorted(crate::activity::events_of(entries, login), by_newest());
    let k = kept_events(entries, login, limit);
    assert(k == take_n(s, limit));
    assert forall|i: int, j: int| 0 <= i < j < k.len() implies !by_newest()(
        #[trigger] k[j],
        #[trigger] k[i],
    ) by {
        assert(k[i] == s[i] && k[j] == s[j]);
    }
}

/// A full name split at its slash gives back the full name: owner, `/`,
/// repository.
pub proof fn law_split_full_name_rejoins(full: Seq<char>)
    ensures
        split_full_name_spec(full) matches Some((o, r)) ==> o.len() > 0 && r.len() > 0
            && full_name(o, r) == full && !o.contains('/'),
{
    lemma_find_from_occurs(full, seq!['/'], 0);
    if let Some((o, r)) = split_full_name_spec(full) {
        let i = find_from(full, seq!['/'], 0)->0;
        assert(full[i] == '/') by {
            assert(occurs_at(full, seq!['/'], i));
            assert(full.subrange(i, i + 1)[0] == full[i]);
        }
        reveal_strlit("/");
        assert(o == full.take(i) && r == full.skip(i + 1));
        assert(full_name(o, r) =~= full);
        lemma_first_slash(full, i);
    }
}

/// Before the occurrence that `find_from` finds there is none.
proof fn lemma_find_from_first(s: Seq<char>, p: Seq<char>, j: int)
    ensures
        find_from(s, p, j) matches Some(i) ==> forall|k: int| j <= k < i ==> !occurs_at(s, p, k),
    decreases s.len() + 1 - j,
{
    if !(j < 0 || j + p.len() > s.len()) && !occurs_at(s, p, j) {
        lemma_find_from_first(s, p, j + 1);
    }
}

/// The first slash has none before it.
proof fn lemma_first_slash(full: Seq<char>, i: int)
    requires
        find_from(full, seq!['/'], 0) == Some(i),
        0 <= i < full.len(),
    ensures
        !full.take(i).contains('/'),
{
    lemma_find_from_first(full, seq!['/'], 0);
    if full.take(i).contains('/') {
        let k = choose|k: int| 0 <= k < full.take(i).len() && full.take(i)[k] == '/';
        assert(full[k] == '/');
        assert(full.subrange(k, k + 1) =~= seq!['/']);
        assert(occurs_at(full, seq!['/'], k));
    }
}

/// `digits` is how the library writes `n`: a non-empty run of decimal
/// digits, without a leading zero, whose positional value is `n`.
pub open spec fn writes_number(digits: Seq<char>, n: nat) -> bool {
    &&& digits.len() > 0
    &&& all_digits(digits)
    &&& digits_value(digits) == n
    &&& (digits.len() > 1 ==> digits[0] != '0')
}

/// Every number the library prints in decimal reads back as that number.
pub proof fn law_decimal_reads_back(n: nat)
    ensures
        writes_number(decimal(n), n),
{
    lemma_decimal_reads_back(n);
}

/// Different numbers are printed differently.
pub proof fn law_decimal_injective(m: nat, n: nat)
    requires
        decimal(m) == decimal(n),
    ensures
        m == n,
{
    lemma_decimal_reads_back(m);
    lemma_decimal_reads_back(n);
}

/// Parsing the decimal digits of a `u32` gives the number back.
pub proof fn law_parse_reads_decimal(n: u32)
    ensures
        parse_u32_spec(decimal(n as nat)) == Some(n),
{
    lemma_decimal_reads_back(n as nat);
    let d = decimal(n as nat);
    assert(crate::text::is_digit(d[0]));
}

/// The digits of a number hold no whitespace.
proof fn lemma_decimal_no_ws(n: nat)
    ensures
        forall|i: int| 0 <= i < decimal(n).len() ==> !is_ws(#[trigger] decimal(n)[i]),
{
    lemma_decimal_reads_back(n);
    assert forall|i: int| 0 <= i < decimal(n).len() implies !is_ws(#[trigger] decimal(n)[i]) by {
        assert(crate::text::is_digit(decimal(n)[i]));
    }
}

/// The ahead and behind counts read from `git rev-list --left-right
/// --count` are the two counts it printed, separated by a tab.
pub proof fn law_counts_read_back(a: u32, b: u32)
    ensures
        counts_spec(decimal(a as nat) + seq!['\t'] + decimal(b as nat)) == (a, b),
{
    let da = decimal(a as nat);
    let db = decimal(b as nat);
    lemma_decimal_no_ws(a as nat);
    lemma_decimal_no_ws(b as nat);
    lemma_decimal_reads_back(a as nat);
    lemma_decimal_reads_back(b as nat);
    lemma_words_after_gap(Seq::empty(), da);
    assert(Seq::<char>::empty() + da =~= da);
    assert(words_spec(Seq::<char>::empty()) == Seq::<Seq<char>>::empty());
    let x = da.push('\t');
    assert(x.drop_last() =~= da);
    assert(is_ws(x.last()));
    assert(words_spec(x) == words_spec(da));
    lemma_words_after_gap(x, db);
    let s = da + seq!['\t'] + db;
    assert(s =~= x + db);
    let w = words_spec(s);
    assert(w =~= seq![da, db]);
    law_parse_reads_decimal(a);
    law_parse_reads_decimal(b);
}

/// `text` is an action, `" #"`, the number written out (see
/// [`writes_number`]), `": "` and the title.
pub open spec fn names_number(text: Seq<char>, action: Seq<char>, n: nat, title: Seq<char>) -> bool {
    let k = text.len() - title.len();
    &&& action.len() + 4 <= k <= text.len()
    &&& text.subrange(0, action.len() as int) == action
    &&& text.subrange(action.len() as int, action.len() + 2 as int) == " #"@
    &&& writes_number(text.subrange(action.len() + 2 as int, k - 2), n)
    &&& text.subrange(k - 2, k) == ": "@
    &&& text.subrange(k, text.len() as int) == title
}

proof fn lemma_event_detail_names(action: Seq<char>, n: u64, title: Seq<char>)
    ensures
        names_number(event_detail(action, n, title), action, n as nat, title),
{
    reveal_strlit(" #");
    reveal_strlit(": ");
    lemma_decimal_reads_back(n as nat);
    let d = decimal(n as nat);
    let t = event_detail(action, n, title);
    let k = t.len() - title.len();
    assert(t.subrange(0, action.len() as int) =~= action);
    assert(t.subrange(action.len() as int, action.len() + 2 as int) =~= " #"@);
    assert(t.subrange(action.len() + 2 as int, k - 2) =~= d);
    assert(t.subrange(k - 2, k) =~= ": "@);
    assert(t.subrange(k, t.len() as int) =~= title);
}

/// The detail of a feed event names its pull request or issue by the full
/// number: the action, `" #"`, the number's digits (which read back as the
/// number), `": "` and the title; and two events that differ only in their
/// number have different details.
pub proof fn law_feed_details_name_numbers(p: SearchPr, i: SearchIssue, m: u64, n: u64, a: Seq<char>, t: Seq<char>)
    ensures
        names_number(pr_event(p).detail, pr_action_spec(p.state@), p.number as nat, p.title@),
        names_number(issue_event(i).detail, issue_action_spec(i.state@), i.number as nat, i.title@),
        event_detail(a, m, t) == event_detail(a, n, t) ==> m == n,
{
    lemma_event_detail_names(pr_action_spec(p.state@), p.number, p.title@);
    lemma_event_detail_names(issue_action_spec(i.state@), i.number, i.title@);
    lemma_event_detail_names(a, m, t);
    lemma_event_detail_names(a, n, t);
}

/// The link of a pull request is `https://github.com/`, the repository,
/// `/pull/` and the number written out, which reads back as the number; two
/// pull requests of one repository with different numbers get different
/// links.
pub proof fn law_pull_url_names_number(repo: Seq<char>, m: u64, n: u64)
    ensures
        ({
            let u = pull_url(repo, n);
            let pre = "https://github.com/"@ + repo + "/pull/"@;
            &&& pre.len() <= u.len()
            &&& u.subrange(0, pre.len() as int) == pre
            &&& writes_number(u.subrange(pre.len() as int, u.len() as int), n as nat)
        }),
        pull_url(repo, m) == pull_url(repo, n) ==> m == n,
{
    let pre = "https://github.com/"@ + repo + "/pull/"@;
    let u = pull_url(repo, n);
    lemma_decimal_reads_back(n as nat);
    lemma_decimal_reads_back(m as nat);
    assert(u.subrange(0, pre.len() as int) =~= pre);
    assert(u.subrange(pre.len() as int, u.len() as int) =~= decimal(n as nat));
    if pull_url(repo, m) == pull_url(repo, n) {
        let v = pull_url(repo, m);
        assert(v.subrange(pre.len() as int, v.len() as int) =~= decimal(m as nat));
    }
}

/// In the stat lines of a commit read from GitHub, a removed file is
/// marked `-` and an added one `+`, so the two are never marked alike.
pub proof fn law_removed_files_marked(files: Seq<RawApiCommitFile>, k: int)
    requires
        0 <= k < files.len(),
    ensures
        files[k].status@ == "removed"@ ==> commit_stat_lines(files)[k].subrange(0, 3) == " - "@,
        files[k].status@ == "added"@ ==> commit_stat_lines(files)[k].subrange(0, 3) == " + "@,
        status_symbol("removed"@) != status_symbol("added"@),
{
    reveal_strlit("-");
    reveal_strlit("+");
    reveal_strlit(" - ");
    reveal_strlit(" + ");
    reveal_strlit(" ");
    reveal_strlit("removed");
    reveal_strlit("added");
    let l = commit_stat_lines(files)[k];
    assert(l == file_stat_line(files[k]));
    assert("removed"@ != "added"@) by {
        assert("removed"@.len() != "added"@.len());
    }
    assert(status_symbol("removed"@) == "-"@);
    assert(status_symbol("added"@) == "+"@);
    assert("-"@ != "+"@) by {
        assert("-"@[0] != "+"@[0]);
    }
    let f = files[k];
    let sym = status_symbol(f.status@);
    assert(l == " "@ + sym + " "@ + f.filename@ + "  +"@ + decimal(f.additions as nat) + " -"@
        + decimal(f.deletions as nat));
    if f.status@ == "removed"@ {
        assert(sym == "-"@);
        assert(l[0] == ' ' && l[1] == '-' && l[2] == ' ');
        assert(l.subrange(0, 3) =~= " - "@);
    }
    if f.status@ == "added"@ {
        assert(sym == "+"@);
        assert(l[0] == ' ' && l[1] == '+' && l[2] == ' ');
        assert(l.subrange(0, 3) =~= " + "@);
    }
}

/// The member list runs in order of the ASCII-lower-cased logins: no member
/// comes after one whose lower-cased login is greater, whatever the case of
/// their letters.
pub proof fn law_members_by_lowercase_login(raw: Seq<RawOrgMember>)
    ensures
        ({
            let s = stable_sort(
                raw.map_values(|m: RawOrgMember| OrgMember { login: m.login }),
                by_login_ignoring_case(),
            );
            forall|i: int, j: int|
                0 <= i < j < s.len() ==> !lex_lt(
                    lower_spec((#[trigger] s[j]).login@),
                    lower_spec((#[trigger] s[i]).login@),
                )
        }),
{
    law_org_members_sorted(raw);
    let s = stable_sort(
        raw.map_values(|m: RawOrgMember| OrgMember { login: m.login }),
        by_login_ignoring_case(),
    );
    assert forall|i: int, j: int| 0 <= i < j < s.len() implies !lex_lt(
        lower_spec((#[trigger] s[j]).login@),
        lower_spec((#[trigger] s[i]).login@),
    ) by {
        assert(!by_login_ignoring_case()(s[j], s[i]));
    }
}

/// Where `n` is written into a text: the digits that follow `start` read
/// back as `n`.
proof fn lemma_written_at(t: Seq<char>, pre: Seq<char>, n: nat, post: Seq<char>)
    requires
        t == pre + decimal(n) + post,
    ensures
        (pre.len() + decimal(n).len()) as int <= t.len(),
        t.subrange(0, pre.len() as int) == pre,
        writes_number(t.subrange(pre.len() as int, (pre.len() + decimal(n).len()) as int), n),
        t.subrange((pre.len() + decimal(n).len()) as int, t.len() as int) == post,
{
    lemma_decimal_reads_back(n);
    assert(t.subrange(0, pre.len() as int) =~= pre);
    assert(t.subrange(pre.len() as int, (pre.len() + decimal(n).len()) as int) =~= decimal(n));
    assert(t.subrange((pre.len() + decimal(n).len()) as int, t.len() as int) =~= post);
}

/// The number column of the dashboard lists: `#`, then the number's digits
/// (which read back as the number), then only spaces, six places at least.
pub proof fn law_number_cell_reads_back(n: u64)
    ensures
        ({
            let c = number_cell(n);
            let l = decimal(n as nat).len();
            &&& 1 + l <= c.len()
            &&& c.len() == if l >= 5 { 1 + l } else { 6 }
            &&& c[0] == '#'
            &&& writes_number(c.subrange(1, 1 + l as int), n as nat)
            &&& forall|i: int| 1 + l <= i < c.len() ==> c[i] == ' '
        }),
{
    reveal_strlit("#");
    let d = decimal(n as nat);
    let c = number_cell(n);
    let rest = c.subrange(1 + d.len() as int, c.len() as int);
    assert(c =~= "#"@ + d + rest) by {
        if d.len() < 5 {
            assert(c =~= "#"@ + d + crate::views::spaces((5 - d.len()) as nat));
        } else {
            assert(c =~= "#"@ + d);
        }
    }
    lemma_written_at(c, "#"@, n as nat, rest);
    assert forall|i: int| 1 + d.len() <= i < c.len() implies c[i] == ' ' by {
        if d.len() < 5 {
            assert(c =~= "#"@ + d + crate::views::spaces((5 - d.len()) as nat));
        }
    }
}

/// A file's stat line from GitHub ends with `"  +"`, its additions written
/// out, `" -"` and its deletions written out, each reading back as the count.
pub proof fn law_stat_line_counts(f: RawApiCommitFile)
    ensures
        ({
            let l = file_stat_line(f);
            let la = decimal(f.additions as nat).len();
            let ld = decimal(f.deletions as nat).len();
            let e = l.len() - ld;
            let b = e - 2 - la;
            &&& 3 + la + 2 + ld <= l.len()
            &&& writes_number(l.subrange(e, l.len() as int), f.deletions as nat)
            &&& l.subrange(e - 2, e) == " -"@
            &&& writes_number(l.subrange(b, e - 2), f.additions as nat)
            &&& l.subrange(b - 3, b) == "  +"@
        }),
{
    reveal_strlit("  +");
    reveal_strlit(" -");
    let l = file_stat_line(f);
    let pre = " "@ + status_symbol(f.status@) + " "@ + f.filename@ + "  +"@;
    let da = decimal(f.additions as nat);
    let dd = decimal(f.deletions as nat);
    assert(l =~= pre + da + (" -"@ + dd));
    lemma_written_at(l, pre, f.additions as nat, " -"@ + dd);
    lemma_written_at(l, pre + da + " -"@, f.deletions as nat, Seq::empty());
    assert(l =~= pre + da + " -"@ + dd + Seq::<char>::empty());
    let e = l.len() - dd.len();
    assert(l.subrange(e - 2, e) =~= " -"@);
    let b = e - 2 - da.len();
    assert(l.subrange(b - 3, b) =~= "  +"@);
}

/// The totals line of a GitHub commit: its three numbers, read in order,
/// are the file count, the additions and the deletions.
pub proof fn law_summary_line_counts(n: nat, a: nat, d: nat)
    ensures
        ({
            let t = crate::orgs::summary_line(n, a, d);
            let p1 = 1int;
            let p2 = p1 + decimal(n).len() + " files changed, "@.len();
            let p3 = p2 + decimal(a).len() + " insertions(+), "@.len();
            &&& writes_number(t.subrange(p1, p1 + decimal(n).len()), n)
            &&& writes_number(t.subrange(p2, p2 + decimal(a).len()), a)
            &&& writes_number(t.subrange(p3, p3 + decimal(d).len()), d)
        }),
{
    let t = crate::orgs::summary_line(n, a, d);
    let x1 = " "@;
    let x2 = x1 + decimal(n) + " files changed, "@;
    let x3 = x2 + decimal(a) + " insertions(+), "@;
    assert(t =~= x1 + decimal(n) + (" files changed, "@ + decimal(a) + " insertions(+), "@ + decimal(d) + " deletions(-)"@));
    lemma_written_at(t, x1, n, " files changed, "@ + decimal(a) + " insertions(+), "@ + decimal(d) + " deletions(-)"@);
    assert(t =~= x2 + decimal(a) + (" insertions(+), "@ + decimal(d) + " deletions(-)"@));
    lemma_written_at(t, x2, a, " insertions(+), "@ + decimal(d) + " deletions(-)"@);
    assert(t =~= x3 + decimal(d) + " deletions(-)"@);
    lemma_written_at(t, x3, d, " deletions(-)"@);
    reveal_strlit(" ");
}

/// The title of a pull request's detail starts with `" #"` and the number
/// written out, which reads back as the number.
pub proof fn law_pr_title_number(d: PrDetail)
    ensures
        ({
            let t = pr_title(d);
            let l = decimal(d.number as nat).len();
            &&& 2 + l <= t.len()
            &&& t.subrange(0, 2) == " #"@
            &&& writes_number(t.subrange(2, 2 + l as int), d.number as nat)
        }),
{
    reveal_strlit(" #");
    let t = pr_title(d);
    let post = " — "@ + crate::display::truncate_spec(d.title@, 80) + " "@;
    assert(t =~= " #"@ + decimal(d.number as nat) + post);
    lemma_written_at(t, " #"@, d.number as nat, post);
}

/// `gh pr list` is asked for exactly `limit` pull requests: the argument
/// after `--limit` reads back as the limit.
pub proof fn law_pr_list_limit(limit: nat)
    ensures
        open_pull_requests_spec(limit)[4] == "--limit"@,
        writes_number(open_pull_requests_spec(limit)[5], limit),
{
    lemma_decimal_reads_back(limit);
}

proof fn lemma_lex_after_prefix(p: Seq<char>, a: Seq<char>, b: Seq<char>)
    ensures
        lex_lt(p + a, p + b) == lex_lt(a, b),
    decreases p.len(),
{
    if p.len() == 0 {
        assert(p + a =~= a);
        assert(p + b =~= b);
    } else {
        lemma_lex_after_prefix(p.drop_first(), a, b);
        assert((p + a).drop_first() =~= p.drop_first() + a);
        assert((p + b).drop_first() =~= p.drop_first() + b);
        assert((p + a)[0] == (p + b)[0]);
    }
}

/// The order logins and times are compared by: after a common beginning,
/// the text with the smaller character first comes first, whatever
/// follows; a text comes before its own longer continuations.
pub proof fn law_lex_order(p: Seq<char>, x: char, y: char, r1: Seq<char>, r2: Seq<char>, q: Seq<char>)
    ensures
        (x as u32) < (y as u32) ==> lex_lt(p + seq![x] + r1, p + seq![y] + r2),
        q.len() > 0 ==> lex_lt(p, p + q),
        !lex_lt(p + q, p),
{
    assert(p + seq![x] + r1 =~= p + (seq![x] + r1));
    assert(p + seq![y] + r2 =~= p + (seq![y] + r2));
    lemma_lex_after_prefix(p, seq![x] + r1, seq![y] + r2);
    assert((seq![x] + r1)[0] == x);
    assert((seq![y] + r2)[0] == y);
    assert(p =~= p + Seq::<char>::empty());
    lemma_lex_after_prefix(p, Seq::empty(), q);
    lemma_lex_after_prefix(p, q, Seq::empty());
}

/// Lower-casing for the member order: an upper-case ASCII letter becomes
/// its lower-case letter, every other character stays; the length is kept,
/// and lower-casing twice changes nothing more.
pub proof fn law_lowercase_letters(s: Seq<char>)
    ensures
        lower_spec(s).len() == s.len(),
        forall|i: int|
            0 <= i < s.len() ==> if 65 <= (s[i] as u32) <= 90 {
                (#[trigger] lower_spec(s)[i]) as u32 == (s[i] as u32) + 32
            } else {
                lower_spec(s)[i] == s[i]
            },
        lower_spec(lower_spec(s)) == lower_spec(s),
{
    assert forall|i: int| 0 <= i < s.len() implies if 65 <= (s[i] as u32) <= 90 {
        (#[trigger] lower_spec(s)[i]) as u32 == (s[i] as u32) + 32
    } else {
        lower_spec(s)[i] == s[i]
    } by {
        let c = s[i];
        if 65 <= (c as u32) <= 90 {
            assert(((c as u32 + 32) as u8) as u32 == c as u32 + 32);
        }
    }
    assert(lower_spec(lower_spec(s)) =~= lower_spec(s));
}

} // verus!
