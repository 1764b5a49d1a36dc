//! Organisation activity: pull requests and issues grouped by author.
use vstd::prelude::*;
use crate::sort::{
    distinct_by, lemma_stable_sort_contains, lemma_stable_sort_distinct, lemma_stable_sort_len,
    lemma_stable_sort_map, lemma_stable_sort_sorted, sort_stable, stable_sort, strict_weak_order,
};
use crate::text::{
    append_chars, append_str, chars_of, decimal, decimal_chars, humanize_iso, humanize_iso_ok,
    humanize_iso_spec, lemma_lex_asymmetric, lemma_lex_irreflexive, lemma_lex_total,
    lemma_lex_transitive, lex_lt, str_less, string_of,
};
use crate::types::{event_views, ActivityEvent, EventView, SearchAuthor, SearchIssue, SearchPr, UserActivity, UserActivityView};

verus! {

/// Whether two character sequences are equal.
pub fn eq_chars(a: &[char], b: &[char]) -> (r: bool)
    ensures
        r == (a@ == b@),
{
    if a.len() != b.len() {
        return false;
    }
    let mut i: usize = 0;
    while i < a.len()
        invariant
            a@.len() == b@.len(),
            i <= a@.len(),
            forall|k: int| 0 <= k < i ==> a@[k] == b@[k],
        decreases a.len() - i,
    {
        if a[i] != b[i] {
            return false;
        }
        i = i + 1;
    }
    assert(a@ =~= b@);
    true
}

/// Whether two strings are equal.
pub fn str_eq(a: &str, b: &str) -> (r: bool)
    ensures
        r == (a@ == b@),
{
    let x = chars_of(a);
    let y = chars_of(b);
    eq_chars(&x, &y)
}

/// How a pull request's state reads in the activity feed.
pub open spec fn pr_action_spec(state: Seq<char>) -> Seq<char> {
    if state == "OPEN"@ || state == "open"@ {
        "active"@
    } else if state == "MERGED"@ || state == "merged"@ {
        "merged"@
    } else if state == "CLOSED"@ || state == "closed"@ {
        "closed"@
    } else {
        state
    }
}

/// How an issue's state reads in the activity feed.
pub open spec fn issue_action_spec(state: Seq<char>) -> Seq<char> {
    if state == "OPEN"@ || state == "open"@ {
        "open"@
    } else if state == "CLOSED"@ || state == "closed"@ {
        "closed"@
    } else {
        state
    }
}

/// `"{action} #{number}: {title}"`.
pub open spec fn event_detail(action: Seq<char>, number: u64, title: Seq<char>) -> Seq<char> {
    action + " #"@ + decimal(number as nat) + ": "@ + title
}

/// The author's login, when there is an author with a non-empty login.
pub open spec fn author_login(a: Option<SearchAuthor>) -> Option<Seq<char>> {
    match a {
        Some(x) => if x.login@.len() > 0 {
            Some(x.login@)
        } else {
            None
        },
        None => None,
    }
}

/// The feed event for a pull request.
pub open spec fn pr_event(p: SearchPr) -> EventView {
    EventView {
        kind: if p.is_draft {
            "PR-draft"@
        } else {
            "PR"@
        },
        repo: p.repository.name_with_owner@,
        detail: event_detail(pr_action_spec(p.state@), p.number, p.title@),
        when: p.updated_at@,
    }
}

/// The feed event for an issue.
pub open spec fn issue_event(i: SearchIssue) -> EventView {
    EventView {
        kind: "issue"@,
        repo: i.repository.name_with_owner@,
        detail: event_detail(issue_action_spec(i.state@), i.number, i.title@),
        when: i.updated_at@,
    }
}

/// The (login, event) pairs of the pull requests that have an author.
pub open spec fn pr_entries(prs: Seq<SearchPr>) -> Seq<(Seq<char>, EventView)>
    decreases prs.len(),
{
    if prs.len() == 0 {
        Seq::empty()
    } else {
        let rest = pr_entries(prs.drop_last());
        match author_login(prs.last().author) {
            Some(l) => rest.push((l, pr_event(prs.last()))),
            None => rest,
        }
    }
}

/// The (login, event) pairs of the issues that have an author.
pub open spec fn issue_entries(issues: Seq<SearchIssue>) -> Seq<(Seq<char>, EventView)>
    decreases issues.len(),
{
    if issues.len() == 0 {
        Seq::empty()
    } else {
        let rest = issue_entries(issues.drop_last());
        match author_login(issues.last().author) {
            Some(l) => rest.push((l, issue_event(issues.last()))),
            None => rest,
        }
    }
}

/// All feed entries: pull requests first, then issues, each in input order.
pub open spec fn activity_entries(prs: Seq<SearchPr>, issues: Seq<SearchIssue>) -> Seq<
    (Seq<char>, EventView),
> {
    pr_entries(prs) + issue_entries(issues)
}

/// The events of one login, in entry order.
pub open spec fn events_of(entries: Seq<(Seq<char>, EventView)>, login: Seq<char>) -> Seq<
    EventView,
>
    decreases entries.len(),
{
    if entries.len() == 0 {
        Seq::empty()
    } else {
        let rest = events_of(entries.drop_last(), login);
        if entries.last().0 == login {
            rest.push(entries.last().1)
        } else {
            rest
        }
    }
}

/// Some entry belongs to `login`.
pub open spec fn has_login(entries: Seq<(Seq<char>, EventView)>, login: Seq<char>) -> bool {
    exists|k: int| 0 <= k < entries.len() && #[trigger] entries[k].0 == login
}

/// Newer events go first: `a` before `b` when `b` is older.
pub open spec fn when_before(a: EventView, b: EventView) -> bool {
    lex_lt(b.when, a.when)
}

/// The order of the feed: newest first.
pub open spec fn by_newest() -> spec_fn(EventView, EventView) -> bool {
    |a: EventView, b: EventView| when_before(a, b)
}

/// The events of `login` that the feed shows, before their times are
/// shortened: newest first (a stable sort), at most `limit` of them.
pub open spec fn kept_events(entries: Seq<(Seq<char>, EventView)>, login: Seq<char>, limit: nat) -> Seq<
    EventView,
> {
    take_n(stable_sort(events_of(entries, login), by_newest()), limit)
}

/// The first `n` elements, or all of them.
pub open spec fn take_n<T>(s: Seq<T>, n: nat) -> Seq<T> {
    if n <= s.len() {
        s.take(n as int)
    } else {
        s
    }
}

/// An event with its time shortened.
pub open spec fn humanized(e: EventView) -> EventView {
    EventView { when: humanize_iso_spec(e.when), ..e }
}

/// The events the feed shows for `login`.
pub open spec fn user_events(entries: Seq<(Seq<char>, EventView)>, login: Seq<char>, limit: nat) -> Seq<
    EventView,
> {
    kept_events(entries, login, limit).map_values(|e: EventView| humanized(e))
}

/// Users with more events go first; equal counts go by login.
pub open spec fn user_before(a: UserActivityView, b: UserActivityView) -> bool {
    a.events.len() > b.events.len() || (a.events.len() == b.events.len() && lex_lt(
        a.login,
        b.login,
    ))
}

/// Every shown event can have its time shortened without panicking.
pub open spec fn activity_times_ok(entries: Seq<(Seq<char>, EventView)>, limit: nat) -> bool {
    forall|l: Seq<char>, i: int|
        0 <= i < kept_events(entries, l, limit).len() ==> humanize_iso_ok(
            #[trigger] kept_events(entries, l, limit)[i].when,
        )
}

/// An entry paired with its author.
pub struct Entry {
    pub login: String,
    pub event: ActivityEvent,
}

pub open spec fn entry_views(s: Seq<Entry>) -> Seq<(Seq<char>, EventView)> {
    s.map_values(|e: Entry| (e.login@, e.event@))
}

/// A string copy.
pub fn copy_string(s: &String) -> (r: String)
    ensures
        r@ == s@,
{
    s.clone()
}

fn action_for_pr(state: &String) -> (r: String)
    ensures
        r@ == pr_action_spec(state@),
{
    if str_eq(state.as_str(), "OPEN") || str_eq(state.as_str(), "open") {
        "active".to_string()
    } else if str_eq(state.as_str(), "MERGED") || str_eq(state.as_str(), "merged") {
        "merged".to_string()
    } else if str_eq(state.as_str(), "CLOSED") || str_eq(state.as_str(), "closed") {
        "closed".to_string()
    } else {
        copy_string(state)
    }
}

fn action_for_issue(state: &String) -> (r: String)
    ensures
        r@ == issue_action_spec(state@),
{
    if str_eq(state.as_str(), "OPEN") || str_eq(state.as_str(), "open") {
        "open".to_string()
    } else if str_eq(state.as_str(), "CLOSED") || str_eq(state.as_str(), "closed") {
        "closed".to_string()
    } else {
        copy_string(state)
    }
}

fn detail_text(action: &String, number: u64, title: &String) -> (r: String)
    ensures
        r@ == event_detail(action@, number, title@),
{
    let mut v = chars_of(action.as_str());
    append_str(&mut v, " #");
    let d = decimal_chars(number);
    append_chars(&mut v, &d);
    append_str(&mut v, ": ");
    append_str(&mut v, title.as_str());
    string_of(&v)
}

fn login_of(a: &Option<SearchAuthor>) -> (r: Option<String>)
    ensures
        match r {
            Some(l) => author_login(*a) == Some(l@),
            None => author_login(*a) is None,
        },
{
    match a {
        Some(x) => {
            if x.login.as_str().is_empty() {
                None
            } else {
                Some(copy_string(&x.login))
            }
        },
        None => None,
    }
}

/// The feed entries of the given search results.
pub fn collect_entries(prs: &Vec<SearchPr>, issues: &Vec<SearchIssue>) -> (r: Vec<Entry>)
    ensures
        entry_views(r@) == activity_entries(prs@, issues@),
{
    let mut r: Vec<Entry> = Vec::new();
    let mut i: usize = 0;
    assert(prs@.take(0) == Seq::<SearchPr>::empty());
    while i < prs.len()
        invariant
            i <= prs@.len(),
            entry_views(r@) == pr_entries(prs@.take(i as int)),
        decreases prs.len() - i,
    {
        let p = &prs[i];
        let ghost t = prs@.take(i + 1 as int);
        assert(t.drop_last() == prs@.take(i as int));
        assert(t.last() == *p);
        let ghost old_r = r@;
        match login_of(&p.author) {
            Some(login) => {
                let kind = if p.is_draft {
                    "PR-draft".to_string()
                } else {
                    "PR".to_string()
                };
                let action = action_for_pr(&p.state);
                let detail = detail_text(&action, p.number, &p.title);
                let event = ActivityEvent {
                    kind,
                    repo: copy_string(&p.repository.name_with_owner),
                    detail,
                    when: copy_string(&p.updated_at),
                };
                r.push(Entry { login, event });
                assert(entry_views(r@) == entry_views(old_r).push((login@, event@)));
                proof {
                    reveal_strlit("PR-draft");
                    reveal_strlit("PR");
                }
                assert(event@ == pr_event(*p));
            },
            None => {
                assert(entry_views(r@) == entry_views(old_r));
            },
        }
        i = i + 1;
    }
    assert(prs@.take(prs.len() as int) == prs@);
    let ghost mid = entry_views(r@);
    let mut j: usize = 0;
    assert(issues@.take(0) == Seq::<SearchIssue>::empty());
    assert(mid + Seq::<(Seq<char>, EventView)>::empty() == mid);
    while j < issues.len()
        invariant
            j <= issues@.len(),
            mid == pr_entries(prs@),
            entry_views(r@) == mid + issue_entries(issues@.take(j as int)),
        decreases issues.len() - j,
    {
        let it = &issues[j];
        let ghost t = issues@.take(j + 1 as int);
        assert(t.drop_last() == issues@.take(j as int));
        assert(t.last() == *it);
        let ghost old_r = r@;
        match login_of(&it.author) {
            Some(login) => {
                let action = action_for_issue(&it.state);
                let detail = detail_text(&action, it.number, &it.title);
                let event = ActivityEvent {
                    kind: "issue".to_string(),
                    repo: copy_string(&it.repository.name_with_owner),
                    detail,
                    when: copy_string(&it.updated_at),
                };
                r.push(Entry { login, event });
                assert(entry_views(r@) == entry_views(old_r).push((login@, event@)));
                assert(event@ == issue_event(*it));
            },
            None => {
                assert(entry_views(r@) == entry_views(old_r));
            },
        }
        j = j + 1;
    }
    assert(issues@.take(issues.len() as int) == issues@);
    r
}

pub proof fn lemma_events_of_absent(entries: Seq<(Seq<char>, EventView)>, login: Seq<char>)
    requires
        !has_login(entries, login),
    ensures
        events_of(entries, login) == Seq::<EventView>::empty(),
    decreases entries.len(),
{
    if entries.len() > 0 {
        let t = entries.drop_last();
        assert(!has_login(t, login)) by {
            if has_login(t, login) {
                let k = choose|k: int| 0 <= k < t.len() && #[trigger] t[k].0 == login;
                assert(entries[k].0 == login);
            }
        }
        lemma_events_of_absent(t, login);
        assert(entries[entries.len() - 1].0 != login);
    }
}

/// Some activity in `r` belongs to `login`.
pub open spec fn login_listed(r: Seq<UserActivity>, login: Seq<char>) -> bool {
    exists|i: int| 0 <= i < r.len() && (#[trigger] r[i]).login@ == login
}

/// A copy of an event.
pub fn copy_event(e: &ActivityEvent) -> (r: ActivityEvent)
    ensures
        r@ == e@,
{
    ActivityEvent {
        kind: copy_string(&e.kind),
        repo: copy_string(&e.repo),
        detail: copy_string(&e.detail),
        when: copy_string(&e.when),
    }
}

/// The position of the group whose login is `login`, if any.
fn find_group(groups: &Vec<UserActivity>, login: &str) -> (r: Option<usize>)
    ensures
        match r {
            Some(j) => j < groups@.len() && groups@[j as int].login@ == login@,
            None => forall|j: int| 0 <= j < groups@.len() ==> groups@[j].login@ != login@,
        },
{
    let mut j: usize = 0;
    while j < groups.len()
        invariant
            j <= groups@.len(),
            forall|m: int| 0 <= m < j ==> groups@[m].login@ != login@,
        decreases groups.len() - j,
    {
        if str_eq(groups[j].login.as_str(), login) {
            return Some(j);
        }
        j = j + 1;
    }
    None
}

/// Groups the entries by login; each group keeps its events in entry order.
pub fn group_entries(entries: &Vec<Entry>) -> (r: Vec<UserActivity>)
    ensures
        forall|i: int, j: int|
            0 <= i < j < r@.len() ==> (#[trigger] r@[i]).login@ != (#[trigger] r@[j]).login@,
        forall|i: int|
            0 <= i < r@.len() ==> has_login(entry_views(entries@), (#[trigger] r@[i]).login@)
                && event_views(r@[i].events@) == events_of(entry_views(entries@), r@[i].login@),
        forall|k: int| 0 <= k < entries@.len() ==> login_listed(r@, (#[trigger] entries@[k]).login@),
{
    let ghost ev = entry_views(entries@);
    let mut groups: Vec<UserActivity> = Vec::new();
    let mut k: usize = 0;
    while k < entries.len()
        invariant
            k <= entries@.len(),
            ev == entry_views(entries@),
            forall|i: int, j: int|
                0 <= i < j < groups@.len() ==> (#[trigger] groups@[i]).login@ != (
                #[trigger] groups@[j]).login@,
            forall|i: int|
                0 <= i < groups@.len() ==> has_login(ev.take(k as int), (#[trigger] groups@[i]).login@)
                    && event_views(groups@[i].events@) == events_of(
                    ev.take(k as int),
                    groups@[i].login@,
                ),
            forall|m: int|
                #![trigger ev[m]]
                0 <= m < k ==> exists|i: int|
                    0 <= i < groups@.len() && (#[trigger] groups@[i]).login@ == ev[m].0,
        decreases entries.len() - k,
    {
        let e = &entries[k];
        let ghost l = e.login@;
        let ghost tk = ev.take(k as int);
        let ghost tk1 = ev.take(k + 1 as int);
        assert(tk1.drop_last() == tk);
        assert(tk1.last() == ev[k as int]);
        assert(ev[k as int] == (e.login@, e.event@));
        assert forall|x: Seq<char>| has_login(tk, x) implies has_login(tk1, x) by {
            let m = choose|m: int| 0 <= m < tk.len() && #[trigger] tk[m].0 == x;
            assert(tk1[m].0 == x);
        }
        assert(tk1[k as int].0 == l);
        assert(has_login(tk1, l));
        let ghost old_groups = groups@;
        match find_group(&groups, e.login.as_str()) {
            Some(j) => {
                let mut g = groups.remove(j);
                let ghost old_events = g.events@;
                g.events.push(copy_event(&e.event));
                assert(event_views(g.events@) == event_views(old_events).push(e.event@));
                groups.insert(j, g);
                assert(groups@ == old_groups.update(j as int, g));
                assert forall|i: int|
                    0 <= i < groups@.len() implies has_login(tk1, (#[trigger] groups@[i]).login@)
                    && event_views(groups@[i].events@) == events_of(tk1, groups@[i].login@) by {
                    if i != j {
                        assert(groups@[i] == old_groups[i]);
                    }
                }
                assert forall|m: int| #![trigger ev[m]] 0 <= m < k + 1 implies exists|i: int|
                    0 <= i < groups@.len() && (#[trigger] groups@[i]).login@ == ev[m].0 by {
                    if m == k {
                        assert(groups@[j as int].login@ == ev[m].0);
                    } else {
                        let i = choose|i: int|
                            0 <= i < old_groups.len() && (#[trigger] old_groups[i]).login@
                                == ev[m].0;
                        assert(groups@[i].login@ == ev[m].0);
                    }
                }
            },
            None => {
                assert(!has_login(tk, l)) by {
                    if has_login(tk, l) {
                        let m = choose|m: int| 0 <= m < tk.len() && #[trigger] tk[m].0 == l;
                        assert(ev[m].0 == l);
                        let i = choose|i: int|
                            0 <= i < old_groups.len() && (#[trigger] old_groups[i]).login@
                                == ev[m].0;
                    }
                }
                proof {
                    lemma_events_of_absent(tk, l);
                }
                let mut evs: Vec<ActivityEvent> = Vec::new();
                evs.push(copy_event(&e.event));
                assert(event_views(evs@) == Seq::<EventView>::empty().push(e.event@));
                let g = UserActivity { login: copy_string(&e.login), events: evs };
                groups.push(g);
                assert forall|i: int|
                    0 <= i < groups@.len() implies has_login(tk1, (#[trigger] groups@[i]).login@)
                    && event_views(groups@[i].events@) == events_of(tk1, groups@[i].login@) by {
                    if i < old_groups.len() {
                        assert(groups@[i] == old_groups[i]);
                    }
                }
                assert forall|m: int| #![trigger ev[m]] 0 <= m < k + 1 implies exists|i: int|
                    0 <= i < groups@.len() && (#[trigger] groups@[i]).login@ == ev[m].0 by {
                    if m == k {
                        assert(groups@[old_groups.len() as int].login@ == ev[m].0);
                    } else {
                        let i = choose|i: int|
                            0 <= i < old_groups.len() && (#[trigger] old_groups[i]).login@
                                == ev[m].0;
                        assert(groups@[i].login@ == ev[m].0);
                    }
                }
            },
        }
        k = k + 1;
    }
    assert(ev.take(entries.len() as int) == ev);
    assert forall|k: int| 0 <= k < entries@.len() implies login_listed(groups@, (
    #[trigger] entries@[k]).login@) by {
        assert(ev[k].0 == entries@[k].login@);
        let i = choose|i: int| 0 <= i < groups@.len() && (#[trigger] groups@[i]).login@ == ev[k].0;
        assert(groups@[i].login@ == entries@[k].login@);
    }
    groups
}

/// Newest first, over the executable events.
pub open spec fn event_by_newest() -> spec_fn(ActivityEvent, ActivityEvent) -> bool {
    |a: ActivityEvent, b: ActivityEvent| when_before(a@, b@)
}

/// The times of the events a user's feed keeps can be shortened.
pub open spec fn kept_times_ok(entries: Seq<(Seq<char>, EventView)>, login: Seq<char>, limit: nat) -> bool {
    forall|i: int|
        0 <= i < kept_events(entries, login, limit).len() ==> humanize_iso_ok(
            #[trigger] kept_events(entries, login, limit)[i].when,
        )
}

/// Whether the times of the events kept for one user can be shortened
/// (see [`kept_times_ok`]).
fn kept_times_check(
    events: Vec<ActivityEvent>,
    limit: usize,
    Ghost(entries): Ghost<Seq<(Seq<char>, EventView)>>,
    Ghost(login): Ghost<Seq<char>>,
) -> (b: bool)
    requires
        event_views(events@) == events_of(entries, login),
    ensures
        b == kept_times_ok(entries, login, limit as nat),
{
    let lt = |a: &ActivityEvent, b: &ActivityEvent| -> (r: bool)
        ensures
            r == when_before(a@, b@),
        { str_less(b.when.as_str(), a.when.as_str()) };
    let ghost input = events@;
    let mut sorted = sort_stable(events, lt, Ghost(event_by_newest()));
    proof {
        let f = |e: ActivityEvent| e@;
        lemma_stable_sort_map(input, f, event_by_newest(), by_newest());
        assert(event_views(input) =~= input.map_values(f));
        assert(event_views(sorted@) =~= sorted@.map_values(f));
        lemma_stable_sort_len(input, event_by_newest());
    }
    let ghost before_cut = sorted@;
    sorted.truncate(limit);
    assert(event_views(sorted@) == take_n(event_views(before_cut), limit as nat));
    let ghost k = kept_events(entries, login, limit as nat);
    assert(event_views(sorted@) == k);
    let mut i: usize = 0;
    while i < sorted.len()
        invariant
            i <= sorted@.len(),
            event_views(sorted@) == k,
            k == kept_events(entries, login, limit as nat),
            forall|j: int| 0 <= j < i ==> humanize_iso_ok(#[trigger] k[j].when),
        decreases sorted.len() - i,
    {
        assert(k[i as int] == sorted@[i as int]@);
        if !crate::text::can_humanize(sorted[i].when.as_str()) {
            assert(!humanize_iso_ok(k[i as int].when));
            return false;
        }
        i = i + 1;
    }
    true
}

/// Whether every time the activity feed shows can be shortened (see
/// [`activity_times_ok`]); [`org_activity`] may then be called.
pub fn can_build_activity(prs: &Vec<SearchPr>, issues: &Vec<SearchIssue>, per_user_limit: usize) -> (b: bool)
    ensures
        b == activity_times_ok(activity_entries(prs@, issues@), per_user_limit as nat),
{
    let ghost ev = activity_entries(prs@, issues@);
    let ghost lim = per_user_limit as nat;
    let entries = collect_entries(prs, issues);
    let groups = group_entries(&entries);
    let mut g: usize = 0;
    while g < groups.len()
        invariant
            g <= groups@.len(),
            ev == entry_views(entries@),
            ev == activity_entries(prs@, issues@),
            lim == per_user_limit as nat,
            forall|i: int|
                0 <= i < groups@.len() ==> event_views((#[trigger] groups@[i]).events@) == events_of(
                    ev,
                    groups@[i].login@,
                ),
            forall|i: int| 0 <= i < g ==> kept_times_ok(ev, (#[trigger] groups@[i]).login@, lim),
        decreases groups.len() - g,
    {
        let mut copy: Vec<ActivityEvent> = Vec::new();
        let mut m: usize = 0;
        while m < groups[g].events.len()
            invariant
                g < groups@.len(),
                m <= groups@[g as int].events@.len(),
                event_views(copy@) == event_views(groups@[g as int].events@).take(m as int),
            decreases groups@[g as int].events@.len() - m,
        {
            let ghost before = copy@;
            copy.push(copy_event(&groups[g].events[m]));
            assert(event_views(copy@) =~= event_views(before).push(groups@[g as int].events@[m as int]@));
            assert(event_views(groups@[g as int].events@).take(m + 1 as int) =~= event_views(
                groups@[g as int].events@,
            ).take(m as int).push(groups@[g as int].events@[m as int]@));
            m = m + 1;
        }
        assert(event_views(groups@[g as int].events@).take(m as int) =~= event_views(
            groups@[g as int].events@,
        ));
        if !kept_times_check(copy, per_user_limit, Ghost(ev), Ghost(groups@[g as int].login@)) {
            proof {
                let l = groups@[g as int].login@;
                assert(!kept_times_ok(ev, l, lim));
                let i = choose|i: int|
                    0 <= i < kept_events(ev, l, lim).len() && !humanize_iso_ok(
                        #[trigger] kept_events(ev, l, lim)[i].when,
                    );
                assert(0 <= i < kept_events(ev, l, lim).len());
                assert(!humanize_iso_ok(kept_events(ev, l, lim)[i].when));
                assert(!activity_times_ok(ev, lim));
            }
            return false;
        }
        g = g + 1;
    }
    proof {
        assert forall|l: Seq<char>, i: int|
            0 <= i < kept_events(ev, l, lim).len() implies humanize_iso_ok(
            #[trigger] kept_events(ev, l, lim)[i].when,
        ) by {
            if has_login(ev, l) {
                let q = choose|q: int| 0 <= q < ev.len() && #[trigger] ev[q].0 == l;
                assert(ev[q].0 == entries@[q].login@);
                assert(login_listed(groups@, entries@[q].login@));
                let j = choose|j: int| 0 <= j < groups@.len() && (#[trigger] groups@[j]).login@ == l;
                assert(kept_times_ok(ev, groups@[j].login@, lim));
            } else {
                lemma_events_of_absent(ev, l);
                lemma_stable_sort_len(events_of(ev, l), by_newest());
            }
        }
    }
    true
}

/// Sorts one user's events newest first, keeps at most `limit` of them and
/// shortens their times.
fn shape_events(
    events: Vec<ActivityEvent>,
    limit: usize,
    Ghost(entries): Ghost<Seq<(Seq<char>, EventView)>>,
    Ghost(login): Ghost<Seq<char>>,
) -> (r: Vec<ActivityEvent>)
    requires
        event_views(events@) == events_of(entries, login),
        activity_times_ok(entries, limit as nat),
    ensures
        event_views(r@) == user_events(entries, login, limit as nat),
{
    let lt = |a: &ActivityEvent, b: &ActivityEvent| -> (r: bool)
        ensures
            r == when_before(a@, b@),
        { str_less(b.when.as_str(), a.when.as_str()) };
    let ghost input = events@;
    let mut sorted = sort_stable(events, lt, Ghost(event_by_newest()));
    proof {
        let f = |e: ActivityEvent| e@;
        lemma_stable_sort_map(input, f, event_by_newest(), by_newest());
        assert(event_views(input) =~= input.map_values(f));
        assert(event_views(sorted@) =~= sorted@.map_values(f));
        lemma_stable_sort_len(input, event_by_newest());
    }
    let ghost before_cut = sorted@;
    sorted.truncate(limit);
    assert(event_views(sorted@) == take_n(event_views(before_cut), limit as nat));
    assert(event_views(sorted@) == kept_events(entries, login, limit as nat));
    let mut r: Vec<ActivityEvent> = Vec::new();
    let mut i: usize = 0;
    while i < sorted.len()
        invariant
            i <= sorted@.len(),
            event_views(sorted@) == kept_events(entries, login, limit as nat),
            activity_times_ok(entries, limit as nat),
            event_views(r@) == kept_events(entries, login, limit as nat).take(i as int).map_values(
                |e: EventView| humanized(e),
            ),
        decreases sorted.len() - i,
    {
        let e = &sorted[i];
        assert(kept_events(entries, login, limit as nat)[i as int] == e@);
        assert(humanize_iso_ok(kept_events(entries, login, limit as nat)[i as int].when));
        let h = ActivityEvent {
            kind: copy_string(&e.kind),
            repo: copy_string(&e.repo),
            detail: copy_string(&e.detail),
            when: humanize_iso(e.when.as_str()),
        };
        let ghost old_r = r@;
        r.push(h);
        assert(event_views(r@) == event_views(old_r).push(h@));
        let ghost k = kept_events(entries, login, limit as nat);
        assert(k.take(i + 1 as int) == k.take(i as int).push(k[i as int]));
        assert(k.take(i + 1 as int).map_values(|e: EventView| humanized(e)) == k.take(
            i as int,
        ).map_values(|e: EventView| humanized(e)).push(humanized(k[i as int])));
        i = i + 1;
    }
    assert(kept_events(entries, login, limit as nat).take(sorted@.len() as int)
        == kept_events(entries, login, limit as nat));
    r
}

/// The feed order over the executable activities.
pub open spec fn activity_before() -> spec_fn(UserActivity, UserActivity) -> bool {
    |a: UserActivity, b: UserActivity| user_before(a@, b@)
}

pub proof fn lemma_activity_before_order()
    ensures
        strict_weak_order(activity_before()),
{
    let b = activity_before();
    assert forall|x: UserActivity, y: UserActivity| #[trigger] b(x, y) implies !b(y, x) by {
        lemma_lex_asymmetric(x.login@, y.login@);
    }
    assert forall|x: UserActivity, y: UserActivity, z: UserActivity|
        #![trigger b(x, y), b(y, z)]
        !b(x, y) && !b(y, z) implies !b(x, z) by {
        lemma_lex_total(x.login@, y.login@);
        lemma_lex_total(y.login@, z.login@);
        lemma_lex_transitive(z.login@, y.login@, x.login@);
        lemma_lex_asymmetric(x.login@, z.login@);
        lemma_lex_irreflexive(x.login@);
        if x.login@ == y.login@ {
            assert(lex_lt(x.login@, z.login@) == lex_lt(y.login@, z.login@));
        }
        if y.login@ == z.login@ {
            assert(lex_lt(x.login@, z.login@) == lex_lt(x.login@, y.login@));
        }
    }
}

/// The activity feed of an organisation: authors of the given pull requests
/// and issues, each with their newest events (at most `per_user_limit`,
/// times shortened), the most active authors first and equal counts by login.
pub fn org_activity(prs: &Vec<SearchPr>, issues: &Vec<SearchIssue>, per_user_limit: usize) -> (r: Vec<
    UserActivity,
>)
    requires
        activity_times_ok(activity_entries(prs@, issues@), per_user_limit as nat),
    ensures
        forall|i: int|
            0 <= i < r@.len() ==> has_login(
                activity_entries(prs@, issues@),
                (#[trigger] r@[i]).login@,
            ) && r@[i]@.events == user_events(
                activity_entries(prs@, issues@),
                r@[i].login@,
                per_user_limit as nat,
            ),
        forall|k: int|
            0 <= k < activity_entries(prs@, issues@).len() ==> login_listed(
                r@,
                (#[trigger] activity_entries(prs@, issues@)[k]).0,
            ),
        forall|i: int, j: int|
            0 <= i < j < r@.len() ==> user_before((#[trigger] r@[i])@, (#[trigger] r@[j])@),
{
    let ghost entries_v = activity_entries(prs@, issues@);
    let entries = collect_entries(prs, issues);
    let groups = group_entries(&entries);
    let ghost gs = groups@;
    let mut rest = groups;
    let mut users: Vec<UserActivity> = Vec::new();
    let ghost mut k: int = 0;
    assert(gs.skip(0) == gs);
    while rest.len() > 0
        invariant
            0 <= k <= gs.len(),
            rest@ == gs.skip(k),
            users@.len() == k,
            entries_v == entry_views(entries@),
            activity_times_ok(entries_v, per_user_limit as nat),
            forall|i: int|
                0 <= i < gs.len() ==> has_login(entries_v, (#[trigger] gs[i]).login@) && event_views(
                    gs[i].events@,
                ) == events_of(entries_v, gs[i].login@),
            forall|i: int|
                0 <= i < k ==> (#[trigger] users@[i]).login@ == gs[i].login@ && users@[i]@.events
                    == user_events(entries_v, gs[i].login@, per_user_limit as nat),
        decreases rest.len(),
    {
        let g = rest.remove(0);
        assert(g == gs[k]);
        assert(rest@ == gs.skip(k + 1));
        let ghost login = g.login@;
        let shaped = shape_events(g.events, per_user_limit, Ghost(entries_v), Ghost(login));
        users.push(UserActivity { login: g.login, events: shaped });
        proof {
            k = k + 1;
        }
    }
    assert forall|i: int, j: int| 0 <= i < j < users@.len() implies (#[trigger] users@[i]).login@
        != (#[trigger] users@[j]).login@ by {
        assert(gs[i].login@ != gs[j].login@);
    }
    let lt = |a: &UserActivity, b: &UserActivity| -> (r: bool)
        ensures
            r == user_before(a@, b@),
        {
            let la = a.events.len();
            let lb = b.events.len();
            la > lb || (la == lb && str_less(a.login.as_str(), b.login.as_str()))
        };
    let ghost unsorted = users@;
    let sorted = sort_stable(users, lt, Ghost(activity_before()));
    proof {
        let key = |u: UserActivity| u.login@;
        assert(distinct_by(unsorted, key));
        lemma_stable_sort_distinct(unsorted, activity_before(), key);
        lemma_stable_sort_contains(unsorted, activity_before());
        lemma_activity_before_order();
        lemma_stable_sort_sorted(unsorted, activity_before());
        assert forall|i: int| 0 <= i < sorted@.len() implies has_login(
            entries_v,
            (#[trigger] sorted@[i]).login@,
        ) && sorted@[i]@.events == user_events(
            entries_v,
            sorted@[i].login@,
            per_user_limit as nat,
        ) by {
            assert(sorted@.contains(sorted@[i]));
            let m = choose|m: int| 0 <= m < unsorted.len() && unsorted[m] == sorted@[i];
            assert(unsorted[m].login@ == gs[m].login@);
        }
        assert forall|q: int| 0 <= q < entries_v.len() implies login_listed(
            sorted@,
            (#[trigger] entries_v[q]).0,
        ) by {
            assert(entries_v[q].0 == entries@[q].login@);
            assert(login_listed(gs, entries@[q].login@));
            let g = choose|g: int| 0 <= g < gs.len() && (#[trigger] gs[g]).login@ == entries@[q].login@;
            assert(unsorted[g].login@ == gs[g].login@);
            assert(unsorted.contains(unsorted[g]));
            assert(sorted@.contains(unsorted[g]));
            let i = choose|i: int| 0 <= i < sorted@.len() && sorted@[i] == unsorted[g];
            assert(sorted@[i].login@ == entries_v[q].0);
        }
        assert forall|i: int, j: int| 0 <= i < j < sorted@.len() implies user_before(
            (#[trigger] sorted@[i])@,
            (#[trigger] sorted@[j])@,
        ) by {
            let x = sorted@[i];
            let y = sorted@[j];
            assert(!activity_before()(y, x));
            assert(key(x) != key(y));
            lemma_lex_total(x.login@, y.login@);
        }
    }
    sorted
}

} // verus!
