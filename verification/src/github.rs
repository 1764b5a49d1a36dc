//! What the library makes of the GitHub CLI's reports.
use vstd::prelude::*;
use crate::activity::{copy_string, str_eq};
use crate::command::{decode_lossy, utf8_lossy};
use crate::text::{
    append_chars, append_str, chars_of, contains_chars, contains_spec, decimal, decimal_chars,
    find_from, find_from_exec, humanize_iso, humanize_iso_ok, humanize_iso_spec,
    lemma_find_from_occurs, lines_chars, lines_spec, replace_first_chars, replace_first_spec,
    slice_chars, strip_prefix_chars, strip_prefix_spec, string_of, take_chars, take_spec, trim,
    trim_spec, views,
};
use crate::types::{
    Commit, Contributor, DataError, DataErrorView, Notification, PrDetail, RawApiCommit,
    RawContributor, RawNotification, RawPrDetail, RawSearchCommit, RawUserOrg, ReviewRequestedPr,
    SearchAuthor, SearchPr, UserCommit, UserPr,
};

verus! {

/// The author's login, or nothing when there is no author.
pub open spec fn login_or_empty(a: Option<SearchAuthor>) -> Seq<char> {
    match a {
        Some(x) => x.login@,
        None => Seq::empty(),
    }
}

fn login_or_empty_exec(a: &Option<SearchAuthor>) -> (r: String)
    ensures
        r@ == login_or_empty(*a),
{
    match a {
        Some(x) => copy_string(&x.login),
        None => String::new(),
    }
}

/// The update times of the search results can be shortened.
pub open spec fn pr_times_ok(raw: Seq<SearchPr>) -> bool {
    forall|i: int| 0 <= i < raw.len() ==> humanize_iso_ok(#[trigger] raw[i].updated_at@)
}

/// The pull requests awaiting the user's review, from `gh search prs
/// --review-requested @me`.
pub fn review_requested_prs(raw: &Vec<SearchPr>) -> (r: Vec<ReviewRequestedPr>)
    requires
        pr_times_ok(raw@),
    ensures
        r@.len() == raw@.len(),
        forall|i: int|
            0 <= i < r@.len() ==> {
                let p = #[trigger] raw@[i];
                let q = r@[i];
                &&& q.number == p.number
                &&& q.title@ == p.title@
                &&& q.repo@ == p.repository.name_with_owner@
                &&& q.author@ == login_or_empty(p.author)
                &&& q.is_draft == p.is_draft
                &&& q.updated_at@ == humanize_iso_spec(p.updated_at@)
            },
{
    let mut r: Vec<ReviewRequestedPr> = Vec::new();
    let mut i: usize = 0;
    while i < raw.len()
        invariant
            i <= raw@.len(),
            r@.len() == i,
            pr_times_ok(raw@),
            forall|k: int|
                0 <= k < i ==> {
                    let p = #[trigger] raw@[k];
                    let q = r@[k];
                    &&& q.number == p.number
                    &&& q.title@ == p.title@
                    &&& q.repo@ == p.repository.name_with_owner@
                    &&& q.author@ == login_or_empty(p.author)
                    &&& q.is_draft == p.is_draft
                    &&& q.updated_at@ == humanize_iso_spec(p.updated_at@)
                },
        decreases raw.len() - i,
    {
        let p = &raw[i];
        assert(humanize_iso_ok(raw@[i as int].updated_at@));
        r.push(
            ReviewRequestedPr {
                number: p.number,
                title: copy_string(&p.title),
                repo: copy_string(&p.repository.name_with_owner),
                author: login_or_empty_exec(&p.author),
                updated_at: humanize_iso(p.updated_at.as_str()),
                is_draft: p.is_draft,
            },
        );
        i = i + 1;
    }
    r
}

/// A user's pull requests, from `gh search prs` (their own open ones, the
/// ones they submitted or the ones they reviewed).
pub fn user_prs(raw: &Vec<SearchPr>) -> (r: Vec<UserPr>)
    requires
        pr_times_ok(raw@),
    ensures
        r@.len() == raw@.len(),
        forall|i: int|
            0 <= i < r@.len() ==> {
                let p = #[trigger] raw@[i];
                let q = r@[i];
                &&& q.number == p.number
                &&& q.title@ == p.title@
                &&& q.repo@ == p.repository.name_with_owner@
                &&& q.state@ == p.state@
                &&& q.is_draft == p.is_draft
                &&& q.author@ == login_or_empty(p.author)
                &&& q.updated_at@ == humanize_iso_spec(p.updated_at@)
            },
{
    let mut r: Vec<UserPr> = Vec::new();
    let mut i: usize = 0;
    while i < raw.len()
        invariant
            i <= raw@.len(),
            r@.len() == i,
            pr_times_ok(raw@),
            forall|k: int|
                0 <= k < i ==> {
                    let p = #[trigger] raw@[k];
                    let q = r@[k];
                    &&& q.number == p.number
                    &&& q.title@ == p.title@
                    &&& q.repo@ == p.repository.name_with_owner@
                    &&& q.state@ == p.state@
                    &&& q.is_draft == p.is_draft
                    &&& q.author@ == login_or_empty(p.author)
                    &&& q.updated_at@ == humanize_iso_spec(p.updated_at@)
                },
        decreases raw.len() - i,
    {
        let p = &raw[i];
        assert(humanize_iso_ok(raw@[i as int].updated_at@));
        r.push(
            UserPr {
                number: p.number,
                title: copy_string(&p.title),
                repo: copy_string(&p.repository.name_with_owner),
                state: copy_string(&p.state),
                is_draft: p.is_draft,
                author: login_or_empty_exec(&p.author),
                updated_at: humanize_iso(p.updated_at.as_str()),
            },
        );
        i = i + 1;
    }
    r
}

/// The browser address of a notification's subject: an API address
/// `https://api.github.com/repos/X` becomes `https://github.com/X` with its
/// first `/pulls/` made `/pull/` and then its first `/commits/` made
/// `/commit/`; without one, the repository's page.
pub open spec fn web_url_spec(api_url: Option<Seq<char>>, repo: Seq<char>) -> Seq<char> {
    match api_url {
        Some(api) => match strip_prefix_spec(api, "https://api.github.com/repos/"@) {
            Some(rest) => "https://github.com/"@ + replace_first_spec(
                replace_first_spec(rest, "/pulls/"@, "/pull/"@),
                "/commits/"@,
                "/commit/"@,
            ),
            None => "https://github.com/"@ + repo,
        },
        None => "https://github.com/"@ + repo,
    }
}

/// The browser address for a notification (its kind plays no part).
pub fn notification_web_url(api_url: Option<&str>, kind: &str, repo: &str) -> (r: String)
    ensures
        r@ == web_url_spec(
            match api_url {
                Some(a) => Some(a@),
                None => None,
            },
            repo@,
        ),
{
    let _ = kind;
    let mut out = chars_of("https://github.com/");
    if let Some(api) = api_url {
        let av = chars_of(api);
        let prefix = chars_of("https://api.github.com/repos/");
        if let Some(rest) = strip_prefix_chars(&av, &prefix) {
            let a = replace_first_chars(&rest, &chars_of("/pulls/"), &chars_of("/pull/"));
            let b = replace_first_chars(&a, &chars_of("/commits/"), &chars_of("/commit/"));
            append_chars(&mut out, &b);
            return string_of(&out);
        }
    }
    append_str(&mut out, repo);
    string_of(&out)
}

/// The notifications, from the notifications endpoint.
pub fn notifications(raw: &Vec<RawNotification>) -> (r: Vec<Notification>)
    requires
        forall|i: int| 0 <= i < raw@.len() ==> humanize_iso_ok(#[trigger] raw@[i].updated_at@),
    ensures
        r@.len() == raw@.len(),
        forall|i: int|
            0 <= i < r@.len() ==> {
                let n = #[trigger] raw@[i];
                let q = r@[i];
                &&& q.reason@ == n.reason@
                &&& q.title@ == n.subject.title@
                &&& q.repo@ == n.repository.full_name@
                &&& q.kind@ == n.subject.kind@
                &&& q.unread == n.unread
                &&& q.updated_at@ == humanize_iso_spec(n.updated_at@)
                &&& q.web_url@ == web_url_spec(
                    match n.subject.url {
                        Some(u) => Some(u@),
                        None => None,
                    },
                    n.repository.full_name@,
                )
            },
{
    let mut r: Vec<Notification> = Vec::new();
    let mut i: usize = 0;
    while i < raw.len()
        invariant
            i <= raw@.len(),
            r@.len() == i,
            forall|k: int| 0 <= k < raw@.len() ==> humanize_iso_ok(#[trigger] raw@[k].updated_at@),
            forall|k: int|
                0 <= k < i ==> {
                    let n = #[trigger] raw@[k];
                    let q = r@[k];
                    &&& q.reason@ == n.reason@
                    &&& q.title@ == n.subject.title@
                    &&& q.repo@ == n.repository.full_name@
                    &&& q.kind@ == n.subject.kind@
                    &&& q.unread == n.unread
                    &&& q.updated_at@ == humanize_iso_spec(n.updated_at@)
                    &&& q.web_url@ == web_url_spec(
                        match n.subject.url {
                            Some(u) => Some(u@),
                            None => None,
                        },
                        n.repository.full_name@,
                    )
                },
        decreases raw.len() - i,
    {
        let n = &raw[i];
        assert(humanize_iso_ok(raw@[i as int].updated_at@));
        let api: Option<&str> = match &n.subject.url {
            Some(u) => Some(u.as_str()),
            None => None,
        };
        let web_url = notification_web_url(
            api,
            n.subject.kind.as_str(),
            n.repository.full_name.as_str(),
        );
        r.push(
            Notification {
                reason: copy_string(&n.reason),
                title: copy_string(&n.subject.title),
                repo: copy_string(&n.repository.full_name),
                kind: copy_string(&n.subject.kind),
                unread: n.unread,
                updated_at: humanize_iso(n.updated_at.as_str()),
                web_url,
            },
        );
        i = i + 1;
    }
    r
}

/// The first line of a text, or nothing.
pub open spec fn first_line(s: Seq<char>) -> Seq<char> {
    if lines_spec(s).len() > 0 {
        lines_spec(s)[0]
    } else {
        Seq::empty()
    }
}

/// The first line of a text.
pub fn first_line_of(s: &str) -> (r: String)
    ensures
        r@ == first_line(s@),
{
    let v = chars_of(s);
    let ls = lines_chars(&v);
    if ls.len() > 0 {
        assert(views(ls@)[0] == ls@[0]@);
        string_of(ls[0].as_slice())
    } else {
        String::new()
    }
}

/// A user's commits, from `gh search commits`: the short sha (first seven
/// characters), the repository, the subject line and the shortened date.
pub fn user_commits(raw: &Vec<RawSearchCommit>) -> (r: Vec<UserCommit>)
    requires
        forall|i: int| 0 <= i < raw@.len() ==> humanize_iso_ok(#[trigger] raw@[i].commit.author.date@),
    ensures
        r@.len() == raw@.len(),
        forall|i: int|
            0 <= i < r@.len() ==> {
                let c = #[trigger] raw@[i];
                let q = r@[i];
                &&& q.sha@ == take_spec(c.sha@, 7)
                &&& q.repo@ == c.repository.full_name@
                &&& q.subject@ == first_line(c.commit.message@)
                &&& q.date@ == humanize_iso_spec(c.commit.author.date@)
            },
{
    let mut r: Vec<UserCommit> = Vec::new();
    let mut i: usize = 0;
    while i < raw.len()
        invariant
            i <= raw@.len(),
            r@.len() == i,
            forall|k: int| 0 <= k < raw@.len() ==> humanize_iso_ok(#[trigger] raw@[k].commit.author.date@),
            forall|k: int|
                0 <= k < i ==> {
                    let c = #[trigger] raw@[k];
                    let q = r@[k];
                    &&& q.sha@ == take_spec(c.sha@, 7)
                    &&& q.repo@ == c.repository.full_name@
                    &&& q.subject@ == first_line(c.commit.message@)
                    &&& q.date@ == humanize_iso_spec(c.commit.author.date@)
                },
        decreases raw.len() - i,
    {
        let c = &raw[i];
        assert(humanize_iso_ok(raw@[i as int].commit.author.date@));
        r.push(
            UserCommit {
                sha: take_chars(c.sha.as_str(), 7),
                repo: copy_string(&c.repository.full_name),
                subject: first_line_of(c.commit.message.as_str()),
                date: humanize_iso(c.commit.author.date.as_str()),
            },
        );
        i = i + 1;
    }
    r
}

/// A repository's recent commits, from its commits endpoint: the short sha,
/// the GitHub login of the author or else the commit's author name, the
/// shortened date and the subject line.
pub fn repo_recent_commits(raw: &Vec<RawApiCommit>) -> (r: Vec<Commit>)
    requires
        forall|i: int| 0 <= i < raw@.len() ==> humanize_iso_ok(#[trigger] raw@[i].commit.author.date@),
    ensures
        r@.len() == raw@.len(),
        forall|i: int|
            0 <= i < r@.len() ==> {
                let c = #[trigger] raw@[i];
                let q = r@[i];
                &&& q.sha@ == take_spec(c.sha@, 7)
                &&& q.author@ == (match c.author {
                    Some(a) => a.login@,
                    None => c.commit.author.name@,
                })
                &&& q.date@ == humanize_iso_spec(c.commit.author.date@)
                &&& q.subject@ == first_line(c.commit.message@)
            },
{
    let mut r: Vec<Commit> = Vec::new();
    let mut i: usize = 0;
    while i < raw.len()
        invariant
            i <= raw@.len(),
            r@.len() == i,
            forall|k: int| 0 <= k < raw@.len() ==> humanize_iso_ok(#[trigger] raw@[k].commit.author.date@),
            forall|k: int|
                0 <= k < i ==> {
                    let c = #[trigger] raw@[k];
                    let q = r@[k];
                    &&& q.sha@ == take_spec(c.sha@, 7)
                    &&& q.author@ == (match c.author {
                        Some(a) => a.login@,
                        None => c.commit.author.name@,
                    })
                    &&& q.date@ == humanize_iso_spec(c.commit.author.date@)
                    &&& q.subject@ == first_line(c.commit.message@)
                },
        decreases raw.len() - i,
    {
        let c = &raw[i];
        assert(humanize_iso_ok(raw@[i as int].commit.author.date@));
        let author = match &c.author {
            Some(a) => copy_string(&a.login),
            None => copy_string(&c.commit.author.name),
        };
        r.push(
            Commit {
                sha: take_chars(c.sha.as_str(), 7),
                author,
                date: humanize_iso(c.commit.author.date.as_str()),
                subject: first_line_of(c.commit.message.as_str()),
            },
        );
        i = i + 1;
    }
    r
}

/// A repository's top contributors; a response that was not a list (such as
/// the message GitHub sends for an empty repository) gives none.
pub fn repo_top_contributors(parsed: &Option<Vec<RawContributor>>) -> (r: Vec<Contributor>)
    ensures
        match *parsed {
            Some(raw) => r@.len() == raw@.len() && forall|i: int|
                0 <= i < r@.len() ==> (#[trigger] r@[i]).login@ == raw@[i].login@
                    && r@[i].contributions == raw@[i].contributions,
            None => r@.len() == 0,
        },
{
    let mut r: Vec<Contributor> = Vec::new();
    match parsed {
        Some(raw) => {
            let mut i: usize = 0;
            while i < raw.len()
                invariant
                    i <= raw@.len(),
                    r@.len() == i,
                    forall|k: int|
                        0 <= k < i ==> (#[trigger] r@[k]).login@ == raw@[k].login@
                            && r@[k].contributions == raw@[k].contributions,
                decreases raw.len() - i,
            {
                r.push(
                    Contributor {
                        login: copy_string(&raw[i].login),
                        contributions: raw[i].contributions,
                    },
                );
                i = i + 1;
            }
        },
        None => {},
    }
    r
}

/// A pull request's details, from `gh pr view`.
pub fn pr_detail(raw: &RawPrDetail) -> (r: PrDetail)
    requires
        humanize_iso_ok(raw.updated_at@),
    ensures
        r.number == raw.number,
        r.title@ == raw.title@,
        r.body@ == raw.body@,
        r.url@ == raw.url@,
        r.author@ == login_or_empty(raw.author),
        r.state@ == raw.state@,
        r.is_draft == raw.is_draft,
        r.head_ref@ == raw.head_ref_name@,
        r.base_ref@ == raw.base_ref_name@,
        r.additions == raw.additions,
        r.deletions == raw.deletions,
        r.updated_at@ == humanize_iso_spec(raw.updated_at@),
{
    PrDetail {
        number: raw.number,
        title: copy_string(&raw.title),
        body: copy_string(&raw.body),
        url: copy_string(&raw.url),
        author: login_or_empty_exec(&raw.author),
        state: copy_string(&raw.state),
        is_draft: raw.is_draft,
        head_ref: copy_string(&raw.head_ref_name),
        base_ref: copy_string(&raw.base_ref_name),
        additions: raw.additions,
        deletions: raw.deletions,
        updated_at: humanize_iso(raw.updated_at.as_str()),
    }
}

/// `owner/repo` split at its first `/`, when both halves are non-empty.
pub open spec fn split_full_name_spec(full: Seq<char>) -> Option<(Seq<char>, Seq<char>)> {
    match find_from(full, seq!['/'], 0) {
        Some(i) => if i > 0 && i + 1 < full.len() {
            Some((full.take(i), full.skip(i + 1)))
        } else {
            None
        },
        None => None,
    }
}

/// Splits `owner/repo` into its owner and repository.
pub fn split_full_name(full: &str) -> (r: Option<(String, String)>)
    ensures
        match r {
            Some((o, n)) => split_full_name_spec(full@) == Some((o@, n@)),
            None => split_full_name_spec(full@) is None,
        },
{
    let fv = chars_of(full);
    let mut slash: Vec<char> = Vec::new();
    slash.push('/');
    proof {
        lemma_find_from_occurs(fv@, slash@, 0);
    }
    assert(slash@ == seq!['/']);
    match find_from_exec(&fv, &slash, 0) {
        Some(i) => {
            assert(crate::text::occurs_at(fv@, slash@, i as int));
            let len = fv.len();
            assert(i + 1 <= len);
            if i > 0 && i + 1 < len {
                let o = slice_chars(&fv, 0, i);
                let n = slice_chars(&fv, i + 1, len);
                Some((string_of(&o), string_of(&n)))
            } else {
                None
            }
        },
        None => None,
    }
}

/// The authenticated user's login, from `gh api user --jq .login`.
pub fn authed_user_login(stdout: &[u8]) -> (r: Result<String, DataError>)
    ensures
        match r {
            Ok(s) => s@ == trim_spec(utf8_lossy(stdout@)) && s@.len() > 0,
            Err(e) => trim_spec(utf8_lossy(stdout@)).len() == 0 && e@ == DataErrorView::EmptyLogin,
        },
{
    let text = decode_lossy(stdout);
    let login = trim(text.as_str());
    if login.as_str().is_empty() {
        Err(DataError::EmptyLogin)
    } else {
        Ok(login)
    }
}

/// The organisation of the working directory scopes the dashboard when it
/// is known and non-empty; otherwise the user's first organisation does.
pub fn cwd_dashboard_org(cwd_org: Option<&str>) -> (r: Option<String>)
    ensures
        match cwd_org {
            Some(o) => if o@.len() > 0 {
                r matches Some(s) && s@ == o@
            } else {
                r is None
            },
            None => r is None,
        },
{
    match cwd_org {
        Some(o) => {
            if o.is_empty() {
                None
            } else {
                Some(o.to_owned())
            }
        },
        None => None,
    }
}

/// The first of the user's organisations, from `gh api /user/orgs`.
pub fn first_org_login(raw: &Vec<RawUserOrg>) -> (r: Result<String, DataError>)
    ensures
        match r {
            Ok(s) => raw@.len() > 0 && s@ == raw@[0].login@,
            Err(e) => raw@.len() == 0 && e@ == DataErrorView::NoOrgs,
        },
{
    if raw.len() > 0 {
        Ok(copy_string(&raw[0].login))
    } else {
        Err(DataError::NoOrgs)
    }
}

} // verus!
