//! Organisation repositories and members, and commits read from the API.
use vstd::prelude::*;
use crate::activity::copy_string;
use crate::command::{decode_lossy, utf8_lossy};
use crate::github::first_line;
use crate::sort::{sort_stable, stable_sort};
use crate::text::{
    append_chars, append_str, chars_of, contains_chars, contains_spec, decimal, decimal_chars,
    humanize_iso, humanize_iso_ok, humanize_iso_spec, lex_less, lex_lt, lines_chars, lines_spec,
    lower_chars, lower_spec, replace_all_chars, replace_all_spec, string_of, trim_end_chars,
    trim_end_spec, views,
};
use crate::types::{
    CommitDetail, DataError, DataErrorView, OrgMember, RawApiCommitFile, RawApiCommitFull,
    RawOrgMember, RawRepoListItem, RepoInfo,
};

verus! {

/// The repository record of a `gh repo list` entry.
pub open spec fn repo_info(r: RawRepoListItem) -> RepoInfo {
    RepoInfo {
        name: r.name,
        full_name: r.name_with_owner,
        description: r.description,
        pushed_at: r.pushed_at,
        default_branch: match r.default_branch_ref {
            Some(b) => Some(b.name),
            None => None,
        },
        primary_language: match r.primary_language {
            Some(l) => Some(l.name),
            None => None,
        },
        stargazer_count: r.stargazer_count,
        is_private: r.is_private,
    }
}

/// The time a repository was last pushed to, or nothing.
pub open spec fn pushed_key(r: RepoInfo) -> Seq<char> {
    match r.pushed_at {
        Some(p) => p@,
        None => Seq::empty(),
    }
}

/// Most recently pushed first.
pub open spec fn by_recent_push() -> spec_fn(RepoInfo, RepoInfo) -> bool {
    |a: RepoInfo, b: RepoInfo| lex_lt(pushed_key(b), pushed_key(a))
}

fn clone_opt(o: &Option<String>) -> (r: Option<String>)
    ensures
        r == *o,
{
    match o {
        Some(s) => Some(s.clone()),
        None => None,
    }
}

fn pushed_chars(r: &RepoInfo) -> (v: Vec<char>)
    ensures
        v@ == pushed_key(*r),
{
    match &r.pushed_at {
        Some(p) => chars_of(p.as_str()),
        None => Vec::new(),
    }
}

/// The organisation's repositories, from `gh repo list`, most recently
/// pushed first (a stable sort; never-pushed ones count as pushed at the
/// empty time).
pub fn org_repos(raw: &Vec<RawRepoListItem>) -> (r: Vec<RepoInfo>)
    ensures
        r@ == stable_sort(raw@.map_values(|x: RawRepoListItem| repo_info(x)), by_recent_push()),
{
    let mut infos: Vec<RepoInfo> = Vec::new();
    let mut i: usize = 0;
    while i < raw.len()
        invariant
            i <= raw@.len(),
            infos@ == raw@.take(i as int).map_values(|x: RawRepoListItem| repo_info(x)),
        decreases raw.len() - i,
    {
        let x = &raw[i];
        let info = RepoInfo {
            name: x.name.clone(),
            full_name: x.name_with_owner.clone(),
            description: clone_opt(&x.description),
            pushed_at: clone_opt(&x.pushed_at),
            default_branch: match &x.default_branch_ref {
                Some(b) => Some(b.name.clone()),
                None => None,
            },
            primary_language: match &x.primary_language {
                Some(l) => Some(l.name.clone()),
                None => None,
            },
            stargazer_count: x.stargazer_count,
            is_private: x.is_private,
        };
        assert(info == repo_info(*x));
        infos.push(info);
        assert(raw@.take(i + 1 as int).map_values(|x: RawRepoListItem| repo_info(x)) == raw@.take(
            i as int,
        ).map_values(|x: RawRepoListItem| repo_info(x)).push(repo_info(raw@[i as int])));
        i = i + 1;
    }
    assert(raw@.take(raw.len() as int) == raw@);
    let lt = |a: &RepoInfo, b: &RepoInfo| -> (x: bool)
        ensures
            x == lex_lt(pushed_key(*b), pushed_key(*a)),
        {
            let ka = pushed_chars(a);
            let kb = pushed_chars(b);
            lex_less(&kb, &ka)
        };
    sort_stable(infos, lt, Ghost(by_recent_push()))
}

/// Members ordered by login, ignoring ASCII case.
pub open spec fn by_login_ignoring_case() -> spec_fn(OrgMember, OrgMember) -> bool {
    |a: OrgMember, b: OrgMember| lex_lt(lower_spec(a.login@), lower_spec(b.login@))
}

/// The organisation's members, in login order ignoring ASCII case (a
/// stable sort).
pub fn org_members(raw: &Vec<RawOrgMember>) -> (r: Vec<OrgMember>)
    ensures
        r@ == stable_sort(
            raw@.map_values(|m: RawOrgMember| OrgMember { login: m.login }),
            by_login_ignoring_case(),
        ),
{
    let mut members: Vec<OrgMember> = Vec::new();
    let mut i: usize = 0;
    while i < raw.len()
        invariant
            i <= raw@.len(),
            members@ == raw@.take(i as int).map_values(|m: RawOrgMember| OrgMember { login: m.login }),
        decreases raw.len() - i,
    {
        let m = OrgMember { login: raw[i].login.clone() };
        members.push(m);
        assert(raw@.take(i + 1 as int).map_values(|m: RawOrgMember| OrgMember { login: m.login })
            == raw@.take(i as int).map_values(|m: RawOrgMember| OrgMember { login: m.login }).push(
            OrgMember { login: raw@[i as int].login },
        ));
        i = i + 1;
    }
    assert(raw@.take(raw.len() as int) == raw@);
    let lt = |a: &OrgMember, b: &OrgMember| -> (x: bool)
        ensures
            x == lex_lt(lower_spec(a.login@), lower_spec(b.login@)),
        {
            let la = lower_chars(&chars_of(a.login.as_str()));
            let lb = lower_chars(&chars_of(b.login.as_str()));
            lex_less(&la, &lb)
        };
    sort_stable(members, lt, Ghost(by_login_ignoring_case()))
}

/// The members listing of `gh api --paginate` as one JSON array: pages
/// arrive as adjacent arrays, so each `][` between them becomes `,`.
pub fn org_members_json(stdout: &[u8]) -> (r: String)
    ensures
        r@ == replace_all_spec(utf8_lossy(stdout@), "]["@, ","@),
{
    let text = decode_lossy(stdout);
    let tv = chars_of(text.as_str());
    let pat = chars_of("][");
    proof {
        reveal_strlit("][");
    }
    let out = replace_all_chars(&tv, &pat, &chars_of(","));
    string_of(&out)
}

/// The text a failure carries.
pub open spec fn failure_text(e: DataErrorView) -> Seq<char> {
    match e {
        DataErrorView::LaunchFailed(s) => s,
        DataErrorView::CommandFailed(s) => s,
        _ => Seq::empty(),
    }
}

/// A failed members listing means that the owner is no visible
/// organisation when GitHub answered "Not Found" or HTTP 404.
pub fn org_members_error(e: DataError, org: &str) -> (r: DataError)
    ensures
        if contains_spec(failure_text(e@), "Not Found"@) || contains_spec(
            failure_text(e@),
            "HTTP 404"@,
        ) {
            r@ == DataErrorView::NotAnOrganization(org@)
        } else {
            r@ == e@
        },
{
    let text: Vec<char> = match &e {
        DataError::LaunchFailed(s) => chars_of(s.as_str()),
        DataError::CommandFailed(s) => chars_of(s.as_str()),
        _ => Vec::new(),
    };
    assert(text@ == failure_text(e@));
    if contains_chars(&text, &chars_of("Not Found")) || contains_chars(&text, &chars_of("HTTP 404")) {
        DataError::NotAnOrganization(org.to_owned())
    } else {
        e
    }
}

/// Leading empty lines dropped.
pub open spec fn drop_leading_empty(ls: Seq<Seq<char>>) -> Seq<Seq<char>>
    decreases ls.len(),
{
    if ls.len() > 0 && ls[0].len() == 0 {
        drop_leading_empty(ls.drop_first())
    } else {
        ls
    }
}

/// Lines joined with line feeds.
pub open spec fn join_lines(ls: Seq<Seq<char>>) -> Seq<char>
    decreases ls.len(),
{
    if ls.len() == 0 {
        Seq::empty()
    } else if ls.len() == 1 {
        ls[0]
    } else {
        join_lines(ls.drop_last()) + seq!['\n'] + ls.last()
    }
}

/// A commit message's body: the lines after the subject, without leading
/// empty lines, joined, without trailing whitespace.
pub open spec fn message_body(message: Seq<char>) -> Seq<char> {
    let ls = lines_spec(message);
    let rest = if ls.len() > 0 {
        ls.drop_first()
    } else {
        ls
    };
    trim_end_spec(join_lines(drop_leading_empty(rest)))
}

/// The body of a commit message.
pub fn message_body_of(message: &str) -> (r: String)
    ensures
        r@ == message_body(message@),
{
    let mv = chars_of(message);
    let lines = lines_chars(&mv);
    let ghost ls = views(lines@);
    let mut k: usize = if lines.len() > 0 {
        1
    } else {
        0
    };
    let ghost rest = if ls.len() > 0 {
        ls.drop_first()
    } else {
        ls
    };
    assert(rest == ls.skip(k as int));
    while k < lines.len() && lines[k].len() == 0
        invariant
            k <= lines@.len(),
            ls == views(lines@),
            drop_leading_empty(rest) == drop_leading_empty(ls.skip(k as int)),
        decreases lines.len() - k,
    {
        assert(ls.skip(k as int).drop_first() == ls.skip(k + 1 as int));
        k = k + 1;
    }
    assert(drop_leading_empty(rest) == ls.skip(k as int));
    let start = k;
    let mut out: Vec<char> = Vec::new();
    assert(ls.subrange(start as int, start as int) == Seq::<Seq<char>>::empty());
    while k < lines.len()
        invariant
            start <= k <= lines@.len(),
            ls == views(lines@),
            out@ == join_lines(ls.subrange(start as int, k as int)),
        decreases lines.len() - k,
    {
        let ghost prev = ls.subrange(start as int, k as int);
        let ghost next = ls.subrange(start as int, k + 1 as int);
        assert(next.drop_last() == prev);
        assert(next.last() == lines@[k as int]@);
        if k > start {
            out.push('\n');
        } else {
            assert(next == seq![lines@[k as int]@]);
        }
        append_chars(&mut out, lines[k].as_slice());
        k = k + 1;
    }
    assert(ls.subrange(start as int, lines@.len() as int) == ls.skip(start as int));
    let t = trim_end_chars(&out);
    string_of(&t)
}

/// How the API's file status reads in a stat line.
pub open spec fn status_symbol(status: Seq<char>) -> Seq<char> {
    if status == "added"@ {
        "+"@
    } else if status == "removed"@ {
        "-"@
    } else if status == "renamed"@ {
        "R"@
    } else if status == "modified"@ {
        "M"@
    } else {
        status
    }
}

/// `" {status} {filename}  +{additions} -{deletions}"`.
pub open spec fn file_stat_line(f: RawApiCommitFile) -> Seq<char> {
    " "@ + status_symbol(f.status@) + " "@ + f.filename@ + "  +"@ + decimal(f.additions as nat)
        + " -"@ + decimal(f.deletions as nat)
}

/// The total additions of the files.
pub open spec fn total_additions(files: Seq<RawApiCommitFile>) -> nat
    decreases files.len(),
{
    if files.len() == 0 {
        0
    } else {
        total_additions(files.drop_last()) + files.last().additions as nat
    }
}

/// The total deletions of the files.
pub open spec fn total_deletions(files: Seq<RawApiCommitFile>) -> nat
    decreases files.len(),
{
    if files.len() == 0 {
        0
    } else {
        total_deletions(files.drop_last()) + files.last().deletions as nat
    }
}

/// `" {n} files changed, {a} insertions(+), {d} deletions(-)"`.
pub open spec fn summary_line(n: nat, a: nat, d: nat) -> Seq<char> {
    " "@ + decimal(n) + " files changed, "@ + decimal(a) + " insertions(+), "@ + decimal(d)
        + " deletions(-)"@
}

/// One line per file, then a summary line when there are files.
pub open spec fn commit_stat_lines(files: Seq<RawApiCommitFile>) -> Seq<Seq<char>> {
    let per_file = files.map_values(|f: RawApiCommitFile| file_stat_line(f));
    if files.len() > 0 {
        per_file.push(summary_line(files.len(), total_additions(files), total_deletions(files)))
    } else {
        per_file
    }
}

fn symbol_of(status: &String) -> (r: String)
    ensures
        r@ == status_symbol(status@),
{
    let s = status.as_str();
    if crate::activity::str_eq(s, "added") {
        "+".to_string()
    } else if crate::activity::str_eq(s, "removed") {
        "-".to_string()
    } else if crate::activity::str_eq(s, "renamed") {
        "R".to_string()
    } else if crate::activity::str_eq(s, "modified") {
        "M".to_string()
    } else {
        copy_string(status)
    }
}

/// A commit's details from the single-commit endpoint (no email there).
/// The totals must fit in a `u64`: the running sums would overflow.
pub fn org_commit_detail(raw: &RawApiCommitFull) -> (r: CommitDetail)
    requires
        humanize_iso_ok(raw.commit.author.date@),
        total_additions(raw.files@) <= u64::MAX,
        total_deletions(raw.files@) <= u64::MAX,
    ensures
        r.sha@ == raw.sha@,
        r.author@ == raw.commit.author.name@,
        r.email@ == Seq::<char>::empty(),
        r.date@ == humanize_iso_spec(raw.commit.author.date@),
        r.subject@ == first_line(raw.commit.message@),
        r.body@ == message_body(raw.commit.message@),
        r.stat_lines@.map_values(|s: String| s@) == commit_stat_lines(raw.files@),
{
    let files = &raw.files;
    let mut total_add: u64 = 0;
    let mut total_del: u64 = 0;
    let mut lines: Vec<String> = Vec::new();
    let mut i: usize = 0;
    while i < files.len()
        invariant
            i <= files@.len(),
            total_additions(files@) <= u64::MAX,
            total_deletions(files@) <= u64::MAX,
            total_add == total_additions(files@.take(i as int)),
            total_del == total_deletions(files@.take(i as int)),
            lines@.map_values(|s: String| s@) == files@.take(i as int).map_values(
                |f: RawApiCommitFile| file_stat_line(f),
            ),
        decreases files.len() - i,
    {
        let f = &files[i];
        let ghost t = files@.take(i + 1 as int);
        assert(t.drop_last() == files@.take(i as int));
        assert(t.last() == *f);
        proof {
            lemma_totals_prefix(files@, i + 1);
        }
        total_add = total_add + f.additions;
        total_del = total_del + f.deletions;
        let mut v = chars_of(" ");
        let sym = symbol_of(&f.status);
        append_str(&mut v, sym.as_str());
        append_str(&mut v, " ");
        append_str(&mut v, f.filename.as_str());
        append_str(&mut v, "  +");
        append_chars(&mut v, &decimal_chars(f.additions));
        append_str(&mut v, " -");
        append_chars(&mut v, &decimal_chars(f.deletions));
        let line = string_of(&v);
        let ghost old_lines = lines@;
        lines.push(line);
        assert(lines@.map_values(|s: String| s@) == old_lines.map_values(|s: String| s@).push(
            line@,
        ));
        assert(line@ == file_stat_line(*f));
        assert(t.map_values(|f: RawApiCommitFile| file_stat_line(f)) == files@.take(
            i as int,
        ).map_values(|f: RawApiCommitFile| file_stat_line(f)).push(file_stat_line(*f)));
        i = i + 1;
    }
    assert(files@.take(files.len() as int) == files@);
    if files.len() > 0 {
        let mut v = chars_of(" ");
        append_chars(&mut v, &decimal_chars(files.len() as u64));
        append_str(&mut v, " files changed, ");
        append_chars(&mut v, &decimal_chars(total_add));
        append_str(&mut v, " insertions(+), ");
        append_chars(&mut v, &decimal_chars(total_del));
        append_str(&mut v, " deletions(-)");
        let summary = string_of(&v);
        let ghost old_lines = lines@;
        lines.push(summary);
        assert(lines@.map_values(|s: String| s@) == old_lines.map_values(|s: String| s@).push(
            summary@,
        ));
    }
    CommitDetail {
        sha: copy_string(&raw.sha),
        author: copy_string(&raw.commit.author.name),
        email: String::new(),
        date: humanize_iso(raw.commit.author.date.as_str()),
        subject: crate::github::first_line_of(raw.commit.message.as_str()),
        body: message_body_of(raw.commit.message.as_str()),
        stat_lines: lines,
    }
}

/// The totals of a prefix are at most those of the whole.
pub proof fn lemma_totals_prefix(files: Seq<RawApiCommitFile>, n: int)
    requires
        0 <= n <= files.len(),
    ensures
        total_additions(files.take(n)) <= total_additions(files),
        total_deletions(files.take(n)) <= total_deletions(files),
    decreases files.len() - n,
{
    if n < files.len() {
        lemma_totals_prefix(files, n + 1);
        let t = files.take(n + 1);
        assert(t.drop_last() == files.take(n));
    } else {
        assert(files.take(n) == files);
    }
}

} // verus!
