//! What the library reads from `git`'s output.
use vstd::prelude::*;
use vstd::string::StringSliceAdditionalSpecFns;
use vstd::utf8::{decode_utf8, encode_utf8, is_char_boundary};
use crate::command::{
    decode_lossy, git_error, git_opt_text, git_raw_text, git_text, run_git_opt, run_git_raw,
    run_git_result, utf8_lossy,
};
use crate::text::{
    chars_of, humanize_iso, humanize_iso_ok, humanize_iso_spec, lemma_split_nonempty,
    lines_chars, lines_spec, parse_u32_chars, parse_u32_spec, split_chars, split_spec,
    starts_with_spec, string_of, strip_prefix_chars, trim, trim_chars, trim_end_chars,
    trim_end_matches_chars, trim_end_matches_spec, trim_end_spec, trim_spec, views, words_chars,
    words_spec,
};
use crate::types::{Commit, CommandOutput, CommitDetail, DataError, DataErrorView, DirtyFile, RepoSummary};

verus! {

broadcast use {
    vstd::string::group_string_axioms,
    vstd::utf8::encode_utf8_valid_utf8,
    vstd::utf8::encode_utf8_decode_utf8,
};

/// The view of an optional string.
pub open spec fn opt_view(o: Option<String>) -> Option<Seq<char>> {
    match o {
        Some(s) => Some(s@),
        None => None,
    }
}

/// The pieces of `v` as strings.
fn strings_of(v: &Vec<Vec<char>>, i: usize) -> (r: String)
    requires
        i < v@.len(),
    ensures
        r@ == v@[i as int]@,
{
    string_of(v[i].as_slice())
}

/// The four fields of a `git log --pretty=format:%h%x1f%an%x1f%cr%x1f%s`
/// line, if it has them.
pub open spec fn commit_fields(line: Seq<char>) -> Option<Seq<Seq<char>>> {
    let parts = split_spec(line, '\u{1f}');
    if parts.len() >= 4 {
        Some(parts.take(4))
    } else {
        None
    }
}

/// The fields of every log line that has four.
pub open spec fn log_commits(lines: Seq<Seq<char>>) -> Seq<Seq<Seq<char>>>
    decreases lines.len(),
{
    if lines.len() == 0 {
        Seq::empty()
    } else {
        let rest = log_commits(lines.drop_last());
        match commit_fields(lines.last()) {
            Some(f) => rest.push(f),
            None => rest,
        }
    }
}

/// A commit's fields: sha, author, date, subject.
pub open spec fn commit_view(c: Commit) -> Seq<Seq<char>> {
    seq![c.sha@, c.author@, c.date@, c.subject@]
}

/// The arguments of `git log` for the `limit` most recent commits.
pub fn recent_commits_args(limit: usize) -> (r: Vec<String>)
    ensures
        r@.len() == 3,
        r@[0]@ == "log"@,
        r@[1]@ == "-n"@ + crate::text::decimal(limit as nat),
        r@[2]@ == "--pretty=format:%h%x1f%an%x1f%cr%x1f%s"@,
{
    let mut n = chars_of("-n");
    let d = crate::text::decimal_chars(limit as u64);
    crate::text::append_chars(&mut n, &d);
    let mut r: Vec<String> = Vec::new();
    r.push("log".to_string());
    r.push(string_of(&n));
    r.push("--pretty=format:%h%x1f%an%x1f%cr%x1f%s".to_string());
    r
}

/// The recent commits in a `git log` run's output: one per line that has
/// all four fields.
pub fn recent_commits(out: &Result<CommandOutput, String>) -> (r: Result<Vec<Commit>, DataError>)
    ensures
        match r {
            Ok(v) => git_text(*out) matches Some(t) && v@.map_values(|c: Commit| commit_view(c))
                == log_commits(lines_spec(t)),
            Err(e) => git_text(*out) is None && e@ == git_error(*out),
        },
{
    let text = run_git_result(out)?;
    let tv = chars_of(text.as_str());
    let lines = lines_chars(&tv);
    let ghost ls = lines_spec(text@);
    let mut r: Vec<Commit> = Vec::new();
    let mut i: usize = 0;
    assert(ls.take(0) == Seq::<Seq<char>>::empty());
    while i < lines.len()
        invariant
            i <= lines@.len(),
            views(lines@) == ls,
            r@.map_values(|c: Commit| commit_view(c)) == log_commits(ls.take(i as int)),
        decreases lines.len() - i,
    {
        let ghost t = ls.take(i + 1 as int);
        assert(t.drop_last() == ls.take(i as int));
        assert(t.last() == lines@[i as int]@);
        let parts = split_chars(lines[i].as_slice(), '\u{1f}');
        let ghost ps = split_spec(lines@[i as int]@, '\u{1f}');
        let ghost old_r = r@;
        if parts.len() >= 4 {
            let c = Commit {
                sha: strings_of(&parts, 0),
                author: strings_of(&parts, 1),
                date: strings_of(&parts, 2),
                subject: strings_of(&parts, 3),
            };
            r.push(c);
            assert(commit_view(c) =~= ps.take(4));
            assert(r@.map_values(|c: Commit| commit_view(c)) == old_r.map_values(
                |c: Commit| commit_view(c),
            ).push(commit_view(c)));
        }
        i = i + 1;
    }
    assert(ls.take(lines@.len() as int) == ls);
    Ok(r)
}

/// A `git status --porcelain` line as (status, path): bytes 0..2 and 3..,
/// for lines of at least three bytes.
pub open spec fn dirty_entry(line: Seq<char>) -> Option<(Seq<char>, Seq<char>)> {
    let b = encode_utf8(line);
    if b.len() >= 3 {
        Some((decode_utf8(b.subrange(0, 2)), decode_utf8(b.subrange(3, b.len() as int))))
    } else {
        None
    }
}

/// Slicing a status line at bytes 2 and 3 needs both to start characters;
/// on any other line the slicing would panic.
pub open spec fn porcelain_line_ok(line: Seq<char>) -> bool {
    let b = encode_utf8(line);
    b.len() >= 3 ==> is_char_boundary(b, 2) && is_char_boundary(b, 3)
}

/// Every line of the output can be sliced.
pub open spec fn porcelain_ok(r: Result<CommandOutput, String>) -> bool {
    match git_raw_text(r) {
        Some(t) => porcelain_text_ok(t),
        None => true,
    }
}

/// Every line of the text can be sliced.
pub open spec fn porcelain_text_ok(t: Seq<char>) -> bool {
    forall|i: int| 0 <= i < lines_spec(t).len() ==> porcelain_line_ok(#[trigger] lines_spec(t)[i])
}

/// The entries of every status line that has one.
pub open spec fn dirty_entries(lines: Seq<Seq<char>>) -> Seq<(Seq<char>, Seq<char>)>
    decreases lines.len(),
{
    if lines.len() == 0 {
        Seq::empty()
    } else {
        let rest = dirty_entries(lines.drop_last());
        match dirty_entry(lines.last()) {
            Some(e) => rest.push(e),
            None => rest,
        }
    }
}

/// Whether a status line can be sliced at bytes 2 and 3 (see
/// [`porcelain_line_ok`]).
fn line_sliceable(line: &str) -> (b: bool)
    ensures
        b == porcelain_line_ok(line@),
{
    let b = line.as_bytes();
    let ghost bytes = line.spec_bytes();
    assert(vstd::utf8::valid_utf8(bytes));
    if b.len() < 3 {
        return true;
    }
    proof {
        vstd::utf8::is_char_boundary_iff_not_is_continuation_byte(bytes, 2);
    }
    let two = !(0x80u8 <= b[2] && b[2] <= 0xbfu8);
    if b.len() == 3 {
        proof {
            vstd::utf8::is_char_boundary_start_end_of_seq(bytes);
        }
        two
    } else {
        proof {
            vstd::utf8::is_char_boundary_iff_not_is_continuation_byte(bytes, 3);
        }
        two && !(0x80u8 <= b[3] && b[3] <= 0xbfu8)
    }
}

/// Whether every line of a `git status --porcelain` run's output can be
/// sliced (see [`porcelain_ok`]); [`dirty_file_list`] may then be called.
pub fn can_list_dirty(out: &Result<CommandOutput, String>) -> (b: bool)
    ensures
        b == porcelain_ok(*out),
{
    let text = match run_git_raw(out) {
        Ok(t) => t,
        Err(_) => return true,
    };
    let tv = chars_of(text.as_str());
    let lines = lines_chars(&tv);
    let ghost ls = lines_spec(text@);
    let mut i: usize = 0;
    while i < lines.len()
        invariant
            i <= lines@.len(),
            views(lines@) == ls,
            ls == lines_spec(text@),
            git_raw_text(*out) == Some(text@),
            forall|k: int| 0 <= k < i ==> porcelain_line_ok(#[trigger] ls[k]),
        decreases lines.len() - i,
    {
        let line = string_of(lines[i].as_slice());
        assert(line@ == ls[i as int]);
        if !line_sliceable(line.as_str()) {
            return false;
        }
        i = i + 1;
    }
    true
}

/// The uncommitted files in a `git status --porcelain` run's output: its
/// lines as they are (see [`dirty_entries`]).
pub fn dirty_file_list(out: &Result<CommandOutput, String>) -> (r: Result<Vec<DirtyFile>, DataError>)
    requires
        porcelain_ok(*out),
    ensures
        match r {
            Ok(v) => git_raw_text(*out) matches Some(t) && v@.map_values(
                |d: DirtyFile| (d.status@, d.path@),
            ) == dirty_entries(lines_spec(t)),
            Err(e) => git_raw_text(*out) is None && e@ == git_error(*out),
        },
{
    let text = run_git_raw(out)?;
    let tv = chars_of(text.as_str());
    let lines = lines_chars(&tv);
    let ghost ls = lines_spec(text@);
    assert(git_raw_text(*out) == Some(text@));
    assert(porcelain_text_ok(text@));
    let mut r: Vec<DirtyFile> = Vec::new();
    let mut i: usize = 0;
    assert(ls.take(0) == Seq::<Seq<char>>::empty());
    while i < lines.len()
        invariant
            i <= lines@.len(),
            views(lines@) == ls,
            forall|k: int| 0 <= k < ls.len() ==> porcelain_line_ok(#[trigger] ls[k]),
            r@.map_values(|d: DirtyFile| (d.status@, d.path@)) == dirty_entries(ls.take(i as int)),
        decreases lines.len() - i,
    {
        let ghost t = ls.take(i + 1 as int);
        assert(t.drop_last() == ls.take(i as int));
        assert(t.last() == lines@[i as int]@);
        let line = string_of(lines[i].as_slice());
        assert(porcelain_line_ok(ls[i as int]));
        let ghost old_r = r@;
        let ls_str = line.as_str();
        let b = ls_str.as_bytes();
        if b.len() >= 3 {
            let (status, _) = ls_str.split_at(2);
            let (_, path) = ls_str.split_at(3);
            assert(status@ == decode_utf8(status.spec_bytes()));
            assert(path@ == decode_utf8(path.spec_bytes()));
            let d = DirtyFile { status: status.to_owned(), path: path.to_owned() };
            r.push(d);
            assert(r@.map_values(|d: DirtyFile| (d.status@, d.path@)) == old_r.map_values(
                |d: DirtyFile| (d.status@, d.path@),
            ).push((d.status@, d.path@)));
        }
        i = i + 1;
    }
    assert(ls.take(lines@.len() as int) == ls);
    Ok(r)
}

/// The `i`-th piece, or nothing when there are fewer pieces.
pub open spec fn nth_or_empty(parts: Seq<Seq<char>>, i: int) -> Seq<char> {
    if 0 <= i < parts.len() {
        parts[i]
    } else {
        Seq::empty()
    }
}

fn nth_piece(parts: &Vec<Vec<char>>, i: usize) -> (r: Vec<char>)
    ensures
        r@ == nth_or_empty(views(parts@), i as int),
{
    if i < parts.len() {
        crate::text::slice_chars(parts[i].as_slice(), 0, parts[i].len())
    } else {
        Vec::new()
    }
}

/// The non-empty lines, in order.
pub open spec fn nonempty_lines(ls: Seq<Seq<char>>) -> Seq<Seq<char>>
    decreases ls.len(),
{
    if ls.len() == 0 {
        Seq::empty()
    } else {
        let rest = nonempty_lines(ls.drop_last());
        if ls.last().len() > 0 {
            rest.push(ls.last())
        } else {
            rest
        }
    }
}

/// The non-empty lines of a text, as strings.
pub fn nonempty_lines_of(text: &str) -> (r: Vec<String>)
    ensures
        r@.map_values(|s: String| s@) == nonempty_lines(lines_spec(text@)),
{
    let tv = chars_of(text);
    let lines = lines_chars(&tv);
    let ghost ls = lines_spec(text@);
    let mut r: Vec<String> = Vec::new();
    let mut i: usize = 0;
    assert(ls.take(0) == Seq::<Seq<char>>::empty());
    while i < lines.len()
        invariant
            i <= lines@.len(),
            views(lines@) == ls,
            r@.map_values(|s: String| s@) == nonempty_lines(ls.take(i as int)),
        decreases lines.len() - i,
    {
        let ghost t = ls.take(i + 1 as int);
        assert(t.drop_last() == ls.take(i as int));
        assert(t.last() == lines@[i as int]@);
        let ghost old_r = r@;
        if lines[i].len() > 0 {
            let s = string_of(lines[i].as_slice());
            r.push(s);
            assert(r@.map_values(|s: String| s@) == old_r.map_values(|s: String| s@).push(s@));
        }
        i = i + 1;
    }
    assert(ls.take(lines@.len() as int) == ls);
    r
}

/// The metadata fields of `git show -s --format=%H%x1f%an%x1f%ae%x1f%aI%x1f%s%x1f%b`.
pub open spec fn meta_field(meta: Seq<char>, i: int) -> Seq<char> {
    nth_or_empty(split_spec(meta, '\u{1f}'), i)
}

/// The author date of a commit's metadata can be shortened.
pub open spec fn commit_meta_ok(meta: Seq<char>) -> bool {
    humanize_iso_ok(meta_field(meta, 3))
}

/// A commit's details from its metadata text (the trimmed output of the
/// `git show -s` run, which succeeded) and its `git show --stat` run.
pub fn commit_detail(meta: &str, stat: &Result<CommandOutput, String>) -> (r: Result<
    CommitDetail,
    DataError,
>)
    requires
        commit_meta_ok(meta@),
    ensures
        match r {
            Ok(d) => {
                &&& git_text(*stat) matches Some(t) && d.stat_lines@.map_values(|s: String| s@)
                    == nonempty_lines(lines_spec(t))
                &&& d.sha@ == meta_field(meta@, 0)
                &&& d.author@ == meta_field(meta@, 1)
                &&& d.email@ == meta_field(meta@, 2)
                &&& d.date@ == humanize_iso_spec(meta_field(meta@, 3))
                &&& d.subject@ == meta_field(meta@, 4)
                &&& d.body@ == trim_end_spec(meta_field(meta@, 5))
            },
            Err(e) => git_text(*stat) is None && e@ == git_error(*stat),
        },
{
    let mv = chars_of(meta);
    let parts = split_chars(&mv, '\u{1f}');
    let sha = nth_piece(&parts, 0);
    let author = nth_piece(&parts, 1);
    let email = nth_piece(&parts, 2);
    let date_iso = string_of(nth_piece(&parts, 3).as_slice());
    let subject = nth_piece(&parts, 4);
    let body = trim_end_chars(nth_piece(&parts, 5).as_slice());
    let stat_text = run_git_result(stat)?;
    let stat_lines = nonempty_lines_of(stat_text.as_str());
    Ok(
        CommitDetail {
            sha: string_of(&sha),
            author: string_of(&author),
            email: string_of(&email),
            date: humanize_iso(date_iso.as_str()),
            subject: string_of(&subject),
            body: string_of(&body),
            stat_lines,
        },
    )
}

/// The first two whitespace-separated counts of `git rev-list --left-right
/// --count`, each 0 when missing or not a number.
pub open spec fn counts_spec(text: Seq<char>) -> (u32, u32) {
    let w = words_spec(text);
    let a = if w.len() > 0 {
        match parse_u32_spec(w[0]) {
            Some(x) => x,
            None => 0,
        }
    } else {
        0
    };
    let b = if w.len() > 1 {
        match parse_u32_spec(w[1]) {
            Some(x) => x,
            None => 0,
        }
    } else {
        0
    };
    (a, b)
}

fn word_count(w: &Vec<Vec<char>>, i: usize) -> (r: u32)
    ensures
        r == (if i < w@.len() {
            match parse_u32_spec(w@[i as int]@) {
                Some(x) => x,
                None => 0,
            }
        } else {
            0
        }),
{
    if i < w.len() {
        match parse_u32_chars(w[i].as_slice()) {
            Some(x) => x,
            None => 0,
        }
    } else {
        0
    }
}

/// Ahead/behind counts: read from the counting run when there is an
/// upstream and that run succeeded, else zero.
pub open spec fn ahead_behind_spec(
    upstream: Result<CommandOutput, String>,
    counts: Option<Result<CommandOutput, String>>,
) -> (u32, u32) {
    if git_opt_text(upstream) is Some {
        match counts {
            Some(c) => match git_text(c) {
                Some(t) => counts_spec(t),
                None => (0, 0),
            },
            None => (0, 0),
        }
    } else {
        (0, 0)
    }
}

/// The repository summary from the outputs of its git runs: an error when
/// the `rev-parse --show-toplevel` run fails, else its text is the root; the branch
/// falls back to `HEAD`; the remote, upstream and last fetch are present
/// when their runs printed something; `counts` is the `rev-list` run, made
/// only when there is an upstream.
pub fn repo_summary(
    root: &Result<CommandOutput, String>,
    branch: &Result<CommandOutput, String>,
    remote: &Result<CommandOutput, String>,
    upstream: &Result<CommandOutput, String>,
    counts: &Option<Result<CommandOutput, String>>,
    last_fetch: &Result<CommandOutput, String>,
) -> (res: Result<RepoSummary, DataError>)
    ensures
        match res {
            Err(e) => git_text(*root) is None && e@ == git_error(*root),
            Ok(r) => {
                &&& git_text(*root) == Some(r.root@)
                &&& r.branch@ == (match git_text(*branch) {
                    Some(t) => t,
                    None => "HEAD"@,
                })
                &&& opt_view(r.remote_url) == git_opt_text(*remote)
                &&& opt_view(r.upstream) == git_opt_text(*upstream)
                &&& (r.ahead, r.behind) == ahead_behind_spec(*upstream, *counts)
                &&& opt_view(r.last_fetch) == git_opt_text(*last_fetch)
            },
        },
{
    let root_text = run_git_result(root)?;
    let branch_name = match run_git_result(branch) {
        Ok(s) => s,
        Err(_) => "HEAD".to_string(),
    };
    let remote_url = run_git_opt(remote);
    let up = run_git_opt(upstream);
    let mut ahead: u32 = 0;
    let mut behind: u32 = 0;
    if up.is_some() {
        match counts {
            Some(c) => {
                match run_git_result(c) {
                    Ok(s) => {
                        let sv = chars_of(s.as_str());
                        let w = words_chars(&sv);
                        ahead = word_count(&w, 0);
                        behind = word_count(&w, 1);
                    },
                    Err(_) => {},
                }
            },
            None => {},
        }
    }
    Ok(RepoSummary {
        root: root_text,
        branch: branch_name,
        remote_url,
        upstream: up,
        ahead,
        behind,
        last_fetch: run_git_opt(last_fetch),
    })
}

/// The first `/`-separated piece of a text.
pub open spec fn first_piece(s: Seq<char>) -> Seq<char> {
    split_spec(s, '/')[0]
}

/// The owner in a GitHub remote URL: after an SSH, `ssh://`, `https://`,
/// `http://` or scheme-less `github.com/` prefix, the first path piece; the
/// URL is trimmed and loses any `.git` suffixes first.
pub open spec fn org_from_url(url: Seq<char>) -> Option<Seq<char>> {
    let s = trim_end_matches_spec(trim_spec(url), ".git"@);
    if starts_with_spec(s, "git@github.com:"@) {
        Some(first_piece(s.skip(15)))
    } else if starts_with_spec(s, "ssh://git@github.com/"@) {
        Some(first_piece(s.skip(21)))
    } else if starts_with_spec(s, "https://github.com/"@) {
        Some(first_piece(s.skip(19)))
    } else if starts_with_spec(s, "http://github.com/"@) {
        Some(first_piece(s.skip(18)))
    } else if starts_with_spec(s, "github.com/"@) {
        Some(first_piece(s.skip(11)))
    } else {
        None
    }
}

fn first_piece_of(s: &[char]) -> (r: String)
    ensures
        r@ == first_piece(s@),
{
    let parts = split_chars(s, '/');
    proof {
        lemma_split_nonempty(s@, '/');
    }
    string_of(parts[0].as_slice())
}

/// The owner named in a GitHub remote URL.
pub fn parse_org_from_url(url: &str) -> (r: Option<String>)
    ensures
        opt_view(r) == org_from_url(url@),
{
    let uv = chars_of(url);
    let t = trim_chars(&uv);
    let dot_git = chars_of(".git");
    proof {
        reveal_strlit(".git");
    }
    let s = trim_end_matches_chars(&t, &dot_git);
    let p1 = chars_of("git@github.com:");
    let p2 = chars_of("ssh://git@github.com/");
    let p3 = chars_of("https://github.com/");
    let p4 = chars_of("http://github.com/");
    let p5 = chars_of("github.com/");
    proof {
        reveal_strlit("git@github.com:");
        reveal_strlit("ssh://git@github.com/");
        reveal_strlit("https://github.com/");
        reveal_strlit("http://github.com/");
        reveal_strlit("github.com/");
    }
    if let Some(rest) = strip_prefix_chars(&s, &p1) {
        return Some(first_piece_of(&rest));
    }
    if let Some(rest) = strip_prefix_chars(&s, &p2) {
        return Some(first_piece_of(&rest));
    }
    if let Some(rest) = strip_prefix_chars(&s, &p3) {
        return Some(first_piece_of(&rest));
    }
    if let Some(rest) = strip_prefix_chars(&s, &p4) {
        return Some(first_piece_of(&rest));
    }
    if let Some(rest) = strip_prefix_chars(&s, &p5) {
        return Some(first_piece_of(&rest));
    }
    None
}

/// The owner of the `origin` remote, from the run of
/// `git config --get remote.origin.url`.
pub fn detect_org(remote: &Result<CommandOutput, String>) -> (r: Result<String, DataError>)
    ensures
        match r {
            Ok(o) => git_text(*remote) matches Some(url) && org_from_url(url) == Some(o@),
            Err(e) => match git_text(*remote) {
                None => e@ == git_error(*remote),
                Some(url) => org_from_url(url) is None && e@ == DataErrorView::UnparsableRemote(url),
            },
        },
{
    let url = run_git_result(remote)?;
    match parse_org_from_url(url.as_str()) {
        Some(o) => Ok(o),
        None => Err(DataError::UnparsableRemote(url)),
    }
}

/// An untracked file, as `git status --porcelain` marks it.
pub open spec fn is_untracked(status: Seq<char>) -> bool {
    trim_spec(status) == "??"@
}

/// The arguments of the `git diff` for one dirty file: an untracked file
/// is shown as wholly added (`--no-index` against `/dev/null`), a tracked one
/// against `HEAD`.
pub fn file_diff_args(path: &str, status: &str) -> (r: Vec<String>)
    ensures
        r@.map_values(|s: String| s@) == (if is_untracked(status@) {
            seq!["diff"@, "--no-index"@, "--no-color"@, "/dev/null"@, path@]
        } else {
            seq!["diff"@, "HEAD"@, "--no-color"@, "--"@, path@]
        }),
{
    let t = trim(status);
    let mut r: Vec<String> = Vec::new();
    if crate::activity::str_eq(t.as_str(), "??") {
        r.push("diff".to_string());
        r.push("--no-index".to_string());
        r.push("--no-color".to_string());
        r.push("/dev/null".to_string());
        r.push(path.to_owned());
    } else {
        r.push("diff".to_string());
        r.push("HEAD".to_string());
        r.push("--no-color".to_string());
        r.push("--".to_string());
        r.push(path.to_owned());
    }
    assert(r@.map_values(|s: String| s@) =~= (if is_untracked(status@) {
        seq!["diff"@, "--no-index"@, "--no-color"@, "/dev/null"@, path@]
    } else {
        seq!["diff"@, "HEAD"@, "--no-color"@, "--"@, path@]
    }));
    r
}

/// The lines of a `git diff` run. It fails only when it exited
/// unsuccessfully with no output and a non-blank error (`--no-index` exits
/// with status 1 when the files differ, which is no failure).
pub fn file_diff(out: &Result<CommandOutput, String>) -> (r: Result<Vec<String>, DataError>)
    ensures
        match *out {
            Err(e) => r matches Err(x) && x@ == DataErrorView::LaunchFailed(e@),
            Ok(o) => if !o.success && o.stdout@.len() == 0 && trim_spec(utf8_lossy(o.stderr@)).len()
                > 0 {
                r matches Err(x) && x@ == DataErrorView::CommandFailed(
                    trim_spec(utf8_lossy(o.stderr@)),
                )
            } else {
                r matches Ok(v) && v@.map_values(|s: String| s@) == lines_spec(
                    utf8_lossy(o.stdout@),
                )
            },
        },
{
    match out {
        Err(e) => Err(DataError::LaunchFailed(e.clone())),
        Ok(o) => {
            if !o.success && o.stdout.len() == 0 {
                let stderr = decode_lossy(o.stderr.as_slice());
                let t = trim(stderr.as_str());
                if !t.as_str().is_empty() {
                    return Err(DataError::CommandFailed(t));
                }
            }
            let body = decode_lossy(o.stdout.as_slice());
            let bv = chars_of(body.as_str());
            let lines = lines_chars(&bv);
            let mut r: Vec<String> = Vec::new();
            let mut i: usize = 0;
            while i < lines.len()
                invariant
                    i <= lines@.len(),
                    r@.map_values(|s: String| s@) == views(lines@).take(i as int),
                decreases lines.len() - i,
            {
                let ghost old_r = r@;
                let s = string_of(lines[i].as_slice());
                r.push(s);
                assert(r@.map_values(|s: String| s@) == old_r.map_values(|s: String| s@).push(s@));
                assert(views(lines@).take(i + 1 as int) == views(lines@).take(i as int).push(
                    lines@[i as int]@,
                ));
                i = i + 1;
            }
            assert(views(lines@).take(lines@.len() as int) == views(lines@));
            Ok(r)
        },
    }
}

} // verus!
