//! Character-level text primitives with exact specifications.
//!
//! Strings are modelled by their view, the `Seq<char>` of their characters.
//! Each spec function here states what the corresponding text operation
//! computes; the executable functions work on `&[char]` / `Vec<char>` and are
//! proved to compute exactly that.
use vstd::prelude::*;
use vstd::string::StringSliceAdditionalSpecFns;
use vstd::utf8::*;

verus! {

broadcast use {
    vstd::string::group_string_axioms,
    vstd::utf8::encode_utf8_valid_utf8,
    vstd::utf8::encode_utf8_decode_utf8,
    vstd::utf8::valid_utf8_split,
};

/// `String::push`. Claimed: afterwards the string's characters are the
/// ones it had, followed by `c`.
#[verifier::external_body]
pub(crate) fn push_char(s: &mut String, c: char)
    ensures
        final(s)@ == old(s)@.push(c),
{
    s.push(c);
}

/// The characters of `s`, in order.
pub fn chars_of(s: &str) -> (v: Vec<char>)
    ensures
        v@ == s@,
{
    let mut v: Vec<char> = Vec::new();
    for c in it: s.chars()
        invariant
            it.seq() == s@,
            v@ == it.seq().take(it.index() as int),
    {
        v.push(c);
    }
    v
}

/// A string made of the given characters.
pub fn string_of(v: &[char]) -> (s: String)
    ensures
        s@ == v@,
{
    let mut s = String::new();
    let mut i: usize = 0;
    while i < v.len()
        invariant
            i <= v.len(),
            s@ == v@.take(i as int),
        decreases v.len() - i,
    {
        push_char(&mut s, v[i]);
        i = i + 1;
        assert(v@.take(i as int) == v@.take(i - 1 as int).push(v@[i - 1 as int]));
    }
    assert(v@.take(v.len() as int) == v@);
    s
}

/// The characters `s[from..to]`.
pub fn slice_chars(s: &[char], from: usize, to: usize) -> (r: Vec<char>)
    requires
        from <= to <= s@.len(),
    ensures
        r@ == s@.subrange(from as int, to as int),
{
    let mut r: Vec<char> = Vec::new();
    let mut i: usize = from;
    while i < to
        invariant
            from <= i <= to <= s@.len(),
            r@ == s@.subrange(from as int, i as int),
        decreases to - i,
    {
        r.push(s[i]);
        i = i + 1;
        assert(s@.subrange(from as int, i as int) == s@.subrange(from as int, i - 1 as int).push(s@[i - 1 as int]));
    }
    r
}

/// Characters with the Unicode `White_Space` property (`char::is_whitespace`).
pub open spec fn is_ws(c: char) -> bool {
    let u = c as u32;
    ||| (0x09 <= u <= 0x0d)
    ||| u == 0x20
    ||| u == 0x85
    ||| u == 0xa0
    ||| u == 0x1680
    ||| (0x2000 <= u <= 0x200a)
    ||| u == 0x2028
    ||| u == 0x2029
    ||| u == 0x202f
    ||| u == 0x205f
    ||| u == 0x3000
}

/// Whether `c` is whitespace (`char::is_whitespace`).
pub fn is_whitespace(c: char) -> (b: bool)
    ensures
        b == is_ws(c),
{
    let u = c as u32;
    (0x09 <= u && u <= 0x0d) || u == 0x20 || u == 0x85 || u == 0xa0 || u == 0x1680 || (0x2000
        <= u && u <= 0x200a) || u == 0x2028 || u == 0x2029 || u == 0x202f || u == 0x205f || u
        == 0x3000
}

/// `str::trim_end`: drops trailing whitespace.
pub open spec fn trim_end_spec(s: Seq<char>) -> Seq<char>
    decreases s.len(),
{
    if s.len() > 0 && is_ws(s.last()) {
        trim_end_spec(s.drop_last())
    } else {
        s
    }
}

/// `str::trim_start`: drops leading whitespace.
pub open spec fn trim_start_spec(s: Seq<char>) -> Seq<char>
    decreases s.len(),
{
    if s.len() > 0 && is_ws(s[0]) {
        trim_start_spec(s.drop_first())
    } else {
        s
    }
}

/// `str::trim`: drops leading and trailing whitespace.
pub open spec fn trim_spec(s: Seq<char>) -> Seq<char> {
    trim_end_spec(trim_start_spec(s))
}

/// The length that `trim_end` keeps.
fn trim_end_len(s: &[char]) -> (j: usize)
    ensures
        j <= s@.len(),
        trim_end_spec(s@) == s@.take(j as int),
{
    let mut j: usize = s.len();
    assert(s@.take(j as int) == s@);
    while j > 0 && is_whitespace(s[j - 1])
        invariant
            j <= s@.len(),
            trim_end_spec(s@) == trim_end_spec(s@.take(j as int)),
        decreases j,
    {
        assert(s@.take(j as int).drop_last() == s@.take(j - 1 as int));
        j = j - 1;
    }
    j
}

/// The number of leading characters that `trim_start` drops.
fn trim_start_len(s: &[char]) -> (i: usize)
    ensures
        i <= s@.len(),
        trim_start_spec(s@) == s@.skip(i as int),
{
    let mut i: usize = 0;
    assert(s@.skip(0) == s@);
    while i < s.len() && is_whitespace(s[i])
        invariant
            i <= s@.len(),
            trim_start_spec(s@) == trim_start_spec(s@.skip(i as int)),
        decreases s.len() - i,
    {
        assert(s@.skip(i as int).drop_first() == s@.skip(i + 1 as int));
        i = i + 1;
    }
    i
}

/// `str::trim_end` on characters.
pub fn trim_end_chars(s: &[char]) -> (r: Vec<char>)
    ensures
        r@ == trim_end_spec(s@),
{
    let j = trim_end_len(s);
    slice_chars(s, 0, j)
}

/// `str::trim` on characters.
pub fn trim_chars(s: &[char]) -> (r: Vec<char>)
    ensures
        r@ == trim_spec(s@),
{
    let i = trim_start_len(s);
    let rest = slice_chars(s, i, s.len());
    assert(rest@ == s@.skip(i as int));
    trim_end_chars(&rest)
}

/// `str::trim` on a string.
pub fn trim(s: &str) -> (r: String)
    ensures
        r@ == trim_spec(s@),
{
    let v = chars_of(s);
    let t = trim_chars(&v);
    string_of(&t)
}

/// The pieces of `s` between occurrences of `d` (`str::split` with a
/// `char` pattern); there is always at least one piece.
pub open spec fn split_spec(s: Seq<char>, d: char) -> Seq<Seq<char>>
    decreases s.len(),
{
    if s.len() == 0 {
        seq![Seq::<char>::empty()]
    } else {
        let prev = split_spec(s.drop_last(), d);
        if s.last() == d {
            prev.push(Seq::<char>::empty())
        } else {
            prev.update(prev.len() - 1, prev.last().push(s.last()))
        }
    }
}

pub proof fn lemma_split_nonempty(s: Seq<char>, d: char)
    ensures
        split_spec(s, d).len() >= 1,
    decreases s.len(),
{
    if s.len() > 0 {
        lemma_split_nonempty(s.drop_last(), d);
    }
}

/// The views of a vector of character vectors.
pub open spec fn views(v: Seq<Vec<char>>) -> Seq<Seq<char>> {
    v.map_values(|x: Vec<char>| x@)
}

/// `str::split` on characters with a `char` delimiter.
pub fn split_chars(s: &[char], d: char) -> (r: Vec<Vec<char>>)
    ensures
        views(r@) == split_spec(s@, d),
{
    let mut done: Vec<Vec<char>> = Vec::new();
    let mut cur: Vec<char> = Vec::new();
    let mut i: usize = 0;
    assert(s@.take(0) == Seq::<char>::empty());
    while i < s.len()
        invariant
            i <= s@.len(),
            views(done@).push(cur@) == split_spec(s@.take(i as int), d),
        decreases s.len() - i,
    {
        let ghost t = s@.take(i + 1 as int);
        assert(t.drop_last() == s@.take(i as int));
        assert(t.last() == s@[i as int]);
        let c = s[i];
        if c == d {
            let ghost old_done = done@;
            let ghost old_cur = cur@;
            let mut finished: Vec<char> = Vec::new();
            std::mem::swap(&mut cur, &mut finished);
            done.push(finished);
            assert(views(done@) == views(old_done).push(old_cur));
        } else {
            let ghost old_done = done@;
            cur.push(c);
            assert(views(done@) == views(old_done));
        }
        i = i + 1;
    }
    assert(s@.take(s.len() as int) == s@);
    let ghost old_done = done@;
    let ghost old_cur = cur@;
    done.push(cur);
    assert(views(done@) == views(old_done).push(old_cur));
    done
}

/// Drops one trailing carriage return.
pub open spec fn strip_cr(p: Seq<char>) -> Seq<char> {
    if p.len() > 0 && p.last() == '\r' {
        p.drop_last()
    } else {
        p
    }
}

/// `str::lines`: the pieces between line feeds, each piece that ended in a
/// line feed losing one trailing `'\r'`; an empty final piece is not a line.
pub open spec fn lines_spec(s: Seq<char>) -> Seq<Seq<char>> {
    let parts = split_spec(s, '\n');
    let n: int = if parts.last().len() == 0 {
        parts.len() - 1
    } else {
        parts.len() as int
    };
    Seq::new(
        n as nat,
        |i: int|
            if i < parts.len() - 1 {
                strip_cr(parts[i])
            } else {
                parts[i]
            },
    )
}

/// `str::lines` on characters.
pub fn lines_chars(s: &[char]) -> (r: Vec<Vec<char>>)
    ensures
        views(r@) == lines_spec(s@),
{
    let parts = split_chars(s, '\n');
    proof {
        lemma_split_nonempty(s@, '\n');
    }
    let ghost ps = split_spec(s@, '\n');
    assert(parts@.len() == ps.len());
    let last_len = parts[parts.len() - 1].len();
    assert(parts@[parts.len() - 1]@ == ps.last());
    let n: usize = if last_len == 0 {
        parts.len() - 1
    } else {
        parts.len()
    };
    let mut r: Vec<Vec<char>> = Vec::new();
    let mut i: usize = 0;
    while i < n
        invariant
            i <= n <= parts@.len(),
            ps == split_spec(s@, '\n'),
            views(parts@) == ps,
            n == lines_spec(s@).len(),
            views(r@) == lines_spec(s@).take(i as int),
        decreases n - i,
    {
        let p = &parts[i];
        assert(p@ == ps[i as int]);
        let mut len = p.len();
        if i + 1 < parts.len() && len > 0 && p[len - 1] == '\r' {
            len = len - 1;
        }
        let piece = slice_chars(p.as_slice(), 0, len);
        assert(p@.subrange(0, p@.len() as int) == p@);
        assert(p@.len() > 0 ==> p@.subrange(0, p@.len() - 1) == p@.drop_last());
        assert(piece@ == lines_spec(s@)[i as int]);
        let ghost old_r = r@;
        r.push(piece);
        assert(views(r@) == views(old_r).push(piece@));
        assert(lines_spec(s@).take(i + 1 as int) == lines_spec(s@).take(i as int).push(
            lines_spec(s@)[i as int],
        ));
        i = i + 1;
    }
    assert(lines_spec(s@).take(n as int) == lines_spec(s@));
    r
}

/// ASCII lower-casing of one character (`char::to_ascii_lowercase`).
pub open spec fn lower_char(c: char) -> char {
    if 65 <= (c as u32) <= 90 {
        ((c as u32 + 32) as u8) as char
    } else {
        c
    }
}

/// `str::to_ascii_lowercase`.
pub open spec fn lower_spec(s: Seq<char>) -> Seq<char> {
    s.map_values(|c: char| lower_char(c))
}

/// `char::to_ascii_lowercase`.
pub fn lower_ascii_char(c: char) -> (r: char)
    ensures
        r == lower_char(c),
{
    let u = c as u32;
    if 65 <= u && u <= 90 {
        ((u + 32) as u8) as char
    } else {
        c
    }
}

/// `str::to_ascii_lowercase` on characters.
pub fn lower_chars(s: &[char]) -> (r: Vec<char>)
    ensures
        r@ == lower_spec(s@),
{
    let mut r: Vec<char> = Vec::new();
    let mut i: usize = 0;
    while i < s.len()
        invariant
            i <= s@.len(),
            r@ == lower_spec(s@.take(i as int)),
        decreases s.len() - i,
    {
        r.push(lower_ascii_char(s[i]));
        i = i + 1;
        assert(lower_spec(s@.take(i as int)) == lower_spec(s@.take(i - 1 as int)).push(
            lower_char(s@[i - 1 as int]),
        ));
    }
    assert(s@.take(s.len() as int) == s@);
    r
}

/// `p` occurs in `s` starting at index `i`.
pub open spec fn occurs_at(s: Seq<char>, p: Seq<char>, i: int) -> bool {
    0 <= i && i + p.len() <= s.len() && s.subrange(i, i + p.len()) == p
}

/// `str::contains` with a string pattern.
pub open spec fn contains_spec(s: Seq<char>, p: Seq<char>) -> bool {
    exists|i: int| occurs_at(s, p, i)
}

/// `str::starts_with`.
pub open spec fn starts_with_spec(s: Seq<char>, p: Seq<char>) -> bool {
    occurs_at(s, p, 0)
}

/// `str::ends_with`.
pub open spec fn ends_with_spec(s: Seq<char>, p: Seq<char>) -> bool {
    p.len() <= s.len() && occurs_at(s, p, s.len() - p.len())
}

/// `str::strip_prefix`.
pub open spec fn strip_prefix_spec(s: Seq<char>, p: Seq<char>) -> Option<Seq<char>> {
    if starts_with_spec(s, p) {
        Some(s.skip(p.len() as int))
    } else {
        None
    }
}

/// Whether `p` occurs in `s` at index `i`.
pub fn occurs_at_exec(s: &[char], p: &[char], i: usize) -> (b: bool)
    ensures
        b == occurs_at(s@, p@, i as int),
{
    if i > s.len() || p.len() > s.len() - i {
        return false;
    }
    let n = s.len();
    let mut k: usize = 0;
    while k < p.len()
        invariant
            n == s@.len(),
            i <= n,
            i + p@.len() <= n,
            k <= p@.len(),
            forall|m: int| 0 <= m < k ==> s@[i + m] == p@[m],
        decreases p.len() - k,
    {
        assert(i + k < s@.len());
        if s[i + k] != p[k] {
            assert(s@.subrange(i as int, i + p@.len())[k as int] != p@[k as int]);
            return false;
        }
        k = k + 1;
    }
    assert(s@.subrange(i as int, i + p@.len()) == p@);
    true
}

/// `str::contains` on characters.
pub fn contains_chars(s: &[char], p: &[char]) -> (b: bool)
    ensures
        b == contains_spec(s@, p@),
{
    if p.len() > s.len() {
        assert(forall|i: int| !occurs_at(s@, p@, i));
        return false;
    }
    if p.len() == 0 {
        assert(s@.subrange(0, 0) == p@);
        assert(occurs_at(s@, p@, 0));
        return true;
    }
    let n = s.len();
    let last = n - p.len();
    let mut i: usize = 0;
    while i <= last
        invariant
            n == s@.len(),
            p@.len() > 0,
            last + p@.len() == n,
            i <= last + 1,
            forall|j: int| 0 <= j < i ==> !occurs_at(s@, p@, j),
        decreases last + 1 - i,
    {
        if occurs_at_exec(s, p, i) {
            return true;
        }
        i = i + 1;
    }
    assert(forall|j: int| !occurs_at(s@, p@, j));
    false
}

/// `str::strip_prefix` on characters.
pub fn strip_prefix_chars(s: &[char], p: &[char]) -> (r: Option<Vec<char>>)
    ensures
        match r {
            Some(v) => strip_prefix_spec(s@, p@) == Some(v@),
            None => strip_prefix_spec(s@, p@) is None,
        },
{
    if occurs_at_exec(s, p, 0) {
        Some(slice_chars(s, p.len(), s.len()))
    } else {
        None
    }
}

/// `str::trim_end_matches` with a non-empty string pattern: removes the
/// pattern from the end as many times as it occurs there.
pub open spec fn trim_end_matches_spec(s: Seq<char>, p: Seq<char>) -> Seq<char>
    decreases s.len(),
{
    if p.len() > 0 && ends_with_spec(s, p) {
        trim_end_matches_spec(s.take(s.len() - p.len()), p)
    } else {
        s
    }
}

/// `str::trim_end_matches` on characters.
pub fn trim_end_matches_chars(s: &[char], p: &[char]) -> (r: Vec<char>)
    requires
        p@.len() > 0,
    ensures
        r@ == trim_end_matches_spec(s@, p@),
{
    let mut j: usize = s.len();
    assert(s@.take(j as int) == s@);
    while j >= p.len() && occurs_at_exec(s, p, j - p.len())
        invariant
            p@.len() > 0,
            j <= s@.len(),
            trim_end_matches_spec(s@, p@) == trim_end_matches_spec(s@.take(j as int), p@),
        decreases j,
    {
        let ghost t = s@.take(j as int);
        assert(t.subrange(j - p@.len(), j as int) == s@.subrange(j - p@.len(), j as int));
        assert(ends_with_spec(t, p@));
        assert(t.take(j - p@.len()) == s@.take(j - p@.len()));
        j = j - p.len();
    }
    let ghost t = s@.take(j as int);
    assert(j >= p@.len() ==> t.subrange(j - p@.len(), j as int) == s@.subrange(
        j - p@.len(),
        j as int,
    ));
    assert(!ends_with_spec(t, p@));
    slice_chars(s, 0, j)
}

/// The first index at or after `i` where `p` occurs in `s`.
pub open spec fn find_from(s: Seq<char>, p: Seq<char>, i: int) -> Option<int>
    decreases s.len() + 1 - i,
{
    if i < 0 || i + p.len() > s.len() {
        None
    } else if occurs_at(s, p, i) {
        Some(i)
    } else {
        find_from(s, p, i + 1)
    }
}

pub proof fn lemma_find_from_occurs(s: Seq<char>, p: Seq<char>, j: int)
    ensures
        find_from(s, p, j) matches Some(i) ==> occurs_at(s, p, i) && j <= i,
    decreases s.len() + 1 - j,
{
    if !(j < 0 || j + p.len() > s.len()) && !occurs_at(s, p, j) {
        lemma_find_from_occurs(s, p, j + 1);
    }
}

/// `str::replacen(p, to, 1)`: replaces the first occurrence of `p`, if any.
pub open spec fn replace_first_spec(s: Seq<char>, p: Seq<char>, to: Seq<char>) -> Seq<char> {
    match find_from(s, p, 0) {
        Some(i) => s.take(i) + to + s.skip(i + p.len()),
        None => s,
    }
}

/// The first occurrence of `p` in `s` at or after `from`.
pub fn find_from_exec(s: &[char], p: &[char], from: usize) -> (r: Option<usize>)
    ensures
        match r {
            Some(i) => find_from(s@, p@, from as int) == Some(i as int),
            None => find_from(s@, p@, from as int) is None,
        },
    decreases s.len() + 1 - from,
{
    if from > s.len() || p.len() > s.len() - from {
        return None;
    }
    if p.len() == 0 {
        assert(s@.subrange(from as int, from as int) == p@);
        return Some(from);
    }
    if occurs_at_exec(s, p, from) {
        Some(from)
    } else {
        find_from_exec(s, p, from + 1)
    }
}

/// `str::replacen(p, to, 1)` on characters.
pub fn replace_first_chars(s: &[char], p: &[char], to: &[char]) -> (r: Vec<char>)
    ensures
        r@ == replace_first_spec(s@, p@, to@),
{
    proof {
        lemma_find_from_occurs(s@, p@, 0);
    }
    match find_from_exec(s, p, 0) {
        Some(i) => {
            let mut r = slice_chars(s, 0, i);
            let mut k: usize = 0;
            while k < to.len()
                invariant
                    k <= to@.len(),
                    r@ == s@.take(i as int) + to@.take(k as int),
                decreases to.len() - k,
            {
                r.push(to[k]);
                k = k + 1;
                assert(to@.take(k as int) == to@.take(k - 1 as int).push(to@[k - 1 as int]));
            }
            assert(to@.take(to.len() as int) == to@);
            let n = s.len();
            assert(i + p@.len() <= n);
            let tail = slice_chars(s, i + p.len(), n);
            let mut m: usize = 0;
            let ghost head = r@;
            while m < tail.len()
                invariant
                    m <= tail@.len(),
                    r@ == head + tail@.take(m as int),
                decreases tail.len() - m,
            {
                r.push(tail[m]);
                m = m + 1;
                assert(tail@.take(m as int) == tail@.take(m - 1 as int).push(tail@[m - 1 as int]));
            }
            assert(tail@.take(tail.len() as int) == tail@);
            assert(tail@ == s@.skip(i + p@.len()));
            r
        },
        None => slice_chars(s, 0, s.len()),
    }
}

/// `str::replace(p, to)` with a non-empty pattern, scanning from index `i`:
/// non-overlapping occurrences are replaced from left to right.
pub open spec fn replace_from(s: Seq<char>, p: Seq<char>, to: Seq<char>, i: int) -> Seq<char>
    decreases s.len() - i,
{
    if i < 0 || i >= s.len() || p.len() == 0 {
        Seq::<char>::empty()
    } else if occurs_at(s, p, i) {
        to + replace_from(s, p, to, i + p.len())
    } else {
        seq![s[i]] + replace_from(s, p, to, i + 1)
    }
}

/// `str::replace(p, to)` with a non-empty pattern.
pub open spec fn replace_all_spec(s: Seq<char>, p: Seq<char>, to: Seq<char>) -> Seq<char> {
    replace_from(s, p, to, 0)
}

/// `str::replace` on characters, with a non-empty pattern.
pub fn replace_all_chars(s: &[char], p: &[char], to: &[char]) -> (r: Vec<char>)
    requires
        p@.len() > 0,
    ensures
        r@ == replace_all_spec(s@, p@, to@),
{
    let mut r: Vec<char> = Vec::new();
    let mut i: usize = 0;
    while i < s.len()
        invariant
            p@.len() > 0,
            i <= s@.len(),
            r@ + replace_from(s@, p@, to@, i as int) == replace_all_spec(s@, p@, to@),
        decreases s.len() - i,
    {
        if occurs_at_exec(s, p, i) {
            let ghost before = r@;
            let mut k: usize = 0;
            while k < to.len()
                invariant
                    k <= to@.len(),
                    r@ == before + to@.take(k as int),
                decreases to.len() - k,
            {
                r.push(to[k]);
                k = k + 1;
                assert(to@.take(k as int) == to@.take(k - 1 as int).push(to@[k - 1 as int]));
            }
            assert(to@.take(to.len() as int) == to@);
            assert(before + (to@ + replace_from(s@, p@, to@, i + p@.len())) == (before + to@)
                + replace_from(s@, p@, to@, i + p@.len()));
            i = i + p.len();
        } else {
            let ghost before = r@;
            r.push(s[i]);
            assert(before + (seq![s@[i as int]] + replace_from(s@, p@, to@, i + 1)) == before.push(
                s@[i as int],
            ) + replace_from(s@, p@, to@, i + 1));
            i = i + 1;
        }
    }
    assert(replace_from(s@, p@, to@, i as int) == Seq::<char>::empty());
    assert(r@ + Seq::<char>::empty() == r@);
    r
}

/// `str::split_whitespace`: the maximal runs of non-whitespace characters.
pub open spec fn words_spec(s: Seq<char>) -> Seq<Seq<char>>
    decreases s.len(),
{
    if s.len() == 0 {
        Seq::<Seq<char>>::empty()
    } else if is_ws(s.last()) {
        words_spec(s.drop_last())
    } else if s.len() >= 2 && !is_ws(s[s.len() - 2]) {
        let w = words_spec(s.drop_last());
        w.update(w.len() - 1, w.last().push(s.last()))
    } else {
        words_spec(s.drop_last()).push(seq![s.last()])
    }
}

pub proof fn lemma_words_nonempty_when_in_word(s: Seq<char>)
    ensures
        s.len() > 0 && !is_ws(s.last()) ==> words_spec(s).len() > 0,
    decreases s.len(),
{
    if s.len() > 0 {
        lemma_words_nonempty_when_in_word(s.drop_last());
    }
}

/// A word after whitespace (or at the start) is one more word.
pub proof fn lemma_words_after_gap(x: Seq<char>, w: Seq<char>)
    requires
        w.len() > 0,
        forall|i: int| 0 <= i < w.len() ==> !is_ws(#[trigger] w[i]),
        x.len() == 0 || is_ws(x.last()),
    ensures
        words_spec(x + w) == words_spec(x).push(w),
    decreases w.len(),
{
    let s = x + w;
    assert(s.last() == w.last());
    if w.len() == 1 {
        assert(s.drop_last() =~= x);
        assert(seq![s.last()] =~= w);
    } else {
        let w0 = w.drop_last();
        lemma_words_after_gap(x, w0);
        assert(s.drop_last() =~= x + w0);
        assert(s[s.len() - 2] == w[w.len() - 2]);
        assert(w0.push(s.last()) =~= w);
        assert(words_spec(x).push(w0).update(words_spec(x).len() as int, w) =~= words_spec(x).push(w));
    }
}

/// `str::split_whitespace` on characters.
pub fn words_chars(s: &[char]) -> (r: Vec<Vec<char>>)
    ensures
        views(r@) == words_spec(s@),
{
    let mut done: Vec<Vec<char>> = Vec::new();
    let mut cur: Vec<char> = Vec::new();
    let mut i: usize = 0;
    let n = s.len();
    assert(s@.take(0) == Seq::<char>::empty());
    while i < n
        invariant
            n == s@.len(),
            i <= n,
            cur@.len() == 0 ==> views(done@) == words_spec(s@.take(i as int)),
            cur@.len() > 0 ==> views(done@).push(cur@) == words_spec(s@.take(i as int)),
            cur@.len() > 0 ==> i > 0 && !is_ws(s@[i - 1]),
            cur@.len() == 0 ==> (i == 0 || is_ws(s@[i - 1])),
        decreases n - i,
    {
        let ghost t = s@.take(i + 1 as int);
        assert(t.drop_last() == s@.take(i as int));
        assert(t.last() == s@[i as int]);
        assert(i >= 1 ==> t[t.len() - 2] == s@[i - 1]);
        let c = s[i];
        let ghost old_done = done@;
        let ghost old_cur = cur@;
        if is_whitespace(c) {
            if cur.len() > 0 {
                let mut finished: Vec<char> = Vec::new();
                std::mem::swap(&mut cur, &mut finished);
                done.push(finished);
                assert(views(done@) == views(old_done).push(old_cur));
            }
        } else {
            cur.push(c);
            assert(views(done@) == views(old_done));
            proof {
                if old_cur.len() > 0 {
                    let w = views(old_done).push(old_cur);
                    assert(w.update(w.len() - 1, w.last().push(c)) == views(old_done).push(cur@));
                } else {
                    assert(i == 0 ==> t.len() == 1);
                    assert(cur@ =~= seq![c]);
                }
            }
        }
        i = i + 1;
    }
    assert(s@.take(n as int) == s@);
    if cur.len() > 0 {
        let ghost old_done = done@;
        let ghost old_cur = cur@;
        done.push(cur);
        assert(views(done@) == views(old_done).push(old_cur));
    }
    done
}

/// The decimal digit character for `d < 10`.
pub open spec fn digit_char(d: nat) -> char {
    ((d + 48) as u8) as char
}

/// The decimal representation of `n` (what `Display` prints for integers).
pub open spec fn decimal(n: nat) -> Seq<char>
    decreases n,
{
    if n < 10 {
        seq![digit_char(n)]
    } else {
        decimal(n / 10).push(digit_char(n % 10))
    }
}

/// The decimal representation of `n`.
pub fn decimal_chars(n: u64) -> (r: Vec<char>)
    ensures
        r@ == decimal(n as nat),
    decreases n,
{
    let d: u8 = (n % 10) as u8;
    let c: char = (d + 48) as char;
    if n < 10 {
        let mut r: Vec<char> = Vec::new();
        r.push(c);
        r
    } else {
        let mut r = decimal_chars(n / 10);
        r.push(c);
        r
    }
}

/// An ASCII decimal digit.
pub open spec fn is_digit(c: char) -> bool {
    48 <= (c as u32) <= 57
}

/// The value of a run of decimal digits.
pub open spec fn digits_value(s: Seq<char>) -> nat
    decreases s.len(),
{
    if s.len() == 0 {
        0
    } else {
        digits_value(s.drop_last()) * 10 + ((s.last() as u32) - 48) as nat
    }
}

/// Every character is an ASCII decimal digit.
pub open spec fn all_digits(d: Seq<char>) -> bool {
    forall|i: int| 0 <= i < d.len() ==> is_digit(#[trigger] d[i])
}

/// The decimal representation of `n` is a non-empty run of digits without
/// a leading zero, whose value is `n`.
pub proof fn lemma_decimal_reads_back(n: nat)
    ensures
        decimal(n).len() > 0,
        all_digits(decimal(n)),
        digits_value(decimal(n)) == n,
        decimal(n).len() > 1 ==> decimal(n)[0] != '0',
    decreases n,
{
    if n < 10 {
        let c = digit_char(n);
        assert((c as u32) == n + 48);
        assert(decimal(n) == seq![c]);
        assert(decimal(n).drop_last() =~= Seq::<char>::empty());
        assert(digits_value(Seq::<char>::empty()) == 0);
        assert(decimal(n).last() == c);
    } else {
        lemma_decimal_reads_back(n / 10);
        let c = digit_char(n % 10);
        assert((c as u32) == n % 10 + 48);
        let d = decimal(n);
        assert(d.drop_last() == decimal(n / 10));
        assert(d.last() == c);
        assert(digits_value(d) == digits_value(decimal(n / 10)) * 10 + ((c as u32) - 48) as nat);
        assert((n / 10) * 10 + n % 10 == n);
        assert(d[0] == decimal(n / 10)[0]);
        assert forall|i: int| 0 <= i < d.len() implies is_digit(#[trigger] d[i]) by {
            if i < d.len() - 1 {
                assert(d[i] == decimal(n / 10)[i]);
            }
        }
        if decimal(n / 10).len() == 1 {
            assert(decimal(n / 10)[0] != '0') by {
                if decimal(n / 10)[0] == '0' {
                    let t = decimal(n / 10);
                    assert(t.drop_last() =~= Seq::<char>::empty());
                    assert(digits_value(Seq::<char>::empty()) == 0);
                    assert(t.last() == '0');
                    assert(digits_value(t) == 0);
                }
            }
        }
    }
}

/// `u32::from_str`: an optional `+`, then one or more decimal digits whose
/// value fits in a `u32`.
pub open spec fn parse_u32_spec(s: Seq<char>) -> Option<u32> {
    let d = if s.len() > 0 && s[0] == '+' {
        s.drop_first()
    } else {
        s
    };
    if d.len() > 0 && all_digits(d) && digits_value(d) <= u32::MAX {
        Some(digits_value(d) as u32)
    } else {
        None
    }
}

/// `str::parse::<u32>().ok()` on characters.
pub fn parse_u32_chars(s: &[char]) -> (r: Option<u32>)
    ensures
        r == parse_u32_spec(s@),
{
    let n = s.len();
    let start: usize = if n > 0 && s[0] == '+' {
        1
    } else {
        0
    };
    let ghost d = if s@.len() > 0 && s@[0] == '+' {
        s@.drop_first()
    } else {
        s@
    };
    assert(d == s@.skip(start as int));
    if start == n {
        return None;
    }
    let mut acc: u64 = 0;
    let mut over = false;
    let mut i: usize = start;
    assert(d.take(0) == Seq::<char>::empty());
    while i < n
        invariant
            n == s@.len(),
            start <= i <= n,
            d == s@.skip(start as int),
            d == (if s@.len() > 0 && s@[0] == '+' { s@.drop_first() } else { s@ }),
            forall|k: int| 0 <= k < i - start ==> is_digit(#[trigger] d[k]),
            !over ==> acc == digits_value(d.take(i - start)) && acc <= u32::MAX,
            over ==> digits_value(d.take(i - start)) > u32::MAX,
        decreases n - i,
    {
        let c = s[i];
        let u = c as u32;
        assert(d[i - start] == c);
        if !(48 <= u && u <= 57) {
            assert(!is_digit(d[i - start]));
            assert(!all_digits(d));
            return None;
        }
        let ghost t = d.take(i - start + 1);
        assert(t.drop_last() == d.take(i - start));
        assert(t.last() == c);
        let dv: u64 = (u - 48) as u64;
        if !over {
            acc = acc * 10 + dv;
            if acc > 0xffff_ffff {
                over = true;
            }
        } else {
            let ghost prev = digits_value(d.take(i - start));
            assert(prev * 10 + dv >= prev) by (nonlinear_arith)
                requires
                    prev >= 0,
                    dv >= 0,
            ;
        }
        i = i + 1;
    }
    assert(d.take(n - start) == d);
    if over {
        None
    } else {
        Some(acc as u32)
    }
}

/// Strict lexicographic order on character sequences, comparing code points
/// (the order of `String`'s `Ord`, which UTF-8 byte order preserves).
pub open spec fn lex_lt(a: Seq<char>, b: Seq<char>) -> bool
    decreases a.len(),
{
    if a.len() == 0 {
        b.len() > 0
    } else if b.len() == 0 {
        false
    } else if a[0] != b[0] {
        (a[0] as u32) < (b[0] as u32)
    } else {
        lex_lt(a.drop_first(), b.drop_first())
    }
}

pub proof fn lemma_lex_irreflexive(a: Seq<char>)
    ensures
        !lex_lt(a, a),
    decreases a.len(),
{
    if a.len() > 0 {
        lemma_lex_irreflexive(a.drop_first());
    }
}

pub proof fn lemma_lex_asymmetric(a: Seq<char>, b: Seq<char>)
    ensures
        lex_lt(a, b) ==> !lex_lt(b, a),
    decreases a.len(),
{
    if a.len() > 0 && b.len() > 0 && a[0] == b[0] {
        lemma_lex_asymmetric(a.drop_first(), b.drop_first());
    }
}

pub proof fn lemma_lex_transitive(a: Seq<char>, b: Seq<char>, c: Seq<char>)
    ensures
        lex_lt(a, b) && lex_lt(b, c) ==> lex_lt(a, c),
    decreases a.len(),
{
    if a.len() > 0 && b.len() > 0 && c.len() > 0 {
        lemma_lex_transitive(a.drop_first(), b.drop_first(), c.drop_first());
    }
}

pub proof fn lemma_lex_total(a: Seq<char>, b: Seq<char>)
    ensures
        a != b ==> lex_lt(a, b) || lex_lt(b, a),
    decreases a.len(),
{
    if a.len() > 0 && b.len() > 0 && a[0] == b[0] {
        lemma_lex_total(a.drop_first(), b.drop_first());
        if a.drop_first() == b.drop_first() {
            assert(a =~= seq![a[0]] + a.drop_first());
            assert(b =~= seq![b[0]] + b.drop_first());
        }
    } else if a.len() == 0 && b.len() == 0 {
        assert(a =~= b);
    } else if a.len() > 0 && b.len() > 0 {
        if (a[0] as u32) == (b[0] as u32) {
            vstd::utf8::char_u32_cast(a[0], a[0] as u32);
            vstd::utf8::char_u32_cast(b[0], b[0] as u32);
        }
    }
}

/// Whether `a` sorts strictly before `b` (`String`'s `<`).
pub fn lex_less(a: &[char], b: &[char]) -> (r: bool)
    ensures
        r == lex_lt(a@, b@),
{
    let mut i: usize = 0;
    assert(a@.skip(0) == a@);
    assert(b@.skip(0) == b@);
    while i < a.len() && i < b.len() && a[i] == b[i]
        invariant
            i <= a@.len(),
            i <= b@.len(),
            lex_lt(a@, b@) == lex_lt(a@.skip(i as int), b@.skip(i as int)),
        decreases a.len() - i,
    {
        assert(a@.skip(i as int).drop_first() == a@.skip(i + 1 as int));
        assert(b@.skip(i as int).drop_first() == b@.skip(i + 1 as int));
        i = i + 1;
    }
    if i == a.len() {
        i < b.len()
    } else if i == b.len() {
        false
    } else {
        let x = a[i];
        let y = b[i];
        (x as u32) < (y as u32)
    }
}

/// Whether string `a` sorts strictly before string `b`.
pub fn str_less(a: &str, b: &str) -> (r: bool)
    ensures
        r == lex_lt(a@, b@),
{
    let va = chars_of(a);
    let vb = chars_of(b);
    lex_less(&va, &vb)
}

/// The first `n` characters (`s.chars().take(n)`).
pub open spec fn take_spec(s: Seq<char>, n: nat) -> Seq<char> {
    if n <= s.len() {
        s.take(n as int)
    } else {
        s
    }
}

/// The first `n` characters of a string.
pub fn take_chars(s: &str, n: usize) -> (r: String)
    ensures
        r@ == take_spec(s@, n as nat),
{
    let v = chars_of(s);
    let m = if n <= v.len() {
        n
    } else {
        v.len()
    };
    let t = slice_chars(&v, 0, m);
    assert(v@.subrange(0, v@.len() as int) == v@);
    string_of(&t)
}

/// Appends the characters `t` to `v`.
pub fn append_chars(v: &mut Vec<char>, t: &[char])
    ensures
        final(v)@ == old(v)@ + t@,
{
    let ghost start = v@;
    let mut k: usize = 0;
    while k < t.len()
        invariant
            k <= t@.len(),
            v@ == start + t@.take(k as int),
        decreases t.len() - k,
    {
        v.push(t[k]);
        k = k + 1;
        assert(t@.take(k as int) == t@.take(k - 1 as int).push(t@[k - 1 as int]));
    }
    assert(t@.take(t.len() as int) == t@);
}

/// Appends the characters of the string `t` to `v`.
pub fn append_str(v: &mut Vec<char>, t: &str)
    ensures
        final(v)@ == old(v)@ + t@,
{
    let c = chars_of(t);
    append_chars(v, &c);
}

/// In valid UTF-8, the byte after a one-byte character starts a character.
pub proof fn lemma_boundary_after_ascii(bytes: Seq<u8>, i: int)
    requires
        valid_utf8(bytes),
        0 <= i < bytes.len(),
        is_char_boundary(bytes, i),
        is_leading_byte_width_1(bytes[i]),
    ensures
        is_char_boundary(bytes, i + 1),
    decreases bytes.len(),
{
    let p = pop_first_scalar(bytes);
    let l = length_of_first_scalar(bytes);
    assert(valid_utf8(p));
    assert(p.len() < bytes.len());
    if i == 0 {
        assert(l == 1);
        assert(is_char_boundary(p, 0));
    } else {
        assert(is_char_boundary(p, i - l));
        assert(p[i - l] == bytes[i]);
        lemma_boundary_after_ascii(p, i - l);
    }
}

/// The UTF-8 encoding of `ts` has at least 16 bytes and a `T` at byte 10:
/// the shape of an ISO 8601 timestamp.
pub open spec fn iso_shaped(ts: Seq<char>) -> bool {
    let b = encode_utf8(ts);
    b.len() >= 16 && b[10] == 0x54
}

/// Slicing bytes 11..16 of an ISO-shaped text needs byte 16 to start a
/// character; on any other text the slicing would panic.
pub open spec fn humanize_iso_ok(ts: Seq<char>) -> bool {
    iso_shaped(ts) ==> is_char_boundary(encode_utf8(ts), 16)
}

/// An ISO 8601 timestamp `YYYY-MM-DDTHH:MM...` becomes `YYYY-MM-DD HH:MM`
/// (bytes 0..10, a space, bytes 11..16); any other text is kept.
pub open spec fn humanize_iso_spec(ts: Seq<char>) -> Seq<char> {
    let b = encode_utf8(ts);
    if iso_shaped(ts) {
        decode_utf8(b.subrange(0, 10)) + seq![' '] + decode_utf8(b.subrange(11, 16))
    } else {
        ts
    }
}

/// Whether [`humanize_iso`] can shorten `ts` without slicing inside a
/// character (see [`humanize_iso_ok`]).
pub fn can_humanize(ts: &str) -> (b: bool)
    ensures
        b == humanize_iso_ok(ts@),
{
    let b = ts.as_bytes();
    let ghost bytes = ts.spec_bytes();
    assert(valid_utf8(bytes));
    if b.len() >= 16 && b[10] == 0x54u8 {
        if b.len() == 16 {
            proof {
                is_char_boundary_start_end_of_seq(bytes);
            }
            true
        } else {
            proof {
                is_char_boundary_iff_not_is_continuation_byte(bytes, 16);
            }
            !(0x80u8 <= b[16] && b[16] <= 0xbfu8)
        }
    } else {
        true
    }
}

/// Shortens an ISO 8601 timestamp to date and minutes.
pub fn humanize_iso(ts: &str) -> (r: String)
    requires
        humanize_iso_ok(ts@),
    ensures
        r@ == humanize_iso_spec(ts@),
{
    let b = ts.as_bytes();
    if b.len() >= 16 && b[10] == 0x54u8 {
        let ghost bytes = ts.spec_bytes();
        assert(valid_utf8(bytes));
        let (first, _) = ts.split_at(16);
        let ghost fb = first.spec_bytes();
        assert(fb == bytes.subrange(0, 16));
        assert(valid_utf8(fb));
        assert(fb[10] == 0x54);
        proof {
            is_char_boundary_iff_not_is_continuation_byte(fb, 10);
        }
        let (head, rest) = first.split_at(10);
        let ghost rb = rest.spec_bytes();
        assert(rb == fb.subrange(10, 16));
        assert(valid_utf8(rb));
        assert(rb[0] == 0x54);
        proof {
            lemma_boundary_after_ascii(rb, 0);
        }
        let (_t, mid) = rest.split_at(1);
        assert(head.spec_bytes() == bytes.subrange(0, 10));
        assert(mid.spec_bytes() == bytes.subrange(11, 16));
        assert(head@ == decode_utf8(head.spec_bytes()));
        assert(mid@ == decode_utf8(mid.spec_bytes()));
        let mut v = chars_of(head);
        v.push(' ');
        append_str(&mut v, mid);
        string_of(&v)
    } else {
        ts.to_owned()
    }
}

} // verus!
