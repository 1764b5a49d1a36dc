//! The lists the interface shows: their items, how they loaded, their
//! focus and their selection, and how a selection moves.
use vstd::prelude::*;
use crate::text::{chars_of, contains_chars, contains_spec, lower_chars, lower_spec};
use crate::types::{OrgMember, RepoInfo};

verus! {

/// A list of the interface.
#[derive(Debug)]
pub struct Panel<T> {
    pub items: Vec<T>,
    /// Why loading the list failed, if it did.
    pub err: Option<String>,
    /// An answer to the list's query has arrived.
    pub loaded: bool,
    /// The list has the keyboard focus.
    pub focused: bool,
    pub selected: Option<usize>,
}

/// A searchable list of the Org tab.
#[derive(Debug)]
pub struct FilterList<T> {
    pub items: Vec<T>,
    pub err: Option<String>,
    pub loaded: bool,
    /// The search text typed so far.
    pub filter: Vec<char>,
    /// Keys go to the search text.
    pub filtering: bool,
    /// A position among the items that match the filter.
    pub selected: Option<usize>,
}

/// `cur + delta` kept within `0..len` (for `len > 0`).
pub open spec fn clamp_index(cur: int, delta: int, len: int) -> int {
    let n = cur + delta;
    if n < 0 {
        0
    } else if n >= len {
        len - 1
    } else {
        n
    }
}

/// A selection moved by `delta` within a non-empty list of `len` items;
/// no selection counts as the first item.
pub open spec fn moved(sel: Option<usize>, len: nat, delta: int) -> Option<usize> {
    let cur: int = match sel {
        Some(x) => x as int,
        None => 0,
    };
    Some(clamp_index(cur, delta, len as int) as usize)
}

/// A selection after a move that leaves the selection of an empty list
/// alone.
pub open spec fn moved_or_kept(sel: Option<usize>, len: nat, delta: int) -> Option<usize> {
    if len == 0 {
        sel
    } else {
        moved(sel, len, delta)
    }
}

/// A selection after a move that clears the selection of an empty list.
pub open spec fn moved_or_cleared(sel: Option<usize>, len: nat, delta: int) -> Option<usize> {
    if len == 0 {
        None
    } else {
        moved(sel, len, delta)
    }
}

/// The selection after focusing a list: the first item if none was
/// selected.
pub open spec fn first_if_none(sel: Option<usize>) -> Option<usize> {
    match sel {
        Some(x) => Some(x),
        None => Some(0),
    }
}

/// The selection, if it points into a list of `len` items.
pub open spec fn valid_index(sel: Option<usize>, len: nat) -> Option<usize> {
    match sel {
        Some(i) => if i < len {
            Some(i)
        } else {
            None
        },
        None => None,
    }
}

/// The item at a selection, if the selection is within the list.
pub open spec fn selected_item<T>(s: Seq<T>, sel: Option<usize>) -> Option<T> {
    match valid_index(sel, s.len()) {
        Some(i) => Some(s[i as int]),
        None => None,
    }
}

/// Moves a selection within a non-empty list of `len` items.
pub fn move_within(sel: Option<usize>, len: usize, delta: i32) -> (r: Option<usize>)
    requires
        0 < len,
    ensures
        r == moved(sel, len as nat, delta as int),
        r matches Some(x) && x < len,
{
    let cur: i128 = match sel {
        Some(x) => x as i128,
        None => 0,
    };
    let next: i128 = cur + delta as i128;
    let max: i128 = len as i128 - 1;
    if next < 0 {
        Some(0)
    } else if next > max {
        Some(len - 1)
    } else {
        Some(next as usize)
    }
}

/// The selection if it points into a list of `len` items.
pub fn checked_index(sel: Option<usize>, len: usize) -> (r: Option<usize>)
    ensures
        r == valid_index(sel, len as nat),
{
    match sel {
        Some(i) => if i < len {
            Some(i)
        } else {
            None
        },
        None => None,
    }
}

/// A list as it is after focusing it: focused, with its first item
/// selected if nothing was; an empty list takes no focus.
pub open spec fn focused_panel<T>(p: Panel<T>) -> Panel<T> {
    if p.items@.len() == 0 {
        p
    } else {
        Panel { focused: true, selected: first_if_none(p.selected), ..p }
    }
}

/// A list with its selection moved by `delta`, an empty one untouched.
pub open spec fn stepped_kept<T>(p: Panel<T>, delta: int) -> Panel<T> {
    Panel { selected: moved_or_kept(p.selected, p.items@.len(), delta), ..p }
}

/// A list with its selection moved by `delta`, an empty one unselected.
pub open spec fn stepped_cleared<T>(p: Panel<T>, delta: int) -> Panel<T> {
    Panel { selected: moved_or_cleared(p.selected, p.items@.len(), delta), ..p }
}

/// A list after the answer to its query: on success the new items, no
/// error, and (where `select_first` asks) the first item selected if
/// nothing was; on failure the error, the items kept.
pub open spec fn filled<T>(p: Panel<T>, r: Result<Vec<T>, String>, select_first: bool) -> Panel<T> {
    match r {
        Ok(items) => Panel {
            items,
            loaded: true,
            err: None,
            selected: if select_first && items@.len() > 0 && p.selected is None {
                Some(0)
            } else {
                p.selected
            },
            ..p
        },
        Err(e) => Panel { loaded: true, err: Some(e), ..p },
    }
}

impl<T> Panel<T> {
    /// An empty list that has not loaded.
    pub fn new() -> (p: Self)
        ensures
            p.items@.len() == 0,
            p.err is None,
            !p.loaded,
            !p.focused,
            p.selected is None,
    {
        Panel { items: Vec::new(), err: None, loaded: false, focused: false, selected: None }
    }

    /// A list read at once: its items, or the error that stands in their
    /// place.
    pub fn from_result(r: Result<Vec<T>, String>) -> (p: Self)
        ensures
            p.loaded,
            !p.focused,
            p.selected is None,
            match r {
                Ok(items) => p.items == items && p.err is None,
                Err(e) => p.items@.len() == 0 && p.err == Some(e),
            },
    {
        match r {
            Ok(items) => Panel { items, err: None, loaded: true, focused: false, selected: None },
            Err(e) => Panel {
                items: Vec::new(),
                err: Some(e),
                loaded: true,
                focused: false,
                selected: None,
            },
        }
    }

    /// Gives the list the focus (see [`focused_panel`]).
    pub fn focus(&mut self)
        ensures
            *final(self) == focused_panel(*old(self)),
    {
        if self.items.len() > 0 {
            self.focused = true;
            if self.selected.is_none() {
                self.selected = Some(0);
            }
        }
    }

    /// Moves the selection; an empty list is left as it is.
    pub fn step_kept(&mut self, delta: i32)
        ensures
            *final(self) == stepped_kept(*old(self), delta as int),
    {
        let n = self.items.len();
        if n > 0 {
            self.selected = move_within(self.selected, n, delta);
        }
    }

    /// Moves the selection; an empty list loses it.
    pub fn step_cleared(&mut self, delta: i32)
        ensures
            *final(self) == stepped_cleared(*old(self), delta as int),
    {
        let n = self.items.len();
        if n > 0 {
            self.selected = move_within(self.selected, n, delta);
        } else {
            self.selected = None;
        }
    }

    /// The selected position, if it points at an item.
    pub fn selected_index(&self) -> (r: Option<usize>)
        ensures
            r == valid_index(self.selected, self.items@.len()),
            r matches Some(i) ==> i < self.items@.len(),
    {
        checked_index(self.selected, self.items.len())
    }

    /// Takes in the answer to the list's query (see [`filled`]).
    pub fn fill(&mut self, r: Result<Vec<T>, String>, select_first: bool)
        ensures
            *final(self) == filled(*old(self), r, select_first),
    {
        match r {
            Ok(items) => {
                let had = self.selected.is_some();
                let any = items.len() > 0;
                self.items = items;
                self.loaded = true;
                self.err = None;
                if select_first && any && !had {
                    self.selected = Some(0);
                }
            },
            Err(e) => {
                self.loaded = true;
                self.err = Some(e);
            },
        }
    }
}

/// A repository matches a search text (already lower-cased) when the text
/// is empty or occurs in its lower-cased name, full name or description.
pub open spec fn repo_matches(r: RepoInfo, q: Seq<char>) -> bool {
    ||| q.len() == 0
    ||| contains_spec(lower_spec(r.name@), q)
    ||| contains_spec(lower_spec(r.full_name@), q)
    ||| (r.description matches Some(d) && contains_spec(lower_spec(d@), q))
}

/// A member matches a search text (already lower-cased) when the text is
/// empty or occurs in the lower-cased login.
pub open spec fn member_matches(m: OrgMember, q: Seq<char>) -> bool {
    q.len() == 0 || contains_spec(lower_spec(m.login@), q)
}

/// The positions of the repositories that match `filter`, in order.
pub open spec fn filtered_repos(repos: Seq<RepoInfo>, filter: Seq<char>) -> Seq<usize>
    decreases repos.len(),
{
    if repos.len() == 0 {
        Seq::empty()
    } else {
        let rest = filtered_repos(repos.drop_last(), filter);
        if repo_matches(repos.last(), lower_spec(filter)) {
            rest.push((repos.len() - 1) as usize)
        } else {
            rest
        }
    }
}

/// The positions of the members that match `filter`, in order.
pub open spec fn filtered_members(members: Seq<OrgMember>, filter: Seq<char>) -> Seq<usize>
    decreases members.len(),
{
    if members.len() == 0 {
        Seq::empty()
    } else {
        let rest = filtered_members(members.drop_last(), filter);
        if member_matches(members.last(), lower_spec(filter)) {
            rest.push((members.len() - 1) as usize)
        } else {
            rest
        }
    }
}

/// Every filtered position is a position of the list.
pub proof fn lemma_filtered_repos_positions(repos: Seq<RepoInfo>, filter: Seq<char>)
    ensures
        filtered_repos(repos, filter).len() <= repos.len(),
        forall|i: int|
            0 <= i < filtered_repos(repos, filter).len() ==> #[trigger] filtered_repos(repos, filter)[i]
                < repos.len(),
    decreases repos.len(),
{
    if repos.len() > 0 {
        lemma_filtered_repos_positions(repos.drop_last(), filter);
    }
}

/// Every filtered position is a position of the list.
pub proof fn lemma_filtered_members_positions(members: Seq<OrgMember>, filter: Seq<char>)
    ensures
        filtered_members(members, filter).len() <= members.len(),
        forall|i: int|
            0 <= i < filtered_members(members, filter).len() ==> #[trigger] filtered_members(
                members,
                filter,
            )[i] < members.len(),
    decreases members.len(),
{
    if members.len() > 0 {
        lemma_filtered_members_positions(members.drop_last(), filter);
    }
}

fn contains_lower(s: &str, q: &[char]) -> (b: bool)
    ensures
        b == contains_spec(lower_spec(s@), q@),
{
    let v = chars_of(s);
    let l = lower_chars(&v);
    contains_chars(&l, q)
}

/// The positions of the repositories that match `filter`.
pub fn filter_repos(repos: &Vec<RepoInfo>, filter: &[char]) -> (r: Vec<usize>)
    ensures
        r@ == filtered_repos(repos@, filter@),
{
    let q = lower_chars(filter);
    let mut r: Vec<usize> = Vec::new();
    let mut i: usize = 0;
    assert(repos@.take(0) == Seq::<RepoInfo>::empty());
    while i < repos.len()
        invariant
            i <= repos@.len(),
            q@ == lower_spec(filter@),
            r@ == filtered_repos(repos@.take(i as int), filter@),
        decreases repos.len() - i,
    {
        let ghost t = repos@.take(i + 1 as int);
        assert(t.drop_last() == repos@.take(i as int));
        assert(t.last() == repos@[i as int]);
        let x = &repos[i];
        let m = q.len() == 0 || contains_lower(x.name.as_str(), &q) || contains_lower(
            x.full_name.as_str(),
            &q,
        ) || match &x.description {
            Some(d) => contains_lower(d.as_str(), &q),
            None => false,
        };
        assert(m == repo_matches(*x, q@));
        if m {
            r.push(i);
        }
        i = i + 1;
    }
    assert(repos@.take(repos.len() as int) == repos@);
    r
}

/// The positions of the members that match `filter`.
pub fn filter_members(members: &Vec<OrgMember>, filter: &[char]) -> (r: Vec<usize>)
    ensures
        r@ == filtered_members(members@, filter@),
{
    let q = lower_chars(filter);
    let mut r: Vec<usize> = Vec::new();
    let mut i: usize = 0;
    assert(members@.take(0) == Seq::<OrgMember>::empty());
    while i < members.len()
        invariant
            i <= members@.len(),
            q@ == lower_spec(filter@),
            r@ == filtered_members(members@.take(i as int), filter@),
        decreases members.len() - i,
    {
        let ghost t = members@.take(i + 1 as int);
        assert(t.drop_last() == members@.take(i as int));
        assert(t.last() == members@[i as int]);
        let m = q.len() == 0 || contains_lower(members[i].login.as_str(), &q);
        if m {
            r.push(i);
        }
        i = i + 1;
    }
    assert(members@.take(members.len() as int) == members@);
    r
}

/// The selection after the search text changes: the first match, if any.
pub open spec fn reset_sel(indices: Seq<usize>) -> Option<usize> {
    if indices.len() == 0 {
        None
    } else {
        Some(0)
    }
}

/// A text without its last character, if it has one.
pub open spec fn popped(s: Seq<char>) -> Seq<char> {
    if s.len() > 0 {
        s.drop_last()
    } else {
        s
    }
}

/// A searchable list after the answer to its query: on success the new
/// items and the first match selected if nothing was; on failure the error.
pub open spec fn filled_list<T>(l: FilterList<T>, r: Result<Vec<T>, String>) -> FilterList<T> {
    match r {
        Ok(items) => FilterList {
            items,
            loaded: true,
            err: None,
            selected: if items@.len() > 0 && l.selected is None {
                Some(0)
            } else {
                l.selected
            },
            ..l
        },
        Err(e) => FilterList { loaded: true, err: Some(e), ..l },
    }
}

impl<T> FilterList<T> {
    /// An empty list with no search text, not loaded.
    pub fn new() -> (l: Self)
        ensures
            l.items@.len() == 0,
            l.err is None,
            !l.loaded,
            l.filter@.len() == 0,
            !l.filtering,
            l.selected is None,
    {
        FilterList {
            items: Vec::new(),
            err: None,
            loaded: false,
            filter: Vec::new(),
            filtering: false,
            selected: None,
        }
    }

    /// Takes in the answer to the list's query (see [`filled_list`]).
    pub fn fill(&mut self, r: Result<Vec<T>, String>)
        ensures
            *final(self) == filled_list(*old(self), r),
    {
        match r {
            Ok(items) => {
                let had = self.selected.is_some();
                let any = items.len() > 0;
                self.items = items;
                self.loaded = true;
                self.err = None;
                if any && !had {
                    self.selected = Some(0);
                }
            },
            Err(e) => {
                self.loaded = true;
                self.err = Some(e);
            },
        }
    }
}

} // verus!
