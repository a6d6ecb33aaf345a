//! The cursor over the results of a file search that the scripts walk with
//! `GetFileName` and `NextFile`.

use vstd::prelude::*;

verus! {

/// A file search in progress: its results and the position of the current one.
pub struct FileSearchHandle<T> {
    entries: Vec<T>,
    index: usize,
}

impl<T> View for FileSearchHandle<T> {
    type V = (Seq<T>, nat);

    closed spec fn view(&self) -> (Seq<T>, nat) {
        (self.entries@, self.index as nat)
    }
}

impl<T> FileSearchHandle<T> {
    /// A search positioned at its first result; none when nothing was found.
    pub fn new(entries: Vec<T>) -> (h: Option<FileSearchHandle<T>>)
        ensures
            entries@.len() == 0 ==> h is None,
            entries@.len() > 0 ==> (h matches Some(h) && h@ == (entries@, 0nat)),
    {
        if entries.len() == 0 {
            None
        } else {
            Some(FileSearchHandle { entries, index: 0 })
        }
    }

    /// The current result, if the search has not run past the last one.
    pub fn current(&self) -> (r: Option<&T>)
        ensures
            self@.1 < self@.0.len() ==> r == Some(&self@.0[self@.1 as int]),
            self@.1 >= self@.0.len() ==> r is None,
    {
        if self.index < self.entries.len() {
            Some(&self.entries[self.index])
        } else {
            None
        }
    }

    /// The position of the current result.
    pub fn position(&self) -> (r: usize)
        ensures
            r == self@.1,
    {
        self.index
    }

    /// Move to the next result; whether there is one.
    pub fn next_file(&mut self) -> (more: bool)
        requires
            old(self)@.1 < usize::MAX,
        ensures
            final(self)@ == next_view(old(self)@),
            more == (final(self)@.1 < final(self)@.0.len()),
    {
        self.index = self.index + 1;
        self.index < self.entries.len()
    }
}

/// The search position after one move to the next result.
pub open spec fn next_view<T>(v: (Seq<T>, nat)) -> (Seq<T>, nat) {
    (v.0, v.1 + 1)
}

/// The result at the search position, if it has not run past the last one.
pub open spec fn current_of<T>(v: (Seq<T>, nat)) -> Option<T> {
    if v.1 < v.0.len() {
        Some(v.0[v.1 as int])
    } else {
        None
    }
}

/// The search after `k` moves on from `v`.
pub open spec fn walk<T>(v: (Seq<T>, nat), k: nat) -> (Seq<T>, nat)
    decreases k,
{
    if k == 0 {
        v
    } else {
        next_view(walk(v, (k - 1) as nat))
    }
}

/// Walking a new search: after `k` moves it stands at result `k`, which it
/// gives while there is one and nothing after the last; the `k`-th move
/// reports whether result `k` exists.
pub proof fn lemma_search_walk<T>(entries: Seq<T>, k: nat)
    ensures
        walk((entries, 0nat), k) == (entries, k),
        current_of(walk((entries, 0nat), k)) == if k < entries.len() {
            Some(entries[k as int])
        } else {
            None
        },
        k >= 1 ==> (walk((entries, 0nat), k).1 < walk((entries, 0nat), k).0.len()) == (k
            < entries.len()),
    decreases k,
{
    if k > 0 {
        lemma_search_walk(entries, (k - 1) as nat);
    }
}

} // verus!
