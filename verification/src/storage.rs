//! Statistics of the image store, computed from a listing of its directory.

use vstd::prelude::*;
use crate::messages::StorageInfo;
use crate::sql::views;

verus! {

/// What the listing of the image directory tells of one entry.
pub struct ListedEntry {
    /// Whether the entry is a regular file (following links).
    pub is_file: bool,
    /// Its file name, where that is valid UTF-8.
    pub name: Option<String>,
    /// Its size in bytes, where its metadata could be read.
    pub size: Option<u64>,
}

/// An entry counts as a stored image when it is a file with a UTF-8 name.
pub open spec fn counted(e: ListedEntry) -> bool {
    e.is_file && e.name is Some
}

/// The names of the counted entries, in listing order.
pub open spec fn counted_names(entries: Seq<ListedEntry>) -> Seq<Seq<char>>
    decreases entries.len(),
{
    if entries.len() == 0 {
        seq![]
    } else {
        let rest = counted_names(entries.drop_last());
        let e = entries.last();
        if counted(e) {
            rest.push(e.name->0@)
        } else {
            rest
        }
    }
}

/// The sum of the sizes of the counted entries whose size is known.
pub open spec fn counted_size(entries: Seq<ListedEntry>) -> nat
    decreases entries.len(),
{
    if entries.len() == 0 {
        0
    } else {
        let rest = counted_size(entries.drop_last());
        let e = entries.last();
        if counted(e) && e.size is Some {
            rest + (e.size->0 as nat)
        } else {
            rest
        }
    }
}

proof fn lemma_counted_size_prefix(entries: Seq<ListedEntry>, i: int)
    requires
        0 <= i <= entries.len(),
    ensures
        counted_size(entries.take(i)) <= counted_size(entries),
    decreases entries.len() - i,
{
    if i < entries.len() {
        lemma_counted_size_prefix(entries, i + 1);
        assert(entries.take(i + 1).drop_last() =~= entries.take(i));
    } else {
        assert(entries.take(i) =~= entries);
    }
}

/// Whether the sizes of the counted entries add up to at most `u64::MAX`.
pub fn storage_size_fits(entries: &Vec<ListedEntry>) -> (fits: bool)
    ensures
        fits == (counted_size(entries@) <= u64::MAX),
{
    let n = entries.len();
    let mut total: u64 = 0;
    let mut i: usize = 0;
    while i < n
        invariant
            n == entries@.len(),
            i <= n,
            total == counted_size(entries@.take(i as int)),
        decreases n - i,
    {
        assert(entries@.take(i + 1).drop_last() =~= entries@.take(i as int));
        let e = &entries[i];
        if e.is_file && e.name.is_some() {
            if let Some(size) = e.size {
                match total.checked_add(size) {
                    Some(t) => {
                        total = t;
                    },
                    None => {
                        proof {
                            lemma_counted_size_prefix(entries@, i + 1);
                        }
                        return false;
                    },
                }
            }
        }
        i = i + 1;
    }
    assert(entries@.take(n as int) =~= entries@);
    true
}

/// Summarises the listing: the names of the files in listing order, their
/// number (as a `u32`, wrapping beyond its range) and their total size.
pub fn summarize_storage(entries: &Vec<ListedEntry>) -> (info: StorageInfo)
    requires
        counted_size(entries@) <= u64::MAX,
    ensures
        views(info.files@) == counted_names(entries@),
        info.size == counted_size(entries@),
        info.count == info.files@.len() as u32,
{
    let n = entries.len();
    let mut total: u64 = 0;
    let mut files: Vec<String> = Vec::new();
    let mut i: usize = 0;
    while i < n
        invariant
            n == entries@.len(),
            i <= n,
            counted_size(entries@) <= u64::MAX,
            total == counted_size(entries@.take(i as int)),
            views(files@) == counted_names(entries@.take(i as int)),
        decreases n - i,
    {
        assert(entries@.take(i + 1).drop_last() =~= entries@.take(i as int));
        proof {
            lemma_counted_size_prefix(entries@, i + 1);
        }
        let e = &entries[i];
        if e.is_file {
            if let Some(name) = &e.name {
                files.push(name.clone());
                assert(views(files@) =~= counted_names(entries@.take(i + 1)));
                if let Some(size) = e.size {
                    total = total + size;
                }
            }
        }
        i = i + 1;
    }
    assert(entries@.take(n as int) =~= entries@);
    let count = files.len() as u32;
    StorageInfo { size: total, count, files }
}

/// Listing two parts of a directory one after the other counts the names of
/// each part in turn and adds their sizes.
pub proof fn lemma_summary_of_concatenation(a: Seq<ListedEntry>, b: Seq<ListedEntry>)
    ensures
        counted_names(a + b) == counted_names(a) + counted_names(b),
        counted_size(a + b) == counted_size(a) + counted_size(b),
    decreases b.len(),
{
    if b.len() == 0 {
        assert(a + b =~= a);
        assert(counted_names(a) + counted_names(b) =~= counted_names(a));
    } else {
        lemma_summary_of_concatenation(a, b.drop_last());
        assert((a + b).drop_last() =~= a + b.drop_last());
        assert((a + b).last() == b.last());
        assert(counted_names(a + b) =~= counted_names(a) + counted_names(b));
    }
}

} // verus!
