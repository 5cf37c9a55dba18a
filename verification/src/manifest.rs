//! The manifest of an engram, seen as a sequence of file entries.
//!
//! Each entry is modelled by its logical path and its deleted flag: an entry
//! is *live* while its flag is unset. Removal only sets the flag; compaction
//! drops the flagged entries.

use vstd::prelude::*;

verus! {

/// A manifest entry as the contracts see it: logical path and deleted flag.
pub type EntryView = (Seq<char>, bool);

/// A manifest entry as plain values.
pub struct FileStatus {
    pub path: String,
    pub deleted: bool,
}

impl View for FileStatus {
    type V = EntryView;

    open spec fn view(&self) -> EntryView {
        (self.path@, self.deleted)
    }
}

/// Entry `i` of `s` is live and has logical path `p`.
pub open spec fn live_at(s: Seq<EntryView>, p: Seq<char>, i: int) -> bool {
    0 <= i < s.len() && s[i].0 == p && !s[i].1
}

/// Some live entry of `s` has logical path `p`.
pub open spec fn has_live(s: Seq<EntryView>, p: Seq<char>) -> bool {
    exists|i: int| live_at(s, p, i)
}

/// Entry `i` is the first live entry of `s` with logical path `p`.
pub open spec fn first_live_at(s: Seq<EntryView>, p: Seq<char>, i: int) -> bool {
    &&& live_at(s, p, i)
    &&& forall|j: int| 0 <= j < i ==> !live_at(s, p, j)
}

/// The index of the first live entry with path `p` (meaningful when `has_live(s, p)`).
pub open spec fn removal_index(s: Seq<EntryView>, p: Seq<char>) -> int {
    choose|i: int| first_live_at(s, p, i)
}

/// The live entries of `s`, in order.
pub open spec fn live_entries(s: Seq<EntryView>) -> Seq<EntryView>
    decreases s.len(),
{
    if s.len() == 0 {
        s
    } else if !s.last().1 {
        live_entries(s.drop_last()).push(s.last())
    } else {
        live_entries(s.drop_last())
    }
}

/// The number of entries of `s` marked deleted.
pub open spec fn deleted_count(s: Seq<EntryView>) -> nat
    decreases s.len(),
{
    if s.len() == 0 {
        0
    } else if s.last().1 {
        deleted_count(s.drop_last()) + 1
    } else {
        deleted_count(s.drop_last())
    }
}

/// The number of live entries of `s`.
pub open spec fn live_count(s: Seq<EntryView>) -> nat {
    live_entries(s).len()
}

/// The manifest after a file is added (or ingested) under logical path `p`.
pub open spec fn added(s: Seq<EntryView>, p: Seq<char>) -> Seq<EntryView> {
    s.push((p, false))
}

/// The manifest after the first live entry with path `p` is marked deleted.
pub open spec fn removed(s: Seq<EntryView>, p: Seq<char>) -> Seq<EntryView> {
    s.update(removal_index(s, p), (p, true))
}

/// The manifest after the file at logical path `p` is replaced by a new version.
pub open spec fn modified(s: Seq<EntryView>, p: Seq<char>) -> Seq<EntryView> {
    added(removed(s, p), p)
}

/// The manifest after compaction: only the live entries remain, in order.
pub open spec fn compacted(s: Seq<EntryView>) -> Seq<EntryView> {
    live_entries(s)
}

/// `new` keeps every entry of `old`, in place, and every entry appended after
/// them is live.
pub open spec fn extends_with_live(old: Seq<EntryView>, new: Seq<EntryView>) -> bool {
    &&& old.len() <= new.len()
    &&& new.take(old.len() as int) == old
    &&& forall|k: int| old.len() <= k < new.len() ==> !(#[trigger] new[k]).1
}

/// `path` lies in the namespace `prefix`: it is the prefix itself or a path
/// below it. Every path lies in the empty namespace.
pub open spec fn under_prefix(path: Seq<char>, prefix: Seq<char>) -> bool {
    ||| prefix.len() == 0
    ||| path == prefix
    ||| path.len() > prefix.len() && path.take(prefix.len() + 1int) == prefix.push('/')
}

/// No two live entries of `s` share a logical path.
pub open spec fn unique_live_paths(s: Seq<EntryView>) -> bool {
    forall|i: int, j: int|
        0 <= i < j < s.len() && !(#[trigger] s[i]).1 && !(#[trigger] s[j]).1 ==> s[i].0 != s[j].0
}

/// Live entries and deleted counts split over a concatenation.
pub proof fn lemma_split_concat(a: Seq<EntryView>, b: Seq<EntryView>)
    ensures
        live_entries(a + b) == live_entries(a) + live_entries(b),
        deleted_count(a + b) == deleted_count(a) + deleted_count(b),
    decreases b.len(),
{
    if b.len() == 0 {
        assert(a + b =~= a);
        assert(live_entries(a) + live_entries(b) =~= live_entries(a));
    } else {
        lemma_split_concat(a, b.drop_last());
        assert((a + b).drop_last() =~= a + b.drop_last());
        assert((a + b).last() == b.last());
        if !b.last().1 {
            assert(live_entries(a) + live_entries(b) =~= (live_entries(a) + live_entries(b.drop_last())).push(b.last()));
        }
    }
}

/// Every entry is either live or deleted.
pub proof fn lemma_counts_total(s: Seq<EntryView>)
    ensures
        live_count(s) + deleted_count(s) == s.len(),
    decreases s.len(),
{
    if s.len() > 0 {
        lemma_counts_total(s.drop_last());
    }
}

/// The live entries are live, and each is an entry of the manifest.
pub proof fn lemma_live_entries_members(s: Seq<EntryView>)
    ensures
        forall|m: int| 0 <= m < live_entries(s).len() ==> !(#[trigger] live_entries(s)[m]).1,
        forall|m: int| 0 <= m < live_entries(s).len() ==> exists|k: int|
            0 <= k < s.len() && s[k] == #[trigger] live_entries(s)[m],
    decreases s.len(),
{
    if s.len() > 0 {
        let t = s.drop_last();
        lemma_live_entries_members(t);
        assert forall|m: int| 0 <= m < live_entries(s).len() implies exists|k: int|
            0 <= k < s.len() && s[k] == #[trigger] live_entries(s)[m] by {
            if m < live_entries(t).len() {
                let k = choose|k: int| 0 <= k < t.len() && t[k] == live_entries(t)[m];
                assert(s[k] == live_entries(s)[m]);
            } else {
                assert(s[s.len() - 1] == live_entries(s)[m]);
            }
        }
    }
}

/// A live entry with path `p` exists only if a first one does.
pub proof fn lemma_first_live(s: Seq<EntryView>, p: Seq<char>)
    requires
        has_live(s, p),
    ensures
        first_live_at(s, p, removal_index(s, p)),
{
    let i = choose|i: int| live_at(s, p, i);
    lemma_first_live_below(s, p, i);
}

proof fn lemma_first_live_below(s: Seq<EntryView>, p: Seq<char>, i: int)
    requires
        live_at(s, p, i),
    ensures
        exists|k: int| first_live_at(s, p, k),
    decreases i,
{
    if exists|j: int| 0 <= j < i && live_at(s, p, j) {
        let j = choose|j: int| 0 <= j < i && live_at(s, p, j);
        lemma_first_live_below(s, p, j);
    } else {
        assert(first_live_at(s, p, i));
    }
}

/// The views of a list of entries.
pub open spec fn entry_views(v: Seq<FileStatus>) -> Seq<EntryView> {
    v.map_values(|e: FileStatus| e@)
}

/// Whether a live entry of the manifest has logical path `path`.
pub fn has_live_entry(entries: &Vec<FileStatus>, path: &str) -> (r: bool)
    ensures
        r == has_live(entry_views(entries@), path@),
{
    let ghost s = entry_views(entries@);
    let wanted = String::from_str(path);
    let mut i: usize = 0;
    while i < entries.len()
        invariant
            i <= entries.len(),
            s == entry_views(entries@),
            wanted@ == path@,
            forall|j: int| 0 <= j < i ==> !live_at(s, path@, j),
        decreases entries.len() - i,
    {
        assert(s[i as int] == entries@[i as int]@);
        if !entries[i].deleted && entries[i].path == wanted {
            assert(live_at(s, path@, i as int));
            return true;
        }
        i = i + 1;
    }
    false
}

/// Counts the live entries and the deleted entries of a manifest.
pub fn count_entries(entries: &Vec<FileStatus>) -> (r: (usize, usize))
    ensures
        r.0 == live_count(entry_views(entries@)),
        r.1 == deleted_count(entry_views(entries@)),
{
    let ghost s = entry_views(entries@);
    let mut live: usize = 0;
    let mut deleted: usize = 0;
    let mut i: usize = 0;
    while i < entries.len()
        invariant
            i <= entries.len(),
            s == entry_views(entries@),
            live == live_count(s.take(i as int)),
            deleted == deleted_count(s.take(i as int)),
            live + deleted == i,
        decreases entries.len() - i,
    {
        assert(s.take(i + 1).drop_last() =~= s.take(i as int));
        assert(s.take(i + 1).last() == entries@[i as int]@);
        if entries[i].deleted {
            deleted = deleted + 1;
        } else {
            live = live + 1;
        }
        i = i + 1;
    }
    assert(s.take(i as int) =~= s);
    (live, deleted)
}

} // verus!
