//! What the update commands promise of the manifest, across calls.

use crate::ingest::{base_of, count_base, input_prefix, namespace, occurrence, InputKind};
use crate::manifest::{
    added, compacted, deleted_count, has_live, lemma_counts_total, lemma_first_live,
    lemma_live_entries_members, lemma_split_concat, live_at, live_count, live_entries, modified,
    removal_index, removed, unique_live_paths, EntryView,
};
use crate::naming::{
    decimal, directory_base_for, lemma_decimal_injective, lemma_decimal_value, slash_joined,
};
use vstd::prelude::*;

verus! {

proof fn lemma_replace_at(s: Seq<EntryView>, i: int, e: EntryView)
    requires
        0 <= i < s.len(),
    ensures
        live_count(s.update(i, e)) + (if !s[i].1 { 1int } else { 0int })
            == live_count(s) + (if !e.1 { 1int } else { 0int }),
        deleted_count(s.update(i, e)) + (if s[i].1 { 1int } else { 0int })
            == deleted_count(s) + (if e.1 { 1int } else { 0int }),
{
    let pre = s.take(i);
    let post = s.skip(i + 1);
    assert(s =~= pre + seq![s[i]] + post);
    assert(s.update(i, e) =~= pre + seq![e] + post);
    lemma_split_concat(pre + seq![s[i]], post);
    lemma_split_concat(pre, seq![s[i]]);
    lemma_split_concat(pre + seq![e], post);
    lemma_split_concat(pre, seq![e]);
    assert(seq![s[i]].drop_last() =~= Seq::<EntryView>::empty());
    assert(seq![e].drop_last() =~= Seq::<EntryView>::empty());
}

/// Removing a file keeps its entry in the manifest, flagged deleted, and
/// changes no other entry: one live file fewer, one deleted file more.
pub proof fn law_remove_flags_entry(s: Seq<EntryView>, p: Seq<char>)
    requires
        has_live(s, p),
    ensures
        removed(s, p).len() == s.len(),
        0 <= removal_index(s, p) < s.len(),
        s[removal_index(s, p)] == (p, false),
        removed(s, p)[removal_index(s, p)] == (p, true),
        forall|i: int| 0 <= i < s.len() && i != removal_index(s, p) ==> removed(s, p)[i] == s[i],
        live_count(removed(s, p)) + 1 == live_count(s),
        deleted_count(removed(s, p)) == deleted_count(s) + 1,
{
    lemma_first_live(s, p);
    lemma_replace_at(s, removal_index(s, p), (p, true));
}

/// Adding a file appends one live entry with its path: the live files are
/// those before, followed by the new one.
pub proof fn law_add_appends_live_entry(s: Seq<EntryView>, p: Seq<char>)
    ensures
        live_entries(added(s, p)) == live_entries(s).push((p, false)),
        live_count(added(s, p)) == live_count(s) + 1,
        deleted_count(added(s, p)) == deleted_count(s),
        has_live(added(s, p), p),
{
    assert(added(s, p).drop_last() =~= s);
    assert(live_at(added(s, p), p, s.len() as int));
}

/// Modifying a file keeps the old version, flagged deleted, and appends the
/// new version live: the number of live files is unchanged, one more is
/// deleted, and the path is still live.
pub proof fn law_modify_replaces_version(s: Seq<EntryView>, p: Seq<char>)
    requires
        has_live(s, p),
    ensures
        modified(s, p).len() == s.len() + 1,
        modified(s, p)[removal_index(s, p)] == (p, true),
        modified(s, p)[s.len() as int] == (p, false),
        live_count(modified(s, p)) == live_count(s),
        deleted_count(modified(s, p)) == deleted_count(s) + 1,
        has_live(modified(s, p), p),
{
    law_remove_flags_entry(s, p);
    law_add_appends_live_entry(removed(s, p), p);
}

/// Compaction keeps exactly the live entries, in order: afterwards nothing is
/// deleted, the live files are the same, and compacting again changes nothing.
pub proof fn law_compact_keeps_live_entries(s: Seq<EntryView>)
    ensures
        deleted_count(compacted(s)) == 0,
        compacted(s).len() == live_count(s),
        live_entries(compacted(s)) == live_entries(s),
        compacted(compacted(s)) == compacted(s),
{
    lemma_live_entries_members(s);
    lemma_all_live_fixed(live_entries(s));
    lemma_counts_total(live_entries(s));
}

proof fn lemma_all_live_fixed(t: Seq<EntryView>)
    requires
        forall|m: int| 0 <= m < t.len() ==> !(#[trigger] t[m]).1,
    ensures
        live_entries(t) == t,
    decreases t.len(),
{
    if t.len() > 0 {
        lemma_all_live_fixed(t.drop_last());
        assert(t.drop_last().push(t.last()) =~= t);
    }
}

/// Adding a path that no live entry has, removing, modifying and compacting
/// all keep the live paths of a manifest distinct.
pub proof fn law_updates_keep_live_paths_unique(s: Seq<EntryView>, p: Seq<char>)
    requires
        unique_live_paths(s),
    ensures
        !has_live(s, p) ==> unique_live_paths(added(s, p)),
        has_live(s, p) ==> unique_live_paths(removed(s, p)),
        has_live(s, p) ==> unique_live_paths(modified(s, p)),
        unique_live_paths(compacted(s)),
{
    let r = removed(s, p);
    if !has_live(s, p) {
        let a = added(s, p);
        assert forall|i: int, j: int|
            0 <= i < j < a.len() && !(#[trigger] a[i]).1 && !(#[trigger] a[j]).1 implies a[i].0 != a[j].0 by {
            if j == s.len() {
                assert(!live_at(s, p, i));
            } else {
                assert(a[i] == s[i] && a[j] == s[j]);
            }
        }
    }
    if has_live(s, p) {
        lemma_first_live(s, p);
        let ri = removal_index(s, p);
        assert forall|i: int, j: int|
            0 <= i < j < r.len() && !(#[trigger] r[i]).1 && !(#[trigger] r[j]).1 implies r[i].0 != r[j].0 by {
            assert(r[i] == s[i] && r[j] == s[j]);
        }
        assert(!has_live(r, p)) by {
            if has_live(r, p) {
                let k = choose|k: int| live_at(r, p, k);
                assert(k != ri);
                assert(r[k] == s[k]);
                if k < ri {
                    assert(s[k].0 != s[ri].0);
                } else {
                    assert(s[ri].0 != s[k].0);
                }
            }
        }
        let m = modified(s, p);
        assert forall|i: int, j: int|
            0 <= i < j < m.len() && !(#[trigger] m[i]).1 && !(#[trigger] m[j]).1 implies m[i].0 != m[j].0 by {
            if j == s.len() {
                assert(!live_at(r, p, i));
            } else {
                assert(m[i] == r[i] && m[j] == r[j]);
            }
        }
    }
    lemma_compacted_unique(s);
}

proof fn lemma_compacted_unique(s: Seq<EntryView>)
    requires
        unique_live_paths(s),
    ensures
        unique_live_paths(live_entries(s)),
    decreases s.len(),
{
    if s.len() > 0 {
        let t = s.drop_last();
        assert forall|i: int, j: int|
            0 <= i < j < t.len() && !(#[trigger] t[i]).1 && !(#[trigger] t[j]).1 implies t[i].0 != t[j].0 by {
            assert(t[i] == s[i] && t[j] == s[j]);
        }
        lemma_compacted_unique(t);
        if !s.last().1 {
            lemma_live_entries_members(t);
            let l = live_entries(s);
            assert forall|i: int, j: int|
                0 <= i < j < l.len() && !(#[trigger] l[i]).1 && !(#[trigger] l[j]).1 implies l[i].0 != l[j].0 by {
                if j == l.len() - 1 {
                    assert(l[i] == live_entries(t)[i]);
                    let k = choose|k: int| 0 <= k < t.len() && t[k] == #[trigger] live_entries(t)[i];
                    assert(s[k] == l[i] && s[s.len() - 1] == l[j]);
                } else {
                    assert(l[i] == live_entries(t)[i] && l[j] == live_entries(t)[j]);
                }
            }
        }
    }
}

proof fn lemma_count_base_monotone(kinds: Seq<InputKind>, b: Seq<char>, a: int, c: int)
    requires
        0 <= a <= c <= kinds.len(),
    ensures
        count_base(kinds.take(a), b) <= count_base(kinds.take(c), b),
    decreases c - a,
{
    if a < c {
        lemma_count_base_monotone(kinds, b, a, c - 1);
        assert(kinds.take(c).drop_last() =~= kinds.take(c - 1));
    }
}

/// The first directory input with a given name is ingested under that name itself.
pub proof fn law_first_directory_keeps_its_base(kinds: Seq<InputKind>, i: int)
    requires
        0 <= i < kinds.len(),
        kinds[i] is Directory,
        forall|j: int| 0 <= j < i ==> base_of(kinds[j]) != base_of(kinds[i]),
    ensures
        input_prefix(kinds, i) == base_of(kinds[i])->Some_0,
{
    let b = base_of(kinds[i])->Some_0;
    assert forall|c: int| 0 <= c <= i implies count_base(#[trigger] kinds.take(c), b) == 0 by {
        lemma_count_zero(kinds, b, i, c);
    }
    assert(kinds.take(i + 1).drop_last() =~= kinds.take(i));
    assert(occurrence(kinds, i) == 1);
}

proof fn lemma_count_zero(kinds: Seq<InputKind>, b: Seq<char>, i: int, c: int)
    requires
        0 <= c <= i < kinds.len(),
        forall|j: int| 0 <= j < i ==> base_of(kinds[j]) != Some(b),
    ensures
        count_base(kinds.take(c), b) == 0,
    decreases c,
{
    if c > 0 {
        lemma_count_zero(kinds, b, i, c - 1);
        assert(kinds.take(c).drop_last() =~= kinds.take(c - 1));
    }
}

/// Directory inputs that share a name are ingested under distinct namespaces.
pub proof fn law_same_base_distinct_namespaces(kinds: Seq<InputKind>, i: int, j: int)
    requires
        0 <= i < j < kinds.len(),
        kinds[i] is Directory,
        kinds[j] is Directory,
        base_of(kinds[i]) == base_of(kinds[j]),
    ensures
        input_prefix(kinds, i) != input_prefix(kinds, j),
{
    let b = base_of(kinds[i])->Some_0;
    assert(kinds.take(i + 1).drop_last() =~= kinds.take(i));
    assert(kinds.take(j + 1).drop_last() =~= kinds.take(j));
    lemma_count_base_monotone(kinds, b, i + 1, j);
    let ki = occurrence(kinds, i);
    let kj = occurrence(kinds, j);
    assert(1 <= ki < kj);
    lemma_decimal_value(kj);
    if ki == 1 {
        assert(namespace(b, kj).len() > b.len());
    } else {
        if namespace(b, ki) == namespace(b, kj) {
            let pre = b + seq!['_'];
            assert(namespace(b, ki).skip(pre.len() as int) =~= decimal(ki));
            assert(namespace(b, kj).skip(pre.len() as int) =~= decimal(kj));
            lemma_decimal_injective(ki, kj);
        }
    }
}

/// A directory whose name is valid UTF-8 and not empty is namespaced by that
/// very name; only a directory without such a name falls back to `input`.
pub proof fn law_directory_base_is_its_name(name: Seq<char>)
    ensures
        name.len() > 0 ==> directory_base_for(Some(name)) == name,
        name.len() == 0 ==> directory_base_for(Some(name)) == "input"@,
        directory_base_for(None) == "input"@,
{
}

/// A directory input named `n` (valid UTF-8, not empty) that is the first
/// directory input with that base is ingested under the namespace `n` itself.
pub proof fn law_named_directory_keeps_its_name(kinds: Seq<InputKind>, i: int)
    requires
        0 <= i < kinds.len(),
        kinds[i] matches InputKind::Directory { name: Some(n) } && n@.len() > 0,
        forall|j: int| 0 <= j < i ==> base_of(kinds[j]) != base_of(kinds[i]),
    ensures
        base_of(kinds[i]) == Some(kinds[i]->name->Some_0@),
        input_prefix(kinds, i) == kinds[i]->name->Some_0@,
{
    law_first_directory_keeps_its_base(kinds, i);
}

/// Joining a further part puts exactly one `/` between the joined path and it.
pub proof fn law_slash_join_appends_one_separator(parts: Seq<Seq<char>>, x: Seq<char>)
    requires
        parts.len() > 0,
    ensures
        slash_joined(parts.push(x)) == slash_joined(parts) + seq!['/'] + x,
{
    reveal_strlit("/");
    assert(parts.push(x).drop_last() =~= parts);
}

/// The first part is followed by exactly one `/` and the join of the rest.
pub proof fn law_slash_join_prepends_one_separator(x: Seq<char>, parts: Seq<Seq<char>>)
    requires
        parts.len() > 0,
    ensures
        slash_joined(seq![x] + parts) == x + seq!['/'] + slash_joined(parts),
    decreases parts.len(),
{
    reveal_strlit("/");
    let whole = seq![x] + parts;
    if parts.len() == 1 {
        assert(whole.drop_last() =~= seq![x]);
        assert(slash_joined(whole) == x + seq!['/'] + parts[0]);
    } else {
        law_slash_join_prepends_one_separator(x, parts.drop_last());
        assert(whole.drop_last() =~= seq![x] + parts.drop_last());
        assert(whole.last() == parts.last());
        assert(slash_joined(whole) == slash_joined(seq![x] + parts.drop_last()) + seq!['/'] + parts.last());
        assert(slash_joined(parts) == slash_joined(parts.drop_last()) + seq!['/'] + parts.last());
        assert(x + seq!['/'] + slash_joined(parts.drop_last()) + seq!['/'] + parts.last()
            =~= x + seq!['/'] + (slash_joined(parts.drop_last()) + seq!['/'] + parts.last()));
    }
}

/// A single part is joined as itself, with no `/`.
pub proof fn law_slash_join_single_part(x: Seq<char>)
    ensures
        slash_joined(seq![x]) == x,
{
}

} // verus!
