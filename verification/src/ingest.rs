//! Ingesting inputs into an engram. A single directory is ingested with paths
//! relative to it; otherwise every directory input gets a namespace of its
//! own, derived from its name and numbered when several share a name, and
//! every file input is ingested under the logical path it was given.

use crate::engram::{
    chunking_supported, engram_ingest_directory, engram_ingest_directory_with_prefix,
    engram_ingest_file, manifest_entries, new_engram,
};
use crate::error::CommandError;
use crate::manifest::{extends_with_live, under_prefix, EntryView};
use crate::naming::{decimal, decimal_string, directory_base, directory_base_for};
use embeddenator_fs::EmbrFS;
use std::path::PathBuf;
use vstd::prelude::*;

verus! {

/// What an input path turned out to be on disk.
pub enum InputKind {
    /// Nothing exists at the path.
    Missing,
    /// A directory, with its name where that is valid UTF-8.
    Directory { name: Option<String> },
    /// A file, with the logical path it is to be ingested under.
    File { logical_path: String },
}

/// The namespace base of an input: its directory base for a directory, none otherwise.
pub open spec fn base_of(kind: InputKind) -> Option<Seq<char>> {
    match kind {
        InputKind::Directory { name } => Some(
            directory_base_for(
                match name {
                    Some(n) => Some(n@),
                    None => None,
                },
            ),
        ),
        _ => None,
    }
}

/// How many of the inputs are directories with namespace base `b`.
pub open spec fn count_base(kinds: Seq<InputKind>, b: Seq<char>) -> nat
    decreases kinds.len(),
{
    if kinds.len() == 0 {
        0
    } else {
        count_base(kinds.drop_last(), b) + if base_of(kinds.last()) == Some(b) { 1nat } else { 0nat }
    }
}

/// For directory input `i`: how many directory inputs up to and including it share its base.
pub open spec fn occurrence(kinds: Seq<InputKind>, i: int) -> nat {
    count_base(kinds.take(i + 1), base_of(kinds[i])->Some_0)
}

/// The namespace for the `k`-th directory with base `base`: the base itself
/// for the first, then the base, `_` and `k`.
pub open spec fn namespace(base: Seq<char>, k: nat) -> Seq<char> {
    if k == 1 {
        base
    } else {
        base + seq!['_'] + decimal(k)
    }
}

/// The namespace that directory input `i` is ingested under.
pub open spec fn input_prefix(kinds: Seq<InputKind>, i: int) -> Seq<char> {
    namespace(base_of(kinds[i])->Some_0, occurrence(kinds, i))
}

/// The inputs are a single directory, which is ingested without a namespace.
pub open spec fn single_directory(kinds: Seq<InputKind>) -> bool {
    kinds.len() == 1 && kinds[0] is Directory
}

/// Logical path `path` comes from input `i`: it is the logical path of file
/// input `i`, or lies in the namespace of directory input `i`.
pub open spec fn from_input(kinds: Seq<InputKind>, i: int, path: Seq<char>) -> bool {
    match kinds[i] {
        InputKind::File { logical_path } => path == logical_path@,
        InputKind::Directory { .. } => under_prefix(path, input_prefix(kinds, i)),
        InputKind::Missing => false,
    }
}

/// Logical path `path` comes from one of the inputs.
pub open spec fn from_some_input(kinds: Seq<InputKind>, path: Seq<char>) -> bool {
    exists|i: int| 0 <= i < kinds.len() && from_input(kinds, i, path)
}

/// The namespace of directory input `i`.
pub fn namespace_prefix(kinds: &Vec<InputKind>, i: usize) -> (r: String)
    requires
        i < kinds.len(),
        kinds@[i as int] is Directory,
    ensures
        r@ == input_prefix(kinds@, i as int),
{
    let base = match &kinds[i] {
        InputKind::Directory { name } => directory_base(name),
        _ => String::new(),
    };
    let ghost b = base@;
    assert(base_of(kinds@[i as int]) == Some(b));
    let mut count: usize = 0;
    let mut j: usize = 0;
    while j <= i
        invariant
            j <= i + 1,
            i < kinds.len(),
            base@ == b,
            count <= j,
            count == count_base(kinds@.take(j as int), b),
        decreases i + 1 - j,
    {
        assert(kinds@.take(j + 1).drop_last() =~= kinds@.take(j as int));
        assert(kinds@.take(j + 1).last() == kinds@[j as int]);
        if let InputKind::Directory { name } = &kinds[j] {
            let other = directory_base(name);
            if other == base {
                count = count + 1;
            }
        }
        j = j + 1;
    }
    assert(count == occurrence(kinds@, i as int));
    if count == 1 {
        base
    } else {
        let mut prefix = base;
        let numeral = decimal_string(count);
        proof {
            reveal_strlit("_");
        }
        prefix.append("_");
        prefix.append(numeral.as_str());
        prefix
    }
}

/// `cuts` splits `new` into consecutive segments, segment `i` running from
/// `cuts[i]` to `cuts[i + 1]`, one for each of the first `m` inputs: every entry
/// of segment `i` comes from input `i`, and a file input's segment is exactly
/// its one live entry.
pub open spec fn segments_upto(kinds: Seq<InputKind>, new: Seq<EntryView>, cuts: Seq<int>, m: int) -> bool {
    &&& 0 <= m <= kinds.len()
    &&& cuts.len() == m + 1
    &&& 0 <= cuts[0]
    &&& forall|a: int, b: int| 0 <= a <= b <= m ==> #[trigger] cuts[a] <= #[trigger] cuts[b]
    &&& cuts[m] <= new.len()
    &&& forall|i: int, k: int|
        #![trigger from_input(kinds, i, new[k].0), cuts[i]]
        0 <= i < m && cuts[i] <= k < cuts[i + 1] ==> from_input(kinds, i, new[k].0)
    &&& forall|i: int|
        0 <= i < m && (#[trigger] kinds[i]) is File ==> cuts[i + 1] == cuts[i] + 1
            && new[cuts[i]] == (kinds[i]->logical_path@, false)
}

/// The entries that `new` has beyond `old` are, in order, one segment for
/// each input (see `segments_upto`).
pub open spec fn input_segments(kinds: Seq<InputKind>, old: Seq<EntryView>, new: Seq<EntryView>, cuts: Seq<int>) -> bool {
    &&& segments_upto(kinds, new, cuts, kinds.len() as int)
    &&& cuts[0] == old.len()
    &&& cuts[kinds.len() as int] == new.len()
}

proof fn lemma_extend_segments(
    kinds: Seq<InputKind>,
    before: Seq<EntryView>,
    after: Seq<EntryView>,
    cuts: Seq<int>,
    i: int,
)
    requires
        0 <= i < kinds.len(),
        segments_upto(kinds, before, cuts, i),
        cuts[i] == before.len(),
        before.len() <= after.len(),
        after.take(before.len() as int) == before,
        forall|k: int| before.len() <= k < after.len() ==> from_input(kinds, i, (#[trigger] after[k]).0),
        kinds[i] is File ==> after.len() == before.len() + 1
            && after[before.len() as int] == (kinds[i]->logical_path@, false),
    ensures
        segments_upto(kinds, after, cuts.push(after.len() as int), i + 1),
{
    let c = cuts.push(after.len() as int);
    assert forall|a: int, b: int| 0 <= a <= b <= i + 1 implies #[trigger] c[a] <= #[trigger] c[b] by {
        if b <= i {
            assert(c[a] == cuts[a] && c[b] == cuts[b]);
        } else {
            assert(c[a] == cuts[a] || a == i + 1);
            if a <= i {
                assert(cuts[a] <= cuts[i]);
            }
        }
    }
    assert forall|j: int, k: int|
        #![trigger from_input(kinds, j, after[k].0), c[j]]
        0 <= j < i + 1 && c[j] <= k < c[j + 1] implies from_input(kinds, j, after[k].0) by {
        if j < i {
            assert(c[j] == cuts[j] && c[j + 1] == cuts[j + 1]);
            assert(cuts[j + 1] <= cuts[i]);
            assert(cuts[0] <= cuts[j]);
            assert(after[k] == after.take(before.len() as int)[k]);
            assert(from_input(kinds, j, before[k].0));
        } else {
            assert(c[j] == cuts[i]);
            assert(from_input(kinds, i, after[k].0));
        }
    }
    assert forall|j: int|
        0 <= j < i + 1 && (#[trigger] kinds[j]) is File implies c[j + 1] == c[j] + 1
            && after[c[j]] == (kinds[j]->logical_path@, false) by {
        if j < i {
            assert(c[j] == cuts[j] && c[j + 1] == cuts[j + 1]);
            assert(cuts[j + 1] <= cuts[i]);
            assert(cuts[0] <= cuts[j]);
            assert(after[cuts[j]] == after.take(before.len() as int)[cuts[j]]);
        }
    }
}

/// Ingests `inputs`, whose kinds on disk are `kinds`, into a new holographic
/// engram. No input gives an empty engram. A single directory is ingested
/// with paths relative to it. Otherwise the inputs are taken in order: a
/// missing one stops the ingestion with `MissingInput`, a directory is
/// ingested under its namespace and a file under its logical path, each
/// adding its entries after those of the inputs before it; the first engram
/// failure stops it too.
pub fn ingest_into_new_engram(inputs: &Vec<PathBuf>, kinds: &Vec<InputKind>, verbose: bool) -> (r: Result<
    EmbrFS,
    CommandError,
>)
    requires
        inputs.len() == kinds.len(),
    ensures
        r matches Err(CommandError::MissingInput(i)) ==> {
            &&& !single_directory(kinds@)
            &&& i < kinds.len()
            &&& kinds@[i as int] is Missing
            &&& forall|j: int| 0 <= j < i ==> !(kinds@[j] is Missing)
        },
        !single_directory(kinds@) && (exists|i: int| 0 <= i < kinds.len() && kinds@[i] is Missing)
            ==> r is Err,
        kinds.len() == 0 ==> (r matches Ok(fs) && manifest_entries(fs) == Seq::<EntryView>::empty()),
        r matches Ok(fs) ==> {
            &&& forall|i: int| 0 <= i < kinds.len() ==> !(kinds@[i] is Missing)
            &&& extends_with_live(Seq::<EntryView>::empty(), manifest_entries(fs))
            &&& !single_directory(kinds@) ==> exists|cuts: Seq<int>|
                input_segments(kinds@, Seq::<EntryView>::empty(), manifest_entries(fs), cuts)
        },
{
    let mut fs = new_engram();
    match ingest_inputs(&mut fs, inputs, kinds, verbose) {
        Ok(()) => Ok(fs),
        Err(e) => Err(e),
    }
}

/// Ingests the inputs into `fs`, as `ingest_into_new_engram` describes.
fn ingest_inputs(
    fs: &mut EmbrFS,
    inputs: &Vec<PathBuf>,
    kinds: &Vec<InputKind>,
    verbose: bool,
) -> (r: Result<(), CommandError>)
    requires
        inputs.len() == kinds.len(),
        chunking_supported(*old(fs)),
    ensures
        r matches Err(CommandError::MissingInput(i)) ==> {
            &&& !single_directory(kinds@)
            &&& i < kinds.len()
            &&& kinds@[i as int] is Missing
            &&& forall|j: int| 0 <= j < i ==> !(kinds@[j] is Missing)
        },
        !single_directory(kinds@) && (exists|i: int| 0 <= i < kinds.len() && kinds@[i] is Missing)
            ==> r is Err,
        kinds.len() == 0 ==> r is Ok && manifest_entries(*final(fs)) == manifest_entries(*old(fs)),
        r is Ok ==> forall|i: int| 0 <= i < kinds.len() ==> !(kinds@[i] is Missing),
        r is Ok ==> extends_with_live(manifest_entries(*old(fs)), manifest_entries(*final(fs))),
        r is Ok && !single_directory(kinds@) ==> exists|cuts: Seq<int>|
            input_segments(kinds@, manifest_entries(*old(fs)), manifest_entries(*final(fs)), cuts),
{
    let ghost start = manifest_entries(*fs);
    if kinds.len() == 1 {
        if let InputKind::Directory { .. } = &kinds[0] {
            return match engram_ingest_directory(fs, &inputs[0], verbose) {
                Ok(()) => Ok(()),
                Err(e) => Err(CommandError::Engram(e)),
            };
        }
    }
    assert(!single_directory(kinds@));
    assert(start.take(start.len() as int) =~= start);
    let ghost mut cuts: Seq<int> = seq![start.len() as int];
    let mut i: usize = 0;
    while i < kinds.len()
        invariant
            i <= kinds.len(),
            inputs.len() == kinds.len(),
            !single_directory(kinds@),
            start == manifest_entries(*old(fs)),
            chunking_supported(*fs),
            extends_with_live(start, manifest_entries(*fs)),
            forall|j: int| 0 <= j < i ==> !(kinds@[j] is Missing),
            segments_upto(kinds@, manifest_entries(*fs), cuts, i as int),
            cuts[0] == start.len(),
            cuts[i as int] == manifest_entries(*fs).len(),
        decreases kinds.len() - i,
    {
        let ghost before = manifest_entries(*fs);
        match &kinds[i] {
            InputKind::Missing => {
                return Err(CommandError::MissingInput(i));
            },
            InputKind::Directory { .. } => {
                let prefix = namespace_prefix(kinds, i);
                let res = engram_ingest_directory_with_prefix(fs, &inputs[i], prefix.as_str(), verbose);
                let ghost after = manifest_entries(*fs);
                if let Err(e) = res {
                    return Err(CommandError::Engram(e));
                }
                assert forall|k: int| before.len() <= k < after.len() implies
                    from_input(kinds@, i as int, (#[trigger] after[k]).0) by {
                    assert(under_prefix(after[k].0, prefix@));
                }
                assert forall|k: int| start.len() <= k < after.len() implies !(#[trigger] after[k]).1 by {
                    if k < before.len() {
                        assert(after[k] == after.take(before.len() as int)[k]);
                    }
                }
                assert(after.take(start.len() as int) =~= after.take(before.len() as int).take(start.len() as int));
                proof {
                    lemma_extend_segments(kinds@, before, after, cuts, i as int);
                    cuts = cuts.push(after.len() as int);
                }
            },
            InputKind::File { logical_path } => {
                let res = engram_ingest_file(fs, &inputs[i], logical_path.clone(), verbose);
                let ghost after = manifest_entries(*fs);
                if let Err(e) = res {
                    return Err(CommandError::Engram(e));
                }
                assert(after.take(before.len() as int) =~= before);
                assert(after.take(start.len() as int) =~= before.take(start.len() as int));
                assert forall|k: int| before.len() <= k < after.len() implies
                    from_input(kinds@, i as int, (#[trigger] after[k]).0) by {
                    assert(k == before.len());
                }
                proof {
                    lemma_extend_segments(kinds@, before, after, cuts, i as int);
                    cuts = cuts.push(after.len() as int);
                }
            },
        }
        i = i + 1;
    }
    assert(input_segments(kinds@, start, manifest_entries(*fs), cuts));
    Ok(())
}

} // verus!
