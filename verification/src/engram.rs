//! The boundary with `embeddenator_fs`: the engram type, the calls that the
//! commands make on it, and what their source shows each call does to the
//! manifest entries.

use crate::manifest::{
    added, compacted, entry_views, extends_with_live, has_live, live_count, modified, removed,
    under_prefix, EntryView, FileStatus,
};
use embeddenator_fs::EmbrFS;
use embeddenator_vsa::ReversibleVSAConfig;
use std::path::PathBuf;
use vstd::prelude::*;

verus! {

/// An engram together with its manifest (`embeddenator_fs::EmbrFS`).
#[verifier::external_type_specification]
#[verifier::external_body]
pub struct ExEmbrFS(EmbrFS);

/// An I/O error as the engram operations report it (`std::io::Error`).
#[verifier::external_type_specification]
#[verifier::external_body]
pub struct ExIoError(std::io::Error);

/// A path on disk (`std::path::PathBuf`).
#[verifier::external_type_specification]
#[verifier::external_body]
pub struct ExPathBuf(PathBuf);

/// The entries of the engram's manifest (`fs.manifest.files`), in order, each
/// taken as its logical path and its deleted flag.
pub uninterp spec fn manifest_entries(fs: EmbrFS) -> Seq<EntryView>;

/// The size of the chunks that the engram cuts file contents into (`fs.chunk_size()`).
pub uninterp spec fn engram_chunk_size(fs: EmbrFS) -> usize;

/// Whether the engram encodes holographically (`fs.is_holographic()`).
pub uninterp spec fn engram_holographic(fs: EmbrFS) -> bool;

/// The engram can encode files: its chunk size is not zero (cutting data into
/// chunks of size zero panics) and, where it encodes holographically, a chunk
/// has at most 65536 positions, as the holographic encoder asserts.
pub open spec fn chunking_supported(fs: EmbrFS) -> bool {
    &&& 0 < engram_chunk_size(fs)
    &&& engram_holographic(fs) ==> engram_chunk_size(fs) <= 65536
}

/// The engram's encoding settings are those of `old`.
pub open spec fn same_encoding(old: EmbrFS, new: EmbrFS) -> bool {
    &&& engram_chunk_size(new) == engram_chunk_size(old)
    &&& engram_holographic(new) == engram_holographic(old)
}

/// Calls `EmbrFS::new_holographic`, whose source builds a manifest with no
/// file, an encoder, and the chunk size `HOLOGRAPHIC_CHUNK_SIZE`, 8.
#[verifier::external_body]
pub(crate) fn new_engram() -> (fs: EmbrFS)
    ensures
        manifest_entries(fs) == Seq::<EntryView>::empty(),
        engram_chunk_size(fs) == 8,
        engram_holographic(fs),
{
    EmbrFS::new_holographic()
}

/// Calls `EmbrFS::chunk_size`, which returns the engram's chunk size.
#[verifier::external_body]
pub(crate) fn chunk_size_of(fs: &EmbrFS) -> (r: usize)
    ensures
        r == engram_chunk_size(*fs),
{
    fs.chunk_size()
}

/// Calls `EmbrFS::is_holographic`, which tells whether the engram has an encoder.
#[verifier::external_body]
pub(crate) fn holographic_of(fs: &EmbrFS) -> (r: bool)
    ensures
        r == engram_holographic(*fs),
{
    fs.is_holographic()
}

/// Reads `fs.manifest.files`, handing out each entry's path and deleted flag in order.
#[verifier::external_body]
pub(crate) fn read_entries(fs: &EmbrFS) -> (r: Vec<FileStatus>)
    ensures
        entry_views(r@) == manifest_entries(*fs),
{
    let mut out = Vec::new();
    for f in fs.manifest.files.iter() {
        out.push(FileStatus { path: f.path.clone(), deleted: f.deleted });
    }
    out
}

/// Calls `EmbrFS::remove_file`. Its source looks for the first live entry with
/// the given path, fails with `NotFound` when there is none, and otherwise sets
/// that entry's deleted flag and touches nothing else of the manifest.
#[verifier::external_body]
pub(crate) fn engram_remove_file(fs: &mut EmbrFS, logical_path: &str, verbose: bool) -> (r: Result<(), std::io::Error>)
    ensures
        same_encoding(*old(fs), *final(fs)),
        r is Ok <==> has_live(manifest_entries(*old(fs)), logical_path@),
        r is Ok ==> manifest_entries(*final(fs)) == removed(manifest_entries(*old(fs)), logical_path@),
        r is Err ==> manifest_entries(*final(fs)) == manifest_entries(*old(fs)),
{
    fs.remove_file(logical_path, verbose)
}

/// Calls `EmbrFS::add_file` with the default encoding parameters. Its source
/// refuses a path that a live entry already has, before any encoding; otherwise it reads the file from disk, which may fail, and on
/// success appends one live entry with the given path. The manifest is pushed
/// to only after the file was read, so a failure leaves it as it was. Whether
/// the read succeeds depends on the disk and is not stated.
#[verifier::external_body]
pub(crate) fn engram_add_file(
    fs: &mut EmbrFS,
    file: &PathBuf,
    logical_path: String,
    verbose: bool,
) -> (r: Result<(), std::io::Error>)
    requires
        has_live(manifest_entries(*old(fs)), logical_path@) || chunking_supported(*old(fs)),
    ensures
        same_encoding(*old(fs), *final(fs)),
        has_live(manifest_entries(*old(fs)), logical_path@) ==> r is Err,
        r is Ok ==> manifest_entries(*final(fs)) == added(manifest_entries(*old(fs)), logical_path@),
        r is Err ==> manifest_entries(*final(fs)) == manifest_entries(*old(fs)),
{
    fs.add_file(file, logical_path, verbose, &ReversibleVSAConfig::default())
}

/// Calls `EmbrFS::modify_file` with the default encoding parameters. Its source first removes the path as
/// `remove_file` does (failing, with the manifest untouched, when no live
/// entry has it) and then ingests the file from disk, appending one live
/// entry on success. When that read fails the removal stays.
#[verifier::external_body]
pub(crate) fn engram_modify_file(
    fs: &mut EmbrFS,
    file: &PathBuf,
    logical_path: String,
    verbose: bool,
) -> (r: Result<(), std::io::Error>)
    requires
        !has_live(manifest_entries(*old(fs)), logical_path@) || chunking_supported(*old(fs)),
    ensures
        same_encoding(*old(fs), *final(fs)),
        !has_live(manifest_entries(*old(fs)), logical_path@) ==> r is Err
            && manifest_entries(*final(fs)) == manifest_entries(*old(fs)),
        r is Ok ==> has_live(manifest_entries(*old(fs)), logical_path@)
            && manifest_entries(*final(fs)) == modified(manifest_entries(*old(fs)), logical_path@),
        r is Err && has_live(manifest_entries(*old(fs)), logical_path@)
            ==> manifest_entries(*final(fs)) == removed(manifest_entries(*old(fs)), logical_path@),
{
    fs.modify_file(file, logical_path, verbose, &ReversibleVSAConfig::default())
}

/// Calls `EmbrFS::compact` with the default encoding parameters. Its source
/// cuts every live file into chunks (so needs a usable chunk size only when
/// one is live), rebuilds the manifest from the live
/// entries only, keeping their order, paths and (unset) flags, and always
/// returns `Ok`. Chunk numbering is renewed; the model does not hold chunks.
#[verifier::external_body]
pub(crate) fn engram_compact(fs: &mut EmbrFS, verbose: bool) -> (r: Result<(), std::io::Error>)
    requires
        live_count(manifest_entries(*old(fs))) == 0 || chunking_supported(*old(fs)),
    ensures
        same_encoding(*old(fs), *final(fs)),
        r is Ok,
        manifest_entries(*final(fs)) == compacted(manifest_entries(*old(fs))),
{
    fs.compact(verbose, &ReversibleVSAConfig::default())
}

/// Calls `EmbrFS::ingest_file` with the default encoding parameters. Its source reads the file from disk, which
/// may fail and then leaves the manifest as it was, and on success appends one
/// live entry with the given path. It does not look for an entry with the same
/// path. Whether the read succeeds depends on the disk and is not stated.
#[verifier::external_body]
pub(crate) fn engram_ingest_file(
    fs: &mut EmbrFS,
    file: &PathBuf,
    logical_path: String,
    verbose: bool,
) -> (r: Result<(), std::io::Error>)
    requires
        chunking_supported(*old(fs)),
    ensures
        same_encoding(*old(fs), *final(fs)),
        r is Ok ==> manifest_entries(*final(fs)) == added(manifest_entries(*old(fs)), logical_path@),
        r is Err ==> manifest_entries(*final(fs)) == manifest_entries(*old(fs)),
{
    fs.ingest_file(file, logical_path, verbose, &ReversibleVSAConfig::default())
}

/// Calls `EmbrFS::ingest_directory` with the default encoding parameters. Its source walks the directory and
/// ingests its files one after another, so the manifest keeps its entries and
/// gains live ones, also when a later file fails. Which files it finds, and
/// their paths relative to the directory, depend on the disk and are not stated.
#[verifier::external_body]
pub(crate) fn engram_ingest_directory(
    fs: &mut EmbrFS,
    dir: &PathBuf,
    verbose: bool,
) -> (r: Result<(), std::io::Error>)
    requires
        chunking_supported(*old(fs)),
    ensures
        same_encoding(*old(fs), *final(fs)),
        extends_with_live(manifest_entries(*old(fs)), manifest_entries(*final(fs))),
{
    fs.ingest_directory(dir, verbose, &ReversibleVSAConfig::default())
}

/// Calls `EmbrFS::ingest_directory_with_prefix` with `Some(prefix)` and the
/// default encoding parameters. As for
/// `ingest_directory`, entries are only appended, live; by its source each new
/// logical path is the prefix, or the prefix, `/` and the file's relative path
/// (with an empty prefix, the relative path alone). The relative paths depend
/// on the disk and are not stated.
#[verifier::external_body]
pub(crate) fn engram_ingest_directory_with_prefix(
    fs: &mut EmbrFS,
    dir: &PathBuf,
    prefix: &str,
    verbose: bool,
) -> (r: Result<(), std::io::Error>)
    requires
        chunking_supported(*old(fs)),
    ensures
        same_encoding(*old(fs), *final(fs)),
        extends_with_live(manifest_entries(*old(fs)), manifest_entries(*final(fs))),
        forall|k: int|
            manifest_entries(*old(fs)).len() <= k < manifest_entries(*final(fs)).len()
                ==> under_prefix((#[trigger] manifest_entries(*final(fs))[k]).0, prefix@),
{
    fs.ingest_directory_with_prefix(dir, Some(prefix), verbose, &ReversibleVSAConfig::default())
}

} // verus!
