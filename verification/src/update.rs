//! The incremental update commands on a loaded engram: add, remove, modify and
//! compact, with the counts that they report.

use crate::engram::{
    chunk_size_of, chunking_supported, engram_add_file, engram_compact, engram_modify_file,
    engram_remove_file, holographic_of, manifest_entries, read_entries, same_encoding,
};
use crate::error::CommandError;
use crate::manifest::{
    added, compacted, count_entries, deleted_count, has_live, has_live_entry, live_count,
    modified, removed,
};
use embeddenator_fs::EmbrFS;
use std::path::PathBuf;
use vstd::prelude::*;

verus! {

/// The number of live files in the engram's manifest.
pub fn live_file_count(fs: &EmbrFS) -> (n: usize)
    ensures
        n == live_count(manifest_entries(*fs)),
{
    let entries = read_entries(fs);
    count_entries(&entries).0
}

/// The number of files in the engram's manifest that are marked deleted.
pub fn deleted_file_count(fs: &EmbrFS) -> (n: usize)
    ensures
        n == deleted_count(manifest_entries(*fs)),
{
    let entries = read_entries(fs);
    count_entries(&entries).1
}

/// Adds the file on disk at `file` under `logical_path` and reports the number
/// of live files afterwards. A path that a live entry already has is refused.
/// Every failure is the engram's own error (a refused path or a failed read).
pub fn update_add(
    fs: &mut EmbrFS,
    file: &PathBuf,
    logical_path: String,
    verbose: bool,
) -> (r: Result<usize, CommandError>)
    requires
        has_live(manifest_entries(*old(fs)), logical_path@) || chunking_supported(*old(fs)),
    ensures
        same_encoding(*old(fs), *final(fs)),
        has_live(manifest_entries(*old(fs)), logical_path@) ==> r is Err,
        r matches Ok(n) ==> manifest_entries(*final(fs)) == added(manifest_entries(*old(fs)), logical_path@)
            && n == live_count(manifest_entries(*final(fs))),
        r is Err ==> manifest_entries(*final(fs)) == manifest_entries(*old(fs)),
        r matches Err(e) ==> e is Engram,
{
    match engram_add_file(fs, file, logical_path, verbose) {
        Ok(()) => Ok(live_file_count(fs)),
        Err(e) => Err(CommandError::Engram(e)),
    }
}

/// Marks the file at `logical_path` deleted. It stays in the manifest until
/// the engram is compacted. Fails, changing nothing, when no live file has that path.
pub fn update_remove(fs: &mut EmbrFS, logical_path: &str, verbose: bool) -> (r: Result<(), CommandError>)
    ensures
        same_encoding(*old(fs), *final(fs)),
        r is Ok <==> has_live(manifest_entries(*old(fs)), logical_path@),
        r is Ok ==> manifest_entries(*final(fs)) == removed(manifest_entries(*old(fs)), logical_path@),
        r is Err ==> manifest_entries(*final(fs)) == manifest_entries(*old(fs)),
{
    match engram_remove_file(fs, logical_path, verbose) {
        Ok(()) => Ok(()),
        Err(e) => Err(CommandError::Engram(e)),
    }
}

/// Replaces the file at `logical_path` by the content of the file on disk at
/// `file`: the old entry is marked deleted and a new live one is appended.
/// Fails, changing nothing, when no live file has that path; when reading the
/// new content fails, the old entry stays marked deleted.
pub fn update_modify(
    fs: &mut EmbrFS,
    file: &PathBuf,
    logical_path: String,
    verbose: bool,
) -> (r: Result<(), CommandError>)
    requires
        !has_live(manifest_entries(*old(fs)), logical_path@) || chunking_supported(*old(fs)),
    ensures
        same_encoding(*old(fs), *final(fs)),
        !has_live(manifest_entries(*old(fs)), logical_path@) ==> r is Err
            && manifest_entries(*final(fs)) == manifest_entries(*old(fs)),
        r is Ok ==> has_live(manifest_entries(*old(fs)), logical_path@)
            && manifest_entries(*final(fs)) == modified(manifest_entries(*old(fs)), logical_path@),
        r is Err && has_live(manifest_entries(*old(fs)), logical_path@)
            ==> manifest_entries(*final(fs)) == removed(manifest_entries(*old(fs)), logical_path@),
{
    match engram_modify_file(fs, file, logical_path, verbose) {
        Ok(()) => Ok(()),
        Err(e) => Err(CommandError::Engram(e)),
    }
}

/// Decides whether compaction has work to do: `Some(n)` with the number of
/// deleted files when there is one, `None` when the engram is already compact.
pub fn compaction_plan(fs: &EmbrFS) -> (r: Option<usize>)
    ensures
        r == (if deleted_count(manifest_entries(*fs)) == 0 {
            None
        } else {
            Some(deleted_count(manifest_entries(*fs)) as usize)
        }),
{
    let n = deleted_file_count(fs);
    if n == 0 {
        None
    } else {
        Some(n)
    }
}

/// Rebuilds the engram without its deleted files and reports the number of
/// live files, which compaction does not change.
pub fn update_compact(fs: &mut EmbrFS, verbose: bool) -> (n: usize)
    requires
        live_count(manifest_entries(*old(fs))) == 0 || chunking_supported(*old(fs)),
    ensures
        same_encoding(*old(fs), *final(fs)),
        manifest_entries(*final(fs)) == compacted(manifest_entries(*old(fs))),
        n == live_count(manifest_entries(*final(fs))),
{
    let _ = engram_compact(fs, verbose);
    live_file_count(fs)
}

/// Whether the engram can encode files (see `chunking_supported`).
fn chunking_ok(fs: &EmbrFS) -> (r: bool)
    ensures
        r == chunking_supported(*fs),
{
    let size = chunk_size_of(fs);
    0 < size && (!holographic_of(fs) || size <= 65536)
}

/// Whether a live file of the engram has logical path `path`.
fn has_live_path(fs: &EmbrFS, path: &str) -> (r: bool)
    ensures
        r == has_live(manifest_entries(*fs), path@),
{
    let entries = read_entries(fs);
    has_live_entry(&entries, path)
}

/// `update_add` wherever it can run: `None`, changing nothing, only where the
/// path is new and the engram's chunk size cannot be used to encode the file.
pub fn try_update_add(fs: &mut EmbrFS, file: &PathBuf, logical_path: String, verbose: bool) -> (r: Option<
    Result<usize, CommandError>,
>)
    ensures
        r is None <==> !has_live(manifest_entries(*old(fs)), logical_path@) && !chunking_supported(*old(fs)),
        r is None ==> *final(fs) == *old(fs),
        has_live(manifest_entries(*old(fs)), logical_path@) ==> r matches Some(Err(_)),
        r matches Some(Ok(n)) ==> manifest_entries(*final(fs)) == added(manifest_entries(*old(fs)), logical_path@)
            && n == live_count(manifest_entries(*final(fs))),
        r matches Some(Err(_)) ==> manifest_entries(*final(fs)) == manifest_entries(*old(fs)),
{
    if has_live_path(fs, logical_path.as_str()) || chunking_ok(fs) {
        Some(update_add(fs, file, logical_path, verbose))
    } else {
        None
    }
}

/// `update_modify` wherever it can run: `None`, changing nothing, only where
/// the path is live and the engram's chunk size cannot be used to encode the
/// new content.
pub fn try_update_modify(fs: &mut EmbrFS, file: &PathBuf, logical_path: String, verbose: bool) -> (r: Option<
    Result<(), CommandError>,
>)
    ensures
        r is None <==> has_live(manifest_entries(*old(fs)), logical_path@) && !chunking_supported(*old(fs)),
        r is None ==> *final(fs) == *old(fs),
        r is Some && !has_live(manifest_entries(*old(fs)), logical_path@) ==> (r matches Some(Err(_)))
            && manifest_entries(*final(fs)) == manifest_entries(*old(fs)),
        r matches Some(Ok(())) ==> has_live(manifest_entries(*old(fs)), logical_path@)
            && manifest_entries(*final(fs)) == modified(manifest_entries(*old(fs)), logical_path@),
        (r matches Some(Err(_))) && has_live(manifest_entries(*old(fs)), logical_path@)
            ==> manifest_entries(*final(fs)) == removed(manifest_entries(*old(fs)), logical_path@),
{
    if !has_live_path(fs, logical_path.as_str()) || chunking_ok(fs) {
        Some(update_modify(fs, file, logical_path, verbose))
    } else {
        None
    }
}

/// `update_compact` wherever it can run: `None`, changing nothing, only where
/// a live file would have to be re-encoded with a chunk size that cannot be used.
pub fn try_update_compact(fs: &mut EmbrFS, verbose: bool) -> (r: Option<usize>)
    ensures
        r is None <==> live_count(manifest_entries(*old(fs))) > 0 && !chunking_supported(*old(fs)),
        r is None ==> *final(fs) == *old(fs),
        r matches Some(n) ==> manifest_entries(*final(fs)) == compacted(manifest_entries(*old(fs)))
            && n == live_count(manifest_entries(*final(fs))),
{
    if live_file_count(fs) == 0 || chunking_ok(fs) {
        Some(update_compact(fs, verbose))
    } else {
        None
    }
}

} // verus!
