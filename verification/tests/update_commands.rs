//! The update commands on an engram built from a small directory.

use embeddenator_cli::error::CommandError;
use embeddenator_cli::manifest::FileStatus;
use embeddenator_cli::naming::resolve_logical_path;
use embeddenator_cli::update::{
    compaction_plan, deleted_file_count, live_file_count, try_update_add, try_update_compact,
    try_update_modify, update_add, update_compact, update_modify, update_remove,
};
use embeddenator_fs::EmbrFS;
use embeddenator_vsa::ReversibleVSAConfig;
use std::path::{Path, PathBuf};
use tempfile::TempDir;

fn write_file(path: &Path, content: &[u8]) {
    embeddenator_io::write_chunks(path, [content]).unwrap();
}

fn read_file(path: &Path) -> Vec<u8> {
    let mut out = Vec::new();
    embeddenator_io::read_chunks(path, 4096, |c| {
        out.extend_from_slice(c);
        Ok(())
    })
    .unwrap();
    out
}

fn make_dir(parent: &Path, name: &str) -> PathBuf {
    tempfile::Builder::new().prefix(name).rand_bytes(0).tempdir_in(parent).unwrap().keep()
}

fn setup_test_engram() -> (TempDir, EmbrFS) {
    setup_engram_in(EmbrFS::new_holographic())
}

/// The same engram in the legacy encoding, whose setup and extraction build
/// no holographic encoder (several seconds each in a test build).
#[allow(deprecated)]
fn setup_legacy_test_engram() -> (TempDir, EmbrFS) {
    setup_engram_in(EmbrFS::new())
}

fn setup_engram_in(mut embrfs: EmbrFS) -> (TempDir, EmbrFS) {
    let temp_dir = TempDir::new().unwrap();
    let input_dir = make_dir(temp_dir.path(), "input");

    write_file(&input_dir.join("file1.txt"), b"Hello, World!");
    write_file(&input_dir.join("file2.txt"), b"Test content for file 2");

    let config = ReversibleVSAConfig::default();
    embrfs.ingest_directory(&input_dir, false, &config).unwrap();
    (temp_dir, embrfs)
}

/// The manifest entries of an engram in memory.
fn read_entries(embrfs: &EmbrFS) -> Vec<FileStatus> {
    embrfs
        .manifest
        .files
        .iter()
        .map(|f| FileStatus { path: f.path.clone(), deleted: f.deleted })
        .collect()
}

/// Saves the manifest and loads it back, as the commands leave it on disk.
fn saved_entries(temp_dir: &TempDir, embrfs: &EmbrFS) -> Vec<FileStatus> {
    let engram_path = temp_dir.path().join("test.engram");
    let manifest_path = temp_dir.path().join("test.json");
    embrfs.save_engram(&engram_path).unwrap();
    embrfs.save_manifest(&manifest_path).unwrap();
    let manifest = EmbrFS::load_manifest(&manifest_path).unwrap();
    manifest
        .files
        .iter()
        .map(|f| FileStatus { path: f.path.clone(), deleted: f.deleted })
        .collect()
}

#[test]
fn test_update_add() {
    let (temp_dir, mut embrfs) = setup_test_engram();

    let new_file = temp_dir.path().join("new_file.txt");
    write_file(&new_file, b"New file content");

    let logical = resolve_logical_path(Some("new_file.txt".to_string()), Some("new_file.txt".to_string()));
    let result = update_add(&mut embrfs, &new_file, logical, false);
    assert!(result.is_ok(), "Add should succeed: {:?}", result);
    assert_eq!(result.unwrap(), 3);

    let entries = saved_entries(&temp_dir, &embrfs);
    let found = entries.iter().any(|f| f.path == "new_file.txt" && !f.deleted);
    assert!(found, "New file should be in manifest");
}

#[test]
fn test_update_add_duplicate_fails() {
    let (temp_dir, mut embrfs) = setup_test_engram();

    let dup_file = temp_dir.path().join("dup.txt");
    write_file(&dup_file, b"Duplicate content");

    let result1 = update_add(&mut embrfs, &dup_file, "file1.txt".to_string(), false);
    assert!(result1.is_err(), "Adding duplicate file should fail: {:?}", result1);
    assert_eq!(read_entries(&embrfs).len(), 2);
}

#[test]
fn test_update_remove() {
    let (temp_dir, mut embrfs) = setup_test_engram();

    let result = update_remove(&mut embrfs, "file1.txt", false);
    assert!(result.is_ok(), "Remove should succeed: {:?}", result);

    let entries = saved_entries(&temp_dir, &embrfs);
    let file = entries.iter().find(|f| f.path == "file1.txt");
    assert!(file.is_some(), "File should still be in manifest");
    assert!(file.unwrap().deleted, "File should be marked as deleted");
}

#[test]
fn test_update_remove_nonexistent_fails() {
    let (_temp_dir, mut embrfs) = setup_test_engram();

    let result = update_remove(&mut embrfs, "nonexistent.txt", false);
    assert!(result.is_err(), "Removing nonexistent file should fail: {:?}", result);
    assert!(matches!(result, Err(CommandError::Engram(_))));
}

#[test]
fn test_update_modify() {
    let (temp_dir, mut embrfs) = setup_test_engram();

    let updated_file = temp_dir.path().join("updated.txt");
    write_file(&updated_file, b"Updated content for file1");

    let result = update_modify(&mut embrfs, &updated_file, "file1.txt".to_string(), false);
    assert!(result.is_ok(), "Modify should succeed: {:?}", result);

    let entries = saved_entries(&temp_dir, &embrfs);
    let file1_entries: Vec<_> = entries.iter().filter(|f| f.path == "file1.txt").collect();
    assert_eq!(file1_entries.len(), 2, "Should have old and new file1.txt");

    let deleted_count = file1_entries.iter().filter(|f| f.deleted).count();
    let active_count = file1_entries.iter().filter(|f| !f.deleted).count();
    assert_eq!(deleted_count, 1, "Old version should be deleted");
    assert_eq!(active_count, 1, "New version should be active");
}

#[test]
fn test_update_compact() {
    let (temp_dir, mut embrfs) = setup_test_engram();

    update_remove(&mut embrfs, "file1.txt", false).unwrap();

    let entries_before = saved_entries(&temp_dir, &embrfs);
    let deleted_before = entries_before.iter().filter(|f| f.deleted).count();
    assert_eq!(deleted_before, 1, "Should have 1 deleted file before compact");
    assert_eq!(compaction_plan(&embrfs), Some(1));

    let active = update_compact(&mut embrfs, false);
    assert_eq!(active, 1);

    let entries_after = saved_entries(&temp_dir, &embrfs);
    let deleted_after = entries_after.iter().filter(|f| f.deleted).count();
    assert_eq!(deleted_after, 0, "Should have no deleted files after compact");

    let active_files: Vec<_> = entries_after.iter().filter(|f| !f.deleted).collect();
    assert_eq!(active_files.len(), 1, "Should have 1 active file");
    assert_eq!(active_files[0].path, "file2.txt");
}

#[test]
fn test_update_compact_no_deleted_files() {
    let (_temp_dir, embrfs) = setup_test_engram();

    let plan = compaction_plan(&embrfs);
    assert_eq!(plan, None, "Compact with no deleted files should have nothing to do");
    assert_eq!(deleted_file_count(&embrfs), 0);
}

#[test]
fn test_update_full_workflow() {
    let (temp_dir, mut embrfs) = setup_legacy_test_engram();

    let new_file = temp_dir.path().join("new.txt");
    write_file(&new_file, b"New content");
    update_add(&mut embrfs, &new_file, "new.txt".to_string(), false).unwrap();

    let modified = temp_dir.path().join("modified.txt");
    write_file(&modified, b"Modified content");
    update_modify(&mut embrfs, &modified, "file1.txt".to_string(), false).unwrap();

    update_remove(&mut embrfs, "file2.txt", false).unwrap();

    assert_eq!(compaction_plan(&embrfs), Some(2));
    update_compact(&mut embrfs, false);

    let entries = saved_entries(&temp_dir, &embrfs);
    let active: Vec<_> = entries.iter().filter(|f| !f.deleted).collect();
    assert_eq!(active.len(), 2, "Should have 2 active files");

    let paths: Vec<_> = active.iter().map(|f| f.path.as_str()).collect();
    assert!(paths.contains(&"new.txt"), "Should have new.txt");
    assert!(paths.contains(&"file1.txt"), "Should have modified file1.txt");

    let output_dir = make_dir(temp_dir.path(), "output");
    let engram_path = temp_dir.path().join("test.engram");
    let manifest_path = temp_dir.path().join("test.json");
    let engram_data = EmbrFS::load_engram(&engram_path).unwrap();
    let manifest_data = EmbrFS::load_manifest(&manifest_path).unwrap();
    EmbrFS::extract(&engram_data, &manifest_data, &output_dir, false, &ReversibleVSAConfig::default()).unwrap();

    let extracted_new = read_file(&output_dir.join("new.txt"));
    assert_eq!(extracted_new, b"New content");
    let extracted_file1 = read_file(&output_dir.join("file1.txt"));
    assert_eq!(extracted_file1, b"Modified content");
}

#[test]
fn modify_of_missing_path_changes_nothing() {
    let (temp_dir, mut embrfs) = setup_test_engram();
    let other = temp_dir.path().join("other.txt");
    write_file(&other, b"x");
    let result = update_modify(&mut embrfs, &other, "absent.txt".to_string(), false);
    assert!(result.is_err());
    assert_eq!(read_entries(&embrfs).len(), 2);
    assert_eq!(live_file_count(&embrfs), 2);
}

#[test]
fn add_of_unreadable_file_changes_nothing() {
    let (temp_dir, mut embrfs) = setup_test_engram();
    let missing = temp_dir.path().join("no_such_file.txt");
    let result = update_add(&mut embrfs, &missing, "no_such_file.txt".to_string(), false);
    assert!(result.is_err());
    assert_eq!(read_entries(&embrfs).len(), 2);
}

#[test]
fn removed_path_can_be_added_again() {
    let (temp_dir, mut embrfs) = setup_test_engram();
    update_remove(&mut embrfs, "file1.txt", false).unwrap();
    let again = temp_dir.path().join("again.txt");
    write_file(&again, b"again");
    assert_eq!(update_add(&mut embrfs, &again, "file1.txt".to_string(), false).unwrap(), 2);
    assert_eq!(deleted_file_count(&embrfs), 1);
    assert_eq!(update_remove(&mut embrfs, "file1.txt", false).is_ok(), true);
    assert_eq!(deleted_file_count(&embrfs), 2);
    assert!(update_remove(&mut embrfs, "file1.txt", false).is_err());
}

#[test]
fn checked_updates_run_on_a_usable_engram() {
    let (temp_dir, mut embrfs) = setup_test_engram();
    let f = temp_dir.path().join("extra.txt");
    write_file(&f, b"extra");
    assert_eq!(try_update_add(&mut embrfs, &f, "extra.txt".to_string(), false).map(|r| r.unwrap()), Some(3));
    assert!(matches!(try_update_modify(&mut embrfs, &f, "extra.txt".to_string(), false), Some(Ok(()))));
    assert!(matches!(try_update_modify(&mut embrfs, &f, "absent.txt".to_string(), false), Some(Err(_))));
    assert_eq!(try_update_compact(&mut embrfs, false), Some(3));
    assert_eq!(read_entries(&embrfs).len(), 3);
}

#[test]
fn full_workflow_on_a_holographic_engram() {
    let (temp_dir, mut embrfs) = setup_test_engram();

    let new_file = temp_dir.path().join("new.txt");
    write_file(&new_file, b"New content");
    update_add(&mut embrfs, &new_file, "new.txt".to_string(), false).unwrap();

    let modified = temp_dir.path().join("modified.txt");
    write_file(&modified, b"Modified content");
    update_modify(&mut embrfs, &modified, "file1.txt".to_string(), false).unwrap();

    update_remove(&mut embrfs, "file2.txt", false).unwrap();
    assert_eq!(update_compact(&mut embrfs, false), 2);

    let entries = saved_entries(&temp_dir, &embrfs);
    let paths: Vec<_> = entries.iter().map(|f| (f.path.as_str(), f.deleted)).collect();
    assert_eq!(paths, vec![("new.txt", false), ("file1.txt", false)]);
}

/// The engram saved and loaded back with its manifest's chunk size set to
/// zero, as a hand-edited manifest can have it.
fn reload_with_zero_chunk_size(temp_dir: &TempDir, embrfs: &mut EmbrFS) -> EmbrFS {
    let engram_path = temp_dir.path().join("zero.engram");
    let manifest_path = temp_dir.path().join("zero.json");
    embrfs.manifest.chunk_size = 0;
    embrfs.save_engram(&engram_path).unwrap();
    embrfs.save_manifest(&manifest_path).unwrap();
    EmbrFS::load(&engram_path, &manifest_path).unwrap()
}

#[test]
fn unusable_chunk_size_still_refuses_and_reports() {
    let (temp_dir, mut embrfs) = setup_legacy_test_engram();
    let mut zero = reload_with_zero_chunk_size(&temp_dir, &mut embrfs);
    assert_eq!(zero.chunk_size(), 0);

    let f = temp_dir.path().join("f.txt");
    write_file(&f, b"content");
    assert!(matches!(try_update_add(&mut zero, &f, "file1.txt".to_string(), false), Some(Err(_))));
    assert!(try_update_add(&mut zero, &f, "fresh.txt".to_string(), false).is_none());
    assert!(matches!(try_update_modify(&mut zero, &f, "absent.txt".to_string(), false), Some(Err(_))));
    assert!(try_update_modify(&mut zero, &f, "file1.txt".to_string(), false).is_none());
    assert!(try_update_compact(&mut zero, false).is_none());
    assert_eq!(read_entries(&zero).len(), 2);

    update_remove(&mut zero, "file1.txt", false).unwrap();
    update_remove(&mut zero, "file2.txt", false).unwrap();
    assert_eq!(try_update_compact(&mut zero, false), Some(0));
    assert!(read_entries(&zero).is_empty());
}
