//! Naming rules, counting, and ingestion of several inputs.

use embeddenator_cli::error::CommandError;
use embeddenator_cli::ingest::{ingest_into_new_engram, namespace_prefix, InputKind};
use embeddenator_cli::manifest::{count_entries, FileStatus};
use embeddenator_cli::naming::{
    decimal_string, directory_base, file_input_logical_path, join_with_slash, resolve_logical_path,
};
use embeddenator_fs::EmbrFS;
use std::path::{Path, PathBuf};
use tempfile::TempDir;

fn write_file(path: &Path, content: &[u8]) {
    embeddenator_io::write_chunks(path, [content]).unwrap();
}

fn make_dir(parent: &Path, name: &str) -> PathBuf {
    tempfile::Builder::new().prefix(name).rand_bytes(0).tempdir_in(parent).unwrap().keep()
}

fn paths_of(embrfs: &EmbrFS) -> Vec<String> {
    embrfs.manifest.files.iter().map(|f| f.path.clone()).collect()
}

fn dir(name: &str) -> InputKind {
    InputKind::Directory { name: Some(name.to_string()) }
}

fn strings(parts: &[&str]) -> Vec<String> {
    parts.iter().map(|p| p.to_string()).collect()
}

#[test]
fn decimal_numerals() {
    assert_eq!(decimal_string(0), "0");
    assert_eq!(decimal_string(7), "7");
    assert_eq!(decimal_string(10), "10");
    assert_eq!(decimal_string(1203), "1203");
    assert_eq!(decimal_string(usize::MAX), usize::MAX.to_string());
}

#[test]
fn logical_path_resolution() {
    assert_eq!(resolve_logical_path(Some("a/b.txt".to_string()), Some("b.txt".to_string())), "a/b.txt");
    assert_eq!(resolve_logical_path(None, Some("b.txt".to_string())), "b.txt");
    assert_eq!(resolve_logical_path(None, None), "unnamed");
}

#[test]
fn directory_bases() {
    assert_eq!(directory_base(&Some("docs".to_string())), "docs");
    assert_eq!(directory_base(&Some(String::new())), "input");
    assert_eq!(directory_base(&None), "input");
}

#[test]
fn namespaces_number_repeated_names() {
    let kinds = vec![
        dir("data"),
        InputKind::File { logical_path: "x.txt".to_string() },
        dir("data"),
        dir("other"),
        InputKind::Directory { name: None },
        dir("data"),
        dir(""),
    ];
    assert_eq!(namespace_prefix(&kinds, 0), "data");
    assert_eq!(namespace_prefix(&kinds, 2), "data_2");
    assert_eq!(namespace_prefix(&kinds, 3), "other");
    assert_eq!(namespace_prefix(&kinds, 4), "input");
    assert_eq!(namespace_prefix(&kinds, 5), "data_3");
    assert_eq!(namespace_prefix(&kinds, 6), "input_2");
}

#[test]
fn file_input_paths() {
    let cwd = strings(&["home", "me"]);
    assert_eq!(file_input_logical_path(&strings(&["home", "me", "a.txt"]), &cwd), "a.txt");
    assert_eq!(file_input_logical_path(&strings(&["home", "me", "sub", "a.txt"]), &cwd), "sub/a.txt");
    assert_eq!(file_input_logical_path(&strings(&["tmp", "a.txt"]), &cwd), "a.txt");
    assert_eq!(file_input_logical_path(&strings(&["home", "me"]), &cwd), "me");
    assert_eq!(join_with_slash(&strings(&["a", "b", "c"]), 1), "b/c");
    assert_eq!(join_with_slash(&strings(&["a"]), 1), "");
}

#[test]
fn counting_entries() {
    let entries = vec![
        FileStatus { path: "a".to_string(), deleted: false },
        FileStatus { path: "b".to_string(), deleted: true },
        FileStatus { path: "a".to_string(), deleted: true },
        FileStatus { path: "c".to_string(), deleted: false },
    ];
    assert_eq!(count_entries(&entries), (2, 2));
    assert_eq!(count_entries(&Vec::new()), (0, 0));
}

fn dir_with_files(parent: &Path, name: &str, files: &[(&str, &[u8])]) -> PathBuf {
    let d = make_dir(parent, name);
    for (file, content) in files {
        write_file(&d.join(file), content);
    }
    d
}

#[test]
fn single_directory_is_not_namespaced() {
    let root = TempDir::new().unwrap();
    let d = dir_with_files(root.path(), "data", &[("a.txt", b"aaa")]);
    let embrfs = ingest_into_new_engram(&vec![d], &vec![dir("data")], false).unwrap();
    let paths = paths_of(&embrfs);
    assert_eq!(paths, vec!["a.txt".to_string()]);
}

#[test]
fn directories_with_one_name_get_numbered_namespaces() {
    let root = TempDir::new().unwrap();
    let d1 = dir_with_files(&make_dir(root.path(), "one"), "data", &[("a.txt", b"aaa")]);
    let d2 = dir_with_files(&make_dir(root.path(), "two"), "data", &[("b.txt", b"bbb")]);
    let f = root.path().join("loose.txt");
    write_file(&f, b"loose");
    let kinds = vec![dir("data"), dir("data"), InputKind::File { logical_path: "loose.txt".to_string() }];
    let embrfs = ingest_into_new_engram(&vec![d1, d2, f], &kinds, false).unwrap();
    let paths = paths_of(&embrfs);
    assert!(embrfs.manifest.files.iter().all(|e| !e.deleted));
    assert_eq!(paths, strings(&["data/a.txt", "data_2/b.txt", "loose.txt"]));
}

#[test]
fn missing_input_stops_ingestion() {
    let root = TempDir::new().unwrap();
    let f = root.path().join("present.txt");
    write_file(&f, b"here");
    let gone = root.path().join("gone");
    let kinds = vec![
        InputKind::File { logical_path: "present.txt".to_string() },
        InputKind::Missing,
        InputKind::File { logical_path: "present.txt".to_string() },
    ];
    let r = ingest_into_new_engram(&vec![f.clone(), gone, f], &kinds, false);
    assert!(matches!(r, Err(CommandError::MissingInput(1))));
}

#[test]
fn single_missing_input_is_reported() {
    let root = TempDir::new().unwrap();
    let r = ingest_into_new_engram(&vec![root.path().join("gone")], &vec![InputKind::Missing], false);
    assert!(matches!(r, Err(CommandError::MissingInput(0))));
}

#[test]
fn no_input_gives_an_empty_engram() {
    let embrfs = ingest_into_new_engram(&Vec::new(), &Vec::new(), false).unwrap();
    assert!(embrfs.manifest.files.is_empty());
    assert_eq!(embrfs.manifest.total_chunks, 0);
}
