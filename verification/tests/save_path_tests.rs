use std::collections::HashSet;

use iroh_transfer::save_path::{alternative_path, compute_save_path, compute_save_path_with, save_path_parts, SavePathParts};

fn occupied(paths: &[&str]) -> HashSet<String> {
    paths.iter().map(|p| p.to_string()).collect()
}

#[test]
fn free_save_path_is_kept() {
    let taken = occupied(&[]);
    let r = compute_save_path_with("/home/u/Downloads/report.pdf", |p: &str| taken.contains(p));
    assert_eq!(r, Some("/home/u/Downloads/report.pdf".to_string()));
}

#[test]
fn occupied_save_path_gets_first_free_suffix() {
    let taken = occupied(&["/home/u/Downloads/report.pdf"]);
    let r = compute_save_path_with("/home/u/Downloads/report.pdf", |p: &str| taken.contains(p));
    assert_eq!(r, Some("/home/u/Downloads/report_1.pdf".to_string()));

    let taken = occupied(&[
        "/home/u/Downloads/report.pdf",
        "/home/u/Downloads/report_1.pdf",
        "/home/u/Downloads/report_2.pdf",
    ]);
    let r = compute_save_path_with("/home/u/Downloads/report.pdf", |p: &str| taken.contains(p));
    assert_eq!(r, Some("/home/u/Downloads/report_3.pdf".to_string()));
}

#[test]
fn suffix_without_extension() {
    let taken = occupied(&["/data/notes"]);
    let r = compute_save_path_with("/data/notes", |p: &str| taken.contains(p));
    assert_eq!(r, Some("/data/notes_1".to_string()));
}

#[test]
fn suffix_keeps_last_extension_only() {
    let taken = occupied(&["/data/archive.tar.gz"]);
    let r = compute_save_path_with("/data/archive.tar.gz", |p: &str| taken.contains(p));
    assert_eq!(r, Some("/data/archive.tar_1.gz".to_string()));
}

#[test]
fn bare_file_name_gets_leading_separator() {
    let taken = occupied(&["file.txt"]);
    let r = compute_save_path_with("file.txt", |p: &str| taken.contains(p));
    assert_eq!(r, Some("/file_1.txt".to_string()));
}

#[test]
fn hidden_file_has_no_extension() {
    let taken = occupied(&["/h/.profile"]);
    let r = compute_save_path_with("/h/.profile", |p: &str| taken.contains(p));
    assert_eq!(r, Some("/h/.profile_1".to_string()));
}

#[test]
fn parts_of_save_path() {
    let p = save_path_parts("/a/b/c.txt");
    assert_eq!(p, SavePathParts { dir: "/a/b".to_string(), stem: "c".to_string(), ext: "txt".to_string() });
    let p = save_path_parts("/");
    assert_eq!(p, SavePathParts { dir: "".to_string(), stem: "file".to_string(), ext: "".to_string() });
}

#[test]
fn alternative_paths_are_numbered() {
    let p = SavePathParts { dir: "/x".to_string(), stem: "y".to_string(), ext: "z".to_string() };
    assert_eq!(alternative_path(&p, 12), "/x/y_12.z");
    let p = SavePathParts { dir: "/x".to_string(), stem: "y".to_string(), ext: "".to_string() };
    assert_eq!(alternative_path(&p, 2147483647), "/x/y_2147483647");
}

#[test]
fn missing_path_is_used_as_is() {
    let p = "/nonexistent-iroh-transfer-dir/received.bin";
    assert_eq!(compute_save_path(p), Some(p.to_string()));
}

#[test]
fn root_directory_is_taken() {
    // "/" always exists; it has no stem, extension or parent.
    assert_eq!(compute_save_path("/"), Some("/file_1".to_string()));
}
