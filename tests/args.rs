use file_craft::args::{parse_args, parse_usize, ArgError};
use file_craft::paths::path_to_string;
use std::path::PathBuf;

fn strings(v: &[&str]) -> Vec<String> {
    v.iter().map(|s| s.to_string()).collect()
}

#[test]
fn two_arguments_give_usage() {
    let r = parse_args(&strings(&["file-craft", "10", "2048"]));
    assert_eq!(r.err(), Some(ArgError::Usage));
    assert!(ArgError::Usage.message().starts_with("Usage:"));
    assert!(ArgError::Usage.message().contains("Example: ./file-craft 100 204800 data_repo"));
    assert!(parse_args(&strings(&["file-craft", "1", "2", "a", "b"])).is_err());
}

#[test]
fn non_numeric_folder_count() {
    let r = parse_args(&strings(&["file-craft", "abc", "2048", "data"]));
    assert_eq!(r.err(), Some(ArgError::InvalidFolders));
    assert_eq!(ArgError::InvalidFolders.message(), "Invalid number of folders");
}

#[test]
fn zero_folder_count_refused() {
    let r = parse_args(&strings(&["file-craft", "0", "2048", "data"]));
    assert_eq!(r.err(), Some(ArgError::InvalidFolders));
}

#[test]
fn non_numeric_disk_size() {
    let r = parse_args(&strings(&["file-craft", "3", "-5", "data"]));
    assert_eq!(r.err(), Some(ArgError::InvalidDiskSize));
    assert_eq!(ArgError::InvalidDiskSize.message(), "Invalid disk size");
    let r = parse_args(&strings(&["file-craft", "3", "99999999999999999999999", "data"]));
    assert_eq!(r.err(), Some(ArgError::InvalidDiskSize));
}

#[test]
fn valid_arguments() {
    let r = parse_args(&strings(&["file-craft", "100", "204800", "data_repo"])).unwrap();
    assert_eq!(r.num_folders, 100);
    assert_eq!(r.disk_size, 204800);
    assert_eq!(r.root_folder, "data_repo");
    let r = parse_args(&strings(&["file-craft", "+2", "0", "x y"])).unwrap();
    assert_eq!(r.num_folders, 2);
    assert_eq!(r.disk_size, 0);
    assert_eq!(r.root_folder, "x y");
}

#[test]
fn path_text() {
    let p = PathBuf::from("/tmp").join("data_repo");
    assert_eq!(path_to_string(&p), Some("/tmp/data_repo".to_string()));
}

#[test]
fn parse_usize_cases() {
    assert_eq!(parse_usize("0"), Some(0));
    assert_eq!(parse_usize("007"), Some(7));
    assert_eq!(parse_usize("+42"), Some(42));
    assert_eq!(parse_usize(""), None);
    assert_eq!(parse_usize("+"), None);
    assert_eq!(parse_usize("-0"), None);
    assert_eq!(parse_usize("12a"), None);
    assert_eq!(parse_usize(" 1"), None);
    assert_eq!(parse_usize("++1"), None);
    let max = usize::MAX.to_string();
    assert_eq!(parse_usize(&max), Some(usize::MAX));
    assert_eq!(parse_usize(&format!("{}0", max)), None);
    assert_eq!(parse_usize("18446744073709551616"), "18446744073709551616".parse::<usize>().ok());
}
