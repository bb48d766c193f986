use semantic_rs::commit_analyzer::CommitType;
use semantic_rs::version::{
    can_bump, decimal_string, is_older, newest, parse_version, version_bump, Version,
};

fn v(major: u64, minor: u64, patch: u64) -> Version {
    Version { major, minor, patch }
}

#[test]
fn test_breaking_bump_major_zero() {
    let buggy_release = parse_version("0.2.0").unwrap();
    let bumped_version = version_bump(&buggy_release, CommitType::Major).unwrap();
    assert_eq!(bumped_version, parse_version("0.3.0").unwrap());
}

#[test]
fn test_breaking_bump_major_one() {
    let buggy_release = parse_version("1.0.0").unwrap();
    let bumped_version = version_bump(&buggy_release, CommitType::Major).unwrap();
    assert_eq!(bumped_version, parse_version("2.0.0").unwrap());
}

#[test]
fn bump_table_for_major_zero() {
    let current = v(0, 2, 7);
    assert_eq!(version_bump(&current, CommitType::Unknown), None);
    assert_eq!(version_bump(&current, CommitType::Patch), Some(v(0, 2, 8)));
    assert_eq!(version_bump(&current, CommitType::Minor), Some(v(0, 2, 8)));
    assert_eq!(version_bump(&current, CommitType::Major), Some(v(0, 3, 0)));
}

#[test]
fn bump_table_for_stable_versions() {
    let current = v(1, 4, 2);
    assert_eq!(version_bump(&current, CommitType::Unknown), None);
    assert_eq!(version_bump(&current, CommitType::Patch), Some(v(1, 4, 3)));
    assert_eq!(version_bump(&current, CommitType::Minor), Some(v(1, 5, 0)));
    assert_eq!(version_bump(&current, CommitType::Major), Some(v(2, 0, 0)));
}

#[test]
fn bump_leaves_the_input_alone() {
    let current = v(3, 1, 4);
    let _ = version_bump(&current, CommitType::Major);
    assert_eq!(current, v(3, 1, 4));
}

#[test]
fn unannotated_never_releases() {
    assert_eq!(version_bump(&v(0, 0, 0), CommitType::Unknown), None);
    assert_eq!(version_bump(&v(u64::MAX, u64::MAX, u64::MAX), CommitType::Unknown), None);
}

#[test]
fn bump_at_the_edge_of_the_range() {
    let current = v(1, u64::MAX, u64::MAX - 1);
    assert_eq!(version_bump(&current, CommitType::Patch), Some(v(1, u64::MAX, u64::MAX)));
    assert_eq!(version_bump(&current, CommitType::Major), Some(v(2, 0, 0)));
}

#[test]
fn decimal_notation() {
    assert_eq!(decimal_string(0), "0");
    assert_eq!(decimal_string(7), "7");
    assert_eq!(decimal_string(10), "10");
    assert_eq!(decimal_string(1234567890), "1234567890");
    assert_eq!(decimal_string(u64::MAX), "18446744073709551615");
}

#[test]
fn canonical_version_text() {
    assert_eq!(v(0, 4, 2).to_string(), "0.4.2");
    assert_eq!(v(10, 0, 305).to_string(), "10.0.305");
}

#[test]
fn parse_reads_the_three_components() {
    assert_eq!(parse_version("1.4.2"), Some(v(1, 4, 2)));
    assert_eq!(parse_version(" 0.10.0 "), Some(v(0, 10, 0)));
    assert_eq!(parse_version("2.0.0-beta.1+build5"), Some(v(2, 0, 0)));
}

#[test]
fn parse_rejects_what_is_no_version() {
    assert_eq!(parse_version(""), None);
    assert_eq!(parse_version("1.2"), None);
    assert_eq!(parse_version("a.b.c"), None);
    assert_eq!(parse_version("1.2.3 junk"), None);
}

#[test]
fn bump_fits_unless_the_component_is_full() {
    let full_patch = v(0, 1, u64::MAX);
    assert!(can_bump(&full_patch, CommitType::Unknown));
    assert!(!can_bump(&full_patch, CommitType::Patch));
    assert!(!can_bump(&full_patch, CommitType::Minor));
    assert!(can_bump(&full_patch, CommitType::Major));
    let full_minor = v(1, u64::MAX, 0);
    assert!(can_bump(&full_minor, CommitType::Patch));
    assert!(!can_bump(&full_minor, CommitType::Minor));
    assert!(can_bump(&full_minor, CommitType::Major));
    assert!(!can_bump(&v(u64::MAX, 0, 0), CommitType::Major));
}

#[test]
fn older_and_newer() {
    assert!(is_older(&v(1, 2, 3), &v(1, 2, 4)));
    assert!(is_older(&v(1, 2, 9), &v(1, 3, 0)));
    assert!(is_older(&v(1, 9, 9), &v(2, 0, 0)));
    assert!(!is_older(&v(1, 2, 3), &v(1, 2, 3)));
    assert!(!is_older(&v(2, 0, 0), &v(1, 9, 9)));
    assert!(!is_older(&v(0, 10, 0), &v(0, 9, 5)));
}

#[test]
fn newest_of_a_list() {
    assert_eq!(newest(&Vec::new()), None);
    assert_eq!(newest(&vec![v(1, 0, 0)]), Some(0));
    assert_eq!(newest(&vec![v(0, 9, 0), v(0, 10, 0), v(0, 2, 5)]), Some(1));
    assert_eq!(newest(&vec![v(1, 0, 0), v(2, 0, 0), v(2, 0, 0)]), Some(1));
    assert_eq!(newest(&vec![v(3, 0, 0), v(2, 9, 9), v(0, 0, 1)]), Some(0));
}
