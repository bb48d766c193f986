use semantic_rs::changelog::{
    entry, merge, render, section_for, section_text, section_to_text, sections,
};
use semantic_rs::commit_analyzer::CommitType;
use semantic_rs::plan::{
    aggregate, checked_release_plan, classify_all, classify_commit, release_plan,
    ClassifiedCommit, CommitRecord,
};
use semantic_rs::version::Version;

fn record(id: &str, message: &str) -> CommitRecord {
    CommitRecord {
        id: id.to_string(),
        message: message.to_string(),
        author: "Ada <ada@example.org>".to_string(),
        timestamp: 1_700_000_000,
    }
}

fn classified(messages: &[&str]) -> Vec<ClassifiedCommit> {
    messages.iter().map(|m| classify_commit(record("0123456789abcdef", m))).collect()
}

#[test]
fn aggregate_of_nothing_is_unannotated() {
    assert_eq!(aggregate(&Vec::new()), CommitType::Unknown);
}

#[test]
fn aggregate_is_the_maximum() {
    assert_eq!(aggregate(&classified(&["chore: a", "docs: b"])), CommitType::Unknown);
    assert_eq!(aggregate(&classified(&["chore: a", "fix: b"])), CommitType::Patch);
    assert_eq!(aggregate(&classified(&["fix: a", "feat: b", "fix: c"])), CommitType::Minor);
    assert_eq!(aggregate(&classified(&["feat: a", "fix!: b", "feat: c"])), CommitType::Major);
}

#[test]
fn aggregate_ignores_order() {
    let forwards = classified(&["fix: a", "feat: b", "chore: c", "feat!: d"]);
    let backwards = classified(&["feat!: d", "chore: c", "feat: b", "fix: a"]);
    assert_eq!(aggregate(&forwards), aggregate(&backwards));
    assert_eq!(aggregate(&forwards), CommitType::Major);
}

#[test]
fn aggregate_keeps_the_list() {
    let commits = classified(&["fix: a", "feat: b"]);
    let _ = aggregate(&commits);
    assert_eq!(commits.len(), 2);
    assert_eq!(commits[0].subject, "a");
    assert_eq!(commits[1].subject, "b");
}

#[test]
fn classify_commit_keeps_the_record() {
    let c = classify_commit(record("abc", "fix(core): x"));
    assert_eq!(c.record.id, "abc");
    assert_eq!(c.record.message, "fix(core): x");
    assert_eq!(c.record.author, "Ada <ada@example.org>");
    assert_eq!(c.record.timestamp, 1_700_000_000);
    assert_eq!(c.kind, CommitType::Patch);
    assert_eq!(c.scope, Some("core".to_string()));
}

#[test]
fn markers_are_dropped_in_place() {
    let records = vec![
        record("1", "fix: a"),
        record("2", "Bump version to 1.0.0"),
        record("3", "feat: b"),
        record("4", "Bump version to 0.9.0\n\nBREAKING CHANGE: never counted"),
    ];
    let commits = classify_all(&records);
    assert_eq!(commits.len(), 2);
    assert_eq!(commits[0].record.id, "1");
    assert_eq!(commits[1].record.id, "3");
    assert_eq!(aggregate(&commits), CommitType::Minor);
}

#[test]
fn only_markers_mean_no_release() {
    let records = vec![record("1", "Bump version to 1.0.0")];
    let plan = release_plan(Version { major: 1, minor: 0, patch: 0 }, &records);
    assert_eq!(plan.dominant_kind, CommitType::Unknown);
    assert_eq!(plan.next_version, None);
    assert!(plan.classified_commits.is_empty());
    let notes = render(&plan.classified_commits, "1.0.0", "1.0.0", "2024-01-01");
    assert_eq!(notes, "## 1.0.0 (2024-01-01)\n\nChanges since 1.0.0\n\n");
}

#[test]
fn pre_release_stream_end_to_end() {
    let records = vec![
        record("aaaaaaaaaa", "fix: a"),
        record("bbbbbbbbbb", "feat: b"),
        record("cccccccccc", "fix: c"),
    ];
    let current = Version { major: 0, minor: 4, patch: 1 };
    let plan = release_plan(current, &records);
    assert_eq!(plan.current_version, current);
    assert_eq!(plan.dominant_kind, CommitType::Minor);
    assert_eq!(plan.next_version, Some(Version { major: 0, minor: 4, patch: 2 }));
    assert_eq!(plan.next_version.unwrap().to_string(), "0.4.2");
    let notes = render(&plan.classified_commits, "0.4.1", "0.4.2", "2024-01-01");
    assert_eq!(
        notes,
        "## 0.4.2 (2024-01-01)\n\nChanges since 0.4.1\n\n#### Features\n\n* b (bbbbbbb)\n\n#### Bug Fixes\n\n* a (aaaaaaa)\n* c (ccccccc)\n\n"
    );
    assert_eq!(notes.matches("#### Bug Fixes").count(), 1);
}

#[test]
fn plan_for_a_stable_version() {
    let records = vec![record("1", "docs: a"), record("2", "feat(api)!: b")];
    let plan = release_plan(Version { major: 1, minor: 4, patch: 2 }, &records);
    assert_eq!(plan.dominant_kind, CommitType::Major);
    assert_eq!(plan.next_version, Some(Version { major: 2, minor: 0, patch: 0 }));
    assert_eq!(plan.classified_commits.len(), 2);
}

#[test]
fn plan_without_commits() {
    let plan = release_plan(Version { major: 1, minor: 4, patch: 2 }, &Vec::new());
    assert_eq!(plan.dominant_kind, CommitType::Unknown);
    assert_eq!(plan.next_version, None);
}

#[test]
fn entry_lines() {
    let with_scope = classify_commit(record("0123456789", "fix(parser): handle empty input"));
    assert_eq!(entry(&with_scope), "* **parser:** handle empty input (0123456)\n");
    let without = classify_commit(record("abc", "feat: short id"));
    assert_eq!(entry(&without), "* short id (abc)\n");
    let seven = classify_commit(record("1234567", "feat: x"));
    assert_eq!(entry(&seven), "* x (1234567)\n");
}

#[test]
fn sections_in_fixed_order() {
    let commits = vec![
        classify_commit(record("1111111111", "fix: one")),
        classify_commit(record("2222222222", "feat(cli)!: two")),
        classify_commit(record("3333333333", "chore: three")),
        classify_commit(record("4444444444", "feat: four")),
        classify_commit(record("5555555555", "fix(io): five")),
    ];
    assert_eq!(
        render(&commits, "1.0.0", "2.0.0", "2024-02-29"),
        "## 2.0.0 (2024-02-29)\n\nChanges since 1.0.0\n\n\
         #### Breaking Changes\n\n* **cli:** two (2222222)\n\n\
         #### Features\n\n* four (4444444)\n\n\
         #### Bug Fixes\n\n* one (1111111)\n* **io:** five (5555555)\n\n"
    );
}

#[test]
fn empty_sections_are_left_out() {
    let commits = vec![classify_commit(record("1111111111", "fix: one"))];
    assert_eq!(section_text(&commits, CommitType::Major), "");
    assert_eq!(section_text(&commits, CommitType::Minor), "");
    assert_eq!(section_text(&commits, CommitType::Patch), "#### Bug Fixes\n\n* one (1111111)\n\n");
    let notes = render(&commits, "1.0.0", "1.0.1", "2024-01-01");
    assert!(!notes.contains("Features"));
    assert!(!notes.contains("Breaking"));
}

#[test]
fn unannotated_commits_are_not_rendered() {
    let commits = vec![classify_commit(record("1111111111", "chore: invisible"))];
    let notes = render(&commits, "1.0.0", "1.0.0", "2024-01-01");
    assert!(!notes.contains("invisible"));
}

#[test]
fn rendering_twice_gives_the_same_bytes() {
    let commits = vec![
        classify_commit(record("1111111111", "fix: one")),
        classify_commit(record("2222222222", "feat: two")),
    ];
    let first = render(&commits, "1.0.0", "1.1.0", "2024-01-01");
    let second = render(&commits, "1.0.0", "1.1.0", "2024-01-01");
    assert_eq!(first.as_bytes(), second.as_bytes());
}

#[test]
fn merge_puts_the_notes_on_top() {
    assert_eq!(merge("new\n", Some("old\n")), "new\nold\n");
    assert_eq!(merge("new\n", Some("")), "new\n");
    assert_eq!(merge("new\n", None), "new\n");
}

#[test]
fn sections_as_data() {
    let commits = vec![
        classify_commit(record("1111111111", "fix: one")),
        classify_commit(record("2222222222", "feat(cli)!: two")),
        classify_commit(record("3333333333", "chore: three")),
        classify_commit(record("5555555555", "fix(io): five")),
    ];
    let found = sections(&commits);
    assert_eq!(found.len(), 2);
    assert_eq!(found[0].kind, CommitType::Major);
    assert_eq!(found[0].heading, "#### Breaking Changes\n\n");
    assert_eq!(found[0].entries, vec!["* **cli:** two (2222222)\n".to_string()]);
    assert_eq!(found[1].kind, CommitType::Patch);
    assert_eq!(found[1].heading, "#### Bug Fixes\n\n");
    assert_eq!(
        found[1].entries,
        vec!["* one (1111111)\n".to_string(), "* **io:** five (5555555)\n".to_string()]
    );
    assert_eq!(
        section_to_text(&found[1]),
        "#### Bug Fixes\n\n* one (1111111)\n* **io:** five (5555555)\n\n"
    );
}

#[test]
fn section_without_commits() {
    let commits = vec![classify_commit(record("1111111111", "fix: one"))];
    let features = section_for(&commits, CommitType::Minor);
    assert_eq!(features.kind, CommitType::Minor);
    assert_eq!(features.heading, "#### Features\n\n");
    assert!(features.entries.is_empty());
    assert_eq!(section_to_text(&features), "");
    assert!(sections(&Vec::new()).is_empty());
}

#[test]
fn checked_plan_stops_at_the_edge() {
    let records = vec![record("1", "fix: a")];
    let full = Version { major: 1, minor: 0, patch: u64::MAX };
    assert!(checked_release_plan(full, &records).is_none());
    let plan = checked_release_plan(full, &Vec::new()).unwrap();
    assert_eq!(plan.next_version, None);
    let breaking = vec![record("1", "fix!: a")];
    let plan = checked_release_plan(full, &breaking).unwrap();
    assert_eq!(plan.next_version, Some(Version { major: 2, minor: 0, patch: 0 }));
    assert_eq!(plan.dominant_kind, CommitType::Major);
}
