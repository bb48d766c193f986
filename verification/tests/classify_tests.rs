use semantic_rs::commit_analyzer::{classify, is_release_marker, CommitType};

#[test]
fn fix_with_scope() {
    let c = classify("fix(parser): handle empty input");
    assert_eq!(c.kind, CommitType::Patch);
    assert_eq!(c.scope, Some("parser".to_string()));
    assert_eq!(c.subject, "handle empty input");
}

#[test]
fn bang_overrides_the_type() {
    let c = classify("feat!: drop legacy API");
    assert_eq!(c.kind, CommitType::Major);
    assert_eq!(c.scope, None);
    assert_eq!(c.subject, "drop legacy API");
}

#[test]
fn bang_on_any_type_is_breaking() {
    assert_eq!(classify("chore!: drop node 8").kind, CommitType::Major);
    assert_eq!(classify("fix(api)!: rename field").kind, CommitType::Major);
    assert_eq!(classify("fix(api)!: rename field").scope, Some("api".to_string()));
}

#[test]
fn plain_feature_and_fix() {
    assert_eq!(classify("feat: add flag").kind, CommitType::Minor);
    assert_eq!(classify("fix: off by one").kind, CommitType::Patch);
}

#[test]
fn type_is_read_in_any_case() {
    assert_eq!(classify("FEAT: loud").kind, CommitType::Minor);
    assert_eq!(classify("Fix: capitalised").kind, CommitType::Patch);
    assert_eq!(classify("fIx(x): mixed").kind, CommitType::Patch);
}

#[test]
fn other_types_carry_no_annotation() {
    for message in ["chore: tidy", "docs(readme): typo", "refactor: split", "perf: cache", "test: more", "style: fmt", "feature: not a type", "fixes: neither"] {
        assert_eq!(classify(message).kind, CommitType::Unknown);
    }
    assert_eq!(classify("docs(readme): typo").scope, Some("readme".to_string()));
    assert_eq!(classify("docs(readme): typo").subject, "typo");
}

#[test]
fn breaking_footer_escalates() {
    let c = classify("fix: change default\n\nBREAKING CHANGE: the default is now off");
    assert_eq!(c.kind, CommitType::Major);
    assert_eq!(c.subject, "change default");
    let d = classify("docs: note\nBREAKING CHANGE: really");
    assert_eq!(d.kind, CommitType::Major);
}

#[test]
fn breaking_words_elsewhere_do_not_escalate() {
    assert_eq!(classify("fix: mention BREAKING CHANGE: inline").kind, CommitType::Patch);
    assert_eq!(classify("fix: a\n\n  BREAKING CHANGE: indented").kind, CommitType::Patch);
    assert_eq!(classify("fix: a\n\nBREAKING CHANGE without colon").kind, CommitType::Patch);
}

#[test]
fn unrecognised_messages_degrade() {
    for message in ["", "just some words", ": no type", "feat add flag", "feat(: x", "feat(): x", "feat(a: x", "feat (a): x", "fix(a)b: x", "12: numbers"] {
        let c = classify(message);
        assert_eq!(c.kind, CommitType::Unknown);
        assert_eq!(c.scope, None);
    }
    assert_eq!(classify("just some words\nand a body").subject, "just some words");
    assert_eq!(classify("no grammar\n\nBREAKING CHANGE: ignored").kind, CommitType::Unknown);
}

#[test]
fn scope_is_kept_verbatim() {
    assert_eq!(classify("feat(My Scope/2): x").scope, Some("My Scope/2".to_string()));
    assert_eq!(classify("feat(ética): acentos").scope, Some("ética".to_string()));
}

#[test]
fn subject_is_the_rest_of_the_first_line() {
    assert_eq!(classify("feat:no blank").subject, "no blank");
    assert_eq!(classify("feat:    many blanks").subject, "many blanks");
    assert_eq!(classify("feat: first line\nsecond line").subject, "first line");
    assert_eq!(classify("feat:").subject, "");
    assert_eq!(classify("fix: ünïcödé ok").subject, "ünïcödé ok");
}

#[test]
fn release_markers() {
    assert!(is_release_marker("Bump version to 1.2.3"));
    assert!(is_release_marker("Bump version to 0.10.0\n\nsome body"));
    assert!(!is_release_marker("Bump version to 1.2"));
    assert!(!is_release_marker("Bump version to 1.2.3-beta"));
    assert!(!is_release_marker("Bump version to v1.2.3"));
    assert!(!is_release_marker("bump version to 1.2.3"));
    assert!(!is_release_marker("chore: Bump version to 1.2.3"));
    assert!(!is_release_marker("Bump version to "));
    assert!(!is_release_marker("Bump version to 1..3"));
    assert!(!is_release_marker(""));
}
