use semantic_rs::toml_file::{
    file_with_new_version, read_version, read_workspace, replaced_or_unchanged,
    select_members,
};

fn example_file() -> String {
    "[package]
    name = \"semantic-rs\"
    version = \"0.1.0\"
    authors = [\"Jan Schulte <hello@unexpected-co.de>\"]
    [dependencies]
    term = \"0.2\"
    toml = \"0.1\""
        .to_string()
}

fn example_file_without_version() -> String {
    "[package]
    name = \"semantic-rs\"
    authors = [\"Jan Schulte <hello@unexpected-co.de>\"]
    [dependencies]
    term = \"0.2\"
    toml = \"0.1\""
        .to_string()
}

#[test]
fn read_version_number() {
    let version_str = read_version(&example_file());
    assert_eq!(version_str, Some("0.1.0".into()));
}

#[test]
fn read_file_without_version_number() {
    let version_str = read_version(&example_file_without_version());
    assert_eq!(version_str, None);
}

#[test]
fn write_new_version_number() {
    let new_toml_file = file_with_new_version(example_file(), "0.2.0");
    let expected_file = "[package]
    name = \"semantic-rs\"
    version = \"0.2.0\"
    authors = [\"Jan Schulte <hello@unexpected-co.de>\"]
    [dependencies]
    term = \"0.2\"
    toml = \"0.1\""
        .to_string();
    assert_eq!(new_toml_file, expected_file);
}

#[test]
fn only_the_first_version_line_changes() {
    let file = "version = \"1.0.0\"\nversion = \"1.0.0\"\n".to_string();
    assert_eq!(file_with_new_version(file, "1.0.1"), "version = \"1.0.1\"\nversion = \"1.0.0\"\n");
}

#[test]
fn a_file_without_version_line_stays() {
    let file = "name = \"x\"\nversion = \"1.0\"\n".to_string();
    assert_eq!(file_with_new_version(file.clone(), "1.0.1"), file);
}

#[test]
fn replacement_falls_back_to_the_file() {
    assert_eq!(replaced_or_unchanged("old".to_string(), Some("new".to_string())), "new");
    assert_eq!(replaced_or_unchanged("old".to_string(), None), "old");
}

#[test]
fn empty_version_counts_as_none() {
    assert_eq!(read_version("[package]\nname = \"x\"\nversion = \"\"\n"), None);
}

#[test]
fn text_that_is_no_manifest() {
    assert_eq!(read_version("this is [not toml"), None);
    assert_eq!(read_workspace("this is [not toml"), None);
}

#[test]
fn workspace_members_are_listed() {
    let file = "[workspace]\nmembers = [\"core\", \"cli\"]\n";
    assert_eq!(read_workspace(file), Some(vec!["core".to_string(), "cli".to_string()]));
    assert_eq!(read_version(file), None);
    assert_eq!(read_workspace(&example_file()), None);
}

#[test]
fn member_selection() {
    let members = vec!["core".to_string(), "cli".to_string(), "core".to_string()];
    assert_eq!(select_members(&members, "all"), members);
    assert_eq!(select_members(&members, "core"), vec!["core".to_string(), "core".to_string()]);
    assert_eq!(select_members(&members, "cli"), vec!["cli".to_string()]);
    assert!(select_members(&members, "gui").is_empty());
    assert!(select_members(&Vec::new(), "all").is_empty());
}
