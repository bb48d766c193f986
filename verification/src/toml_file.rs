use vstd::prelude::*;
use vstd::string::*;
use crate::text::{same_text, text_of, texts};

verus! {

/// What a release needs to know of a package manifest: the version that the
/// `[package]` table sets, and the members that the `[workspace]` table
/// lists.
#[derive(Debug)]
pub struct ManifestInfo {
    pub version: Option<String>,
    pub members: Option<Vec<String>>,
}

/// The same with its texts as sequences of characters.
pub ghost struct ManifestInfoView {
    pub version: Option<Seq<char>>,
    pub members: Option<Seq<Seq<char>>>,
}

impl View for ManifestInfo {
    type V = ManifestInfoView;

    open spec fn view(&self) -> ManifestInfoView {
        ManifestInfoView {
            version: text_of(self.version),
            members: match self.members {
                Some(m) => Some(texts(m@)),
                None => None,
            },
        }
    }
}

/// The view of a manifest that may have been rejected.
pub open spec fn info_view(info: Option<ManifestInfo>) -> Option<ManifestInfoView> {
    match info {
        Some(i) => Some(i@),
        None => None,
    }
}

/// What the TOML parser and the manifest schema of `cargo_toml` make of a
/// text: `None` where they reject it.
pub uninterp spec fn manifest_contents(file: Seq<char>) -> Option<ManifestInfoView>;

/// Calls `toml::from_str` to read a `cargo_toml::Manifest` and picks two
/// things out of it: the version of the package table, where the manifest
/// has such a table and the version is written there rather than inherited;
/// and the member list of the workspace table, where there is one. Nothing
/// is claimed about which texts are accepted: the result is only given a
/// name.
#[verifier::external_body]
fn read_manifest(file: &str) -> (info: Option<ManifestInfo>)
    ensures
        info_view(info) == manifest_contents(file@),
{
    match toml::from_str::<cargo_toml::Manifest>(file) {
        Ok(m) => Some(ManifestInfo {
            version: match m.package.map(|p| p.version) {
                Some(cargo_toml::Inheritable::Set(v)) => Some(v),
                Some(cargo_toml::Inheritable::Inherited { .. }) => None,
                None => None,
            },
            members: m.workspace.map(|w| w.members),
        }),
        Err(_) => None,
    }
}

/// The version that a manifest gives: the one its package table sets, unless
/// that is the empty text.
pub open spec fn version_in(info: Option<ManifestInfoView>) -> Option<Seq<char>> {
    match info {
        Some(i) => match i.version {
            Some(v) => if v.len() > 0 {
                Some(v)
            } else {
                None
            },
            None => None,
        },
        None => None,
    }
}

/// The workspace members that a manifest lists, if it is a workspace.
pub open spec fn members_in(info: Option<ManifestInfoView>) -> Option<Seq<Seq<char>>> {
    match info {
        Some(i) => i.members,
        None => None,
    }
}

/// Picks the version out of a manifest that has been read.
pub fn version_of_manifest(info: Option<ManifestInfo>) -> (version: Option<String>)
    ensures
        text_of(version) == version_in(info_view(info)),
{
    match info {
        Some(i) => match i.version {
            Some(v) => if v.as_str().is_empty() {
                None
            } else {
                Some(v)
            },
            None => None,
        },
        None => None,
    }
}

/// Picks the workspace members out of a manifest that has been read.
pub fn members_of_manifest(info: Option<ManifestInfo>) -> (members: Option<Vec<String>>)
    ensures
        match members {
            Some(m) => members_in(info_view(info)) == Some(texts(m@)),
            None => members_in(info_view(info)) is None,
        },
{
    match info {
        Some(i) => i.members,
        None => None,
    }
}

/// The version of the package that a manifest text describes.
pub fn read_version(file: &str) -> (version: Option<String>)
    ensures
        text_of(version) == version_in(manifest_contents(file@)),
{
    version_of_manifest(read_manifest(file))
}

/// The workspace members that a manifest text lists.
pub fn read_workspace(file: &str) -> (members: Option<Vec<String>>)
    ensures
        match members {
            Some(m) => members_in(manifest_contents(file@)) == Some(texts(m@)),
            None => members_in(manifest_contents(file@)) is None,
        },
{
    members_of_manifest(read_manifest(file))
}

/// The test that a member's name is the package selector.
pub open spec fn is_package(package: Seq<char>) -> spec_fn(Seq<char>) -> bool {
    |m: Seq<char>| m == package
}

/// The members that a release touches: all of them where the package
/// selector is `all`, else those whose name is the selector.
pub open spec fn selected(members: Seq<Seq<char>>, package: Seq<char>) -> Seq<Seq<char>> {
    if package == "all"@ {
        members
    } else {
        members.filter(is_package(package))
    }
}

/// Selects the workspace members that a release touches, in their order.
pub fn select_members(members: &Vec<String>, package: &str) -> (chosen: Vec<String>)
    ensures
        texts(chosen@) == selected(texts(members@), package@),
{
    let every = same_text(package, "all");
    let ghost all = texts(members@);
    let mut chosen: Vec<String> = Vec::new();
    let mut i: usize = 0;
    proof {
        reveal(Seq::filter);
        assert(texts(chosen@) =~= all.take(0));
        assert(texts(chosen@) =~= all.take(0).filter(is_package(package@)));
    }
    while i < members.len()
        invariant
            i <= members.len(),
            all == texts(members@),
            every == (package@ == "all"@),
            texts(chosen@) == selected(all.take(i as int), package@),
        decreases members.len() - i,
    {
        proof {
            reveal(Seq::filter);
            assert(all.take(i + 1).drop_last() =~= all.take(i as int));
            assert(all.take(i + 1).last() == members[i as int]@);
            assert(all.take(i as int).push(members[i as int]@) =~= all.take(i + 1));
        }
        if every || same_text(members[i].as_str(), package) {
            let ghost before = texts(chosen@);
            chosen.push(members[i].clone());
            assert(texts(chosen@) =~= before.push(members[i as int]@));
        }
        i += 1;
    }
    assert(all.take(i as int) =~= all);
    chosen
}

/// The line that sets a version in a manifest.
pub open spec fn version_line(version: Seq<char>) -> Seq<char> {
    "version = \""@ + version + "\""@
}

/// What `regex` makes of a replacement: `None` where the pattern is not a
/// regular expression it accepts; else the text with the leftmost match of
/// the pattern replaced by the expansion of the replacement, which is the
/// text itself where nothing matches.
pub uninterp spec fn regex_replaced(
    pattern: Seq<char>,
    text: Seq<char>,
    replacement: Seq<char>,
) -> Option<Seq<char>>;

/// Calls `regex::Regex::new` on the pattern and, where that succeeds,
/// `Regex::replace` on the text with the replacement. Nothing is claimed
/// about the outcome but that it depends on the three texts alone: the
/// result is only given a name.
#[verifier::external_body]
fn replace_first(pattern: &str, text: &str, replacement: &str) -> (out: Option<String>)
    ensures
        text_of(out) == regex_replaced(pattern@, text@, replacement@),
{
    match regex::Regex::new(pattern) {
        Ok(re) => Some(re.replace(text, replacement).into_owned()),
        Err(_) => None,
    }
}

/// The new manifest: the replaced text, or the old one where nothing could
/// be replaced.
pub open spec fn replaced_or(file: Seq<char>, replaced: Option<Seq<char>>) -> Seq<char> {
    match replaced {
        Some(text) => text,
        None => file,
    }
}

/// Takes the outcome of a replacement, falling back to the file as it was.
pub fn replaced_or_unchanged(file: String, replaced: Option<String>) -> (out: String)
    ensures
        out@ == replaced_or(file@, text_of(replaced)),
{
    match replaced {
        Some(text) => text,
        None => file,
    }
}

/// The manifest text with its first version line set to the new version.
/// The line that is replaced has the shape `version = "N.N.N"`.
pub fn file_with_new_version(file: String, new_version: &str) -> (out: String)
    ensures
        out@ == replaced_or(
            file@,
            regex_replaced(
                "version\\s=\\s\"\\d+\\.\\d+\\.\\d+\""@,
                file@,
                version_line(new_version@),
            ),
        ),
{
    let mut line = String::new();
    line.append("version = \"");
    line.append(new_version);
    line.append("\"");
    assert(Seq::<char>::empty() + "version = \""@ =~= "version = \""@);
    let replaced = replace_first(
        "version\\s=\\s\"\\d+\\.\\d+\\.\\d+\"",
        file.as_str(),
        line.as_str(),
    );
    replaced_or_unchanged(file, replaced)
}

} // verus!
