use vstd::prelude::*;
use vstd::string::*;
use crate::commit_analyzer::{severity, CommitType};
use crate::text::texts;
use crate::commit_analyzer::release_marker;
use crate::plan::{
    classified_all, commit_views, marker_changes_nothing, ClassifiedCommit, ClassifiedCommitView,
    CommitRecordView,
};

verus! {

/// The short form of a commit id: its first seven characters, or all of it
/// where it has fewer.
pub open spec fn short_id(id: Seq<char>) -> Seq<char> {
    if id.len() > 7 {
        id.subrange(0, 7)
    } else {
        id
    }
}

/// The line that stands for one commit: the scope in bold where there is
/// one, the subject, and the short id in parentheses.
pub open spec fn entry_line(c: ClassifiedCommitView) -> Seq<char> {
    let lead = match c.scope {
        Some(scope) => "* **"@ + scope + ":** "@,
        None => "* "@,
    };
    lead + c.subject + " ("@ + short_id(c.record.id) + ")\n"@
}

/// The lines of the commits of one kind, in the order of the list.
pub open spec fn lines(commits: Seq<ClassifiedCommitView>, kind: CommitType) -> Seq<Seq<char>>
    decreases commits.len(),
{
    if commits.len() == 0 {
        Seq::empty()
    } else if commits.last().kind == kind {
        lines(commits.drop_last(), kind).push(entry_line(commits.last()))
    } else {
        lines(commits.drop_last(), kind)
    }
}

/// Texts written one after the other.
pub open spec fn joined(parts: Seq<Seq<char>>) -> Seq<char>
    decreases parts.len(),
{
    if parts.len() == 0 {
        Seq::empty()
    } else {
        joined(parts.drop_last()) + parts.last()
    }
}

/// The text of the entries of one kind.
pub open spec fn entries(commits: Seq<ClassifiedCommitView>, kind: CommitType) -> Seq<char> {
    joined(lines(commits, kind))
}

/// The title of the section of one kind.
pub open spec fn section_title(kind: CommitType) -> Seq<char> {
    match kind {
        CommitType::Major => "#### Breaking Changes\n\n"@,
        CommitType::Minor => "#### Features\n\n"@,
        CommitType::Patch => "#### Bug Fixes\n\n"@,
        CommitType::Unknown => "#### Other Changes\n\n"@,
    }
}

/// The section of one kind: its title, its entries and an empty line, or
/// nothing at all where no commit is of that kind.
pub open spec fn section(commits: Seq<ClassifiedCommitView>, kind: CommitType) -> Seq<char> {
    if lines(commits, kind).len() == 0 {
        Seq::empty()
    } else {
        section_title(kind) + entries(commits, kind) + "\n"@
    }
}

/// The heading of a release: the new version and the date, then the version
/// that the changes are counted from.
pub open spec fn heading(from: Seq<char>, to: Seq<char>, date: Seq<char>) -> Seq<char> {
    "## "@ + to + " ("@ + date + ")\n\n"@ + "Changes since "@ + from + "\n\n"@
}

/// The release notes: the heading, then the breaking changes, the features
/// and the fixes, each section only where it has entries. Commits without an
/// annotation are not listed.
pub open spec fn rendered(
    commits: Seq<ClassifiedCommitView>,
    from: Seq<char>,
    to: Seq<char>,
    date: Seq<char>,
) -> Seq<char> {
    heading(from, to, date) + section(commits, CommitType::Major) + section(
        commits,
        CommitType::Minor,
    ) + section(commits, CommitType::Patch)
}

/// Writes the line of one commit.
pub fn entry(commit: &ClassifiedCommit) -> (line: String)
    ensures
        line@ == entry_line(commit@),
{
    let mut line = String::new();
    match &commit.scope {
        Some(scope) => {
            line.append("* **");
            line.append(scope.as_str());
            line.append(":** ");
        },
        None => {
            line.append("* ");
        },
    }
    line.append(commit.subject.as_str());
    line.append(" (");
    let id = commit.record.id.as_str();
    let n = id.unicode_len();
    let shown = if n > 7 { id.substring_char(0, 7) } else { id };
    line.append(shown);
    line.append(")\n");
    proof {
        let lead = match commit@.scope {
            Some(scope) => "* **"@ + scope + ":** "@,
            None => "* "@,
        };
        assert(Seq::<char>::empty() + "* **"@ =~= "* **"@);
        assert(Seq::<char>::empty() + "* "@ =~= "* "@);
        assert(line@ == lead + commit@.subject + " ("@ + short_id(commit@.record.id) + ")\n"@);
    }
    line
}

/// One section of the release notes: the commits of one kind, each as its
/// line.
#[derive(Debug)]
pub struct ChangelogSection {
    pub kind: CommitType,
    pub heading: String,
    pub entries: Vec<String>,
}

impl ChangelogSection {
    /// Whether the section is the one of `kind` for the given commits.
    pub open spec fn holds(self, commits: Seq<ClassifiedCommitView>, kind: CommitType) -> bool {
        &&& self.kind == kind
        &&& self.heading@ == section_title(kind)
        &&& texts(self.entries@) == lines(commits, kind)
    }

    /// The text of the section: nothing where it has no entries.
    pub open spec fn text(self) -> Seq<char> {
        if self.entries@.len() == 0 {
            Seq::empty()
        } else {
            self.heading@ + joined(texts(self.entries@)) + "\n"@
        }
    }
}

/// Collects the section of one kind.
pub fn section_for(commits: &Vec<ClassifiedCommit>, kind: CommitType) -> (section:
    ChangelogSection)
    ensures
        section.holds(commit_views(commits@), kind),
{
    let ghost all = commit_views(commits@);
    let mut entries: Vec<String> = Vec::new();
    let mut i: usize = 0;
    assert(texts(entries@) =~= lines(all.take(0), kind));
    while i < commits.len()
        invariant
            i <= commits.len(),
            all == commit_views(commits@),
            texts(entries@) == lines(all.take(i as int), kind),
        decreases commits.len() - i,
    {
        proof {
            assert(all.take(i + 1).drop_last() =~= all.take(i as int));
            assert(all.take(i + 1).last() == commits[i as int]@);
        }
        if commits[i].kind == kind {
            let ghost before = texts(entries@);
            let line = entry(&commits[i]);
            entries.push(line);
            assert(texts(entries@) =~= before.push(line@));
        }
        i += 1;
    }
    assert(all.take(i as int) =~= all);
    let heading = match kind {
        CommitType::Major => "#### Breaking Changes\n\n",
        CommitType::Minor => "#### Features\n\n",
        CommitType::Patch => "#### Bug Fixes\n\n",
        CommitType::Unknown => "#### Other Changes\n\n",
    };
    ChangelogSection { kind, heading: heading.to_owned(), entries }
}

/// Writes a section: its heading, its entries and an empty line. A section
/// without entries gives no text.
pub fn section_to_text(section: &ChangelogSection) -> (text: String)
    ensures
        text@ == section.text(),
{
    let mut text = String::new();
    if section.entries.len() == 0 {
        return text;
    }
    let ghost all = texts(section.entries@);
    text.append(section.heading.as_str());
    assert(Seq::<char>::empty() + section.heading@ =~= section.heading@);
    let mut i: usize = 0;
    assert(section.heading@ + joined(all.take(0)) =~= section.heading@);
    while i < section.entries.len()
        invariant
            i <= section.entries.len(),
            all == texts(section.entries@),
            text@ == section.heading@ + joined(all.take(i as int)),
        decreases section.entries.len() - i,
    {
        proof {
            assert(all.take(i + 1).drop_last() =~= all.take(i as int));
            assert(all.take(i + 1).last() == section.entries[i as int]@);
            assert((section.heading@ + joined(all.take(i as int))) + section.entries[i as int]@
                =~= section.heading@ + (joined(all.take(i as int)) + section.entries[i as int]@));
        }
        text.append(section.entries[i].as_str());
        i += 1;
    }
    assert(all.take(i as int) =~= all);
    text.append("\n");
    text
}

/// The sections of the release notes, in the order in which they are shown:
/// breaking changes, features, fixes. A kind without commits has no section.
pub fn sections(commits: &Vec<ClassifiedCommit>) -> (out: Vec<ChangelogSection>)
    ensures
        out@.len() <= 3,
        forall|i: int|
            0 <= i < out@.len() ==> (#[trigger] out@[i]).holds(commit_views(commits@), out@[i].kind)
                && out@[i].entries@.len() > 0 && out@[i].kind != CommitType::Unknown,
        forall|i: int, j: int|
            0 <= i < j < out@.len() ==> severity(#[trigger] out@[i].kind) > severity(
                #[trigger] out@[j].kind,
            ),
        forall|kind: CommitType|
            kind != CommitType::Unknown && lines(commit_views(commits@), kind).len() > 0
                ==> exists|i: int| 0 <= i < out@.len() && #[trigger] out@[i].kind == kind,
{
    let mut out: Vec<ChangelogSection> = Vec::new();
    let breaking = section_for(commits, CommitType::Major);
    if breaking.entries.len() > 0 {
        out.push(breaking);
    }
    let features = section_for(commits, CommitType::Minor);
    if features.entries.len() > 0 {
        out.push(features);
    }
    let fixes = section_for(commits, CommitType::Patch);
    if fixes.entries.len() > 0 {
        out.push(fixes);
    }
    proof {
        let views = commit_views(commits@);
        assert forall|kind: CommitType|
            kind != CommitType::Unknown && lines(views, kind).len() > 0 implies exists|i: int|
            0 <= i < out@.len() && #[trigger] out@[i].kind == kind by {
            if kind == CommitType::Major {
                assert(out@[0].kind == kind);
            } else if kind == CommitType::Minor {
                if out@[0].kind == kind {
                } else {
                    assert(out@[1].kind == kind);
                }
            } else {
                let last = out@.len() - 1;
                assert(out@[last].kind == kind);
            }
        }
    }
    out
}

/// Writes the section of one kind.
pub fn section_text(commits: &Vec<ClassifiedCommit>, kind: CommitType) -> (text: String)
    ensures
        text@ == section(commit_views(commits@), kind),
{
    let found = section_for(commits, kind);
    section_to_text(&found)
}

/// Renders the release notes for the commits of a release. The same
/// arguments always give the same text.
pub fn render(
    commits: &Vec<ClassifiedCommit>,
    from_version: &str,
    to_version: &str,
    date: &str,
) -> (text: String)
    ensures
        text@ == rendered(commit_views(commits@), from_version@, to_version@, date@),
{
    let mut text = String::new();
    text.append("## ");
    text.append(to_version);
    text.append(" (");
    text.append(date);
    text.append(")\n\n");
    text.append("Changes since ");
    text.append(from_version);
    text.append("\n\n");
    assert(Seq::<char>::empty() + "## "@ =~= "## "@);
    assert(text@ == heading(from_version@, to_version@, date@));
    let breaking = section_text(commits, CommitType::Major);
    text.append(breaking.as_str());
    let features = section_text(commits, CommitType::Minor);
    text.append(features.as_str());
    let fixes = section_text(commits, CommitType::Patch);
    text.append(fixes.as_str());
    text
}

/// Puts the notes of a new release above the changelog that was there
/// before. Where there was none, the notes are the whole changelog.
pub fn merge(notes: &str, prior: Option<&str>) -> (text: String)
    ensures
        text@ == notes@ + (match prior {
            Some(p) => p@,
            None => Seq::empty(),
        }),
{
    let mut text = notes.to_owned();
    match prior {
        Some(p) => {
            text.append(p);
        },
        None => {
            assert(notes@ + Seq::<char>::empty() =~= notes@);
        },
    }
    text
}

/// Rendering depends on nothing but its arguments: equal commits, versions
/// and date give equal text.
pub proof fn rendering_is_repeatable(
    first: Seq<ClassifiedCommitView>,
    second: Seq<ClassifiedCommitView>,
    from: Seq<char>,
    to: Seq<char>,
    date: Seq<char>,
)
    requires
        first =~= second,
    ensures
        rendered(first, from, to, date) == rendered(second, from, to, date),
{
}

/// A commit without an annotation leaves the release notes as they are.
pub proof fn unannotated_is_not_listed(
    before: Seq<ClassifiedCommitView>,
    commit: ClassifiedCommitView,
    from: Seq<char>,
    to: Seq<char>,
    date: Seq<char>,
)
    requires
        commit.kind == CommitType::Unknown,
    ensures
        rendered(before.push(commit), from, to, date) == rendered(before, from, to, date),
{
    assert(before.push(commit).drop_last() =~= before);
}

/// A release marker never shows in the release notes: the notes of a list
/// of commits are those of the list without the marker.
pub proof fn marker_is_not_rendered(
    before: Seq<CommitRecordView>,
    marker: CommitRecordView,
    after: Seq<CommitRecordView>,
    from: Seq<char>,
    to: Seq<char>,
    date: Seq<char>,
)
    requires
        release_marker(marker.message),
    ensures
        rendered(classified_all(before.push(marker) + after), from, to, date) == rendered(
            classified_all(before + after),
            from,
            to,
            date,
        ),
{
    marker_changes_nothing(before, marker, after);
}

} // verus!
