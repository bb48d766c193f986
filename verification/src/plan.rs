use vstd::prelude::*;
use crate::commit_analyzer::{
    classification, classify, is_release_marker, rank, release_marker, severity, CommitType,
};
use crate::version::{bump_fits, can_bump, next_version, triple, version_bump, Version};

verus! {

/// A commit as the repository reader hands it over.
#[derive(Debug)]
pub struct CommitRecord {
    pub id: String,
    pub message: String,
    pub author: String,
    pub timestamp: i64,
}

/// A commit record with its texts as sequences of characters.
pub ghost struct CommitRecordView {
    pub id: Seq<char>,
    pub message: Seq<char>,
    pub author: Seq<char>,
    pub timestamp: i64,
}

impl View for CommitRecord {
    type V = CommitRecordView;

    open spec fn view(&self) -> CommitRecordView {
        CommitRecordView {
            id: self.id@,
            message: self.message@,
            author: self.author@,
            timestamp: self.timestamp,
        }
    }
}

impl CommitRecord {
    /// A second record with the same contents.
    pub fn duplicate(&self) -> (copy: CommitRecord)
        ensures
            copy@ == self@,
    {
        CommitRecord {
            id: self.id.clone(),
            message: self.message.clone(),
            author: self.author.clone(),
            timestamp: self.timestamp,
        }
    }
}

/// A commit together with what its message says.
#[derive(Debug)]
pub struct ClassifiedCommit {
    pub record: CommitRecord,
    pub kind: CommitType,
    pub scope: Option<String>,
    pub subject: String,
}

/// A classified commit with its texts as sequences of characters.
pub ghost struct ClassifiedCommitView {
    pub record: CommitRecordView,
    pub kind: CommitType,
    pub scope: Option<Seq<char>>,
    pub subject: Seq<char>,
}

impl View for ClassifiedCommit {
    type V = ClassifiedCommitView;

    open spec fn view(&self) -> ClassifiedCommitView {
        ClassifiedCommitView {
            record: self.record@,
            kind: self.kind,
            scope: match self.scope {
                Some(s) => Some(s@),
                None => None,
            },
            subject: self.subject@,
        }
    }
}

/// The records of a list, each by its view.
pub open spec fn record_views(records: Seq<CommitRecord>) -> Seq<CommitRecordView> {
    records.map_values(|r: CommitRecord| r@)
}

/// The classified commits of a list, each by its view.
pub open spec fn commit_views(commits: Seq<ClassifiedCommit>) -> Seq<ClassifiedCommitView> {
    commits.map_values(|c: ClassifiedCommit| c@)
}

/// The kinds of a list of classified commits, in the order of the list.
pub open spec fn kinds(commits: Seq<ClassifiedCommitView>) -> Seq<CommitType> {
    commits.map_values(|c: ClassifiedCommitView| c.kind)
}

/// A record with the classification of its message.
pub open spec fn classified(record: CommitRecordView) -> ClassifiedCommitView {
    let c = classification(record.message);
    ClassifiedCommitView { record, kind: c.kind, scope: c.scope, subject: c.subject }
}

/// The more severe of two kinds.
pub open spec fn stronger(a: CommitType, b: CommitType) -> CommitType {
    if severity(a) >= severity(b) {
        a
    } else {
        b
    }
}

/// The most severe kind of a list; no annotation where the list is empty.
pub open spec fn dominant(kinds: Seq<CommitType>) -> CommitType
    decreases kinds.len(),
{
    if kinds.len() == 0 {
        CommitType::Unknown
    } else {
        stronger(dominant(kinds.drop_last()), kinds.last())
    }
}

/// The records that take part in a release decision: all but the release
/// markers, in the order in which they were given.
pub open spec fn eligible(records: Seq<CommitRecordView>) -> Seq<CommitRecordView>
    decreases records.len(),
{
    if records.len() == 0 {
        Seq::empty()
    } else if release_marker(records.last().message) {
        eligible(records.drop_last())
    } else {
        eligible(records.drop_last()).push(records.last())
    }
}

/// The classified commits of a release: every eligible record, classified.
pub open spec fn classified_all(records: Seq<CommitRecordView>) -> Seq<ClassifiedCommitView> {
    eligible(records).map_values(|r: CommitRecordView| classified(r))
}

/// Classifies one commit by its message.
pub fn classify_commit(record: CommitRecord) -> (commit: ClassifiedCommit)
    ensures
        commit@ == classified(record@),
{
    let c = classify(record.message.as_str());
    ClassifiedCommit { record, kind: c.kind, scope: c.scope, subject: c.subject }
}

/// Reduces the commits of a release to their most severe kind. The list is
/// only read.
pub fn aggregate(commits: &Vec<ClassifiedCommit>) -> (kind: CommitType)
    ensures
        kind == dominant(kinds(commit_views(commits@))),
{
    let ghost all = kinds(commit_views(commits@));
    let mut best = CommitType::Unknown;
    let mut i: usize = 0;
    while i < commits.len()
        invariant
            i <= commits.len(),
            all == kinds(commit_views(commits@)),
            best == dominant(all.take(i as int)),
        decreases commits.len() - i,
    {
        let kind = commits[i].kind;
        proof {
            assert(all.take(i + 1).drop_last() =~= all.take(i as int));
            assert(all.take(i + 1).last() == kind);
        }
        if rank(kind) > rank(best) {
            best = kind;
        }
        i += 1;
    }
    assert(all.take(i as int) =~= all);
    best
}

/// Drops the release markers from a list of commits and classifies the rest,
/// keeping their order.
pub fn classify_all(records: &Vec<CommitRecord>) -> (commits: Vec<ClassifiedCommit>)
    ensures
        commit_views(commits@) == classified_all(record_views(records@)),
{
    let ghost all = record_views(records@);
    let mut commits: Vec<ClassifiedCommit> = Vec::new();
    let mut i: usize = 0;
    assert(commit_views(commits@) =~= classified_all(all.take(0)));
    while i < records.len()
        invariant
            i <= records.len(),
            all == record_views(records@),
            commit_views(commits@) == classified_all(all.take(i as int)),
        decreases records.len() - i,
    {
        proof {
            assert(all.take(i + 1).drop_last() =~= all.take(i as int));
            assert(all.take(i + 1).last() == records[i as int]@);
        }
        if !is_release_marker(records[i].message.as_str()) {
            let ghost before = commit_views(commits@);
            let commit = classify_commit(records[i].duplicate());
            commits.push(commit);
            assert(commit_views(commits@) =~= before.push(commit@));
            assert(classified_all(all.take(i + 1)) =~= classified_all(all.take(i as int)).push(
                classified(records[i as int]@),
            ));
        }
        i += 1;
    }
    assert(all.take(i as int) =~= all);
    commits
}

/// The outcome of one release decision.
#[derive(Debug)]
pub struct ReleasePlan {
    pub current_version: Version,
    pub next_version: Option<Version>,
    pub dominant_kind: CommitType,
    pub classified_commits: Vec<ClassifiedCommit>,
}

impl ReleasePlan {
    /// Whether the plan is the one that follows from the current version and
    /// the commits since the last release.
    pub open spec fn decides(self, current: Version, records: Seq<CommitRecordView>) -> bool {
        let kind = dominant(kinds(classified_all(records)));
        &&& self.current_version == current
        &&& commit_views(self.classified_commits@) == classified_all(records)
        &&& self.dominant_kind == kind
        &&& match self.next_version {
            Some(next) => next_version(current, kind) == Some(triple(next)),
            None => kind == CommitType::Unknown,
        }
    }
}

/// Decides on a release: which commits count, how severe they are together,
/// and which version follows, if any.
pub fn release_plan(current: Version, records: &Vec<CommitRecord>) -> (plan: ReleasePlan)
    requires
        bump_fits(current, dominant(kinds(classified_all(record_views(records@))))),
    ensures
        plan.decides(current, record_views(records@)),
        plan.next_version is None <==> plan.dominant_kind == CommitType::Unknown,
{
    let classified_commits = classify_all(records);
    let dominant_kind = aggregate(&classified_commits);
    let next = version_bump(&current, dominant_kind);
    ReleasePlan { current_version: current, next_version: next, dominant_kind, classified_commits }
}

/// Decides on a release wherever the next version can be held in 64-bit
/// components, and says `None` where it cannot.
pub fn checked_release_plan(current: Version, records: &Vec<CommitRecord>) -> (plan: Option<
    ReleasePlan,
>)
    ensures
        plan is Some <==> bump_fits(
            current,
            dominant(kinds(classified_all(record_views(records@)))),
        ),
        plan is Some ==> plan->0.decides(current, record_views(records@)),
{
    let classified_commits = classify_all(records);
    let dominant_kind = aggregate(&classified_commits);
    if !can_bump(&current, dominant_kind) {
        return None;
    }
    let next = version_bump(&current, dominant_kind);
    Some(
        ReleasePlan {
            current_version: current,
            next_version: next,
            dominant_kind,
            classified_commits,
        },
    )
}

/// Taking the more severe of two kinds does not depend on their order, nor
/// on how three kinds are grouped, and no annotation is its neutral element.
pub proof fn stronger_is_a_maximum(a: CommitType, b: CommitType, c: CommitType)
    ensures
        stronger(a, b) == stronger(b, a),
        stronger(stronger(a, b), c) == stronger(a, stronger(b, c)),
        stronger(a, a) == a,
        stronger(CommitType::Unknown, a) == a,
        severity(stronger(a, b)) == if severity(a) >= severity(b) {
            severity(a)
        } else {
            severity(b)
        },
{
}

/// The dominant kind of two lists put together is the more severe of their
/// dominant kinds.
pub proof fn dominant_of_concatenation(a: Seq<CommitType>, b: Seq<CommitType>)
    ensures
        dominant(a + b) == stronger(dominant(a), dominant(b)),
    decreases b.len(),
{
    if b.len() == 0 {
        assert(a + b =~= a);
    } else {
        dominant_of_concatenation(a, b.drop_last());
        assert((a + b).drop_last() =~= a + b.drop_last());
        assert((a + b).last() == b.last());
        stronger_is_a_maximum(dominant(a), dominant(b.drop_last()), b.last());
    }
}

/// The dominant kind is the maximum of the list: no kind in the list is more
/// severe, and it is one of the kinds of the list unless the list is empty,
/// in which case it is no annotation.
pub proof fn dominant_is_maximum(kinds: Seq<CommitType>)
    ensures
        forall|i: int|
            0 <= i < kinds.len() ==> severity(#[trigger] kinds[i]) <= severity(dominant(kinds)),
        kinds.len() > 0 ==> kinds.contains(dominant(kinds)),
        kinds.len() == 0 ==> dominant(kinds) == CommitType::Unknown,
    decreases kinds.len(),
{
    if kinds.len() > 0 {
        let rest = kinds.drop_last();
        dominant_is_maximum(rest);
        assert forall|i: int| 0 <= i < kinds.len() implies severity(#[trigger] kinds[i])
            <= severity(dominant(kinds)) by {
            if i < rest.len() {
                assert(kinds[i] == rest[i]);
            }
        }
        if dominant(kinds) == kinds.last() {
            assert(kinds[kinds.len() - 1] == dominant(kinds));
        } else {
            assert(rest.len() > 0);
            let j = choose|j: int| 0 <= j < rest.len() && rest[j] == dominant(rest);
            assert(kinds[j] == dominant(kinds));
        }
    }
}

/// Two kinds of the same severity are the same kind.
pub proof fn severity_is_injective(a: CommitType, b: CommitType)
    requires
        severity(a) == severity(b),
    ensures
        a == b,
{
}

/// The order of the commits does not change the dominant kind: two lists
/// that hold the same kinds, each as often as the other, agree on it.
pub proof fn dominant_ignores_order(a: Seq<CommitType>, b: Seq<CommitType>)
    requires
        a.to_multiset() == b.to_multiset(),
    ensures
        dominant(a) == dominant(b),
{
    dominant_is_maximum(a);
    dominant_is_maximum(b);
    a.to_multiset_ensures();
    b.to_multiset_ensures();
    if a.len() == 0 {
        assert(b.len() == 0);
    } else {
        assert(b.len() > 0);
        assert(a.to_multiset().count(dominant(a)) > 0);
        assert(b.contains(dominant(a)));
        assert(b.to_multiset().count(dominant(b)) > 0);
        assert(a.contains(dominant(b)));
        let i = choose|i: int| 0 <= i < b.len() && b[i] == dominant(a);
        let j = choose|j: int| 0 <= j < a.len() && a[j] == dominant(b);
        assert(severity(b[i]) <= severity(dominant(b)));
        assert(severity(a[j]) <= severity(dominant(a)));
        severity_is_injective(dominant(a), dominant(b));
    }
}

/// No release marker is among the eligible records, and the eligible records
/// all come from the input.
pub proof fn eligible_holds_no_marker(records: Seq<CommitRecordView>)
    ensures
        forall|i: int|
            0 <= i < eligible(records).len() ==> !release_marker(
                (#[trigger] eligible(records)[i]).message,
            ) && records.contains(eligible(records)[i]),
    decreases records.len(),
{
    if records.len() > 0 {
        let rest = records.drop_last();
        eligible_holds_no_marker(rest);
        assert forall|i: int| 0 <= i < eligible(records).len() implies !release_marker(
            (#[trigger] eligible(records)[i]).message,
        ) && records.contains(eligible(records)[i]) by {
            if i < eligible(rest).len() {
                let j = choose|j: int| 0 <= j < rest.len() && rest[j] == eligible(rest)[i];
                assert(records[j] == eligible(rest)[i]);
            } else {
                assert(records[records.len() - 1] == eligible(records)[i]);
            }
        }
    }
}

/// No classified commit of a release is a release marker, and each is a
/// record of the input with the classification of its message.
pub proof fn classified_holds_no_marker(records: Seq<CommitRecordView>)
    ensures
        forall|i: int|
            0 <= i < classified_all(records).len() ==> {
                let commit = #[trigger] classified_all(records)[i];
                &&& !release_marker(commit.record.message)
                &&& records.contains(commit.record)
                &&& commit == classified(commit.record)
            },
{
    eligible_holds_no_marker(records);
    assert forall|i: int| 0 <= i < classified_all(records).len() implies {
        let commit = #[trigger] classified_all(records)[i];
        &&& !release_marker(commit.record.message)
        &&& records.contains(commit.record)
        &&& commit == classified(commit.record)
    } by {
        assert(classified_all(records)[i].record == eligible(records)[i]);
    }
}

/// A release marker anywhere in the list changes nothing: the eligible
/// records, and with them the classified commits and the dominant kind, are
/// those of the list without it.
pub proof fn marker_changes_nothing(
    before: Seq<CommitRecordView>,
    marker: CommitRecordView,
    after: Seq<CommitRecordView>,
)
    requires
        release_marker(marker.message),
    ensures
        eligible(before.push(marker) + after) == eligible(before + after),
        classified_all(before.push(marker) + after) == classified_all(before + after),
        dominant(kinds(classified_all(before.push(marker) + after))) == dominant(
            kinds(classified_all(before + after)),
        ),
    decreases after.len(),
{
    if after.len() == 0 {
        assert(before.push(marker) + after =~= before.push(marker));
        assert(before + after =~= before);
        assert(before.push(marker).drop_last() =~= before);
    } else {
        let with = before.push(marker) + after;
        let without = before + after;
        marker_changes_nothing(before, marker, after.drop_last());
        assert(with.drop_last() =~= before.push(marker) + after.drop_last());
        assert(without.drop_last() =~= before + after.drop_last());
        assert(with.last() == without.last());
    }
}

} // verus!
