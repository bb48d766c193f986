use vstd::prelude::*;
use crate::text::texts;
use crate::toml_file::{manifest_contents, members_in, read_workspace, select_members, selected};

verus! {

/// One stop on the way through a workspace.
#[derive(Debug)]
pub enum Visit {
    /// The manifest of a directory is to be read: the directory itself where
    /// `member` is `None`, else the member of that name below `parent`.
    Enter { parent: String, member: Option<String> },
    /// The members of a manifest have all been dealt with; the manifest
    /// itself, whose text is `file`, comes now.
    Leave { dir: String, file: String },
}

/// A stop with its texts as sequences of characters.
pub ghost enum VisitView {
    Enter { parent: Seq<char>, member: Option<Seq<char>> },
    Leave { dir: Seq<char>, file: Seq<char> },
}

impl View for Visit {
    type V = VisitView;

    open spec fn view(&self) -> VisitView {
        match self {
            Visit::Enter { parent, member } => VisitView::Enter {
                parent: parent@,
                member: match member {
                    Some(m) => Some(m@),
                    None => None,
                },
            },
            Visit::Leave { dir, file } => VisitView::Leave { dir: dir@, file: file@ },
        }
    }
}

/// The stops that are still to be made, the next one last.
#[derive(Debug)]
pub struct Walk {
    pub pending: Vec<Visit>,
}

impl View for Walk {
    type V = Seq<VisitView>;

    open spec fn view(&self) -> Seq<VisitView> {
        self.pending@.map_values(|v: Visit| v@)
    }
}

/// The stops for the members of a manifest, the first member last, so that
/// it is the next stop.
pub open spec fn member_visits(dir: Seq<char>, members: Seq<Seq<char>>) -> Seq<VisitView> {
    Seq::new(
        members.len(),
        |i: int| VisitView::Enter { parent: dir, member: Some(members[members.len() - 1 - i]) },
    )
}

/// The members of a manifest text that a release of `package` touches; none
/// where the text is no workspace.
pub open spec fn members_to_visit(file: Seq<char>, package: Seq<char>) -> Seq<Seq<char>> {
    match members_in(manifest_contents(file)) {
        Some(members) => selected(members, package),
        None => Seq::empty(),
    }
}

impl Walk {
    /// A walk that starts at the manifest of `dir`.
    pub fn start(dir: &str) -> (walk: Walk)
        ensures
            walk@ == seq![VisitView::Enter { parent: dir@, member: None }],
    {
        let mut pending: Vec<Visit> = Vec::new();
        pending.push(Visit::Enter { parent: dir.to_owned(), member: None });
        let walk = Walk { pending };
        assert(walk@ =~= seq![VisitView::Enter { parent: dir@, member: None }]);
        walk
    }

    /// Takes the next stop off the walk; `None` when the walk is over.
    pub fn next(&mut self) -> (visit: Option<Visit>)
        ensures
            match visit {
                Some(v) => old(self)@.len() > 0 && v@ == old(self)@.last() && final(self)@
                    == old(self)@.drop_last(),
                None => old(self)@.len() == 0 && final(self)@ == old(self)@,
            },
    {
        let visit = self.pending.pop();
        assert(self@ =~= (if old(self)@.len() > 0 {
            old(self)@.drop_last()
        } else {
            old(self)@
        }));
        visit
    }

    /// Records that the manifest of `dir` was read and holds the text
    /// `file`. The selected members of its workspace are visited next, in
    /// the order in which the manifest lists them, each with everything below
    /// it; the manifest itself comes after them all.
    pub fn descend(&mut self, dir: String, file: String, package: &str)
        ensures
            final(self)@ == old(self)@.push(VisitView::Leave { dir: dir@, file: file@ })
                + member_visits(dir@, members_to_visit(file@, package@)),
    {
        let chosen = match read_workspace(file.as_str()) {
            Some(members) => select_members(&members, package),
            None => Vec::new(),
        };
        let ghost names = texts(chosen@);
        assert(names =~= members_to_visit(file@, package@));
        let ghost base = old(self)@.push(VisitView::Leave { dir: dir@, file: file@ });
        let ghost visits = member_visits(dir@, names);
        let parent = dir.clone();
        self.pending.push(Visit::Leave { dir, file });
        assert(self@ =~= base + visits.take(0));
        let n = chosen.len();
        let mut i: usize = n;
        while i > 0
            invariant
                i <= n,
                n == chosen.len(),
                names == texts(chosen@),
                visits == member_visits(parent@, names),
                self@ == base + visits.take(n - i),
            decreases i,
        {
            i -= 1;
            let ghost before = self@;
            let visit = Visit::Enter { parent: parent.clone(), member: Some(chosen[i].clone()) };
            self.pending.push(visit);
            assert(visit@ == visits[n - 1 - i]);
            assert(self@ =~= before.push(visit@));
            assert(base + visits.take(n - i) =~= (base + visits.take(n - 1 - i)).push(
                visits[n - 1 - i],
            ));
        }
        assert(visits.take(n as int) =~= visits);
    }
}

} // verus!
