//! The registry of task workspaces on this machine, and the rules that keep it.
use vstd::prelude::*;

use crate::domain::errors::DomainError;
use crate::domain::shared::{TaskSlug, Timestamp};
use crate::strings::str_eq;

verus! {

#[derive(Clone, Debug, PartialEq, Eq)]
pub struct WorkspaceEntry {
    pub slug: TaskSlug,
    pub path: String,
    pub title: String,
    pub status: WorkspaceStatus,
    pub last_activity_at: Option<Timestamp>,
}

#[derive(Clone, Copy, Debug, PartialEq, Eq)]
pub enum WorkspaceStatus {
    Active,
    Closed,
    Archived,
}

/// The text a workspace status is stored as.
pub open spec fn workspace_status_text(s: WorkspaceStatus) -> Seq<char> {
    match s {
        WorkspaceStatus::Active => "active"@,
        WorkspaceStatus::Closed => "closed"@,
        WorkspaceStatus::Archived => "archived"@,
    }
}

/// The status a stored text reads as; nothing for any other text.
pub open spec fn parse_workspace_status(value: Seq<char>) -> Option<WorkspaceStatus> {
    if value == "active"@ {
        Some(WorkspaceStatus::Active)
    } else if value == "closed"@ {
        Some(WorkspaceStatus::Closed)
    } else if value == "archived"@ {
        Some(WorkspaceStatus::Archived)
    } else {
        None
    }
}

impl WorkspaceStatus {
    pub fn as_str(&self) -> (r: &'static str)
        ensures
            r@ == workspace_status_text(*self),
    {
        match self {
            WorkspaceStatus::Active => "active",
            WorkspaceStatus::Closed => "closed",
            WorkspaceStatus::Archived => "archived",
        }
    }

    pub fn parse(value: &str) -> (r: Option<WorkspaceStatus>)
        ensures
            r == parse_workspace_status(value@),
    {
        if str_eq(value, "active") {
            Some(WorkspaceStatus::Active)
        } else if str_eq(value, "closed") {
            Some(WorkspaceStatus::Closed)
        } else if str_eq(value, "archived") {
            Some(WorkspaceStatus::Archived)
        } else {
            None
        }
    }
}

/// Reading back the text a status is stored as gives that status.
pub proof fn law_workspace_status_round_trip(s: WorkspaceStatus)
    ensures
        parse_workspace_status(workspace_status_text(s)) == Some(s),
{
    reveal_strlit("active");
    reveal_strlit("closed");
    reveal_strlit("archived");
    assert("closed"@[0] != "active"@[0]);
    assert("archived"@[1] != "active"@[1]);
    assert("archived"@[0] != "closed"@[0]);
}

/// Where the registry is kept; implemented outside the library.
pub trait WorkspaceRegistryRepository {
    fn load(&self) -> Result<Vec<WorkspaceEntry>, DomainError>;

    fn save(&self, entries: &[WorkspaceEntry]) -> Result<(), DomainError>;
}

/// `i` is the first entry registered for the directory `root`.
pub open spec fn first_at_path(entries: Seq<WorkspaceEntry>, root: Seq<char>, i: int) -> bool {
    &&& 0 <= i < entries.len()
    &&& entries[i].path@ == root
    &&& forall|j: int| 0 <= j < i ==> #[trigger] entries[j].path@ != root
}

pub open spec fn registered_at(entries: Seq<WorkspaceEntry>, root: Seq<char>) -> bool {
    exists|i: int| 0 <= i < entries.len() && #[trigger] entries[i].path@ == root
}

fn find_at_path(entries: &Vec<WorkspaceEntry>, root: &str) -> (r: Option<usize>)
    ensures
        r is None <==> !registered_at(entries@, root@),
        r matches Some(i) ==> first_at_path(entries@, root@, i as int),
{
    let mut i: usize = 0;
    while i < entries.len()
        invariant
            i <= entries@.len(),
            forall|j: int| 0 <= j < i ==> #[trigger] entries@[j].path@ != root@,
        decreases entries@.len() - i,
    {
        if str_eq(entries[i].path.as_str(), root) {
            return Some(i);
        }
        i = i + 1;
    }
    None
}

/// Records a task workspace at `root`: the entry already registered for that
/// directory takes the new slug, title, status and activity time; without one,
/// a new entry is appended.
pub fn register_workspace_entry(
    entries: &mut Vec<WorkspaceEntry>,
    root: &str,
    slug: TaskSlug,
    title: String,
    status: WorkspaceStatus,
    now: Timestamp,
)
    ensures
        registered_at(old(entries)@, root@) ==> exists|i: int|
            first_at_path(old(entries)@, root@, i) && final(entries)@ == old(entries)@.update(
                i,
                WorkspaceEntry {
                    slug: slug,
                    path: old(entries)@[i].path,
                    title: title,
                    status: status,
                    last_activity_at: Some(now),
                },
            ),
        !registered_at(old(entries)@, root@) ==> {
            &&& final(entries)@.len() == old(entries)@.len() + 1
            &&& final(entries)@.take(old(entries)@.len() as int) == old(entries)@
            &&& final(entries)@.last().slug == slug
            &&& final(entries)@.last().path@ == root@
            &&& final(entries)@.last().title == title
            &&& final(entries)@.last().status == status
            &&& final(entries)@.last().last_activity_at == Some(now)
        },
{
    match find_at_path(entries, root) {
        Some(i) => {
            let old_entry = entries.remove(i);
            let entry = WorkspaceEntry {
                slug,
                path: old_entry.path,
                title,
                status,
                last_activity_at: Some(now),
            };
            entries.insert(i, entry);
            assert(entries@ =~= old(entries)@.update(i as int, entry));
        },
        None => {
            entries.push(
                WorkspaceEntry {
                    slug,
                    path: root.to_owned(),
                    title,
                    status,
                    last_activity_at: Some(now),
                },
            );
            assert(entries@.take(old(entries)@.len() as int) =~= old(entries)@);
        },
    }
}

/// Sets the status of the workspace registered at `root` and stamps its
/// activity time; says whether there was one. Nothing changes when there is none.
pub fn mark_workspace_status(
    entries: &mut Vec<WorkspaceEntry>,
    root: &str,
    status: WorkspaceStatus,
    now: Timestamp,
) -> (found: bool)
    ensures
        found == registered_at(old(entries)@, root@),
        !found ==> final(entries)@ == old(entries)@,
        found ==> exists|i: int|
            first_at_path(old(entries)@, root@, i) && final(entries)@ == old(entries)@.update(
                i,
                WorkspaceEntry {
                    status: status,
                    last_activity_at: Some(now),
                    ..old(entries)@[i]
                },
            ),
{
    match find_at_path(entries, root) {
        Some(i) => {
            let old_entry = entries.remove(i);
            let entry = WorkspaceEntry { status, last_activity_at: Some(now), ..old_entry };
            entries.insert(i, entry);
            assert(entries@ =~= old(entries)@.update(i as int, entry));
            true
        },
        None => false,
    }
}

} // verus!
