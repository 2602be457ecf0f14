//! The states a task and a skill mount can be in.
use vstd::prelude::*;

verus! {

#[derive(Clone, Copy, Debug, PartialEq, Eq, Structural)]
pub enum TaskStatus {
    Draft,
    Active,
    Closed,
    Archived,
}

#[derive(Clone, Copy, Debug, PartialEq, Eq, Structural)]
pub enum TaskSkillMountStatus {
    Active,
    Inactive,
    Removed,
}

/// The text a mount status reads as.
pub open spec fn mount_status_text(s: TaskSkillMountStatus) -> Seq<char> {
    match s {
        TaskSkillMountStatus::Active => "active"@,
        TaskSkillMountStatus::Inactive => "inactive"@,
        TaskSkillMountStatus::Removed => "removed"@,
    }
}

impl TaskSkillMountStatus {
    pub fn as_str(&self) -> (r: &'static str)
        ensures
            r@ == mount_status_text(*self),
    {
        match self {
            TaskSkillMountStatus::Active => "active",
            TaskSkillMountStatus::Inactive => "inactive",
            TaskSkillMountStatus::Removed => "removed",
        }
    }

    /// The status as `Display` writes it.
    pub fn to_string(&self) -> (r: String)
        ensures
            r@ == mount_status_text(*self),
    {
        self.as_str().to_owned()
    }
}

} // verus!
