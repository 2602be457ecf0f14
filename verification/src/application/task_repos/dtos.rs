//! Requests to and answers from the task repos service.
use vstd::prelude::*;

use crate::application::ports::RepoStatus;
use crate::domain::shared::Timestamp;

verus! {

#[derive(Clone, Debug, PartialEq, Eq)]
pub struct SetTaskReposCommand {
    pub task_id: String,
    pub selected_repo_groups: Vec<String>,
    pub repos: Vec<String>,
}

#[derive(Clone, Debug, PartialEq, Eq)]
pub struct AddTaskReposCommand {
    pub task_id: String,
    pub repos: Vec<String>,
}

#[derive(Clone, Debug, PartialEq, Eq)]
pub struct RemoveTaskReposCommand {
    pub task_id: String,
    pub repos: Vec<String>,
}

#[derive(Clone, Debug, PartialEq, Eq)]
pub struct CloneTaskReposCommand {
    pub task_id: String,
    pub repos: Option<Vec<String>>,
    pub missing_only: bool,
    pub dry_run: bool,
}

/// What became of one repo of a clone request. The path is relative to the
/// working directory.
#[derive(Clone, Debug, PartialEq, Eq)]
pub struct RepoCloneOutcome {
    pub repo_id: String,
    pub path: String,
    pub cloned: bool,
    pub dry_run: bool,
    pub skipped_reason: Option<String>,
}

#[derive(Clone, Debug, PartialEq, Eq)]
pub struct RepoStatusQuery {
    pub task_id: String,
    pub repos: Option<Vec<String>>,
    pub clone_state: Option<CloneStateFilter>,
    pub dry_run: bool,
}

#[derive(Clone, Debug, PartialEq, Eq)]
pub struct TaskRepoStatusItem {
    pub repo_id: String,
    pub path: String,
    pub status: RepoStatus,
}

#[derive(Clone, Copy, Debug, PartialEq, Eq, Structural)]
pub enum CloneStateFilter {
    Missing,
    Ready,
    Dirty,
    Unknown,
}

#[derive(Clone, Debug, PartialEq, Eq)]
pub struct TaskReposResult {
    pub task_id: String,
    pub selected_repo_groups: Vec<String>,
    pub repos: Vec<String>,
    pub updated_at: Timestamp,
}

} // verus!
