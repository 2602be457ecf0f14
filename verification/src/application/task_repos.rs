//! Use cases of the repos a task works on: choosing them, cloning them into
//! the task workspace and asking git how they stand.
pub mod dtos;
pub mod service;

pub use dtos::{
    AddTaskReposCommand, CloneStateFilter, CloneTaskReposCommand, RemoveTaskReposCommand,
    RepoCloneOutcome, RepoStatusQuery, SetTaskReposCommand, TaskRepoStatusItem, TaskReposResult,
};
pub use service::{DefaultTaskReposApplicationService, TaskReposApplicationService};
