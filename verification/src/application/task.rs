//! Use cases of tasks: listing, creating, opening and closing them.
pub mod dtos;
pub mod service;

pub use crate::domain::shared::{RepoGroupId, RepoId, SkillId, TaskSlug};
pub use crate::domain::task::TaskStatus;
pub use dtos::{
    ApplicationTaskStatus, CloseTaskCommand, CreateTaskCommand, CreateTaskResult, ListTasksQuery,
    OpenTaskCommand, TaskListItem, TaskRef,
};
pub use service::{DefaultTaskApplicationService, TaskApplicationService};
