//! Requests to and answers from the task service.
use vstd::prelude::*;

use crate::domain::shared::Timestamp;

verus! {

#[derive(Clone, Copy, Debug, PartialEq, Eq, Structural)]
pub enum ApplicationTaskStatus {
    Draft,
    Active,
    Closed,
    Archived,
}

#[derive(Clone, Debug, PartialEq, Eq)]
pub struct ListTasksQuery {
    pub status: Option<ApplicationTaskStatus>,
    pub tag: Option<String>,
    pub limit: Option<usize>,
}

#[derive(Clone, Debug, PartialEq, Eq)]
pub struct TaskListItem {
    pub id: String,
    pub slug: String,
    pub title: String,
    pub status: ApplicationTaskStatus,
    pub last_activity_at: Option<Timestamp>,
}

#[derive(Clone, Debug, PartialEq, Eq)]
pub struct CreateTaskCommand {
    pub slug: String,
    pub title: String,
    pub template: String,
    pub description: Option<String>,
    pub source_brief: Option<String>,
    pub tags: Vec<String>,
    pub selected_repo_groups: Vec<String>,
    pub repos: Vec<String>,
    /// Skills to mount once the task exists; the caller mounts them.
    pub initial_skills: Vec<String>,
}

#[derive(Clone, Debug, PartialEq, Eq)]
pub struct CreateTaskResult {
    pub task_id: String,
    pub slug: String,
    pub title: String,
    pub template: String,
}

#[derive(Clone, Debug, PartialEq, Eq)]
pub enum TaskRef {
    Id(String),
    Slug(String),
}

#[derive(Clone, Debug, PartialEq, Eq)]
pub struct OpenTaskCommand {
    pub task: String,
    pub editor: Option<String>,
}

#[derive(Clone, Debug, PartialEq, Eq)]
pub struct CloseTaskCommand {
    pub task_id: String,
}

} // verus!
