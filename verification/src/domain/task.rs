//! Task workspaces: their metadata, activity, repo selection and skill mounts.
pub mod aggregate;
pub mod entities;
pub mod repository;
pub mod services;
pub mod value_objects;

pub use aggregate::TaskWorkspace;
pub use entities::{TaskActivity, TaskMeta, TaskPaths, TaskRepoSelection, TaskSkillMount};
pub use repository::{TaskRepository, TaskSkillMountRepository};
pub use services::{
    RepoSelectionInput, RepoSelectionResolver, ResolvedRepoSelection, TaskActivityEvent,
    TaskActivityPolicy,
};
pub use value_objects::{TaskSkillMountStatus, TaskStatus};
