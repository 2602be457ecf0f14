//! The application services: the use cases the command line drives.
pub mod error;
pub mod paths;
pub mod ports;
pub mod repo_catalog;
pub mod task;
pub mod task_repos;
pub mod task_skills;
pub mod skill_registry;
pub mod knowledge;
