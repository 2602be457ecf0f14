//! The domain model: entities, aggregates and their rules.
pub mod shared;
pub mod errors;
pub mod config;
pub mod editor;
pub mod workspace;
pub mod task;
pub mod repo_catalog;
pub mod skill_registry;
pub mod knowledge;
