//! The catalog of repositories and repository groups, shared by all tasks.
pub mod aggregate;
pub mod entities;
pub mod repository;

pub use aggregate::RepoCatalog;
pub use entities::{RepoEntry, RepoGroup};
pub use repository::RepoCatalogRepository;
