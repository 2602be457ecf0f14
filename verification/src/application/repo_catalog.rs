//! Use cases of the repo catalog: adding and listing repos and repo groups.
pub mod dtos;
pub mod service;

pub use dtos::{AddRepoCommand, AddRepoGroupCommand, RepoGroupSummary, RepoSummary};
pub use service::{DefaultRepoCatalogApplicationService, RepoCatalogApplicationService};
