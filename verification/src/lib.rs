//! Task workspaces, the repo catalog, the skill registry and task knowledge:
//! the rules of a local workflow tool, with the presenters that render them.
pub mod application;
pub mod cli;
pub mod domain;
pub mod sorting;
pub mod presenters;
pub mod strings;
pub mod text_sets;
