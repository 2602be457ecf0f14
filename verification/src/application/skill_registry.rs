//! Use cases of the skill registry: importing a source with its skills, and
//! looking skills up.
pub mod dtos;
pub mod service;

pub use dtos::{
    ApplicationSkillSourceKind, ImportSkillSourceCommand, ImportedSkillDefinition, ShowSkillQuery,
    SkillSummary,
};
pub use service::{DefaultSkillRegistryApplicationService, SkillRegistryApplicationService};
