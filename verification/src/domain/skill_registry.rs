//! The registry of imported skills and the sources they came from.
pub mod aggregate;
pub mod entities;
pub mod repository;
pub mod services;

pub use aggregate::SkillRegistry;
pub use entities::{
    PrepareResult, PrepareStep, SkillDefinition, SkillExecutionStatus, SkillSource,
    SkillSourceKind, UseResult, UseStep,
};
pub use repository::SkillRegistryRepository;
pub use services::{PlannedSkillMount, SkillMountPlanner};
