//! Use cases of the skills mounted into a task: mounting, listing,
//! unmounting, checking for and taking newer versions, and sandboxes.
pub mod dtos;
pub mod service;

pub use dtos::{
    CheckSkillUpdatesQuery, MountSkillCommand, OverrideSkillCommand, PrepareSkillCommand,
    PrepareStatusQuery, RuntimeStep, SandboxSkillCommand, SkillMountSummary, SkillPreparation,
    SkillSandboxHandle, SkillUpdateStatus, SkillUseExecution, UnmountSkillCommand,
    UpdateSkillCommand, UseSkillCommand,
};
pub use service::{DefaultTaskSkillsApplicationService, TaskSkillsApplicationService};
