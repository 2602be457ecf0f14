//! Requests to and answers from the task skills service. Paths are relative
//! to the task workspace.
use vstd::prelude::*;

use crate::domain::shared::SkillVersion;
use crate::domain::skill_registry::SkillExecutionStatus;
use crate::domain::task::TaskSkillMountStatus;

verus! {

#[derive(Clone, Debug, PartialEq, Eq)]
pub struct MountSkillCommand {
    pub task_id: String,
    pub skill_id: String,
    pub version: Option<String>,
}

#[derive(Clone, Debug, PartialEq, Eq)]
pub struct SkillMountSummary {
    pub task_id: String,
    pub mount_id: String,
    pub skill_id: String,
    pub version: String,
    pub source: String,
    pub status: TaskSkillMountStatus,
    pub path: String,
}

#[derive(Clone, Debug, PartialEq, Eq)]
pub struct UnmountSkillCommand {
    pub task_id: String,
    pub mount_id: String,
}

#[derive(Clone, Debug, PartialEq, Eq)]
pub struct OverrideSkillCommand {
    pub task_id: String,
    pub mount_id: String,
    pub relative_path: String,
}

#[derive(Clone, Debug, PartialEq, Eq)]
pub struct CheckSkillUpdatesQuery {
    pub task_id: String,
    pub mount_id: Option<String>,
}

#[derive(Clone, Debug, PartialEq, Eq)]
pub struct UpdateSkillCommand {
    pub task_id: String,
    pub mount_id: String,
}

#[derive(Clone, Debug, PartialEq, Eq)]
pub struct SandboxSkillCommand {
    pub task_id: String,
    pub mount_id: String,
}

#[derive(Clone, Debug, PartialEq, Eq)]
pub struct PrepareSkillCommand {
    pub task_id: String,
    pub mount_id: String,
    pub step: RuntimeStep,
}

#[derive(Clone, Debug, PartialEq, Eq)]
pub struct UseSkillCommand {
    pub task_id: String,
    pub mount_id: String,
    pub step: RuntimeStep,
}

#[derive(Clone, Debug, PartialEq, Eq)]
pub struct PrepareStatusQuery {
    pub task_id: String,
    pub mount_id: String,
}

#[derive(Clone, Debug, PartialEq, Eq)]
pub struct SkillUpdateStatus {
    pub mount_id: String,
    pub update_available: bool,
    pub target_version: Option<SkillVersion>,
}

#[derive(Clone, Debug, PartialEq, Eq)]
pub struct SkillSandboxHandle {
    pub mount_id: String,
    pub path: String,
}

#[derive(Clone, Debug, PartialEq, Eq)]
pub struct SkillPreparation {
    pub mount_id: String,
    pub status: SkillExecutionStatus,
    pub artifact_path: Option<String>,
    pub log_path: Option<String>,
}

#[derive(Clone, Debug, PartialEq, Eq)]
pub struct SkillUseExecution {
    pub mount_id: String,
    pub status: SkillExecutionStatus,
    pub log_path: Option<String>,
}

#[derive(Clone, Debug, PartialEq, Eq)]
pub struct RuntimeStep {
    pub name: String,
    pub action_id: String,
}

} // verus!
