//! Skills, their sources, and the outcome of running their steps.
use vstd::prelude::*;

use crate::domain::shared::{SkillId, SkillSourceId, SkillVersion, Timestamp};

verus! {

#[derive(Clone, Debug, PartialEq, Eq)]
pub enum SkillSourceKind {
    Git,
    Local,
    Archive,
    Other(String),
}

#[derive(Clone, Debug, PartialEq, Eq)]
pub struct SkillSource {
    pub id: SkillSourceId,
    pub kind: SkillSourceKind,
    pub location: String,
    pub reference: Option<String>,
    pub imported_at: Option<Timestamp>,
}

#[derive(Clone, Debug, PartialEq, Eq)]
pub struct SkillDefinition {
    pub id: SkillId,
    pub source: SkillSourceId,
    pub versions: Vec<SkillVersion>,
    pub latest: Option<SkillVersion>,
}

#[derive(Clone, Debug, PartialEq, Eq)]
pub struct PrepareStep {
    pub name: String,
    pub action_id: String,
}

#[derive(Clone, Debug, PartialEq, Eq)]
pub struct UseStep {
    pub name: String,
    pub action_id: String,
}

#[derive(Clone, Copy, Debug, PartialEq, Eq, Structural)]
pub enum SkillExecutionStatus {
    Pending,
    Success,
    Failed,
}

/// The text an execution status reads as.
pub open spec fn execution_status_text(s: SkillExecutionStatus) -> Seq<char> {
    match s {
        SkillExecutionStatus::Pending => "pending"@,
        SkillExecutionStatus::Success => "success"@,
        SkillExecutionStatus::Failed => "failed"@,
    }
}

impl SkillExecutionStatus {
    /// The status as `Display` writes it.
    pub fn to_string(&self) -> (r: String)
        ensures
            r@ == execution_status_text(*self),
    {
        match self {
            SkillExecutionStatus::Pending => "pending".to_owned(),
            SkillExecutionStatus::Success => "success".to_owned(),
            SkillExecutionStatus::Failed => "failed".to_owned(),
        }
    }
}

#[derive(Clone, Debug, PartialEq, Eq)]
pub struct PrepareResult {
    pub status: SkillExecutionStatus,
    pub artifact_path: Option<String>,
    pub log_path: Option<String>,
    pub finished_at: Option<Timestamp>,
}

#[derive(Clone, Debug, PartialEq, Eq)]
pub struct UseResult {
    pub status: SkillExecutionStatus,
    pub log_path: Option<String>,
    pub finished_at: Option<Timestamp>,
}

} // verus!
