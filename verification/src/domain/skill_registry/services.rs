//! Planning where a skill is mounted, for adapters to implement.
use vstd::prelude::*;

use crate::domain::errors::DomainError;
use crate::domain::shared::{MountId, SkillVersion};
use crate::domain::skill_registry::entities::SkillDefinition;

verus! {

#[derive(Clone, Debug, PartialEq, Eq)]
pub struct PlannedSkillMount {
    pub mount_id: MountId,
    pub version: SkillVersion,
}

pub trait SkillMountPlanner {
    fn plan_mount(
        &self,
        task_skill_root: &str,
        skill: &SkillDefinition,
        requested_version: Option<&SkillVersion>,
    ) -> Result<PlannedSkillMount, DomainError>;
}

} // verus!
