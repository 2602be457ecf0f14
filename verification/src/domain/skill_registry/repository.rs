//! Where the registry is kept; implemented outside the library.
use vstd::prelude::*;

use crate::domain::errors::DomainError;
use crate::domain::shared::{SkillId, SkillSourceId};
use crate::domain::skill_registry::aggregate::SkillRegistry;
use crate::domain::skill_registry::entities::{SkillDefinition, SkillSource};

verus! {

pub trait SkillRegistryRepository {
    fn load(&self) -> Result<SkillRegistry, DomainError>;

    fn save(&self, registry: &SkillRegistry) -> Result<(), DomainError>;

    fn find_source(&self, id: &SkillSourceId) -> Result<Option<SkillSource>, DomainError>;

    fn find_skill(&self, id: &SkillId) -> Result<Option<SkillDefinition>, DomainError>;
}

} // verus!
