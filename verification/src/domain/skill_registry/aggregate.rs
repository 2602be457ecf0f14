//! The skill registry aggregate.
use vstd::prelude::*;

use crate::domain::skill_registry::entities::{SkillDefinition, SkillSource};

verus! {

#[derive(Clone, Debug, PartialEq, Eq)]
pub struct SkillRegistry {
    pub sources: Vec<SkillSource>,
    pub skills: Vec<SkillDefinition>,
}

impl Default for SkillRegistry {
    /// A registry with no source and no skill.
    fn default() -> (r: Self)
        ensures
            r.sources@.len() == 0,
            r.skills@.len() == 0,
    {
        SkillRegistry { sources: Vec::new(), skills: Vec::new() }
    }
}

} // verus!
