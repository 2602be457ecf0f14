//! The tool's own settings.
use vstd::prelude::*;

use crate::domain::errors::DomainError;

verus! {

#[derive(Clone, Debug, PartialEq, Eq)]
pub struct WorkcConfig {
    pub knowledge_remote: Option<String>,
}

impl Default for WorkcConfig {
    fn default() -> (r: Self)
        ensures
            r.knowledge_remote is None,
    {
        WorkcConfig { knowledge_remote: None }
    }
}

/// Where the settings are kept; implemented outside the library.
pub trait ConfigRepository {
    fn load(&self) -> Result<WorkcConfig, DomainError>;

    fn save(&self, config: &WorkcConfig) -> Result<(), DomainError>;
}

} // verus!
