//! The repo catalog aggregate.
use vstd::prelude::*;

use crate::domain::repo_catalog::entities::{RepoEntry, RepoGroup};

verus! {

#[derive(Clone, Debug, PartialEq, Eq)]
pub struct RepoCatalog {
    pub repos: Vec<RepoEntry>,
    pub groups: Vec<RepoGroup>,
}

} // verus!
