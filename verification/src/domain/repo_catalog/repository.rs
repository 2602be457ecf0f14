//! Where the catalog is kept; implemented outside the library.
use vstd::prelude::*;

use crate::domain::errors::DomainError;
use crate::domain::repo_catalog::aggregate::RepoCatalog;
use crate::domain::repo_catalog::entities::{RepoEntry, RepoGroup};
use crate::domain::shared::{RepoGroupId, RepoId};

verus! {

pub trait RepoCatalogRepository {
    fn load(&self) -> Result<RepoCatalog, DomainError>;

    fn save(&self, catalog: &RepoCatalog) -> Result<(), DomainError>;

    fn find_repo(&self, id: &RepoId) -> Result<Option<RepoEntry>, DomainError>;

    fn find_group(&self, id: &RepoGroupId) -> Result<Option<RepoGroup>, DomainError>;
}

} // verus!
