//! Where knowledge is kept; implemented outside the library.
use vstd::prelude::*;

use crate::domain::errors::DomainError;
use crate::domain::knowledge::aggregate::KnowledgeBase;
use crate::domain::knowledge::entities::{KnowledgeCandidate, KnowledgeEntry};
use crate::domain::shared::{KnowledgeCandidateId, KnowledgeId, TaskSlug};

verus! {

pub trait KnowledgeRepository {
    fn load(&self) -> Result<KnowledgeBase, DomainError>;

    fn save(&self, knowledge_base: &KnowledgeBase) -> Result<(), DomainError>;

    fn list_candidates(&self, task: &TaskSlug) -> Result<Vec<KnowledgeCandidate>, DomainError>;

    fn create_candidate(&self, candidate: &KnowledgeCandidate) -> Result<(), DomainError>;

    fn update_candidate(&self, task: &TaskSlug, candidate: &KnowledgeCandidate) -> Result<
        (),
        DomainError,
    >;

    fn delete_candidate(&self, task: &TaskSlug, candidate_id: &KnowledgeCandidateId) -> Result<
        (),
        DomainError,
    >;

    fn find_candidate(&self, task: &TaskSlug, candidate_id: &KnowledgeCandidateId) -> Result<
        Option<KnowledgeCandidate>,
        DomainError,
    >;

    fn create_entry(&self, entry: &KnowledgeEntry) -> Result<(), DomainError>;

    fn update_entry(&self, entry: &KnowledgeEntry) -> Result<(), DomainError>;

    fn delete_entry(&self, id: &KnowledgeId) -> Result<(), DomainError>;

    fn promote_candidate(
        &self,
        task: &TaskSlug,
        candidate_id: &KnowledgeCandidateId,
        knowledge_id: &KnowledgeId,
    ) -> Result<(), DomainError>;

    fn find_entry(&self, id: &KnowledgeId) -> Result<Option<KnowledgeEntry>, DomainError>;
}

} // verus!
