//! Knowledge entries and candidates.
use vstd::prelude::*;

use crate::domain::shared::{KnowledgeCandidateId, KnowledgeId, TaskSlug, Timestamp};

verus! {

#[derive(Clone, Debug, PartialEq, Eq)]
pub struct KnowledgeSourceRef {
    pub source_path: String,
    pub section: Option<String>,
    pub excerpt: Option<String>,
}

#[derive(Clone, Debug, PartialEq, Eq)]
pub struct KnowledgeEntry {
    pub id: KnowledgeId,
    pub title: String,
    pub path: String,
    pub category: Option<String>,
    pub tags: Vec<String>,
    pub sources: Vec<KnowledgeSourceRef>,
    pub created_at: Option<Timestamp>,
    pub updated_at: Option<Timestamp>,
}

#[derive(Clone, Debug, PartialEq, Eq)]
pub struct KnowledgeCandidate {
    pub id: KnowledgeCandidateId,
    pub title: String,
    pub task_slug: TaskSlug,
    pub path: String,
    pub category: Option<String>,
    pub tags: Vec<String>,
    pub sources: Vec<KnowledgeSourceRef>,
    pub created_at: Option<Timestamp>,
    pub updated_at: Option<Timestamp>,
}

} // verus!
