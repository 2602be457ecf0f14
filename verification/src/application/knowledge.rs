//! Use cases of knowledge: candidates collected in a task, and the entries
//! they are promoted to.
pub mod dtos;
pub mod service;

pub use dtos::{
    CandidateMutationResult, CreateKnowledgeCandidateCommand, DeleteKnowledgeCandidateCommand,
    DeleteKnowledgeCommand, KnowledgeMutationResult, KnowledgeObjectSummary,
    ListKnowledgeCandidatesQuery, ListKnowledgeQuery, PromoteKnowledgeCommand,
    PromoteKnowledgeResult, ShowKnowledgeCandidateQuery, ShowKnowledgeQuery,
    UpdateKnowledgeCandidateMetaCommand, UpdateKnowledgeMetaCommand,
};
pub use service::{DefaultKnowledgeApplicationService, KnowledgeApplicationService};
