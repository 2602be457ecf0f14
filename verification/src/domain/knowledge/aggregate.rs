//! The knowledge base aggregate.
use vstd::prelude::*;

use crate::domain::knowledge::entities::KnowledgeEntry;

verus! {

#[derive(Clone, Debug, PartialEq, Eq)]
pub struct KnowledgeBase {
    pub entries: Vec<KnowledgeEntry>,
}

impl Default for KnowledgeBase {
    /// A knowledge base with no entry.
    fn default() -> (r: Self)
        ensures
            r.entries@.len() == 0,
    {
        KnowledgeBase { entries: Vec::new() }
    }
}

} // verus!
