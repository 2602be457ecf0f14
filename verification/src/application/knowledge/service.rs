//! The knowledge service and the rules it applies.
use vstd::prelude::*;

use crate::application::error::ApplicationError;
use crate::application::knowledge::dtos::{
    CandidateMutationResult, CreateKnowledgeCandidateCommand, DeleteKnowledgeCandidateCommand,
    DeleteKnowledgeCommand, KnowledgeMutationResult, KnowledgeObjectSummary,
    ListKnowledgeCandidatesQuery, ListKnowledgeQuery, PromoteKnowledgeCommand,
    PromoteKnowledgeResult, ShowKnowledgeCandidateQuery, ShowKnowledgeQuery,
    UpdateKnowledgeCandidateMetaCommand, UpdateKnowledgeMetaCommand,
};
use crate::application::paths::{
    is_plain_base, is_plain_segment, join_path, joined_path, lemma_join_keeps_plain_base,
};
use crate::application::ports::Clock;
use crate::domain::errors::{DomainError, EntityKind};
use crate::domain::knowledge::{
    KnowledgeCandidate, KnowledgeEntry, KnowledgeRepository, KnowledgeSourceRef,
};
use crate::domain::shared::{KnowledgeCandidateId, KnowledgeId, TaskSlug, Timestamp};

verus! {

/// `path` is `tasks/<task>/knowledge-candidates/<candidate>`, joined as
/// `camino::Utf8PathBuf::join` joins it, where both ids are plain segments.
pub open spec fn candidate_path_of(task: Seq<char>, candidate: Seq<char>, path: Seq<char>) -> bool {
    is_plain_segment(task) && is_plain_segment(candidate) ==> exists|a: Seq<char>, b: Seq<char>|
        joined_path("tasks"@, task, a) && joined_path(a, "knowledge-candidates"@, b) && joined_path(
            b,
            candidate,
            path,
        )
}

/// Where a candidate of a task lives: `tasks/<task>/knowledge-candidates/<candidate>`.
pub fn candidate_path(task_id: &str, candidate_id: &str) -> (r: String)
    ensures
        candidate_path_of(task_id@, candidate_id@, r@),
{
    proof {
        reveal_strlit("tasks");
        reveal_strlit("knowledge-candidates");
    }
    let a = join_path("tasks", task_id);
    let b = join_path(a.as_str(), "knowledge-candidates");
    let r = join_path(b.as_str(), candidate_id);
    proof {
        if is_plain_segment(task_id@) && is_plain_segment(candidate_id@) {
            assert(is_plain_base("tasks"@));
            lemma_join_keeps_plain_base("tasks"@, task_id@, a@);
            lemma_join_keeps_plain_base(a@, "knowledge-candidates"@, b@);
        }
    }
    r
}

/// `r` refers to the source file at `path`, with no section or excerpt.
pub open spec fn refers_to(r: KnowledgeSourceRef, path: String) -> bool {
    r.source_path == path && r.section is None && r.excerpt is None
}

/// References to the given source files, one for one.
pub fn source_refs(paths: Vec<String>) -> (r: Vec<KnowledgeSourceRef>)
    ensures
        r@.len() == paths@.len(),
        forall|i: int| 0 <= i < r@.len() ==> refers_to(#[trigger] r@[i], paths@[i]),
{
    let mut out: Vec<KnowledgeSourceRef> = Vec::new();
    let mut i: usize = 0;
    while i < paths.len()
        invariant
            i <= paths@.len(),
            out@.len() == i,
            forall|j: int| 0 <= j < i ==> refers_to(#[trigger] out@[j], paths@[j]),
        decreases paths@.len() - i,
    {
        out.push(KnowledgeSourceRef { source_path: paths[i].clone(), section: None, excerpt: None });
        i = i + 1;
    }
    out
}

/// `c` is the candidate a create request describes, made at `t`.
pub open spec fn new_candidate_of(c: KnowledgeCandidate, command: CreateKnowledgeCandidateCommand, t: Timestamp) -> bool {
    &&& c.id@ == command.candidate_id@
    &&& c.task_slug@ == command.task_id@
    &&& c.title == command.title
    &&& candidate_path_of(command.task_id@, command.candidate_id@, c.path@)
    &&& c.category == command.category
    &&& c.tags == command.tags
    &&& c.sources@.len() == command.source_paths@.len()
    &&& forall|i: int| 0 <= i < c.sources@.len() ==> refers_to(#[trigger] c.sources@[i], command.source_paths@[i])
    &&& c.created_at == Some(t)
    &&& c.updated_at == Some(t)
}

/// The candidate a create request describes, made at `now`.
pub fn new_candidate(command: CreateKnowledgeCandidateCommand, now: Timestamp) -> (r: KnowledgeCandidate)
    ensures
        new_candidate_of(r, command, now),
{
    let path = candidate_path(command.task_id.as_str(), command.candidate_id.as_str());
    KnowledgeCandidate {
        id: KnowledgeCandidateId::from(command.candidate_id.as_str()),
        title: command.title,
        task_slug: TaskSlug::from(command.task_id.as_str()),
        path,
        category: command.category,
        tags: command.tags,
        sources: source_refs(command.source_paths),
        created_at: Some(now),
        updated_at: Some(now),
    }
}

/// `s` shows the candidate `c`.
pub open spec fn summarizes_candidate(s: KnowledgeObjectSummary, c: KnowledgeCandidate) -> bool {
    &&& s.id@ == c.id@
    &&& s.title == c.title
    &&& s.path == c.path
    &&& s.category == c.category
    &&& s.tags == c.tags
    &&& s.source_count == c.sources@.len()
}

/// `s` shows the entry `e`.
pub open spec fn summarizes_entry(s: KnowledgeObjectSummary, e: KnowledgeEntry) -> bool {
    &&& s.id@ == e.id@
    &&& s.title == e.title
    &&& s.path == e.path
    &&& s.category == e.category
    &&& s.tags == e.tags
    &&& s.source_count == e.sources@.len()
}

pub fn to_summary_candidate(candidate: KnowledgeCandidate) -> (r: KnowledgeObjectSummary)
    ensures
        summarizes_candidate(r, candidate),
{
    let source_count = candidate.sources.len();
    KnowledgeObjectSummary {
        id: candidate.id.to_string(),
        title: candidate.title,
        path: candidate.path,
        category: candidate.category,
        tags: candidate.tags,
        source_count,
    }
}

pub fn to_summary_entry(entry: KnowledgeEntry) -> (r: KnowledgeObjectSummary)
    ensures
        summarizes_entry(r, entry),
{
    let source_count = entry.sources.len();
    KnowledgeObjectSummary {
        id: entry.id.to_string(),
        title: entry.title,
        path: entry.path,
        category: entry.category,
        tags: entry.tags,
        source_count,
    }
}

/// `v` shows the candidates `cs`, one for one, in their order.
pub open spec fn candidate_listing(v: Seq<KnowledgeObjectSummary>, cs: Seq<KnowledgeCandidate>) -> bool {
    &&& v.len() == cs.len()
    &&& forall|i: int| 0 <= i < v.len() ==> summarizes_candidate(#[trigger] v[i], cs[i])
}

/// `v` shows the entries `es`, one for one, in their order.
pub open spec fn entry_listing(v: Seq<KnowledgeObjectSummary>, es: Seq<KnowledgeEntry>) -> bool {
    &&& v.len() == es.len()
    &&& forall|i: int| 0 <= i < v.len() ==> summarizes_entry(#[trigger] v[i], es[i])
}

/// The summaries of candidates, in their order.
pub fn candidate_summaries(candidates: Vec<KnowledgeCandidate>) -> (r: Vec<KnowledgeObjectSummary>)
    ensures
        r@.len() == candidates@.len(),
        forall|i: int| 0 <= i < r@.len() ==> summarizes_candidate(#[trigger] r@[i], candidates@[i]),
{
    let ghost all = candidates@;
    let n: usize = candidates.len();
    let mut rest = candidates;
    let mut out: Vec<KnowledgeObjectSummary> = Vec::new();
    let mut i: usize = 0;
    while rest.len() > 0
        invariant
            i <= all.len(),
            all.len() == n,
            rest@ == all.skip(i as int),
            out@.len() == i,
            forall|j: int| 0 <= j < i ==> summarizes_candidate(#[trigger] out@[j], all[j]),
        decreases rest@.len(),
    {
        let c = rest.remove(0);
        out.push(to_summary_candidate(c));
        assert(rest@ =~= all.skip(i as int + 1));
        i = i + 1;
    }
    out
}

/// The summaries of entries, in their order.
pub fn entry_summaries(entries: Vec<KnowledgeEntry>) -> (r: Vec<KnowledgeObjectSummary>)
    ensures
        r@.len() == entries@.len(),
        forall|i: int| 0 <= i < r@.len() ==> summarizes_entry(#[trigger] r@[i], entries@[i]),
{
    let ghost all = entries@;
    let n: usize = entries.len();
    let mut rest = entries;
    let mut out: Vec<KnowledgeObjectSummary> = Vec::new();
    let mut i: usize = 0;
    while rest.len() > 0
        invariant
            i <= all.len(),
            all.len() == n,
            rest@ == all.skip(i as int),
            out@.len() == i,
            forall|j: int| 0 <= j < i ==> summarizes_entry(#[trigger] out@[j], all[j]),
        decreases rest@.len(),
    {
        let e = rest.remove(0);
        out.push(to_summary_entry(e));
        assert(rest@ =~= all.skip(i as int + 1));
        i = i + 1;
    }
    out
}

/// The candidate after a metadata update at `t`: each field the update
/// gives is replaced, the others stay.
pub open spec fn patched_candidate(
    c: KnowledgeCandidate,
    title: Option<String>,
    category: Option<String>,
    tags: Option<Vec<String>>,
    t: Timestamp,
) -> KnowledgeCandidate {
    KnowledgeCandidate {
        title: match title {
            Some(x) => x,
            None => c.title,
        },
        category: match category {
            Some(x) => Some(x),
            None => c.category,
        },
        tags: match tags {
            Some(x) => x,
            None => c.tags,
        },
        updated_at: Some(t),
        ..c
    }
}

/// The entry after a metadata update at `t`: each field the update gives is
/// replaced, the others stay.
pub open spec fn patched_entry(
    e: KnowledgeEntry,
    title: Option<String>,
    category: Option<String>,
    tags: Option<Vec<String>>,
    t: Timestamp,
) -> KnowledgeEntry {
    KnowledgeEntry {
        title: match title {
            Some(x) => x,
            None => e.title,
        },
        category: match category {
            Some(x) => Some(x),
            None => e.category,
        },
        tags: match tags {
            Some(x) => x,
            None => e.tags,
        },
        updated_at: Some(t),
        ..e
    }
}

pub fn patch_candidate(
    candidate: KnowledgeCandidate,
    title: Option<String>,
    category: Option<String>,
    tags: Option<Vec<String>>,
    now: Timestamp,
) -> (r: KnowledgeCandidate)
    ensures
        r == patched_candidate(candidate, title, category, tags, now),
{
    let mut candidate = candidate;
    if let Some(title) = title {
        candidate.title = title;
    }
    if let Some(category) = category {
        candidate.category = Some(category);
    }
    if let Some(tags) = tags {
        candidate.tags = tags;
    }
    candidate.updated_at = Some(now);
    candidate
}

pub fn patch_entry(
    entry: KnowledgeEntry,
    title: Option<String>,
    category: Option<String>,
    tags: Option<Vec<String>>,
    now: Timestamp,
) -> (r: KnowledgeEntry)
    ensures
        r == patched_entry(entry, title, category, tags, now),
{
    let mut entry = entry;
    if let Some(title) = title {
        entry.title = title;
    }
    if let Some(category) = category {
        entry.category = Some(category);
    }
    if let Some(tags) = tags {
        entry.tags = tags;
    }
    entry.updated_at = Some(now);
    entry
}

/// A metadata update changes only what it gives: a field it leaves out keeps
/// its value, and the id, path and sources never change.
pub proof fn law_partial_update_keeps_other_fields(
    c: KnowledgeCandidate,
    title: Option<String>,
    category: Option<String>,
    tags: Option<Vec<String>>,
    t: Timestamp,
)
    ensures
        title is None ==> patched_candidate(c, title, category, tags, t).title == c.title,
        category is None ==> patched_candidate(c, title, category, tags, t).category == c.category,
        tags is None ==> patched_candidate(c, title, category, tags, t).tags == c.tags,
        patched_candidate(c, title, category, tags, t).id == c.id,
        patched_candidate(c, title, category, tags, t).task_slug == c.task_slug,
        patched_candidate(c, title, category, tags, t).path == c.path,
        patched_candidate(c, title, category, tags, t).sources == c.sources,
        patched_candidate(c, title, category, tags, t).created_at == c.created_at,
{
}

/// Applying the same metadata update twice is applying it once, at the
/// later time.
pub proof fn law_update_is_idempotent(
    e: KnowledgeEntry,
    title: Option<String>,
    category: Option<String>,
    tags: Option<Vec<String>>,
    t1: Timestamp,
    t2: Timestamp,
)
    ensures
        patched_entry(patched_entry(e, title, category, tags, t1), title, category, tags, t2)
            == patched_entry(e, title, category, tags, t2),
{
}

/// What a promotion reports keeps what the request leaves out: with no
/// title, category or tags given, those of the promoted entry are shown; its
/// id, path and sources are always its own.
pub proof fn law_promote_keeps_unset_fields(
    s: KnowledgeObjectSummary,
    e: KnowledgeEntry,
    title: Option<String>,
    category: Option<String>,
    tags: Option<Vec<String>>,
    t: Timestamp,
)
    requires
        summarizes_entry(s, patched_entry(e, title, category, tags, t)),
    ensures
        title is None ==> s.title == e.title,
        title matches Some(x) ==> s.title == x,
        category is None ==> s.category == e.category,
        category matches Some(c) ==> s.category == Some(c),
        tags is None ==> s.tags == e.tags,
        tags matches Some(x) ==> s.tags == x,
        s.id@ == e.id@,
        s.path == e.path,
        s.source_count == e.sources@.len(),
{
}

/// The candidate a lookup found, or the not-found error for its id.
pub fn require_candidate(found: Option<KnowledgeCandidate>, candidate_id: &KnowledgeCandidateId) -> (r: Result<
    KnowledgeCandidate,
    ApplicationError,
>)
    ensures
        found matches Some(c) ==> r == Ok::<KnowledgeCandidate, ApplicationError>(c),
        found is None ==> (r matches Err(ApplicationError::Domain(DomainError::NotFound { entity, slug })) && entity
            == EntityKind::KnowledgeCandidate && slug@ == candidate_id@),
{
    match found {
        Some(c) => Ok(c),
        None => Err(
            ApplicationError::Domain(
                DomainError::NotFound {
                    entity: EntityKind::KnowledgeCandidate,
                    slug: candidate_id.to_string(),
                },
            ),
        ),
    }
}

/// The entry a lookup found, or the not-found error for its id.
pub fn require_entry(found: Option<KnowledgeEntry>, knowledge_id: &KnowledgeId) -> (r: Result<
    KnowledgeEntry,
    ApplicationError,
>)
    ensures
        found matches Some(e) ==> r == Ok::<KnowledgeEntry, ApplicationError>(e),
        found is None ==> (r matches Err(ApplicationError::Domain(DomainError::NotFound { entity, slug })) && entity
            == EntityKind::Knowledge && slug@ == knowledge_id@),
{
    match found {
        Some(e) => Ok(e),
        None => Err(
            ApplicationError::Domain(
                DomainError::NotFound { entity: EntityKind::Knowledge, slug: knowledge_id.to_string() },
            ),
        ),
    }
}

pub trait KnowledgeApplicationService {
    fn create_candidate(&self, command: CreateKnowledgeCandidateCommand) -> (r: Result<
        CandidateMutationResult,
        ApplicationError,
    >)
        ensures
            r matches Ok(m) ==> {
                &&& m.task_id@ == command.task_id@
                &&& m.candidate.id@ == command.candidate_id@
                &&& m.candidate.title == command.title
                &&& m.candidate.category == command.category
                &&& m.candidate.tags == command.tags
                &&& m.candidate.source_count == command.source_paths@.len()
                &&& candidate_path_of(command.task_id@, command.candidate_id@, m.candidate.path@)
            },
            r matches Err(e) ==> e is Domain,
    ;

    fn list_candidates(&self, query: ListKnowledgeCandidatesQuery) -> (r: Result<
        Vec<KnowledgeObjectSummary>,
        ApplicationError,
    >)
        ensures
            r matches Ok(v) ==> exists|stored: Seq<KnowledgeCandidate>| #[trigger] candidate_listing(
                v@,
                stored,
            ),
            r matches Err(e) ==> e is Domain,
    ;

    fn show_candidate(&self, query: ShowKnowledgeCandidateQuery) -> (r: Result<
        Option<KnowledgeObjectSummary>,
        ApplicationError,
    >)
        ensures
            r matches Ok(Some(item)) ==> exists|c: KnowledgeCandidate| #[trigger] summarizes_candidate(
                item,
                c,
            ),
            r matches Err(e) ==> e is Domain,
    ;

    fn update_candidate_meta(&self, command: UpdateKnowledgeCandidateMetaCommand) -> (r: Result<
        CandidateMutationResult,
        ApplicationError,
    >)
        ensures
            r matches Ok(m) ==> {
                &&& m.task_id@ == command.task_id@
                &&& command.title matches Some(t) ==> m.candidate.title == t
                &&& command.category matches Some(c) ==> m.candidate.category == Some(c)
                &&& command.tags matches Some(t) ==> m.candidate.tags == t
            },
            r matches Err(e) ==> e is Domain,
    ;

    fn delete_candidate(&self, command: DeleteKnowledgeCandidateCommand) -> (r: Result<(), ApplicationError>)
        ensures
            r matches Err(e) ==> e is Domain,
    ;

    fn list_knowledge(&self, query: ListKnowledgeQuery) -> (r: Result<
        Vec<KnowledgeObjectSummary>,
        ApplicationError,
    >)
        ensures
            r matches Ok(v) ==> exists|stored: Seq<KnowledgeEntry>| #[trigger] entry_listing(v@, stored),
            r matches Err(e) ==> e is Domain,
    ;

    fn show_knowledge(&self, query: ShowKnowledgeQuery) -> (r: Result<
        Option<KnowledgeObjectSummary>,
        ApplicationError,
    >)
        ensures
            r matches Ok(Some(item)) ==> exists|e: KnowledgeEntry| #[trigger] summarizes_entry(item, e),
            r matches Err(e) ==> e is Domain,
    ;

    fn update_knowledge_meta(&self, command: UpdateKnowledgeMetaCommand) -> (r: Result<
        KnowledgeMutationResult,
        ApplicationError,
    >)
        ensures
            r matches Ok(m) ==> {
                &&& command.title matches Some(t) ==> m.knowledge.title == t
                &&& command.category matches Some(c) ==> m.knowledge.category == Some(c)
                &&& command.tags matches Some(t) ==> m.knowledge.tags == t
            },
            r matches Err(e) ==> e is Domain,
    ;

    fn delete_knowledge(&self, command: DeleteKnowledgeCommand) -> (r: Result<(), ApplicationError>)
        ensures
            r matches Err(e) ==> e is Domain,
    ;

    fn promote(&self, command: PromoteKnowledgeCommand) -> (r: Result<
        PromoteKnowledgeResult,
        ApplicationError,
    >)
        ensures
            r matches Ok(m) ==> {
                &&& m.task_id@ == command.task_id@
                &&& m.candidate_id@ == command.candidate_id@
                &&& command.title matches Some(t) ==> m.knowledge.title == t
                &&& command.category matches Some(c) ==> m.knowledge.category == Some(c)
                &&& command.tags matches Some(t) ==> m.knowledge.tags == t
                &&& exists|e: KnowledgeEntry, t: Timestamp|
                    #[trigger] summarizes_entry(
                        m.knowledge,
                        patched_entry(e, command.title, command.category, command.tags, t),
                    )
            },
            r matches Err(e) ==> e is Domain,
    ;
}

pub struct DefaultKnowledgeApplicationService {
    repository: Box<dyn KnowledgeRepository>,
    clock: Box<dyn Clock>,
}

impl DefaultKnowledgeApplicationService {
    pub fn new(repository: Box<dyn KnowledgeRepository>, clock: Box<dyn Clock>) -> Self {
        DefaultKnowledgeApplicationService { repository, clock }
    }
}

impl KnowledgeApplicationService for DefaultKnowledgeApplicationService {
    /// Creates the candidate the request describes, now, and stores it.
    fn create_candidate(&self, command: CreateKnowledgeCandidateCommand) -> (r: Result<
        CandidateMutationResult,
        ApplicationError,
    >)
    {
        let now = self.clock.now();
        let candidate = new_candidate(command, now);
        match self.repository.create_candidate(&candidate) {
            Ok(()) => {},
            Err(e) => return Err(ApplicationError::Domain(e)),
        }
        Ok(
            CandidateMutationResult {
                task_id: candidate.task_slug.to_string(),
                candidate: to_summary_candidate(candidate),
            },
        )
    }

    /// The task's candidates, in the order they are stored.
    fn list_candidates(&self, query: ListKnowledgeCandidatesQuery) -> (r: Result<
        Vec<KnowledgeObjectSummary>,
        ApplicationError,
    >)
    {
        match self.repository.list_candidates(&TaskSlug::from(query.task_id.as_str())) {
            Ok(candidates) => {
                let ghost stored = candidates@;
                let v = candidate_summaries(candidates);
                let r = Ok(v);
                assert(r matches Ok(w) && candidate_listing(w@, stored));
                r
            },
            Err(e) => Err(ApplicationError::Domain(e)),
        }
    }

    /// The summary of the task's candidate with the query's id, if stored.
    fn show_candidate(&self, query: ShowKnowledgeCandidateQuery) -> (r: Result<
        Option<KnowledgeObjectSummary>,
        ApplicationError,
    >)
    {
        match self.repository.find_candidate(
            &TaskSlug::from(query.task_id.as_str()),
            &KnowledgeCandidateId::from(query.candidate_id.as_str()),
        ) {
            Ok(Some(c)) => {
                let ghost found = c;
                let item = to_summary_candidate(c);
                assert(summarizes_candidate(item, found));
                Ok(Some(item))
            },
            Ok(None) => Ok(None),
            Err(e) => Err(ApplicationError::Domain(e)),
        }
    }

    /// Updates the stored candidate's metadata, as `patch_candidate` does,
    /// and stores it.
    fn update_candidate_meta(&self, command: UpdateKnowledgeCandidateMetaCommand) -> (r: Result<
        CandidateMutationResult,
        ApplicationError,
    >)
    {
        let task_id = TaskSlug::from(command.task_id.as_str());
        let candidate_id = KnowledgeCandidateId::from(command.candidate_id.as_str());
        let found = match self.repository.find_candidate(&task_id, &candidate_id) {
            Ok(found) => found,
            Err(e) => return Err(ApplicationError::Domain(e)),
        };
        let candidate = match require_candidate(found, &candidate_id) {
            Ok(c) => c,
            Err(e) => return Err(e),
        };
        let now = self.clock.now();
        let candidate = patch_candidate(candidate, command.title, command.category, command.tags, now);
        match self.repository.update_candidate(&task_id, &candidate) {
            Ok(()) => {},
            Err(e) => return Err(ApplicationError::Domain(e)),
        }
        Ok(CandidateMutationResult { task_id: task_id.to_string(), candidate: to_summary_candidate(candidate) })
    }

    fn delete_candidate(&self, command: DeleteKnowledgeCandidateCommand) -> (r: Result<(), ApplicationError>)
    {
        match self.repository.delete_candidate(
            &TaskSlug::from(command.task_id.as_str()),
            &KnowledgeCandidateId::from(command.candidate_id.as_str()),
        ) {
            Ok(()) => Ok(()),
            Err(e) => Err(ApplicationError::Domain(e)),
        }
    }

    /// The knowledge base's entries, in their order.
    fn list_knowledge(&self, query: ListKnowledgeQuery) -> (r: Result<
        Vec<KnowledgeObjectSummary>,
        ApplicationError,
    >)
    {
        match self.repository.load() {
            Ok(base) => {
                let ghost stored = base.entries@;
                let v = entry_summaries(base.entries);
                let r = Ok(v);
                assert(r matches Ok(w) && entry_listing(w@, stored));
                r
            },
            Err(e) => Err(ApplicationError::Domain(e)),
        }
    }

    /// The summary of the entry with the query's id, if stored.
    fn show_knowledge(&self, query: ShowKnowledgeQuery) -> (r: Result<
        Option<KnowledgeObjectSummary>,
        ApplicationError,
    >)
    {
        match self.repository.find_entry(&KnowledgeId::from(query.knowledge_id.as_str())) {
            Ok(Some(e)) => {
                let ghost found = e;
                let item = to_summary_entry(e);
                assert(summarizes_entry(item, found));
                Ok(Some(item))
            },
            Ok(None) => Ok(None),
            Err(e) => Err(ApplicationError::Domain(e)),
        }
    }

    /// Updates the stored entry's metadata, as `patch_entry` does, and
    /// stores it.
    fn update_knowledge_meta(&self, command: UpdateKnowledgeMetaCommand) -> (r: Result<
        KnowledgeMutationResult,
        ApplicationError,
    >)
    {
        let knowledge_id = KnowledgeId::from(command.knowledge_id.as_str());
        let found = match self.repository.find_entry(&knowledge_id) {
            Ok(found) => found,
            Err(e) => return Err(ApplicationError::Domain(e)),
        };
        let entry = match require_entry(found, &knowledge_id) {
            Ok(e) => e,
            Err(e) => return Err(e),
        };
        let now = self.clock.now();
        let entry = patch_entry(entry, command.title, command.category, command.tags, now);
        match self.repository.update_entry(&entry) {
            Ok(()) => {},
            Err(e) => return Err(ApplicationError::Domain(e)),
        }
        Ok(KnowledgeMutationResult { knowledge: to_summary_entry(entry) })
    }

    fn delete_knowledge(&self, command: DeleteKnowledgeCommand) -> (r: Result<(), ApplicationError>)
    {
        match self.repository.delete_entry(&KnowledgeId::from(command.knowledge_id.as_str())) {
            Ok(()) => Ok(()),
            Err(e) => Err(ApplicationError::Domain(e)),
        }
    }

    /// Promotes a task's candidate to an entry with the request's id, then
    /// applies the request's metadata to the entry, as `patch_entry` does.
    fn promote(&self, command: PromoteKnowledgeCommand) -> (r: Result<
        PromoteKnowledgeResult,
        ApplicationError,
    >)
    {
        let task_id = TaskSlug::from(command.task_id.as_str());
        let candidate_id = KnowledgeCandidateId::from(command.candidate_id.as_str());
        let knowledge_id = KnowledgeId::from(command.knowledge_id.as_str());
        match self.repository.promote_candidate(&task_id, &candidate_id, &knowledge_id) {
            Ok(()) => {},
            Err(e) => return Err(ApplicationError::Domain(e)),
        }
        let found = match self.repository.find_entry(&knowledge_id) {
            Ok(found) => found,
            Err(e) => return Err(ApplicationError::Domain(e)),
        };
        let entry = match require_entry(found, &knowledge_id) {
            Ok(e) => e,
            Err(e) => return Err(e),
        };
        let now = self.clock.now();
        let ghost promoted = entry;
        let ghost requested = command;
        let entry = patch_entry(entry, command.title, command.category, command.tags, now);
        match self.repository.update_entry(&entry) {
            Ok(()) => {},
            Err(e) => return Err(ApplicationError::Domain(e)),
        }
        let knowledge = to_summary_entry(entry);
        assert(summarizes_entry(
            knowledge,
            patched_entry(promoted, requested.title, requested.category, requested.tags, now),
        ));
        Ok(
            PromoteKnowledgeResult {
                task_id: task_id.to_string(),
                candidate_id: candidate_id.to_string(),
                knowledge,
            },
        )
    }
}

} // verus!
