//! The `knowledge` commands.
use vstd::prelude::*;

use crate::application::error::ApplicationError;
use crate::application::knowledge::{
    CreateKnowledgeCandidateCommand, DeleteKnowledgeCandidateCommand, DeleteKnowledgeCommand,
    KnowledgeApplicationService, ListKnowledgeCandidatesQuery, ListKnowledgeQuery,
    PromoteKnowledgeCommand, ShowKnowledgeCandidateQuery, ShowKnowledgeQuery,
    UpdateKnowledgeCandidateMetaCommand, UpdateKnowledgeMetaCommand,
};
use crate::application::knowledge::KnowledgeObjectSummary;
use crate::application::knowledge::service::{
    candidate_listing, candidate_path_of, entry_listing, summarizes_candidate, summarizes_entry,
};
use crate::domain::knowledge::{KnowledgeCandidate, KnowledgeEntry};
use crate::presenters::text;
use crate::presenters::text::{knowledge_detail_text, list_text};

verus! {

#[derive(Clone, Debug, PartialEq, Eq)]
pub enum KnowledgeCommand {
    Candidate { command: KnowledgeCandidateCommand },
    List,
    Show(KnowledgeShowArgs),
    UpdateMeta(KnowledgeUpdateMetaArgs),
    Delete(KnowledgeDeleteArgs),
    Promote(KnowledgePromoteArgs),
}

#[derive(Clone, Debug, PartialEq, Eq)]
pub enum KnowledgeCandidateCommand {
    Create(KnowledgeCandidateCreateArgs),
    List(KnowledgeCandidateListArgs),
    Show(KnowledgeCandidateShowArgs),
    UpdateMeta(KnowledgeCandidateUpdateMetaArgs),
    Delete(KnowledgeCandidateDeleteArgs),
}

#[derive(Clone, Debug, PartialEq, Eq)]
pub struct KnowledgeCandidateCreateArgs {
    pub task_id: String,
    pub candidate_id: String,
    pub title: String,
    pub category: Option<String>,
    pub tags: Vec<String>,
    pub sources: Vec<String>,
}

#[derive(Clone, Debug, PartialEq, Eq)]
pub struct KnowledgeCandidateListArgs {
    pub task_id: String,
}

#[derive(Clone, Debug, PartialEq, Eq)]
pub struct KnowledgeCandidateShowArgs {
    pub task_id: String,
    pub candidate_id: String,
}

#[derive(Clone, Debug, PartialEq, Eq)]
pub struct KnowledgeCandidateUpdateMetaArgs {
    pub task_id: String,
    pub candidate_id: String,
    pub title: Option<String>,
    pub category: Option<String>,
    pub tags: Option<Vec<String>>,
}

#[derive(Clone, Debug, PartialEq, Eq)]
pub struct KnowledgeCandidateDeleteArgs {
    pub task_id: String,
    pub candidate_id: String,
}

#[derive(Clone, Debug, PartialEq, Eq)]
pub struct KnowledgeShowArgs {
    pub knowledge_id: String,
}

#[derive(Clone, Debug, PartialEq, Eq)]
pub struct KnowledgeUpdateMetaArgs {
    pub knowledge_id: String,
    pub title: Option<String>,
    pub category: Option<String>,
    pub tags: Option<Vec<String>>,
}

#[derive(Clone, Debug, PartialEq, Eq)]
pub struct KnowledgeDeleteArgs {
    pub knowledge_id: String,
}

#[derive(Clone, Debug, PartialEq, Eq)]
pub struct KnowledgePromoteArgs {
    pub task_id: String,
    pub candidate_id: String,
    pub knowledge_id: String,
    pub title: Option<String>,
    pub category: Option<String>,
    pub tags: Option<Vec<String>>,
}

/// `out` details a created candidate: the one the request describes.
pub open spec fn created_detail(out: Seq<char>, a: KnowledgeCandidateCreateArgs) -> bool {
    exists|m: KnowledgeObjectSummary|
        {
            &&& out == #[trigger] knowledge_detail_text(m)
            &&& m.id@ == a.candidate_id@
            &&& m.title == a.title
            &&& m.category == a.category
            &&& m.tags == a.tags
            &&& m.source_count == a.sources@.len()
            &&& candidate_path_of(a.task_id@, a.candidate_id@, m.path@)
        }
}

/// `out` details an object whose metadata was updated with the given
/// fields: each given field holds its new value.
pub open spec fn updated_detail(
    out: Seq<char>,
    title: Option<String>,
    category: Option<String>,
    tags: Option<Vec<String>>,
) -> bool {
    exists|m: KnowledgeObjectSummary|
        {
            &&& out == #[trigger] knowledge_detail_text(m)
            &&& title matches Some(t) ==> m.title == t
            &&& category matches Some(c) ==> m.category == Some(c)
            &&& tags matches Some(t) ==> m.tags == t
        }
}

/// `out` lists the summaries of some stored candidates.
pub open spec fn candidate_list_text(out: Seq<char>) -> bool {
    exists|items: Seq<KnowledgeObjectSummary>, stored: Seq<KnowledgeCandidate>|
        #[trigger] candidate_listing(items, stored) && out == list_text(
            items,
            "No knowledge objects found."@,
        )
}

/// `out` lists the summaries of some stored entries.
pub open spec fn entry_list_text(out: Seq<char>) -> bool {
    exists|items: Seq<KnowledgeObjectSummary>, stored: Seq<KnowledgeEntry>|
        #[trigger] entry_listing(items, stored) && out == list_text(
            items,
            "No knowledge objects found."@,
        )
}

/// `out` details some stored candidate.
pub open spec fn found_candidate_detail(out: Seq<char>) -> bool {
    exists|item: KnowledgeObjectSummary, c: KnowledgeCandidate|
        #[trigger] summarizes_candidate(item, c) && out == knowledge_detail_text(item)
}

/// `out` details some stored entry.
pub open spec fn found_entry_detail(out: Seq<char>) -> bool {
    exists|item: KnowledgeObjectSummary, e: KnowledgeEntry|
        #[trigger] summarizes_entry(item, e) && out == knowledge_detail_text(item)
}

/// What a `knowledge` command prints when it succeeds, from what the
/// service answered: details of the object it made, changed or found, a
/// list, a not-found message, or a deletion message.
pub open spec fn knowledge_output(command: KnowledgeCommand, out: Seq<char>) -> bool {
    match command {
        KnowledgeCommand::Candidate { command } => match command {
            KnowledgeCandidateCommand::Create(a) => created_detail(out, a),
            KnowledgeCandidateCommand::List(_) => candidate_list_text(out),
            KnowledgeCandidateCommand::Show(_) => out == "Knowledge candidate not found."@
                || found_candidate_detail(out),
            KnowledgeCandidateCommand::UpdateMeta(a) => updated_detail(out, a.title, a.category, a.tags),
            KnowledgeCandidateCommand::Delete(_) => out == "Deleted knowledge candidate"@,
        },
        KnowledgeCommand::List => entry_list_text(out),
        KnowledgeCommand::Show(_) => out == "Knowledge not found."@ || found_entry_detail(out),
        KnowledgeCommand::UpdateMeta(a) => updated_detail(out, a.title, a.category, a.tags),
        KnowledgeCommand::Delete(_) => out == "Deleted knowledge"@,
        KnowledgeCommand::Promote(a) => updated_detail(out, a.title, a.category, a.tags),
    }
}

/// The request `knowledge candidate create` makes.
pub fn create_candidate_command(args: KnowledgeCandidateCreateArgs) -> (r: CreateKnowledgeCandidateCommand)
    ensures
        r.task_id == args.task_id,
        r.candidate_id == args.candidate_id,
        r.title == args.title,
        r.category == args.category,
        r.tags == args.tags,
        r.source_paths == args.sources,
{
    CreateKnowledgeCandidateCommand {
        task_id: args.task_id,
        candidate_id: args.candidate_id,
        title: args.title,
        category: args.category,
        tags: args.tags,
        source_paths: args.sources,
    }
}

/// The query `knowledge candidate list` makes.
pub fn list_candidates_query(args: KnowledgeCandidateListArgs) -> (r: ListKnowledgeCandidatesQuery)
    ensures
        r.task_id == args.task_id,
{
    ListKnowledgeCandidatesQuery { task_id: args.task_id }
}

/// The query `knowledge candidate show` makes.
pub fn show_candidate_query(args: KnowledgeCandidateShowArgs) -> (r: ShowKnowledgeCandidateQuery)
    ensures
        r.task_id == args.task_id,
        r.candidate_id == args.candidate_id,
{
    ShowKnowledgeCandidateQuery { task_id: args.task_id, candidate_id: args.candidate_id }
}

/// The request `knowledge candidate update-meta` makes.
pub fn update_candidate_command(args: KnowledgeCandidateUpdateMetaArgs) -> (r:
    UpdateKnowledgeCandidateMetaCommand)
    ensures
        r.task_id == args.task_id,
        r.candidate_id == args.candidate_id,
        r.title == args.title,
        r.category == args.category,
        r.tags == args.tags,
{
    UpdateKnowledgeCandidateMetaCommand {
        task_id: args.task_id,
        candidate_id: args.candidate_id,
        title: args.title,
        category: args.category,
        tags: args.tags,
    }
}

/// The request `knowledge candidate delete` makes.
pub fn delete_candidate_command(args: KnowledgeCandidateDeleteArgs) -> (r: DeleteKnowledgeCandidateCommand)
    ensures
        r.task_id == args.task_id,
        r.candidate_id == args.candidate_id,
{
    DeleteKnowledgeCandidateCommand { task_id: args.task_id, candidate_id: args.candidate_id }
}

/// The query `knowledge show` makes.
pub fn show_knowledge_query(args: KnowledgeShowArgs) -> (r: ShowKnowledgeQuery)
    ensures
        r.knowledge_id == args.knowledge_id,
{
    ShowKnowledgeQuery { knowledge_id: args.knowledge_id }
}

/// The request `knowledge update-meta` makes.
pub fn update_knowledge_command(args: KnowledgeUpdateMetaArgs) -> (r: UpdateKnowledgeMetaCommand)
    ensures
        r.knowledge_id == args.knowledge_id,
        r.title == args.title,
        r.category == args.category,
        r.tags == args.tags,
{
    UpdateKnowledgeMetaCommand {
        knowledge_id: args.knowledge_id,
        title: args.title,
        category: args.category,
        tags: args.tags,
    }
}

/// The request `knowledge delete` makes.
pub fn delete_knowledge_command(args: KnowledgeDeleteArgs) -> (r: DeleteKnowledgeCommand)
    ensures
        r.knowledge_id == args.knowledge_id,
{
    DeleteKnowledgeCommand { knowledge_id: args.knowledge_id }
}

/// The request `knowledge promote` makes.
pub fn promote_command(args: KnowledgePromoteArgs) -> (r: PromoteKnowledgeCommand)
    ensures
        r.task_id == args.task_id,
        r.candidate_id == args.candidate_id,
        r.knowledge_id == args.knowledge_id,
        r.title == args.title,
        r.category == args.category,
        r.tags == args.tags,
{
    PromoteKnowledgeCommand {
        task_id: args.task_id,
        candidate_id: args.candidate_id,
        knowledge_id: args.knowledge_id,
        title: args.title,
        category: args.category,
        tags: args.tags,
    }
}

/// What `knowledge candidate show` prints for what the lookup found: the
/// candidate's details, or that there is none.
pub fn candidate_show_output(found: &Option<KnowledgeObjectSummary>) -> (r: String)
    ensures
        found is None ==> r@ == "Knowledge candidate not found."@,
        found matches Some(item) ==> r@ == knowledge_detail_text(*item),
{
    match found {
        Some(item) => text::render_knowledge_detail(item),
        None => "Knowledge candidate not found.".to_owned(),
    }
}

/// What `knowledge show` prints for what the lookup found: the entry's
/// details, or that there is none.
pub fn knowledge_show_output(found: &Option<KnowledgeObjectSummary>) -> (r: String)
    ensures
        found is None ==> r@ == "Knowledge not found."@,
        found matches Some(item) ==> r@ == knowledge_detail_text(*item),
{
    match found {
        Some(item) => text::render_knowledge_detail(item),
        None => "Knowledge not found.".to_owned(),
    }
}

/// Runs a `knowledge` command against the knowledge service and renders its
/// outcome as text. Deletions answer with a fixed message; a lookup that
/// finds nothing says so.
pub fn run(service: &dyn KnowledgeApplicationService, command: KnowledgeCommand) -> (r: Result<
    String,
    ApplicationError,
>)
    ensures
        r matches Ok(s) ==> knowledge_output(command, s@),
        r matches Err(e) ==> e is Domain,
{
    match command {
        KnowledgeCommand::Candidate { command } => match command {
            KnowledgeCandidateCommand::Create(args) => {
                match service.create_candidate(create_candidate_command(args)) {
                    Ok(result) => Ok(text::render_knowledge_detail(&result.candidate)),
                    Err(e) => Err(e),
                }
            },
            KnowledgeCandidateCommand::List(args) => {
                match service.list_candidates(list_candidates_query(args)) {
                    Ok(items) => Ok(text::render_knowledge_list(items.as_slice())),
                    Err(e) => Err(e),
                }
            },
            KnowledgeCandidateCommand::Show(args) => {
                match service.show_candidate(show_candidate_query(args)) {
                    Ok(found) => Ok(candidate_show_output(&found)),
                    Err(e) => Err(e),
                }
            },
            KnowledgeCandidateCommand::UpdateMeta(args) => {
                match service.update_candidate_meta(update_candidate_command(args)) {
                    Ok(result) => Ok(text::render_knowledge_detail(&result.candidate)),
                    Err(e) => Err(e),
                }
            },
            KnowledgeCandidateCommand::Delete(args) => {
                match service.delete_candidate(delete_candidate_command(args)) {
                    Ok(()) => Ok("Deleted knowledge candidate".to_owned()),
                    Err(e) => Err(e),
                }
            },
        },
        KnowledgeCommand::List => {
            match service.list_knowledge(ListKnowledgeQuery) {
                Ok(items) => Ok(text::render_knowledge_list(items.as_slice())),
                Err(e) => Err(e),
            }
        },
        KnowledgeCommand::Show(args) => {
            match service.show_knowledge(show_knowledge_query(args)) {
                Ok(found) => Ok(knowledge_show_output(&found)),
                Err(e) => Err(e),
            }
        },
        KnowledgeCommand::UpdateMeta(args) => {
            match service.update_knowledge_meta(update_knowledge_command(args)) {
                Ok(result) => Ok(text::render_knowledge_detail(&result.knowledge)),
                Err(e) => Err(e),
            }
        },
        KnowledgeCommand::Delete(args) => {
            match service.delete_knowledge(delete_knowledge_command(args)) {
                Ok(()) => Ok("Deleted knowledge".to_owned()),
                Err(e) => Err(e),
            }
        },
        KnowledgeCommand::Promote(args) => {
            match service.promote(promote_command(args)) {
                Ok(result) => Ok(text::render_knowledge_detail(&result.knowledge)),
                Err(e) => Err(e),
            }
        },
    }
}

} // verus!
