//! The top-level commands, the task commands, and what they ask of the
//! services.
use vstd::prelude::*;
use vstd::string::StringExecFns;

use crate::application::error::ApplicationError;
use crate::application::ports::Clock;
use crate::application::task::{
    ApplicationTaskStatus, CloseTaskCommand, CreateTaskCommand, ListTasksQuery,
    TaskApplicationService,
};
use crate::application::task_skills::{MountSkillCommand, TaskSkillsApplicationService};
use crate::cli::knowledge::KnowledgeCommand;
use crate::cli::repo::{RepoCommand, RepoGroupCommand, TaskReposCommand};
use crate::cli::skill::SkillCommand;
use crate::application::task::service::content_rejection;
use crate::domain::shared::TaskSlug;
use crate::domain::task::entities::is_rejection_error;
use crate::domain::workspace::{
    mark_workspace_status, register_workspace_entry, WorkspaceEntry, WorkspaceRegistryRepository,
    WorkspaceStatus,
};
use crate::application::task::service::task_listing;
use crate::domain::shared::is_generated_id;
use crate::domain::task::aggregate::TaskWorkspace;
use crate::presenters::CommandOutput;
use crate::strings::is_blank;
use crate::strings::str_eq;

verus! {

/// A parsed command line: `--json` and the command.
#[derive(Clone, Debug, PartialEq, Eq)]
pub struct Cli {
    pub json: bool,
    pub command: Command,
}

#[derive(Clone, Debug, PartialEq, Eq)]
pub enum Command {
    List(ListCommand),
    Open(OpenCommand),
    Repo { command: RepoCommand },
    RepoGroup { command: RepoGroupCommand },
    Skill { command: SkillCommand },
    Knowledge { command: KnowledgeCommand },
    Task(TaskCommand),
}

#[derive(Clone, Debug, PartialEq, Eq)]
pub struct ListCommand {
    pub status: Option<TaskStatusArg>,
    pub tag: Option<String>,
    pub limit: Option<usize>,
}

#[derive(Clone, Debug, PartialEq, Eq)]
pub struct OpenCommand {
    pub task: String,
    pub editor: Option<EditorArg>,
}

#[derive(Clone, Debug, PartialEq, Eq)]
pub struct TaskCommand {
    pub command: TaskSubcommand,
}

#[derive(Clone, Debug, PartialEq, Eq)]
pub enum TaskSubcommand {
    Create(CreateTaskArgs),
    Close(CloseTaskArgs),
    Repos { command: TaskReposCommand },
}

#[derive(Clone, Debug, PartialEq, Eq)]
pub struct CreateTaskArgs {
    pub slug: String,
    pub title: String,
    pub template: String,
    pub description: Option<String>,
    pub source_brief: Option<String>,
    pub tags: Vec<String>,
    pub selected_repo_groups: Vec<String>,
    pub repos: Vec<String>,
    pub skills: Vec<String>,
}

#[derive(Clone, Debug, PartialEq, Eq)]
pub struct CloseTaskArgs {
    pub task_id: String,
}

#[derive(Clone, Copy, Debug, PartialEq, Eq, Structural)]
pub enum EditorArg {
    Cursor,
    Vscode,
}

#[derive(Clone, Copy, Debug, PartialEq, Eq, Structural)]
pub enum TaskStatusArg {
    Draft,
    Active,
    Closed,
    Archived,
}

/// The name an editor goes by for the launcher.
pub open spec fn editor_name_text(value: EditorArg) -> Seq<char> {
    match value {
        EditorArg::Cursor => "cursor"@,
        EditorArg::Vscode => "vscode"@,
    }
}

pub fn to_editor_name(value: EditorArg) -> (r: &'static str)
    ensures
        r@ == editor_name_text(value),
{
    match value {
        EditorArg::Cursor => "cursor",
        EditorArg::Vscode => "vscode",
    }
}

/// The editor an `open` reports: the one given, or `unknown`.
pub fn opened_editor_name(value: Option<EditorArg>) -> (r: &'static str)
    ensures
        value matches Some(e) ==> r@ == editor_name_text(e),
        value is None ==> r@ == "unknown"@,
{
    match value {
        Some(e) => to_editor_name(e),
        None => "unknown",
    }
}

pub open spec fn task_status_of(value: TaskStatusArg) -> ApplicationTaskStatus {
    match value {
        TaskStatusArg::Draft => ApplicationTaskStatus::Draft,
        TaskStatusArg::Active => ApplicationTaskStatus::Active,
        TaskStatusArg::Closed => ApplicationTaskStatus::Closed,
        TaskStatusArg::Archived => ApplicationTaskStatus::Archived,
    }
}

pub fn to_task_status(value: TaskStatusArg) -> (r: ApplicationTaskStatus)
    ensures
        r == task_status_of(value),
{
    match value {
        TaskStatusArg::Draft => ApplicationTaskStatus::Draft,
        TaskStatusArg::Active => ApplicationTaskStatus::Active,
        TaskStatusArg::Closed => ApplicationTaskStatus::Closed,
        TaskStatusArg::Archived => ApplicationTaskStatus::Archived,
    }
}

/// The query a `list` asks for.
pub open spec fn list_query_of(command: ListCommand) -> ListTasksQuery {
    ListTasksQuery {
        status: match command.status {
            Some(s) => Some(task_status_of(s)),
            None => None,
        },
        tag: command.tag,
        limit: command.limit,
    }
}

pub fn list_query(command: ListCommand) -> (r: ListTasksQuery)
    ensures
        r == list_query_of(command),
{
    let status = match command.status {
        Some(s) => Some(to_task_status(s)),
        None => None,
    };
    ListTasksQuery { status, tag: command.tag, limit: command.limit }
}

/// The request a `task create` makes; the skills it names are mounted once
/// the task exists.
pub fn create_command(args: &CreateTaskArgs) -> (r: CreateTaskCommand)
    ensures
        r.slug == args.slug,
        r.title == args.title,
        r.template == args.template,
        r.description == args.description,
        r.source_brief == args.source_brief,
        r.tags@ == args.tags@,
        r.selected_repo_groups@ == args.selected_repo_groups@,
        r.repos@ == args.repos@,
        r.initial_skills@ == args.skills@,
{
    CreateTaskCommand {
        slug: args.slug.clone(),
        title: args.title.clone(),
        template: args.template.clone(),
        description: crate::strings::copy_opt_string(&args.description),
        source_brief: crate::strings::copy_opt_string(&args.source_brief),
        tags: crate::strings::copy_strings(&args.tags),
        selected_repo_groups: crate::strings::copy_strings(&args.selected_repo_groups),
        repos: crate::strings::copy_strings(&args.repos),
        initial_skills: crate::strings::copy_strings(&args.skills),
    }
}

/// `i` is the first registered workspace of the task with this slug.
pub open spec fn first_with_slug(entries: Seq<WorkspaceEntry>, slug: Seq<char>, i: int) -> bool {
    &&& 0 <= i < entries.len()
    &&& entries[i].slug@ == slug
    &&& forall|j: int| 0 <= j < i ==> #[trigger] entries[j].slug@ != slug
}

/// The directory of the first registered workspace of the task with this
/// slug, if there is one.
pub fn workspace_path_for(entries: &Vec<WorkspaceEntry>, slug: &str) -> (r: Option<String>)
    ensures
        r matches Some(p) ==> exists|i: int| first_with_slug(entries@, slug@, i) && p@ == entries@[i].path@,
        r is None ==> forall|j: int| 0 <= j < entries@.len() ==> #[trigger] entries@[j].slug@ != slug@,
{
    let mut i: usize = 0;
    while i < entries.len()
        invariant
            i <= entries@.len(),
            forall|j: int| 0 <= j < i ==> #[trigger] entries@[j].slug@ != slug@,
        decreases entries@.len() - i,
    {
        if str_eq(entries[i].slug.as_str(), slug) {
            assert(first_with_slug(entries@, slug@, i as int));
            return Some(entries[i].path.clone());
        }
        i = i + 1;
    }
    None
}

/// The error an `open` gives for a task no workspace is registered for.
pub fn workspace_not_found_message(task: &str) -> (r: String)
    ensures
        r@ == "workspace not found: "@ + task@,
{
    let mut out = String::new();
    out.append("workspace not found: ");
    out.append(task);
    out
}

/// Runs `list`: the tasks the query selects, as `list_tasks` lists them.
pub fn run_list(service: &dyn TaskApplicationService, command: ListCommand) -> (r: Result<
    CommandOutput,
    ApplicationError,
>)
    ensures
        r matches Ok(o) ==> (o matches CommandOutput::TaskList(v) && exists|stored: Seq<TaskWorkspace>|
            #[trigger] task_listing(v@, stored, list_query_of(command))),
        r matches Err(e) ==> e is Domain,
{
    let ghost typed = command;
    let query = list_query(command);
    match service.list_tasks(query) {
        Ok(items) => {
            let ghost seen = items@;
            let r = Ok(CommandOutput::TaskList(items));
            assert(r matches Ok(CommandOutput::TaskList(w)) && w@ == seen);
            assert(r matches Ok(CommandOutput::TaskList(w)) && exists|stored: Seq<TaskWorkspace>|
                #[trigger] task_listing(w@, stored, list_query_of(typed)));
            r
        },
        Err(e) => Err(e),
    }
}

/// Records the workspace at `root` in the registry under the task's slug and
/// title with `status`, stamped now.
pub fn register_workspace(
    registry: &dyn WorkspaceRegistryRepository,
    clock: &dyn Clock,
    root: &str,
    slug: &str,
    title: &str,
    status: WorkspaceStatus,
) -> (r: Result<(), ApplicationError>)
    ensures
        r matches Err(e) ==> e is Domain,
{
    let mut entries = match registry.load() {
        Ok(entries) => entries,
        Err(e) => return Err(ApplicationError::Domain(e)),
    };
    register_workspace_entry(
        &mut entries,
        root,
        TaskSlug::from(slug),
        title.to_owned(),
        status,
        clock.now(),
    );
    match registry.save(entries.as_slice()) {
        Ok(()) => Ok(()),
        Err(e) => Err(ApplicationError::Domain(e)),
    }
}

/// Sets the status of the workspace registered at `root`, stamped now; the
/// registry is saved only when it holds such a workspace.
pub fn update_workspace_status(
    registry: &dyn WorkspaceRegistryRepository,
    clock: &dyn Clock,
    root: &str,
    status: WorkspaceStatus,
) -> (r: Result<(), ApplicationError>)
    ensures
        r matches Err(e) ==> e is Domain,
{
    let mut entries = match registry.load() {
        Ok(entries) => entries,
        Err(e) => return Err(ApplicationError::Domain(e)),
    };
    if mark_workspace_status(&mut entries, root, status, clock.now()) {
        match registry.save(entries.as_slice()) {
            Ok(()) => {},
            Err(e) => return Err(ApplicationError::Domain(e)),
        }
    }
    Ok(())
}

/// The request that mounts a skill named at creation into the new task, at
/// the skill's latest version.
pub fn initial_mount_command(task_id: &String, skill_id: &String) -> (r: MountSkillCommand)
    ensures
        r.task_id == *task_id,
        r.skill_id == *skill_id,
        r.version is None,
{
    MountSkillCommand { task_id: task_id.clone(), skill_id: skill_id.clone(), version: None }
}

/// Runs `task create`: creates the task, mounts each skill it names (at the
/// skill's latest version) into it, registers the workspace at `root` as
/// active, and renders the created task. The first failure ends the run.
pub fn run_create(
    tasks: &dyn TaskApplicationService,
    skills: &dyn TaskSkillsApplicationService,
    registry: &dyn WorkspaceRegistryRepository,
    clock: &dyn Clock,
    root: &str,
    args: CreateTaskArgs,
) -> (r: Result<CommandOutput, ApplicationError>)
    ensures
        r matches Ok(o) ==> (o matches CommandOutput::TaskCreated(c) && c.task_id@ == c.slug@
            && c.title == args.title && c.template == args.template && (is_blank(args.slug@)
            ==> is_generated_id(c.slug@)) && (!is_blank(args.slug@) ==> c.slug@ == args.slug@)),
        content_rejection(args.title@, args.template@, args.tags@) matches Some(rejection) ==> (
        r matches Err(ApplicationError::Domain(e)) && is_rejection_error(e, rejection)),
        r matches Err(e) ==> e is Domain || e is InvalidRequest,
        r matches Err(ApplicationError::InvalidRequest(m)) ==> m@ == "skill version is required"@
            && args.skills@.len() > 0,
{
    let result = match tasks.create_task(create_command(&args)) {
        Ok(result) => result,
        Err(e) => return Err(e),
    };
    let mut i: usize = 0;
    while i < args.skills.len()
        invariant
            content_rejection(args.title@, args.template@, args.tags@) is None,
        decreases args.skills@.len() - i,
    {
        match skills.mount_skill(initial_mount_command(&result.task_id, &args.skills[i])) {
            Ok(_) => {},
            Err(e) => return Err(e),
        }
        i = i + 1;
    }
    match register_workspace(
        registry,
        clock,
        root,
        result.slug.as_str(),
        result.title.as_str(),
        WorkspaceStatus::Active,
    ) {
        Ok(()) => {},
        Err(e) => return Err(e),
    }
    Ok(CommandOutput::TaskCreated(result))
}

/// The request `task close` makes.
pub fn close_command(args: CloseTaskArgs) -> (r: CloseTaskCommand)
    ensures
        r.task_id == args.task_id,
{
    CloseTaskCommand { task_id: args.task_id }
}

/// The message that confirms a closed task.
pub fn closed_message() -> (r: &'static str)
    ensures
        r@ == "Closed task"@,
{
    "Closed task"
}

/// Runs `task close`: closes the task, marks the workspace at `root` closed,
/// and confirms.
pub fn run_close(
    tasks: &dyn TaskApplicationService,
    registry: &dyn WorkspaceRegistryRepository,
    clock: &dyn Clock,
    root: &str,
    args: CloseTaskArgs,
) -> (r: Result<CommandOutput, ApplicationError>)
    ensures
        r matches Ok(o) ==> (o matches CommandOutput::Message(m) && m@ == "Closed task"@),
        r matches Err(e) ==> e is Domain,
{
    match tasks.close_task(close_command(args)) {
        Ok(()) => {},
        Err(e) => return Err(e),
    }
    match update_workspace_status(registry, clock, root, WorkspaceStatus::Closed) {
        Ok(()) => {},
        Err(e) => return Err(e),
    }
    Ok(CommandOutput::Message(closed_message().to_owned()))
}

} // verus!
