//! The `repo`, `repo-group` and `task repos` commands.
use vstd::prelude::*;
use vstd::string::StrSliceExecFns;

use crate::application::error::ApplicationError;
use crate::application::repo_catalog::{
    AddRepoCommand, AddRepoGroupCommand, RepoCatalogApplicationService,
};
use crate::application::task_repos::{
    AddTaskReposCommand, CloneStateFilter, CloneTaskReposCommand, RemoveTaskReposCommand,
    RepoStatusQuery, SetTaskReposCommand, TaskReposApplicationService,
};
use crate::application::repo_catalog::service::{group_listing, repo_listing};
use crate::application::task_repos::service::{
    clone_run_of, set_selection_from, status_listing, string_texts, repo_texts, without_texts,
};
use crate::domain::repo_catalog::{RepoEntry, RepoGroup};
use crate::domain::shared::{RepoGroupId, RepoId};
use crate::domain::task::aggregate::TaskWorkspace;
use crate::presenters::CommandOutput;
use crate::strings::text_le;
use crate::text_sets::{sorted_unique, text_set};
use crate::strings::{is_blank, is_blank_str, trim_text, trimmed};

verus! {

#[derive(Clone, Debug, PartialEq, Eq)]
pub enum RepoCommand {
    Add(RepoAddArgs),
    List,
}

#[derive(Clone, Debug, PartialEq, Eq)]
pub struct RepoAddArgs {
    pub id: String,
    pub url: String,
    pub tags: Vec<String>,
    pub description: Option<String>,
}

#[derive(Clone, Debug, PartialEq, Eq)]
pub enum RepoGroupCommand {
    Add(RepoGroupAddArgs),
    List,
}

/// `repos` is the comma-separated list as typed.
#[derive(Clone, Debug, PartialEq, Eq)]
pub struct RepoGroupAddArgs {
    pub id: String,
    pub repos: String,
    pub tags: Vec<String>,
    pub description: Option<String>,
}

#[derive(Clone, Debug, PartialEq, Eq)]
pub enum TaskReposCommand {
    SetRepos(TaskReposSetArgs),
    Add(TaskReposAddArgs),
    Remove(TaskReposRemoveArgs),
    Clone(TaskReposCloneArgs),
    Status(TaskReposStatusArgs),
}

#[derive(Clone, Debug, PartialEq, Eq)]
pub struct TaskReposSetArgs {
    pub task: String,
    pub repo_groups: Vec<String>,
    pub repos: Vec<String>,
}

#[derive(Clone, Debug, PartialEq, Eq)]
pub struct TaskReposAddArgs {
    pub task: String,
    pub repos: Vec<String>,
}

#[derive(Clone, Debug, PartialEq, Eq)]
pub struct TaskReposRemoveArgs {
    pub task: String,
    pub repos: Vec<String>,
}

#[derive(Clone, Debug, PartialEq, Eq)]
pub struct TaskReposCloneArgs {
    pub task: String,
    pub repos: Vec<String>,
    pub missing: bool,
    pub dry_run: bool,
}

#[derive(Clone, Debug, PartialEq, Eq)]
pub struct TaskReposStatusArgs {
    pub task: String,
    pub repos: Vec<String>,
    pub clone_state: Option<CloneStateArg>,
    pub dry_run: bool,
}

#[derive(Clone, Copy, Debug, PartialEq, Eq, Structural)]
pub enum CloneStateArg {
    Missing,
    Ready,
    Dirty,
    Unknown,
}

pub open spec fn clone_state_filter_of(value: CloneStateArg) -> CloneStateFilter {
    match value {
        CloneStateArg::Missing => CloneStateFilter::Missing,
        CloneStateArg::Ready => CloneStateFilter::Ready,
        CloneStateArg::Dirty => CloneStateFilter::Dirty,
        CloneStateArg::Unknown => CloneStateFilter::Unknown,
    }
}

pub fn to_clone_state_filter(value: CloneStateArg) -> (r: CloneStateFilter)
    ensures
        r == clone_state_filter_of(value),
{
    match value {
        CloneStateArg::Missing => CloneStateFilter::Missing,
        CloneStateArg::Ready => CloneStateFilter::Ready,
        CloneStateArg::Dirty => CloneStateFilter::Dirty,
        CloneStateArg::Unknown => CloneStateFilter::Unknown,
    }
}

/// The pieces of a text between its commas, as `str::split(',')` yields
/// them: one more than there are commas, empty pieces included.
pub open spec fn comma_pieces(s: Seq<char>) -> Seq<Seq<char>>
    decreases s.len(),
{
    if s.len() == 0 {
        seq![Seq::empty()]
    } else {
        let before = comma_pieces(s.drop_last());
        if s.last() == ',' {
            before.push(Seq::empty())
        } else {
            before.update(before.len() - 1, before.last().push(s.last()))
        }
    }
}

/// The pieces that are not blank, trimmed, in order.
pub open spec fn trimmed_entries(pieces: Seq<Seq<char>>) -> Seq<Seq<char>>
    decreases pieces.len(),
{
    if pieces.len() == 0 {
        Seq::empty()
    } else {
        let before = trimmed_entries(pieces.drop_last());
        if is_blank(pieces.last()) {
            before
        } else {
            before.push(trim_text(pieces.last()))
        }
    }
}

/// The texts of a list of strings.
pub open spec fn entry_texts(v: Seq<String>) -> Seq<Seq<char>> {
    Seq::new(v.len(), |i: int| v[i]@)
}

/// The repo ids of a comma-separated list: each piece trimmed, blank pieces
/// dropped.
pub fn split_repo_list(text: &str) -> (r: Vec<String>)
    ensures
        entry_texts(r@) == trimmed_entries(comma_pieces(text@)),
{
    let n = text.unicode_len();
    let ghost s = text@;
    let ghost mut done: Seq<Seq<char>> = Seq::empty();
    let mut out: Vec<String> = Vec::new();
    let mut start: usize = 0;
    let mut i: usize = 0;
    assert(s.take(0) =~= Seq::<char>::empty());
    assert(comma_pieces(s.take(0)) =~= done.push(s.subrange(0, 0)));
    while i < n
        invariant
            n == s.len(),
            s == text@,
            start <= i <= n,
            comma_pieces(s.take(i as int)) == done.push(s.subrange(start as int, i as int)),
            entry_texts(out@) == trimmed_entries(done),
        decreases n - i,
    {
        assert(s.take(i as int + 1).drop_last() =~= s.take(i as int));
        assert(s.take(i as int + 1).last() == s[i as int]);
        let c = text.get_char(i);
        if c == ',' {
            let piece = text.substring_char(start, i);
            let ghost before_out = out@;
            if !is_blank_str(piece) {
                let entry = trimmed(piece);
                out.push(entry);
                assert(entry_texts(out@) =~= entry_texts(before_out).push(entry@));
            }
            proof {
                assert(done.push(piece@).drop_last() =~= done);
                done = done.push(piece@);
                assert(s.subrange(i as int + 1, i as int + 1) =~= Seq::<char>::empty());
            }
            start = i + 1;
        } else {
            assert(s.subrange(start as int, i as int + 1) =~= s.subrange(start as int, i as int).push(
                c,
            ));
            assert(done.push(s.subrange(start as int, i as int)).update(
                done.len() as int,
                s.subrange(start as int, i as int).push(c),
            ) =~= done.push(s.subrange(start as int, i as int + 1)));
        }
        i = i + 1;
    }
    assert(s.take(n as int) =~= s);
    let piece = text.substring_char(start, n);
    let ghost before_out = out@;
    if !is_blank_str(piece) {
        let entry = trimmed(piece);
        out.push(entry);
        assert(entry_texts(out@) =~= entry_texts(before_out).push(entry@));
    }
    proof {
        assert(done.push(piece@).drop_last() =~= done);
    }
    out
}

/// A repo filter from a list typed on the command line: none when it is
/// empty, so that every repo is selected.
pub open spec fn repo_selection_of(repos: Vec<String>) -> Option<Vec<String>> {
    if repos@.len() == 0 {
        None
    } else {
        Some(repos)
    }
}

pub fn repo_selection(repos: Vec<String>) -> (r: Option<Vec<String>>)
    ensures
        r == repo_selection_of(repos),
{
    if repos.len() == 0 {
        None
    } else {
        Some(repos)
    }
}

/// The request `repo add` makes.
pub fn add_repo_command(args: RepoAddArgs) -> (r: AddRepoCommand)
    ensures
        r.id == args.id,
        r.url == args.url,
        r.tags == args.tags,
        r.description == args.description,
{
    AddRepoCommand { id: args.id, url: args.url, tags: args.tags, description: args.description }
}

/// The request `repo-group add` makes: its repos read from the
/// comma-separated list, trimmed, blank entries dropped.
pub fn add_repo_group_command(args: RepoGroupAddArgs) -> (r: AddRepoGroupCommand)
    ensures
        r.id == args.id,
        entry_texts(r.repos@) == trimmed_entries(comma_pieces(args.repos@)),
        r.tags == args.tags,
        r.description == args.description,
{
    AddRepoGroupCommand {
        id: args.id,
        repos: split_repo_list(args.repos.as_str()),
        tags: args.tags,
        description: args.description,
    }
}

/// The request `task repos set` makes.
pub fn set_repos_command(args: TaskReposSetArgs) -> (r: SetTaskReposCommand)
    ensures
        r.task_id == args.task,
        r.selected_repo_groups == args.repo_groups,
        r.repos == args.repos,
{
    SetTaskReposCommand { task_id: args.task, selected_repo_groups: args.repo_groups, repos: args.repos }
}

/// The request `task repos add` makes.
pub fn add_repos_command(args: TaskReposAddArgs) -> (r: AddTaskReposCommand)
    ensures
        r.task_id == args.task,
        r.repos == args.repos,
{
    AddTaskReposCommand { task_id: args.task, repos: args.repos }
}

/// The request `task repos remove` makes.
pub fn remove_repos_command(args: TaskReposRemoveArgs) -> (r: RemoveTaskReposCommand)
    ensures
        r.task_id == args.task,
        r.repos == args.repos,
{
    RemoveTaskReposCommand { task_id: args.task, repos: args.repos }
}

/// The request `task repos clone` makes: every repo of the task when no
/// `--repo` is given.
pub open spec fn clone_command_of(args: TaskReposCloneArgs) -> CloneTaskReposCommand {
    CloneTaskReposCommand {
        task_id: args.task,
        repos: repo_selection_of(args.repos),
        missing_only: args.missing,
        dry_run: args.dry_run,
    }
}

pub fn clone_command(args: TaskReposCloneArgs) -> (r: CloneTaskReposCommand)
    ensures
        r == clone_command_of(args),
{
    CloneTaskReposCommand {
        task_id: args.task,
        repos: repo_selection(args.repos),
        missing_only: args.missing,
        dry_run: args.dry_run,
    }
}

/// The query `task repos status` makes: every repo of the task when no
/// `--repo` is given.
pub open spec fn status_query_of(args: TaskReposStatusArgs) -> RepoStatusQuery {
    RepoStatusQuery {
        task_id: args.task,
        repos: repo_selection_of(args.repos),
        clone_state: match args.clone_state {
            Some(s) => Some(clone_state_filter_of(s)),
            None => None,
        },
        dry_run: args.dry_run,
    }
}

pub fn status_query(args: TaskReposStatusArgs) -> (r: RepoStatusQuery)
    ensures
        r == status_query_of(args),
{
    let clone_state = match args.clone_state {
        Some(state) => Some(to_clone_state_filter(state)),
        None => None,
    };
    RepoStatusQuery {
        task_id: args.task,
        repos: repo_selection(args.repos),
        clone_state,
        dry_run: args.dry_run,
    }
}

/// Runs a `repo` command against the catalog service: the added repo, or
/// the catalog's repos sorted by id.
pub fn run_repo(service: &dyn RepoCatalogApplicationService, command: RepoCommand) -> (r: Result<
    CommandOutput,
    ApplicationError,
>)
    ensures
        command matches RepoCommand::Add(a) ==> (is_blank(a.url@) <==> r matches Err(
            ApplicationError::InvalidRequest(_),
        )),
        command matches RepoCommand::Add(a) ==> (is_blank(a.url@) ==> (r matches Err(
            ApplicationError::InvalidRequest(m),
        ) && m@ == "repo url cannot be empty"@)),
        command matches RepoCommand::Add(a) ==> (r matches Ok(o) ==> (o matches CommandOutput::RepoCreated(
            s,
        ) && s.id@ == a.id@ && s.url == a.url && s.tags@ == a.tags@ && s.description
            == a.description)),
        command is List ==> (r matches Ok(o) ==> (o matches CommandOutput::RepoList(v) && (exists|
            stored: Seq<RepoEntry>,
        | #[trigger] repo_listing(v@, stored)) && forall|i: int, j: int|
            0 <= i < j < v@.len() ==> text_le(#[trigger] v@[i].id@, #[trigger] v@[j].id@))),
        command is List ==> (r matches Err(e) ==> e is Domain),
{
    match command {
        RepoCommand::Add(args) => {
            match service.add_repo(add_repo_command(args)) {
                Ok(repo) => Ok(CommandOutput::RepoCreated(repo)),
                Err(e) => Err(e),
            }
        },
        RepoCommand::List => {
            match service.list_repos() {
                Ok(repos) => Ok(CommandOutput::RepoList(repos)),
                Err(e) => Err(e),
            }
        },
    }
}

/// Runs a `repo-group` command against the catalog service: the added group,
/// its repos read from the comma-separated list, or the catalog's groups
/// sorted by id.
pub fn run_repo_group(service: &dyn RepoCatalogApplicationService, command: RepoGroupCommand) -> (r:
    Result<CommandOutput, ApplicationError>)
    ensures
        command matches RepoGroupCommand::Add(a) ==> (trimmed_entries(comma_pieces(a.repos@)).len()
            == 0 <==> r matches Err(ApplicationError::InvalidRequest(_))),
        command matches RepoGroupCommand::Add(a) ==> (trimmed_entries(comma_pieces(a.repos@)).len()
            == 0 ==> (r matches Err(ApplicationError::InvalidRequest(m)) && m@
            == "repo group must contain at least one repo"@)),
        command matches RepoGroupCommand::Add(a) ==> (r matches Ok(o) ==> (o matches CommandOutput::RepoGroupCreated(
            g,
        ) && g.id@ == a.id@ && entry_texts(g.repos@) == trimmed_entries(comma_pieces(a.repos@))
            && g.tags@ == a.tags@ && g.description == a.description)),
        command is List ==> (r matches Ok(o) ==> (o matches CommandOutput::RepoGroupList(v) && (exists|
            stored: Seq<RepoGroup>,
        | #[trigger] group_listing(v@, stored)) && forall|i: int, j: int|
            0 <= i < j < v@.len() ==> text_le(#[trigger] v@[i].id@, #[trigger] v@[j].id@))),
        command is List ==> (r matches Err(e) ==> e is Domain),
{
    match command {
        RepoGroupCommand::Add(args) => {
            let ghost typed = args.repos@;
            let request = add_repo_group_command(args);
            let ghost wanted = request.repos@;
            match service.add_repo_group(request) {
                Ok(group) => {
                    assert(entry_texts(group.repos@) =~= entry_texts(wanted));
                    Ok(CommandOutput::RepoGroupCreated(group))
                },
                Err(e) => Err(e),
            }
        },
        RepoGroupCommand::List => {
            match service.list_repo_groups() {
                Ok(groups) => Ok(CommandOutput::RepoGroupList(groups)),
                Err(e) => Err(e),
            }
        },
    }
}

/// Runs a `task repos` command against the task repos service: the task's
/// new selection, the clone outcomes, or the repo statuses.
pub fn run_task_repos(service: &dyn TaskReposApplicationService, command: TaskReposCommand) -> (r:
    Result<CommandOutput, ApplicationError>)
    ensures
        r matches Err(e) ==> e is Domain || e is ExternalFailure,
        r matches Err(ApplicationError::ExternalFailure { port, .. }) ==> port@ == "git"@,
        r matches Err(ApplicationError::ExternalFailure { .. }) ==> ((command matches TaskReposCommand::Clone(
            a,
        ) && !a.dry_run) || (command matches TaskReposCommand::Status(a) && !a.dry_run)),
        command matches TaskReposCommand::SetRepos(a) ==> (r matches Ok(o) ==> (o matches CommandOutput::TaskRepos(
            res,
        ) && sorted_unique(res.repos@) && string_texts(res.selected_repo_groups@) == string_texts(
            a.repo_groups@,
        ) && exists|
            group_ids: Seq<RepoGroupId>,
            group_repos: Seq<RepoId>,
            groups: Seq<RepoGroup>,
        |
            #[trigger] set_selection_from(
                res.repos@,
                a.repo_groups@,
                a.repos@,
                group_ids,
                group_repos,
                groups,
            ))),
        command matches TaskReposCommand::Add(a) ==> (r matches Ok(o) ==> (o matches CommandOutput::TaskRepos(
            res,
        ) && sorted_unique(res.repos@) && exists|before: Seq<RepoId>|
            #[trigger] repo_texts(before).to_set().union(string_texts(a.repos@).to_set())
                == string_texts(res.repos@).to_set())),
        command matches TaskReposCommand::Remove(a) ==> (r matches Ok(o) ==> (o matches CommandOutput::TaskRepos(
            res,
        ) && exists|before: Seq<RepoId>|
            #[trigger] without_texts(repo_texts(before), text_set(a.repos@)) == string_texts(
                res.repos@,
            ))),
        command matches TaskReposCommand::Clone(a) ==> (r matches Ok(o) ==> (o matches CommandOutput::CloneOutcomes(
            v,
        ) && exists|t: TaskWorkspace|
            #[trigger] clone_run_of(v@, t, repo_selection_of(a.repos), a.missing, a.dry_run))),
        command matches TaskReposCommand::Status(a) ==> (r matches Ok(o) ==> (o matches CommandOutput::RepoStatuses(
            v,
        ) && exists|t: TaskWorkspace| #[trigger] status_listing(v@, t, status_query_of(a)))),
{
    match command {
        TaskReposCommand::SetRepos(args) => {
            match service.set_task_repos(set_repos_command(args)) {
                Ok(result) => Ok(CommandOutput::TaskRepos(result)),
                Err(e) => Err(e),
            }
        },
        TaskReposCommand::Add(args) => {
            match service.add_task_repos(add_repos_command(args)) {
                Ok(result) => Ok(CommandOutput::TaskRepos(result)),
                Err(e) => Err(e),
            }
        },
        TaskReposCommand::Remove(args) => {
            match service.remove_task_repos(remove_repos_command(args)) {
                Ok(result) => Ok(CommandOutput::TaskRepos(result)),
                Err(e) => Err(e),
            }
        },
        TaskReposCommand::Clone(args) => {
            let ghost typed = args;
            let request = clone_command(args);
            let ghost req = request;
            match service.clone_task_repos(request) {
                Ok(outcomes) => {
                    let ghost t = choose|t: TaskWorkspace|
                        #[trigger] clone_run_of(
                            outcomes@,
                            t,
                            req.repos,
                            req.missing_only,
                            req.dry_run,
                        );
                    assert(clone_run_of(
                        outcomes@,
                        t,
                        repo_selection_of(typed.repos),
                        typed.missing,
                        typed.dry_run,
                    ));
                    let ghost seen = outcomes@;
                    let r = Ok(CommandOutput::CloneOutcomes(outcomes));
                    assert(r matches Ok(CommandOutput::CloneOutcomes(w)) && w@ == seen);
                    assert(r matches Ok(CommandOutput::CloneOutcomes(w)) && exists|u: TaskWorkspace|
                        #[trigger] clone_run_of(
                            w@,
                            u,
                            repo_selection_of(typed.repos),
                            typed.missing,
                            typed.dry_run,
                        ));
                    r
                },
                Err(e) => Err(e),
            }
        },
        TaskReposCommand::Status(args) => {
            let ghost typed = args;
            let request = status_query(args);
            let ghost req = request;
            match service.get_repo_statuses(request) {
                Ok(items) => {
                    let ghost t = choose|t: TaskWorkspace| #[trigger] status_listing(items@, t, req);
                    assert(status_listing(items@, t, status_query_of(typed)));
                    let ghost seen = items@;
                    let r = Ok(CommandOutput::RepoStatuses(items));
                    assert(r matches Ok(CommandOutput::RepoStatuses(w)) && w@ == seen);
                    assert(r matches Ok(CommandOutput::RepoStatuses(w)) && exists|u: TaskWorkspace|
                        #[trigger] status_listing(w@, u, status_query_of(typed)));
                    r
                },
                Err(e) => Err(e),
            }
        },
    }
}

} // verus!
