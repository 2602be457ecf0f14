//! The task service: listing, creating, opening and closing task workspaces.
use vstd::prelude::*;

use crate::application::error::ApplicationError;
use crate::application::ports::{Clock, EditorError, EditorLauncher};
use crate::application::repo_catalog::service::ids_name_texts;
use crate::application::task::dtos::{
    ApplicationTaskStatus, CloseTaskCommand, CreateTaskCommand, CreateTaskResult, ListTasksQuery,
    OpenTaskCommand, TaskListItem,
};
use crate::domain::errors::{DomainError, EntityKind, FieldKind};
use crate::domain::shared::{
    is_generated_id, lemma_generated_id_not_blank, RepoGroupId, RepoId, TaskSlug, Timestamp,
};
use crate::domain::task::aggregate::{
    close_rejection, closed_task, has_default_paths, initial_activity, opened_task, TaskWorkspace,
};
use crate::domain::task::entities::{
    has_blank_tag, is_rejection_error, task_meta_rejection, TaskMeta, TaskRepoSelection,
};
use crate::domain::task::repository::TaskRepository;
use crate::domain::task::value_objects::TaskStatus;
use crate::sorting::{sort_by_key, stable_sort_of, SortKey};
use crate::strings::{
    is_blank, is_blank_str, lemma_text_order_antisymmetric, lemma_text_order_transitive,
    str_compare, strings_contain, text_le,
};

verus! {

/// The domain status an application status stands for.
pub open spec fn domain_status(s: ApplicationTaskStatus) -> TaskStatus {
    match s {
        ApplicationTaskStatus::Draft => TaskStatus::Draft,
        ApplicationTaskStatus::Active => TaskStatus::Active,
        ApplicationTaskStatus::Closed => TaskStatus::Closed,
        ApplicationTaskStatus::Archived => TaskStatus::Archived,
    }
}

/// The application status a domain status is shown as.
pub open spec fn application_status(s: TaskStatus) -> ApplicationTaskStatus {
    match s {
        TaskStatus::Draft => ApplicationTaskStatus::Draft,
        TaskStatus::Active => ApplicationTaskStatus::Active,
        TaskStatus::Closed => ApplicationTaskStatus::Closed,
        TaskStatus::Archived => ApplicationTaskStatus::Archived,
    }
}

pub fn to_domain_status(value: &ApplicationTaskStatus) -> (r: TaskStatus)
    ensures
        r == domain_status(*value),
{
    match value {
        ApplicationTaskStatus::Draft => TaskStatus::Draft,
        ApplicationTaskStatus::Active => TaskStatus::Active,
        ApplicationTaskStatus::Closed => TaskStatus::Closed,
        ApplicationTaskStatus::Archived => TaskStatus::Archived,
    }
}

pub fn from_domain_status(value: TaskStatus) -> (r: ApplicationTaskStatus)
    ensures
        r == application_status(value),
{
    match value {
        TaskStatus::Draft => ApplicationTaskStatus::Draft,
        TaskStatus::Active => ApplicationTaskStatus::Active,
        TaskStatus::Closed => ApplicationTaskStatus::Closed,
        TaskStatus::Archived => ApplicationTaskStatus::Archived,
    }
}

/// The two status vocabularies name the same four states: converting one way
/// and back gives the status one started from.
pub proof fn law_task_status_mapping_round_trip(a: ApplicationTaskStatus, d: TaskStatus)
    ensures
        application_status(domain_status(a)) == a,
        domain_status(application_status(d)) == d,
{
}

/// `a` was active strictly later than `b`; having been active at all counts
/// as later than never.
pub open spec fn activity_later(a: Option<Timestamp>, b: Option<Timestamp>) -> bool {
    match (a, b) {
        (Some(x), Some(y)) => x.nanos() > y.nanos(),
        (Some(_), None) => true,
        _ => false,
    }
}

/// `a` and `b` record the same last activity.
pub open spec fn same_activity(a: Option<Timestamp>, b: Option<Timestamp>) -> bool {
    match (a, b) {
        (Some(x), Some(y)) => x.nanos() == y.nanos(),
        (None, None) => true,
        _ => false,
    }
}

/// Task lists put the most recently active task first, and tasks active at
/// the same time in the order of their slugs.
impl SortKey for TaskWorkspace {
    open spec fn key_le(self, other: Self) -> bool {
        ||| activity_later(self.activity.last_activity_at, other.activity.last_activity_at)
        ||| (same_activity(self.activity.last_activity_at, other.activity.last_activity_at)
            && text_le(self.meta.slug@, other.meta.slug@))
    }

    proof fn lemma_key_total(a: Self, b: Self) {
        lemma_text_order_antisymmetric(a.meta.slug@, b.meta.slug@);
    }

    proof fn lemma_key_transitive(a: Self, b: Self, c: Self) {
        if text_le(a.meta.slug@, b.meta.slug@) && text_le(b.meta.slug@, c.meta.slug@) {
            lemma_text_order_transitive(a.meta.slug@, b.meta.slug@, c.meta.slug@);
        }
    }

    fn key_le_exec(&self, other: &Self) -> (r: bool) {
        match (&self.activity.last_activity_at, &other.activity.last_activity_at) {
            (Some(x), Some(y)) => {
                if y.is_before(x) {
                    true
                } else if x.is_before(y) {
                    false
                } else {
                    str_compare(self.meta.slug.as_str(), other.meta.slug.as_str()) <= 0
                }
            },
            (Some(_), None) => true,
            (None, Some(_)) => false,
            (None, None) => str_compare(self.meta.slug.as_str(), other.meta.slug.as_str()) <= 0,
        }
    }
}

/// The task passes the filters of a list query: the status, if one is asked
/// for, and a tag among its tags, if one is asked for.
pub open spec fn task_matches(
    t: TaskWorkspace,
    status: Option<ApplicationTaskStatus>,
    tag: Option<String>,
) -> bool {
    &&& (status matches Some(s) ==> t.meta.status == domain_status(s))
    &&& (tag matches Some(g) ==> exists|i: int|
        0 <= i < t.meta.tags@.len() && #[trigger] t.meta.tags@[i]@ == g@)
}

/// The tasks of `tasks` that pass the filters, in their order.
pub open spec fn matching_tasks(
    tasks: Seq<TaskWorkspace>,
    status: Option<ApplicationTaskStatus>,
    tag: Option<String>,
) -> Seq<TaskWorkspace>
    decreases tasks.len(),
{
    if tasks.len() == 0 {
        Seq::empty()
    } else {
        let rest = matching_tasks(tasks.drop_last(), status, tag);
        if task_matches(tasks.last(), status, tag) {
            rest.push(tasks.last())
        } else {
            rest
        }
    }
}

/// How many of `n` tasks a list shows: all of them unless a positive limit
/// smaller than `n` is given.
pub open spec fn listed_count(limit: Option<usize>, n: nat) -> nat {
    match limit {
        Some(l) => if 0 < l && l < n {
            l as nat
        } else {
            n
        },
        None => n,
    }
}

/// `item` is the list entry of task `t`.
pub open spec fn lists_task(item: TaskListItem, t: TaskWorkspace) -> bool {
    &&& item.id@ == t.meta.slug@
    &&& item.slug@ == t.meta.slug@
    &&& item.title == t.meta.title
    &&& item.status == application_status(t.meta.status)
    &&& item.last_activity_at == t.activity.last_activity_at
}

/// `a` may be listed before `b`: it was active later, or at the same time
/// with a slug that does not sort after `b`'s.
pub open spec fn listed_before(a: TaskListItem, b: TaskListItem) -> bool {
    ||| activity_later(a.last_activity_at, b.last_activity_at)
    ||| (same_activity(a.last_activity_at, b.last_activity_at) && text_le(a.slug@, b.slug@))
}

/// Whether a task passes the filters of a list query.
pub fn task_matches_query(task: &TaskWorkspace, query: &ListTasksQuery) -> (r: bool)
    ensures
        r == task_matches(*task, query.status, query.tag),
{
    let status_match = match &query.status {
        Some(status) => task.meta.status == to_domain_status(status),
        None => true,
    };
    let tag_match = match &query.tag {
        Some(tag) => strings_contain(&task.meta.tags, tag.as_str()),
        None => true,
    };
    status_match && tag_match
}

/// The list entry of a task.
pub fn task_list_item(task: &TaskWorkspace) -> (r: TaskListItem)
    ensures
        lists_task(r, *task),
{
    TaskListItem {
        id: task.meta.slug.to_string(),
        slug: task.meta.slug.to_string(),
        title: task.meta.title.clone(),
        status: from_domain_status(task.meta.status),
        last_activity_at: task.activity.last_activity_at,
    }
}

/// The tasks that pass the query's filters, in their order.
pub fn filter_tasks(tasks: Vec<TaskWorkspace>, query: &ListTasksQuery) -> (r: Vec<TaskWorkspace>)
    ensures
        r@ == matching_tasks(tasks@, query.status, query.tag),
{
    let ghost all = tasks@;
    let n: usize = tasks.len();
    let mut rest = tasks;
    let mut out: Vec<TaskWorkspace> = Vec::new();
    let mut i: usize = 0;
    while rest.len() > 0
        invariant
            i <= all.len(),
            all.len() == n,
            rest@ == all.skip(i as int),
            out@ == matching_tasks(all.take(i as int), query.status, query.tag),
        decreases rest@.len(),
    {
        let task = rest.remove(0);
        proof {
            assert(all.take(i as int + 1).drop_last() =~= all.take(i as int));
            assert(all.take(i as int + 1).last() == all[i as int]);
        }
        if task_matches_query(&task, query) {
            out.push(task);
        }
        assert(rest@ =~= all.skip(i as int + 1));
        i = i + 1;
    }
    assert(all.take(i as int) =~= all);
    out
}

/// `v` is the list `query` asks for of the tasks `tasks`: those that pass its
/// filters, stably sorted most recently active first (ties by slug), cut to
/// its limit.
pub open spec fn task_listing(v: Seq<TaskListItem>, tasks: Seq<TaskWorkspace>, query: ListTasksQuery) -> bool {
    exists|sorted: Seq<TaskWorkspace>|
        {
            &&& sorted.to_multiset() == matching_tasks(tasks, query.status, query.tag).to_multiset()
            &&& stable_sort_of(matching_tasks(tasks, query.status, query.tag), sorted)
            &&& v.len() == listed_count(query.limit, sorted.len())
            &&& forall|i: int| 0 <= i < v.len() ==> lists_task(#[trigger] v[i], sorted[i])
        }
}

/// The list a query asks for: the tasks that pass its filters, most recently
/// active first (ties by slug), cut to its limit when a positive one is given.
pub fn select_tasks(tasks: Vec<TaskWorkspace>, query: &ListTasksQuery) -> (r: Vec<TaskListItem>)
    ensures
        task_listing(r@, tasks@, *query),
        forall|i: int, j: int| 0 <= i < j < r@.len() ==> listed_before(#[trigger] r@[i], #[trigger] r@[j]),
{
    let matching = filter_tasks(tasks, query);
    let sorted = sort_by_key(matching);
    let count: usize = match query.limit {
        Some(l) => if 0 < l && l < sorted.len() {
            l
        } else {
            sorted.len()
        },
        None => sorted.len(),
    };
    let mut out: Vec<TaskListItem> = Vec::new();
    let mut i: usize = 0;
    while i < count
        invariant
            count <= sorted@.len(),
            i <= count,
            out@.len() == i,
            forall|j: int| 0 <= j < i ==> lists_task(#[trigger] out@[j], sorted@[j]),
        decreases count - i,
    {
        out.push(task_list_item(&sorted[i]));
        i = i + 1;
    }
    assert forall|i: int, j: int| 0 <= i < j < out@.len() implies listed_before(
        #[trigger] out@[i],
        #[trigger] out@[j],
    ) by {
        assert(sorted@[i].key_le(sorted@[j]));
    }
    out
}

/// The metadata rules of a new task that do not concern its slug: the first
/// one broken, with its field and reason.
pub open spec fn content_rejection(title: Seq<char>, template: Seq<char>, tags: Seq<String>) -> Option<
    (FieldKind, Seq<char>),
> {
    if is_blank(title) {
        Some((FieldKind::Title, "title cannot be empty"@))
    } else if is_blank(template) {
        Some((FieldKind::Template, "template cannot be empty"@))
    } else if has_blank_tag(tags) {
        Some((FieldKind::Tags, "tags cannot contain empty values"@))
    } else {
        None
    }
}

/// Group ids named by the given texts, one for one.
pub open spec fn group_ids_name_texts(ids: Seq<RepoGroupId>, texts: Seq<String>) -> bool {
    &&& ids.len() == texts.len()
    &&& forall|i: int| 0 <= i < ids.len() ==> #[trigger] ids[i]@ == texts[i]@
}

/// The slug a new task gets: the one asked for, or a generated one when the
/// request leaves it blank.
pub fn task_slug_for(text: &str) -> (r: TaskSlug)
    ensures
        is_blank(text@) ==> is_generated_id(r@),
        !is_blank(text@) ==> r@ == text@,
        !is_blank(r@),
{
    if is_blank_str(text) {
        let slug = TaskSlug::generate();
        proof {
            lemma_generated_id_not_blank(slug@);
        }
        slug
    } else {
        TaskSlug::from(text)
    }
}

pub fn repo_group_ids(texts: &Vec<String>) -> (r: Vec<RepoGroupId>)
    ensures
        group_ids_name_texts(r@, texts@),
{
    let mut out: Vec<RepoGroupId> = Vec::new();
    let mut i: usize = 0;
    while i < texts.len()
        invariant
            i <= texts@.len(),
            group_ids_name_texts(out@, texts@.take(i as int)),
        decreases texts@.len() - i,
    {
        out.push(RepoGroupId::from(texts[i].as_str()));
        i = i + 1;
    }
    assert(texts@.take(texts@.len() as int) =~= texts@);
    out
}

pub fn repo_ids(texts: &Vec<String>) -> (r: Vec<RepoId>)
    ensures
        ids_name_texts(r@, texts@),
{
    let mut out: Vec<RepoId> = Vec::new();
    let mut i: usize = 0;
    while i < texts.len()
        invariant
            i <= texts@.len(),
            ids_name_texts(out@, texts@.take(i as int)),
        decreases texts@.len() - i,
    {
        out.push(RepoId::from(texts[i].as_str()));
        i = i + 1;
    }
    assert(texts@.take(texts@.len() as int) =~= texts@);
    out
}

/// The task a create request describes, under `slug` and created at `now`,
/// as `TaskWorkspace::create` validates it.
pub fn plan_task(command: CreateTaskCommand, slug: TaskSlug, now: Timestamp) -> (r: Result<
    TaskWorkspace,
    ApplicationError,
>)
    ensures
        task_meta_rejection(slug@, command.title@, command.template@, command.tags@) matches Some(
            rejection,
        ) ==> (r matches Err(ApplicationError::Domain(e)) && is_rejection_error(e, rejection)),
        task_meta_rejection(slug@, command.title@, command.template@, command.tags@) is None ==> (
        r matches Ok(w) && {
            &&& w.meta == (TaskMeta {
                slug: slug,
                title: command.title,
                template: command.template,
                status: TaskStatus::Active,
                description: command.description,
                source_brief: command.source_brief,
                tags: command.tags,
            })
            &&& group_ids_name_texts(w.repos.selected_repo_groups@, command.selected_repo_groups@)
            &&& ids_name_texts(w.repos.repos@, command.repos@)
            &&& w.activity == initial_activity(now)
            &&& has_default_paths(w.paths)
        }),
{
    let groups = repo_group_ids(&command.selected_repo_groups);
    let repos = repo_ids(&command.repos);
    match TaskWorkspace::create(
        slug,
        command.title,
        command.template,
        command.description,
        command.source_brief,
        command.tags,
        groups,
        repos,
        now,
    ) {
        Ok(task) => Ok(task),
        Err(e) => Err(ApplicationError::Domain(e)),
    }
}

/// The editor launcher's failure, reported against the editor port.
pub fn editor_failure(error: EditorError) -> (r: ApplicationError)
    ensures
        r matches ApplicationError::ExternalFailure { port, detail } && port@ == "editor"@
            && detail@ == error.detail@,
{
    ApplicationError::ExternalFailure { port: "editor", detail: error.to_string() }
}

/// The task after an attempt to open it with `editor` at `now`: opened when
/// the launcher succeeded, and an editor failure, with the task left as it
/// was, when it did not.
pub fn finish_open(
    task: TaskWorkspace,
    now: Timestamp,
    editor: String,
    launched: Result<(), EditorError>,
) -> (r: Result<TaskWorkspace, ApplicationError>)
    ensures
        launched is Ok ==> r == Ok::<TaskWorkspace, ApplicationError>(
            opened_task(task, now, editor),
        ),
        launched matches Err(e) ==> (r matches Err(ApplicationError::ExternalFailure { port, detail })
            && port@ == "editor"@ && detail@ == e.detail@),
{
    match launched {
        Ok(()) => {
            let mut task = task;
            task.mark_opened(now, editor);
            Ok(task)
        },
        Err(e) => Err(editor_failure(e)),
    }
}

/// The task a lookup by `slug` found, or the not-found error for it.
pub fn require_task(found: Option<TaskWorkspace>, slug: &str) -> (r: Result<
    TaskWorkspace,
    ApplicationError,
>)
    ensures
        found matches Some(t) ==> r == Ok::<TaskWorkspace, ApplicationError>(t),
        found is None ==> (r matches Err(ApplicationError::Domain(DomainError::NotFound { entity, slug: s }))
            && entity == EntityKind::Task && s@ == slug@),
{
    match found {
        Some(task) => Ok(task),
        None => Err(
            ApplicationError::Domain(
                DomainError::NotFound { entity: EntityKind::Task, slug: slug.to_owned() },
            ),
        ),
    }
}

/// The task a lookup for `task_id` found, closed at `now`: the not-found
/// error when there was none, and the domain's conflict when it cannot be
/// closed.
pub fn close_found_task(found: Option<TaskWorkspace>, task_id: &str, now: Timestamp) -> (r: Result<
    TaskWorkspace,
    ApplicationError,
>)
    ensures
        found is None ==> (r matches Err(ApplicationError::Domain(DomainError::NotFound { entity, slug }))
            && entity == EntityKind::Task && slug@ == task_id@),
        found matches Some(t) ==> (close_rejection(t.meta.status) matches Some(reason) ==> (
        r matches Err(ApplicationError::Domain(DomainError::Conflict { entity, reason: m }))
            && entity == EntityKind::Task && m@ == reason)),
        found matches Some(t) ==> (close_rejection(t.meta.status) is None ==> r == Ok::<
            TaskWorkspace,
            ApplicationError,
        >(closed_task(t, now))),
{
    let mut task = match require_task(found, task_id) {
        Ok(task) => task,
        Err(e) => return Err(e),
    };
    match task.close(now) {
        Ok(()) => Ok(task),
        Err(e) => Err(ApplicationError::Domain(e)),
    }
}

pub open spec fn missing_editor_message() -> Seq<char> {
    "missing --editor; default-editor lookup is deferred in this phase"@
}

pub trait TaskApplicationService {
    fn list_tasks(&self, query: ListTasksQuery) -> (r: Result<Vec<TaskListItem>, ApplicationError>)
        ensures
            r matches Ok(v) ==> exists|stored: Seq<TaskWorkspace>| #[trigger] task_listing(v@, stored, query),
            r matches Ok(v) ==> (query.status matches Some(s) ==> forall|i: int|
                0 <= i < v@.len() ==> (#[trigger] v@[i]).status == s),
            r matches Ok(v) ==> (query.limit matches Some(l) ==> (l > 0 ==> v@.len() <= l)),
            r matches Ok(v) ==> forall|i: int, j: int|
                0 <= i < j < v@.len() ==> listed_before(#[trigger] v@[i], #[trigger] v@[j]),
            r matches Err(e) ==> e is Domain,
    ;

    fn create_task(&self, command: CreateTaskCommand) -> (r: Result<
        CreateTaskResult,
        ApplicationError,
    >)
        ensures
            content_rejection(command.title@, command.template@, command.tags@) matches Some(
                rejection,
            ) ==> (r matches Err(ApplicationError::Domain(e)) && is_rejection_error(e, rejection)),
            r matches Ok(c) ==> {
                &&& content_rejection(command.title@, command.template@, command.tags@) is None
                &&& c.task_id@ == c.slug@
                &&& c.title == command.title
                &&& c.template == command.template
                &&& is_blank(command.slug@) ==> is_generated_id(c.slug@)
                &&& !is_blank(command.slug@) ==> c.slug@ == command.slug@
            },
            r matches Err(e) ==> e is Domain,
    ;

    fn open_task(&self, command: OpenTaskCommand) -> (r: Result<(), ApplicationError>)
        ensures
            command.editor is None ==> (r matches Err(ApplicationError::InvalidRequest(m)) && m@
                == missing_editor_message()),
            r matches Err(ApplicationError::InvalidRequest(_)) ==> command.editor is None,
            r matches Err(ApplicationError::ExternalFailure { port, .. }) ==> port@ == "editor"@,
    ;

    fn close_task(&self, command: CloseTaskCommand) -> (r: Result<(), ApplicationError>)
        ensures
            r matches Err(e) ==> e is Domain,
    ;
}

pub struct DefaultTaskApplicationService {
    workspace_root: String,
    tasks: Box<dyn TaskRepository>,
    clock: Box<dyn Clock>,
    editor_launcher: Box<dyn EditorLauncher>,
}

impl DefaultTaskApplicationService {
    pub fn new(
        workspace_root: String,
        tasks: Box<dyn TaskRepository>,
        clock: Box<dyn Clock>,
        editor_launcher: Box<dyn EditorLauncher>,
    ) -> (r: Self)
        ensures
            r.workspace_root_text() == workspace_root@,
    {
        DefaultTaskApplicationService { workspace_root, tasks, clock, editor_launcher }
    }

    /// The directory editors are opened at.
    pub closed spec fn workspace_root_text(&self) -> Seq<char> {
        self.workspace_root@
    }

    /// The stored task with this slug, or the not-found error for it.
    pub fn load_task(&self, slug: &str) -> (r: Result<TaskWorkspace, ApplicationError>)
        ensures
            r matches Err(e) ==> e is Domain,
    {
        let slug = TaskSlug::from(slug);
        let found = match self.tasks.find(&slug) {
            Ok(found) => found,
            Err(e) => return Err(ApplicationError::Domain(e)),
        };
        require_task(found, slug.as_str())
    }
}

impl TaskApplicationService for DefaultTaskApplicationService {
    /// The stored tasks, as `select_tasks` lists them for the query.
    fn list_tasks(&self, query: ListTasksQuery) -> (r: Result<Vec<TaskListItem>, ApplicationError>)
    {
        let tasks = match self.tasks.list() {
            Ok(tasks) => tasks,
            Err(e) => return Err(ApplicationError::Domain(e)),
        };
        let ghost before = tasks@;
        let items = select_tasks(tasks, &query);
        proof {
            assert(task_listing(items@, before, query));
            let sorted = choose|sorted: Seq<TaskWorkspace>|
                {
                    &&& sorted.to_multiset() == matching_tasks(
                        before,
                        query.status,
                        query.tag,
                    ).to_multiset()
                    &&& stable_sort_of(matching_tasks(before, query.status, query.tag), sorted)
                    &&& items@.len() == listed_count(query.limit, sorted.len())
                    &&& forall|i: int|
                        0 <= i < items@.len() ==> lists_task(#[trigger] items@[i], sorted[i])
                };
            assert forall|i: int| 0 <= i < items@.len() && query.status is Some implies (
            #[trigger] items@[i]).status == query.status->0 by {
                lemma_matching_tasks_match(before, query.status, query.tag);
                lemma_same_items_match(
                    sorted,
                    matching_tasks(before, query.status, query.tag),
                    query.status,
                    query.tag,
                    i,
                );
            }
        }
        Ok(items)
    }

    /// Creates a task as `plan_task` describes it, under the slug
    /// `task_slug_for` gives, and stores it.
    fn create_task(&self, command: CreateTaskCommand) -> (r: Result<
        CreateTaskResult,
        ApplicationError,
    >)
    {
        let slug = task_slug_for(command.slug.as_str());
        let now = self.clock.now();
        let result = CreateTaskResult {
            task_id: slug.to_string(),
            slug: slug.to_string(),
            title: command.title.clone(),
            template: command.template.clone(),
        };
        let task = match plan_task(command, slug, now) {
            Ok(task) => task,
            Err(e) => return Err(e),
        };
        match self.tasks.save(&task) {
            Ok(()) => {},
            Err(e) => return Err(ApplicationError::Domain(e)),
        }
        Ok(result)
    }

    /// Opens the task at the workspace root with the editor the request
    /// names, and stores it as opened only once the editor was launched.
    fn open_task(&self, command: OpenTaskCommand) -> (r: Result<(), ApplicationError>)
    {
        let editor_name = match command.editor {
            Some(name) => name,
            None => {
                return Err(
                    ApplicationError::InvalidRequest(
                        "missing --editor; default-editor lookup is deferred in this phase".to_owned(),
                    ),
                );
            },
        };
        let task = match self.load_task(command.task.as_str()) {
            Ok(task) => task,
            Err(e) => return Err(e),
        };
        let now = self.clock.now();
        let launched = self.editor_launcher.open_dir(
            self.workspace_root.as_str(),
            editor_name.as_str(),
        );
        let task = match finish_open(task, now, editor_name, launched) {
            Ok(task) => task,
            Err(e) => return Err(e),
        };
        match self.tasks.save(&task) {
            Ok(()) => Ok(()),
            Err(e) => Err(ApplicationError::Domain(e)),
        }
    }

    /// Closes the stored task with the request's id, as `close_found_task`
    /// decides, and stores it.
    fn close_task(&self, command: CloseTaskCommand) -> (r: Result<(), ApplicationError>)
    {
        let slug = TaskSlug::from(command.task_id.as_str());
        let found = match self.tasks.find(&slug) {
            Ok(found) => found,
            Err(e) => return Err(ApplicationError::Domain(e)),
        };
        let now = self.clock.now();
        let task = match close_found_task(found, command.task_id.as_str(), now) {
            Ok(task) => task,
            Err(e) => return Err(e),
        };
        match self.tasks.save(&task) {
            Ok(()) => Ok(()),
            Err(e) => Err(ApplicationError::Domain(e)),
        }
    }
}

/// Every task that `matching_tasks` keeps passes the filters.
pub proof fn lemma_matching_tasks_match(
    tasks: Seq<TaskWorkspace>,
    status: Option<ApplicationTaskStatus>,
    tag: Option<String>,
)
    ensures
        forall|i: int|
            0 <= i < matching_tasks(tasks, status, tag).len() ==> task_matches(
                #[trigger] matching_tasks(tasks, status, tag)[i],
                status,
                tag,
            ),
    decreases tasks.len(),
{
    if tasks.len() > 0 {
        let rest = matching_tasks(tasks.drop_last(), status, tag);
        lemma_matching_tasks_match(tasks.drop_last(), status, tag);
        assert forall|i: int|
            0 <= i < matching_tasks(tasks, status, tag).len() implies task_matches(
            #[trigger] matching_tasks(tasks, status, tag)[i],
            status,
            tag,
        ) by {
            if i < rest.len() {
                assert(rest[i] == matching_tasks(tasks, status, tag)[i]);
            }
        }
    }
}

/// A list with the same items as a list of matching tasks holds matching
/// tasks only.
proof fn lemma_same_items_match(
    a: Seq<TaskWorkspace>,
    b: Seq<TaskWorkspace>,
    status: Option<ApplicationTaskStatus>,
    tag: Option<String>,
    i: int,
)
    requires
        a.to_multiset() == b.to_multiset(),
        0 <= i < a.len(),
        forall|j: int| 0 <= j < b.len() ==> task_matches(#[trigger] b[j], status, tag),
    ensures
        task_matches(a[i], status, tag),
{
    broadcast use vstd::seq_lib::group_to_multiset_ensures;

    assert(a.to_multiset().count(a[i]) > 0);
    assert(b.contains(a[i]));
}

} // verus!
