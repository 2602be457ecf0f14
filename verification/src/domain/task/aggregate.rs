//! The task workspace aggregate and the changes it allows.
use vstd::prelude::*;

use crate::domain::errors::{DomainError, EntityKind};
use crate::domain::shared::{RepoGroupId, RepoId, TaskSlug, Timestamp};
use crate::domain::task::entities::{
    task_meta_rejection, is_rejection_error, TaskActivity, TaskMeta, TaskPaths, TaskRepoSelection,
};
use crate::domain::task::value_objects::TaskStatus;

verus! {

#[derive(Clone, Debug, PartialEq, Eq)]
pub struct TaskWorkspace {
    pub meta: TaskMeta,
    pub repos: TaskRepoSelection,
    pub activity: TaskActivity,
    pub paths: TaskPaths,
}

/// The activity record of a task created at `t`: created, updated and last
/// active at `t`, never opened.
pub open spec fn initial_activity(t: Timestamp) -> TaskActivity {
    TaskActivity {
        created_at: t,
        updated_at: t,
        last_opened_at: None,
        last_activity_at: Some(t),
        last_editor: None,
    }
}

/// The default directory layout of a new task.
pub open spec fn has_default_paths(p: TaskPaths) -> bool {
    &&& p.materials_dir@ == "materials"@
    &&& p.repos_dir@ == "repos"@
    &&& p.knowledge_candidates_dir@ == "knowledge-candidates"@
    &&& p.task_skills_dir@ == ".codex/skills"@
}

/// The task after it was opened at `t` with `editor`.
pub open spec fn opened_task(w: TaskWorkspace, t: Timestamp, editor: String) -> TaskWorkspace {
    TaskWorkspace {
        activity: TaskActivity {
            updated_at: t,
            last_opened_at: Some(t),
            last_activity_at: Some(t),
            last_editor: Some(editor),
            ..w.activity
        },
        ..w
    }
}

/// Why a task in status `s` cannot be closed; none when it can.
pub open spec fn close_rejection(s: TaskStatus) -> Option<Seq<char>> {
    match s {
        TaskStatus::Closed => Some("already closed"@),
        TaskStatus::Archived => Some("archived tasks cannot be closed"@),
        _ => None,
    }
}

/// The task after it was closed at `t`.
pub open spec fn closed_task(w: TaskWorkspace, t: Timestamp) -> TaskWorkspace {
    TaskWorkspace {
        meta: TaskMeta { status: TaskStatus::Closed, ..w.meta },
        activity: TaskActivity { updated_at: t, last_activity_at: Some(t), ..w.activity },
        ..w
    }
}

impl TaskWorkspace {
    /// A new active task with validated metadata, the given repo selection and
    /// the default directory layout.
    pub fn create(
        slug: TaskSlug,
        title: String,
        template: String,
        description: Option<String>,
        source_brief: Option<String>,
        tags: Vec<String>,
        selected_repo_groups: Vec<RepoGroupId>,
        repos: Vec<RepoId>,
        created_at: Timestamp,
    ) -> (r: Result<Self, DomainError>)
        ensures
            task_meta_rejection(slug@, title@, template@, tags@) matches Some(rejection) ==> (
            r matches Err(e) && is_rejection_error(e, rejection)),
            task_meta_rejection(slug@, title@, template@, tags@) is None ==> (r matches Ok(w) && {
                &&& w.meta == TaskMeta {
                    slug: slug,
                    title: title,
                    template: template,
                    status: TaskStatus::Active,
                    description: description,
                    source_brief: source_brief,
                    tags: tags,
                }
                &&& w.repos == TaskRepoSelection {
                    selected_repo_groups: selected_repo_groups,
                    repos: repos,
                }
                &&& w.activity == initial_activity(created_at)
                &&& has_default_paths(w.paths)
            }),
    {
        let meta = match TaskMeta::new(slug, title, template, description, source_brief, tags) {
            Ok(meta) => meta,
            Err(e) => return Err(e),
        };
        Ok(
            TaskWorkspace {
                meta,
                repos: TaskRepoSelection { selected_repo_groups, repos },
                activity: TaskActivity {
                    created_at,
                    updated_at: created_at,
                    last_opened_at: None,
                    last_activity_at: Some(created_at),
                    last_editor: None,
                },
                paths: TaskPaths {
                    materials_dir: "materials".to_owned(),
                    repos_dir: "repos".to_owned(),
                    knowledge_candidates_dir: "knowledge-candidates".to_owned(),
                    task_skills_dir: ".codex/skills".to_owned(),
                },
            },
        )
    }

    /// Records that the task was opened at `occurred_at` with `editor`.
    pub fn mark_opened(&mut self, occurred_at: Timestamp, editor: String)
        ensures
            *final(self) == opened_task(*old(self), occurred_at, editor),
    {
        self.activity.updated_at = occurred_at;
        self.activity.last_opened_at = Some(occurred_at);
        self.activity.last_activity_at = Some(occurred_at);
        self.activity.last_editor = Some(editor);
    }

    /// Closes the task at `occurred_at`. A task that is closed or archived
    /// already is refused with a conflict and left as it was.
    pub fn close(&mut self, occurred_at: Timestamp) -> (r: Result<(), DomainError>)
        ensures
            close_rejection(old(self).meta.status) matches Some(reason) ==> {
                &&& r matches Err(DomainError::Conflict { entity, reason: m }) && entity
                    == EntityKind::Task && m@ == reason
                &&& *final(self) == *old(self)
            },
            close_rejection(old(self).meta.status) is None ==> {
                &&& r is Ok
                &&& *final(self) == closed_task(*old(self), occurred_at)
            },
    {
        match self.meta.status {
            TaskStatus::Closed => {
                return Err(
                    DomainError::Conflict {
                        entity: EntityKind::Task,
                        reason: "already closed".to_owned(),
                    },
                );
            },
            TaskStatus::Archived => {
                return Err(
                    DomainError::Conflict {
                        entity: EntityKind::Task,
                        reason: "archived tasks cannot be closed".to_owned(),
                    },
                );
            },
            _ => {},
        }
        self.meta.status = TaskStatus::Closed;
        self.activity.updated_at = occurred_at;
        self.activity.last_activity_at = Some(occurred_at);
        Ok(())
    }
}

/// A task that was just closed cannot be closed again: the second attempt is
/// refused as already closed.
pub proof fn law_close_is_refused_once_closed(w: TaskWorkspace, t: Timestamp)
    requires
        close_rejection(w.meta.status) is None,
    ensures
        close_rejection(closed_task(w, t).meta.status) == Some("already closed"@),
{
}

/// Opening a task touches only its activity record: metadata, repo selection
/// and paths stay as they were, and so does the time it was created.
pub proof fn law_open_keeps_task_data(w: TaskWorkspace, t: Timestamp, editor: String)
    ensures
        opened_task(w, t, editor).meta == w.meta,
        opened_task(w, t, editor).repos == w.repos,
        opened_task(w, t, editor).paths == w.paths,
        opened_task(w, t, editor).activity.created_at == w.activity.created_at,
{
}

} // verus!
