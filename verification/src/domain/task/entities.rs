//! The parts a task workspace is made of, and the rules for its metadata.
use vstd::prelude::*;

use crate::domain::errors::{DomainError, FieldKind};
use crate::domain::shared::{
    MountId, RepoGroupId, RepoId, SkillId, SkillSourceId, SkillVersion, TaskSlug, Timestamp,
};
use crate::domain::task::value_objects::{TaskSkillMountStatus, TaskStatus};
use crate::strings::{is_blank, is_blank_str};

verus! {

#[derive(Clone, Debug, PartialEq, Eq)]
pub struct TaskMeta {
    pub slug: TaskSlug,
    pub title: String,
    pub template: String,
    pub status: TaskStatus,
    pub description: Option<String>,
    pub source_brief: Option<String>,
    pub tags: Vec<String>,
}

#[derive(Clone, Debug, PartialEq, Eq)]
pub struct TaskRepoSelection {
    pub selected_repo_groups: Vec<RepoGroupId>,
    pub repos: Vec<RepoId>,
}

#[derive(Clone, Debug, PartialEq, Eq)]
pub struct TaskActivity {
    pub created_at: Timestamp,
    pub updated_at: Timestamp,
    pub last_opened_at: Option<Timestamp>,
    pub last_activity_at: Option<Timestamp>,
    pub last_editor: Option<String>,
}

/// Directories of a task workspace, relative to its root.
#[derive(Clone, Debug, PartialEq, Eq)]
pub struct TaskPaths {
    pub materials_dir: String,
    pub repos_dir: String,
    pub knowledge_candidates_dir: String,
    pub task_skills_dir: String,
}

#[derive(Clone, Debug, PartialEq, Eq)]
pub struct TaskSkillMount {
    pub id: MountId,
    pub skill_id: SkillId,
    pub version: SkillVersion,
    pub source: SkillSourceId,
    pub mounted_at: Timestamp,
    pub status: TaskSkillMountStatus,
    pub path: String,
}

pub open spec fn has_blank_tag(tags: Seq<String>) -> bool {
    exists|i: int| 0 <= i < tags.len() && is_blank(#[trigger] tags[i]@)
}

/// The first rule of task metadata that the inputs break, with the field it
/// is about and the reason given; none when every rule holds. A slug, title
/// and template must not be blank, and no tag may be blank.
pub open spec fn task_meta_rejection(
    slug: Seq<char>,
    title: Seq<char>,
    template: Seq<char>,
    tags: Seq<String>,
) -> Option<(FieldKind, Seq<char>)> {
    if is_blank(slug) {
        Some((FieldKind::Slug, "slug cannot be empty"@))
    } else if is_blank(title) {
        Some((FieldKind::Title, "title cannot be empty"@))
    } else if is_blank(template) {
        Some((FieldKind::Template, "template cannot be empty"@))
    } else if has_blank_tag(tags) {
        Some((FieldKind::Tags, "tags cannot contain empty values"@))
    } else {
        None
    }
}

/// `r` is the invalid-input error for `rejection`.
pub open spec fn is_rejection_error(r: DomainError, rejection: (FieldKind, Seq<char>)) -> bool {
    r matches DomainError::InvalidInput { field, reason } && field == rejection.0 && reason@
        == rejection.1
}

fn invalid_input(field: FieldKind, reason: &str) -> (r: DomainError)
    ensures
        r matches DomainError::InvalidInput { field: f, reason: m } && f == field && m@ == reason@,
{
    DomainError::InvalidInput { field, reason: reason.to_owned() }
}

fn any_blank_tag(tags: &Vec<String>) -> (r: bool)
    ensures
        r == has_blank_tag(tags@),
{
    let mut i: usize = 0;
    while i < tags.len()
        invariant
            i <= tags@.len(),
            forall|j: int| 0 <= j < i ==> !is_blank(#[trigger] tags@[j]@),
        decreases tags@.len() - i,
    {
        if is_blank_str(tags[i].as_str()) {
            return true;
        }
        i = i + 1;
    }
    false
}

impl TaskMeta {
    /// Validated metadata of a new task, which starts out active.
    pub fn new(
        slug: TaskSlug,
        title: String,
        template: String,
        description: Option<String>,
        source_brief: Option<String>,
        tags: Vec<String>,
    ) -> (r: Result<TaskMeta, DomainError>)
        ensures
            task_meta_rejection(slug@, title@, template@, tags@) matches Some(rejection) ==> (
            r matches Err(e) && is_rejection_error(e, rejection)),
            task_meta_rejection(slug@, title@, template@, tags@) is None ==> r == Ok::<
                TaskMeta,
                DomainError,
            >(
                TaskMeta {
                    slug: slug,
                    title: title,
                    template: template,
                    status: TaskStatus::Active,
                    description: description,
                    source_brief: source_brief,
                    tags: tags,
                },
            ),
    {
        if is_blank_str(slug.as_str()) {
            return Err(invalid_input(FieldKind::Slug, "slug cannot be empty"));
        }
        if is_blank_str(title.as_str()) {
            return Err(invalid_input(FieldKind::Title, "title cannot be empty"));
        }
        if is_blank_str(template.as_str()) {
            return Err(invalid_input(FieldKind::Template, "template cannot be empty"));
        }
        if any_blank_tag(&tags) {
            return Err(invalid_input(FieldKind::Tags, "tags cannot contain empty values"));
        }
        Ok(
            TaskMeta {
                slug,
                title,
                template,
                status: TaskStatus::Active,
                description,
                source_brief,
                tags,
            },
        )
    }
}

} // verus!
