//! Rendering what the services return for the command line.
pub mod text;

use vstd::prelude::*;

use crate::application::knowledge::KnowledgeObjectSummary;
use crate::application::repo_catalog::{RepoGroupSummary, RepoSummary};
use crate::application::skill_registry::SkillSummary;
use crate::application::task::{CreateTaskResult, TaskListItem};
use crate::application::task_repos::{RepoCloneOutcome, TaskRepoStatusItem, TaskReposResult};
use crate::application::task_skills::{SkillMountSummary, SkillUpdateStatus};
use crate::presenters::text::{
    join_texts, knowledge_detail_text, list_or_dash, list_text, or_dash, string_views,
};

verus! {

/// A way of rendering results: plain text here; the command line adds JSON.
pub trait Presenter {
    fn render_task_list(&self, items: &[TaskListItem]) -> String;

    fn render_task_created(&self, result: &CreateTaskResult) -> String;

    fn render_task_opened(&self, task_ref: &str, editor: &str) -> String;

    fn render_message(&self, msg: &str) -> String;

    fn render_repo_list(&self, repos: &[RepoSummary]) -> String;

    fn render_repo_created(&self, repo: &RepoSummary) -> String;

    fn render_repo_group_list(&self, groups: &[RepoGroupSummary]) -> String;

    fn render_repo_group_created(&self, group: &RepoGroupSummary) -> String;

    fn render_task_repos_result(&self, result: &TaskReposResult) -> String;

    fn render_repo_clone_outcomes(&self, outcomes: &[RepoCloneOutcome]) -> String;

    fn render_repo_statuses(&self, items: &[TaskRepoStatusItem]) -> String;

    fn render_knowledge_list(&self, items: &[KnowledgeObjectSummary]) -> String;

    fn render_knowledge_detail(&self, item: &KnowledgeObjectSummary) -> String;

    fn render_skill_summary(&self, item: &SkillSummary) -> String;

    fn render_skill_versions(&self, versions: &[String]) -> String;

    fn render_skill_mounts(&self, items: &[SkillMountSummary]) -> String;

    fn render_skill_mount(&self, item: &SkillMountSummary) -> String;

    fn render_skill_updates(&self, items: &[SkillUpdateStatus]) -> String;
}

/// Renders results as the plain text of `text`.
pub struct TextPresenter;

impl Presenter for TextPresenter {
    fn render_task_list(&self, items: &[TaskListItem]) -> (r: String)
        ensures
            r@ == list_text(items@, "No tasks found."@),
    {
        text::render_task_list(items)
    }

    fn render_task_created(&self, result: &CreateTaskResult) -> (r: String)
        ensures
            r@ == "Created task "@ + result.task_id@ + "\n  slug: "@ + result.slug@
                + "\n  title: "@ + result.title@ + "\n  template: "@ + result.template@,
    {
        text::render_task_created(
            result.task_id.as_str(),
            result.slug.as_str(),
            result.title.as_str(),
            result.template.as_str(),
        )
    }

    fn render_task_opened(&self, task_ref: &str, editor: &str) -> (r: String)
        ensures
            r@ == "Opened task "@ + task_ref@ + " with "@ + editor@,
    {
        text::render_task_opened(task_ref, editor)
    }

    fn render_message(&self, msg: &str) -> (r: String)
        ensures
            r@ == msg@,
    {
        msg.to_owned()
    }

    fn render_repo_list(&self, repos: &[RepoSummary]) -> (r: String)
        ensures
            r@ == list_text(repos@, "No repos found."@),
    {
        text::render_repo_list(repos)
    }

    fn render_repo_created(&self, repo: &RepoSummary) -> (r: String)
        ensures
            r@ == "Added repo "@ + repo.id@ + "\n  url: "@ + repo.url@,
    {
        text::render_repo_created(repo)
    }

    fn render_repo_group_list(&self, groups: &[RepoGroupSummary]) -> (r: String)
        ensures
            r@ == list_text(groups@, "No repo groups found."@),
    {
        text::render_repo_group_list(groups)
    }

    fn render_repo_group_created(&self, group: &RepoGroupSummary) -> (r: String)
        ensures
            r@ == "Added repo-group "@ + group.id@ + "\n  repos: "@ + join_texts(
                string_views(group.repos@),
                ","@,
            ),
    {
        text::render_repo_group_created(group)
    }

    fn render_task_repos_result(&self, result: &TaskReposResult) -> (r: String)
        ensures
            r@ == "Updated task repos for "@ + result.task_id@ + "\n  repo_groups: "@
                + list_or_dash(result.selected_repo_groups@) + "\n  repos: "@ + list_or_dash(
                result.repos@,
            ),
    {
        text::render_task_repos_result(result)
    }

    fn render_repo_clone_outcomes(&self, outcomes: &[RepoCloneOutcome]) -> (r: String)
        ensures
            r@ == list_text(outcomes@, "No repos selected for clone."@),
    {
        text::render_repo_clone_outcomes(outcomes)
    }

    fn render_repo_statuses(&self, items: &[TaskRepoStatusItem]) -> (r: String)
        ensures
            r@ == list_text(items@, "No repo statuses found."@),
    {
        text::render_repo_statuses(items)
    }

    fn render_knowledge_list(&self, items: &[KnowledgeObjectSummary]) -> (r: String)
        ensures
            r@ == list_text(items@, "No knowledge objects found."@),
    {
        text::render_knowledge_list(items)
    }

    fn render_knowledge_detail(&self, item: &KnowledgeObjectSummary) -> (r: String)
        ensures
            r@ == knowledge_detail_text(*item),
    {
        text::render_knowledge_detail(item)
    }

    fn render_skill_summary(&self, item: &SkillSummary) -> (r: String)
        ensures
            r@ == "Skill "@ + item.id@ + "\n  source: "@ + item.source@ + "\n  versions: "@
                + list_or_dash(item.versions@) + "\n  latest: "@ + or_dash(item.latest),
    {
        text::render_skill_summary(item)
    }

    fn render_skill_versions(&self, versions: &[String]) -> (r: String)
        ensures
            r@ == list_text(versions@, "No versions found."@),
    {
        text::render_skill_versions(versions)
    }

    fn render_skill_mounts(&self, items: &[SkillMountSummary]) -> (r: String)
        ensures
            r@ == list_text(items@, "No skill mounts found."@),
    {
        text::render_skill_mounts(items)
    }

    fn render_skill_mount(&self, item: &SkillMountSummary) -> (r: String)
        ensures
            r@ == "Mounted skill "@ + item.skill_id@ + "\n  mount_id: "@ + item.mount_id@
                + "\n  version: "@ + item.version@ + "\n  source: "@ + item.source@
                + "\n  path: "@ + item.path@,
    {
        text::render_skill_mount(item)
    }

    fn render_skill_updates(&self, items: &[SkillUpdateStatus]) -> (r: String)
        ensures
            r@ == list_text(items@, "No skill updates found."@),
    {
        text::render_skill_updates(items)
    }
}

/// What a command produced, before it is rendered: a service's result, or a
/// message.
#[derive(Clone, Debug, PartialEq, Eq)]
pub enum CommandOutput {
    TaskList(Vec<TaskListItem>),
    TaskCreated(CreateTaskResult),
    Message(String),
    RepoList(Vec<RepoSummary>),
    RepoCreated(RepoSummary),
    RepoGroupList(Vec<RepoGroupSummary>),
    RepoGroupCreated(RepoGroupSummary),
    TaskRepos(TaskReposResult),
    CloneOutcomes(Vec<RepoCloneOutcome>),
    RepoStatuses(Vec<TaskRepoStatusItem>),
    Skill(SkillSummary),
    SkillVersions(Vec<String>),
    SkillMounts(Vec<SkillMountSummary>),
    SkillMount(SkillMountSummary),
    SkillUpdates(Vec<SkillUpdateStatus>),
}

/// The plain text of a command's output, as `TextPresenter` renders it.
pub open spec fn output_text(o: CommandOutput) -> Seq<char> {
    match o {
        CommandOutput::TaskList(items) => list_text(items@, "No tasks found."@),
        CommandOutput::TaskCreated(c) => "Created task "@ + c.task_id@ + "\n  slug: "@ + c.slug@
            + "\n  title: "@ + c.title@ + "\n  template: "@ + c.template@,
        CommandOutput::Message(m) => m@,
        CommandOutput::RepoList(repos) => list_text(repos@, "No repos found."@),
        CommandOutput::RepoCreated(repo) => "Added repo "@ + repo.id@ + "\n  url: "@ + repo.url@,
        CommandOutput::RepoGroupList(groups) => list_text(groups@, "No repo groups found."@),
        CommandOutput::RepoGroupCreated(group) => "Added repo-group "@ + group.id@ + "\n  repos: "@
            + join_texts(string_views(group.repos@), ","@),
        CommandOutput::TaskRepos(result) => "Updated task repos for "@ + result.task_id@
            + "\n  repo_groups: "@ + list_or_dash(result.selected_repo_groups@) + "\n  repos: "@
            + list_or_dash(result.repos@),
        CommandOutput::CloneOutcomes(outcomes) => list_text(outcomes@, "No repos selected for clone."@),
        CommandOutput::RepoStatuses(items) => list_text(items@, "No repo statuses found."@),
        CommandOutput::Skill(item) => "Skill "@ + item.id@ + "\n  source: "@ + item.source@
            + "\n  versions: "@ + list_or_dash(item.versions@) + "\n  latest: "@ + or_dash(
            item.latest,
        ),
        CommandOutput::SkillVersions(versions) => list_text(versions@, "No versions found."@),
        CommandOutput::SkillMounts(items) => list_text(items@, "No skill mounts found."@),
        CommandOutput::SkillMount(item) => "Mounted skill "@ + item.skill_id@ + "\n  mount_id: "@
            + item.mount_id@ + "\n  version: "@ + item.version@ + "\n  source: "@ + item.source@
            + "\n  path: "@ + item.path@,
        CommandOutput::SkillUpdates(items) => list_text(items@, "No skill updates found."@),
    }
}

/// Renders a command's output with the given presenter.
pub fn render_output(presenter: &dyn Presenter, output: &CommandOutput) -> String {
    match output {
        CommandOutput::TaskList(items) => presenter.render_task_list(items.as_slice()),
        CommandOutput::TaskCreated(c) => presenter.render_task_created(c),
        CommandOutput::Message(m) => presenter.render_message(m.as_str()),
        CommandOutput::RepoList(repos) => presenter.render_repo_list(repos.as_slice()),
        CommandOutput::RepoCreated(repo) => presenter.render_repo_created(repo),
        CommandOutput::RepoGroupList(groups) => presenter.render_repo_group_list(groups.as_slice()),
        CommandOutput::RepoGroupCreated(group) => presenter.render_repo_group_created(group),
        CommandOutput::TaskRepos(result) => presenter.render_task_repos_result(result),
        CommandOutput::CloneOutcomes(outcomes) => presenter.render_repo_clone_outcomes(
            outcomes.as_slice(),
        ),
        CommandOutput::RepoStatuses(items) => presenter.render_repo_statuses(items.as_slice()),
        CommandOutput::Skill(item) => presenter.render_skill_summary(item),
        CommandOutput::SkillVersions(versions) => presenter.render_skill_versions(versions.as_slice()),
        CommandOutput::SkillMounts(items) => presenter.render_skill_mounts(items.as_slice()),
        CommandOutput::SkillMount(item) => presenter.render_skill_mount(item),
        CommandOutput::SkillUpdates(items) => presenter.render_skill_updates(items.as_slice()),
    }
}

/// Renders a command's output as plain text.
pub fn render_text(output: &CommandOutput) -> (r: String)
    ensures
        r@ == output_text(*output),
{
    let p = TextPresenter;
    match output {
        CommandOutput::TaskList(items) => p.render_task_list(items.as_slice()),
        CommandOutput::TaskCreated(c) => p.render_task_created(c),
        CommandOutput::Message(m) => p.render_message(m.as_str()),
        CommandOutput::RepoList(repos) => p.render_repo_list(repos.as_slice()),
        CommandOutput::RepoCreated(repo) => p.render_repo_created(repo),
        CommandOutput::RepoGroupList(groups) => p.render_repo_group_list(groups.as_slice()),
        CommandOutput::RepoGroupCreated(group) => p.render_repo_group_created(group),
        CommandOutput::TaskRepos(result) => p.render_task_repos_result(result),
        CommandOutput::CloneOutcomes(outcomes) => p.render_repo_clone_outcomes(outcomes.as_slice()),
        CommandOutput::RepoStatuses(items) => p.render_repo_statuses(items.as_slice()),
        CommandOutput::Skill(item) => p.render_skill_summary(item),
        CommandOutput::SkillVersions(versions) => p.render_skill_versions(versions.as_slice()),
        CommandOutput::SkillMounts(items) => p.render_skill_mounts(items.as_slice()),
        CommandOutput::SkillMount(item) => p.render_skill_mount(item),
        CommandOutput::SkillUpdates(items) => p.render_skill_updates(items.as_slice()),
    }
}

} // verus!
