//! Plain-text rendering of what the services return: one line per listed
//! item, or a short block for a single one.
use vstd::prelude::*;
use vstd::string::StringExecFns;

use crate::application::knowledge::KnowledgeObjectSummary;
use crate::application::ports::CloneState;
use crate::application::repo_catalog::{RepoGroupSummary, RepoSummary};
use crate::application::skill_registry::SkillSummary;
use crate::application::task::{ApplicationTaskStatus, TaskListItem};
use crate::application::task_repos::{RepoCloneOutcome, TaskRepoStatusItem, TaskReposResult};
use crate::application::task_skills::{SkillMountSummary, SkillUpdateStatus};
use crate::domain::shared::utc_date_time_text;
use crate::domain::task::value_objects::mount_status_text;
use crate::strings::{bool_text, decimal_text, push_bool, push_decimal};

verus! {

/// The texts joined with `sep` in between, as `[String]::join` does.
pub open spec fn join_texts(parts: Seq<Seq<char>>, sep: Seq<char>) -> Seq<char>
    decreases parts.len(),
{
    if parts.len() == 0 {
        Seq::empty()
    } else if parts.len() == 1 {
        parts[0]
    } else {
        join_texts(parts.drop_last(), sep) + sep + parts.last()
    }
}

/// The texts of a list of strings.
pub open spec fn string_views(v: Seq<String>) -> Seq<Seq<char>> {
    Seq::new(v.len(), |i: int| v[i]@)
}

/// Joining one more part: the parts so far, the separator, the new part.
pub proof fn lemma_join_step(parts: Seq<Seq<char>>, sep: Seq<char>, i: int)
    requires
        0 <= i < parts.len(),
    ensures
        join_texts(parts.take(i + 1), sep) == if i == 0 {
            parts[0]
        } else {
            join_texts(parts.take(i), sep) + sep + parts[i]
        },
{
    assert(parts.take(i + 1).drop_last() =~= parts.take(i));
    assert(parts.take(i + 1).last() == parts[i]);
}

/// Appends the strings joined with `sep`.
pub fn push_joined(out: &mut String, parts: &Vec<String>, sep: &str)
    ensures
        final(out)@ == old(out)@ + join_texts(string_views(parts@), sep@),
{
    let ghost start = out@;
    let ghost views = string_views(parts@);
    let mut i: usize = 0;
    assert(views.take(0) =~= Seq::<Seq<char>>::empty());
    assert(out@ =~= start + join_texts(views.take(0), sep@));
    while i < parts.len()
        invariant
            i <= parts@.len(),
            views == string_views(parts@),
            out@ == start + join_texts(views.take(i as int), sep@),
        decreases parts@.len() - i,
    {
        proof {
            lemma_join_step(views, sep@, i as int);
        }
        if i > 0 {
            out.append(sep);
        }
        out.append(parts[i].as_str());
        assert(out@ =~= start + join_texts(views.take(i as int + 1), sep@));
        i = i + 1;
    }
    assert(views.take(parts@.len() as int) =~= views);
}

/// An optional text, or `-` when there is none.
pub open spec fn or_dash(o: Option<String>) -> Seq<char> {
    match o {
        Some(s) => s@,
        None => "-"@,
    }
}

pub fn push_or_dash(out: &mut String, o: &Option<String>)
    ensures
        final(out)@ == old(out)@ + or_dash(*o),
{
    match o {
        Some(s) => out.append(s.as_str()),
        None => out.append("-"),
    }
}

/// The strings joined with `,`, or `-` when there are none.
pub open spec fn list_or_dash(v: Seq<String>) -> Seq<char> {
    if v.len() == 0 {
        "-"@
    } else {
        join_texts(string_views(v), ","@)
    }
}

pub fn push_list_or_dash(out: &mut String, v: &Vec<String>)
    ensures
        final(out)@ == old(out)@ + list_or_dash(v@),
{
    if v.len() == 0 {
        out.append("-");
    } else {
        push_joined(out, v, ",");
    }
}

/// An item that renders as one line of a list.
pub trait TextLine: Sized {
    spec fn line_text(self) -> Seq<char>;

    fn push_line(&self, out: &mut String)
        ensures
            final(out)@ == old(out)@ + self.line_text(),
    ;
}

/// The lines of the items, in order.
pub open spec fn item_lines<T: TextLine>(items: Seq<T>) -> Seq<Seq<char>> {
    Seq::new(items.len(), |i: int| items[i].line_text())
}

/// A list: `empty` when there are no items, else one line per item.
pub open spec fn list_text<T: TextLine>(items: Seq<T>, empty: Seq<char>) -> Seq<char> {
    if items.len() == 0 {
        empty
    } else {
        join_texts(item_lines(items), "\n"@)
    }
}

/// Renders the items one per line, or `empty` when there are none.
pub fn render_lines<T: TextLine>(items: &[T], empty: &str) -> (r: String)
    ensures
        r@ == list_text(items@, empty@),
{
    if items.len() == 0 {
        return empty.to_owned();
    }
    let ghost lines = item_lines(items@);
    let mut out = String::new();
    let mut i: usize = 0;
    assert(out@ =~= join_texts(lines.take(0), "\n"@));
    while i < items.len()
        invariant
            i <= items@.len(),
            lines == item_lines(items@),
            out@ == join_texts(lines.take(i as int), "\n"@),
        decreases items@.len() - i,
    {
        proof {
            lemma_join_step(lines, "\n"@, i as int);
        }
        if i > 0 {
            out.append("\n");
        }
        items[i].push_line(&mut out);
        assert(out@ =~= join_texts(lines.take(i as int + 1), "\n"@));
        i = i + 1;
    }
    assert(lines.take(items@.len() as int) =~= lines);
    out
}

/// A task status as `Debug` writes it.
pub open spec fn task_status_text(s: ApplicationTaskStatus) -> Seq<char> {
    match s {
        ApplicationTaskStatus::Draft => "Draft"@,
        ApplicationTaskStatus::Active => "Active"@,
        ApplicationTaskStatus::Closed => "Closed"@,
        ApplicationTaskStatus::Archived => "Archived"@,
    }
}

/// A clone state as `Debug` writes it.
pub open spec fn clone_state_text(s: CloneState) -> Seq<char> {
    match s {
        CloneState::Missing => "Missing"@,
        CloneState::Ready => "Ready"@,
        CloneState::Dirty => "Dirty"@,
        CloneState::Unknown => "Unknown"@,
    }
}

fn task_status_str(s: ApplicationTaskStatus) -> (r: &'static str)
    ensures
        r@ == task_status_text(s),
{
    match s {
        ApplicationTaskStatus::Draft => "Draft",
        ApplicationTaskStatus::Active => "Active",
        ApplicationTaskStatus::Closed => "Closed",
        ApplicationTaskStatus::Archived => "Archived",
    }
}

fn clone_state_str(s: CloneState) -> (r: &'static str)
    ensures
        r@ == clone_state_text(s),
{
    match s {
        CloneState::Missing => "Missing",
        CloneState::Ready => "Ready",
        CloneState::Dirty => "Dirty",
        CloneState::Unknown => "Unknown",
    }
}

impl TextLine for TaskListItem {
    /// `slug | title | status | last_activity_at=<instant or never>`
    open spec fn line_text(self) -> Seq<char> {
        self.slug@ + " | "@ + self.title@ + " | "@ + task_status_text(self.status)
            + " | last_activity_at="@ + match self.last_activity_at {
            Some(t) => utc_date_time_text(t.nanos()),
            None => "never"@,
        }
    }

    fn push_line(&self, out: &mut String) {
        let ghost start = out@;
        out.append(self.slug.as_str());
        out.append(" | ");
        out.append(self.title.as_str());
        out.append(" | ");
        out.append(task_status_str(self.status));
        out.append(" | last_activity_at=");
        match &self.last_activity_at {
            Some(t) => out.append(t.to_text().as_str()),
            None => out.append("never"),
        }
        assert(out@ =~= start + self.line_text());
    }
}

impl TextLine for RepoSummary {
    /// `id | url | tags=<tags>`
    open spec fn line_text(self) -> Seq<char> {
        self.id@ + " | "@ + self.url@ + " | tags="@ + join_texts(string_views(self.tags@), ","@)
    }

    fn push_line(&self, out: &mut String) {
        let ghost start = out@;
        out.append(self.id.as_str());
        out.append(" | ");
        out.append(self.url.as_str());
        out.append(" | tags=");
        push_joined(out, &self.tags, ",");
        assert(out@ =~= start + self.line_text());
    }
}

impl TextLine for RepoGroupSummary {
    /// `id | repos=<repos> | tags=<tags>`
    open spec fn line_text(self) -> Seq<char> {
        self.id@ + " | repos="@ + join_texts(string_views(self.repos@), ","@) + " | tags="@
            + join_texts(string_views(self.tags@), ","@)
    }

    fn push_line(&self, out: &mut String) {
        let ghost start = out@;
        out.append(self.id.as_str());
        out.append(" | repos=");
        push_joined(out, &self.repos, ",");
        out.append(" | tags=");
        push_joined(out, &self.tags, ",");
        assert(out@ =~= start + self.line_text());
    }
}

/// What became of a repo: cloned, or why it was skipped.
pub open spec fn clone_result_text(o: RepoCloneOutcome) -> Seq<char> {
    if o.cloned {
        "cloned"@
    } else {
        match o.skipped_reason {
            Some(r) => r@,
            None => "skipped"@,
        }
    }
}

impl TextLine for RepoCloneOutcome {
    /// `repo | path | dry-run or real | result`
    open spec fn line_text(self) -> Seq<char> {
        self.repo_id@ + " | "@ + self.path@ + " | "@ + (if self.dry_run {
            "dry-run"@
        } else {
            "real"@
        }) + " | "@ + clone_result_text(self)
    }

    fn push_line(&self, out: &mut String) {
        let ghost start = out@;
        out.append(self.repo_id.as_str());
        out.append(" | ");
        out.append(self.path.as_str());
        out.append(" | ");
        if self.dry_run {
            out.append("dry-run");
        } else {
            out.append("real");
        }
        out.append(" | ");
        if self.cloned {
            out.append("cloned");
        } else {
            match &self.skipped_reason {
                Some(reason) => out.append(reason.as_str()),
                None => out.append("skipped"),
            }
        }
        assert(out@ =~= start + self.line_text());
    }
}

impl TextLine for TaskRepoStatusItem {
    /// `repo | state | branch=<branch or -> | dirty=.. | ahead=.. | behind=..`
    open spec fn line_text(self) -> Seq<char> {
        self.repo_id@ + " | "@ + clone_state_text(self.status.clone_state) + " | branch="@
            + or_dash(self.status.branch) + " | dirty="@ + bool_text(self.status.dirty)
            + " | ahead="@ + decimal_text(self.status.ahead as nat) + " | behind="@ + decimal_text(
            self.status.behind as nat,
        )
    }

    fn push_line(&self, out: &mut String) {
        let ghost start = out@;
        out.append(self.repo_id.as_str());
        out.append(" | ");
        out.append(clone_state_str(self.status.clone_state));
        out.append(" | branch=");
        push_or_dash(out, &self.status.branch);
        out.append(" | dirty=");
        push_bool(out, self.status.dirty);
        out.append(" | ahead=");
        push_decimal(out, self.status.ahead);
        out.append(" | behind=");
        push_decimal(out, self.status.behind);
        assert(out@ =~= start + self.line_text());
    }
}

impl TextLine for KnowledgeObjectSummary {
    /// `id | path | category=<category or -> | tags=<tags>`
    open spec fn line_text(self) -> Seq<char> {
        self.id@ + " | "@ + self.path@ + " | category="@ + or_dash(self.category) + " | tags="@
            + join_texts(string_views(self.tags@), ","@)
    }

    fn push_line(&self, out: &mut String) {
        let ghost start = out@;
        out.append(self.id.as_str());
        out.append(" | ");
        out.append(self.path.as_str());
        out.append(" | category=");
        push_or_dash(out, &self.category);
        out.append(" | tags=");
        push_joined(out, &self.tags, ",");
        assert(out@ =~= start + self.line_text());
    }
}

impl TextLine for String {
    /// The text itself.
    open spec fn line_text(self) -> Seq<char> {
        self@
    }

    fn push_line(&self, out: &mut String) {
        out.append(self.as_str());
    }
}

impl TextLine for SkillMountSummary {
    /// `mount | skill | version=.. | status=..`
    open spec fn line_text(self) -> Seq<char> {
        self.mount_id@ + " | "@ + self.skill_id@ + " | version="@ + self.version@ + " | status="@
            + mount_status_text(self.status)
    }

    fn push_line(&self, out: &mut String) {
        let ghost start = out@;
        out.append(self.mount_id.as_str());
        out.append(" | ");
        out.append(self.skill_id.as_str());
        out.append(" | version=");
        out.append(self.version.as_str());
        out.append(" | status=");
        out.append(self.status.as_str());
        assert(out@ =~= start + self.line_text());
    }
}

impl TextLine for SkillUpdateStatus {
    /// `mount | update_available=.. | target_version=<version or ->`
    open spec fn line_text(self) -> Seq<char> {
        self.mount_id@ + " | update_available="@ + bool_text(self.update_available)
            + " | target_version="@ + match self.target_version {
            Some(v) => v@,
            None => "-"@,
        }
    }

    fn push_line(&self, out: &mut String) {
        let ghost start = out@;
        out.append(self.mount_id.as_str());
        out.append(" | update_available=");
        push_bool(out, self.update_available);
        out.append(" | target_version=");
        match &self.target_version {
            Some(v) => out.append(v.as_str()),
            None => out.append("-"),
        }
        assert(out@ =~= start + self.line_text());
    }
}

pub fn render_task_created(id: &str, slug: &str, title: &str, template: &str) -> (r: String)
    ensures
        r@ == "Created task "@ + id@ + "\n  slug: "@ + slug@ + "\n  title: "@ + title@
            + "\n  template: "@ + template@,
{
    let mut out = String::new();
    out.append("Created task ");
    out.append(id);
    out.append("\n  slug: ");
    out.append(slug);
    out.append("\n  title: ");
    out.append(title);
    out.append("\n  template: ");
    out.append(template);
    assert(out@ =~= "Created task "@ + id@ + "\n  slug: "@ + slug@ + "\n  title: "@ + title@
        + "\n  template: "@ + template@);
    out
}

pub fn render_task_list(items: &[TaskListItem]) -> (r: String)
    ensures
        r@ == list_text(items@, "No tasks found."@),
{
    render_lines(items, "No tasks found.")
}

pub fn render_task_opened(task_ref: &str, editor: &str) -> (r: String)
    ensures
        r@ == "Opened task "@ + task_ref@ + " with "@ + editor@,
{
    let mut out = String::new();
    out.append("Opened task ");
    out.append(task_ref);
    out.append(" with ");
    out.append(editor);
    assert(out@ =~= "Opened task "@ + task_ref@ + " with "@ + editor@);
    out
}

pub fn render_repo_created(repo: &RepoSummary) -> (r: String)
    ensures
        r@ == "Added repo "@ + repo.id@ + "\n  url: "@ + repo.url@,
{
    let mut out = String::new();
    out.append("Added repo ");
    out.append(repo.id.as_str());
    out.append("\n  url: ");
    out.append(repo.url.as_str());
    assert(out@ =~= "Added repo "@ + repo.id@ + "\n  url: "@ + repo.url@);
    out
}

pub fn render_repo_list(repos: &[RepoSummary]) -> (r: String)
    ensures
        r@ == list_text(repos@, "No repos found."@),
{
    render_lines(repos, "No repos found.")
}

pub fn render_repo_group_created(group: &RepoGroupSummary) -> (r: String)
    ensures
        r@ == "Added repo-group "@ + group.id@ + "\n  repos: "@ + join_texts(
            string_views(group.repos@),
            ","@,
        ),
{
    let mut out = String::new();
    out.append("Added repo-group ");
    out.append(group.id.as_str());
    out.append("\n  repos: ");
    push_joined(&mut out, &group.repos, ",");
    assert(out@ =~= "Added repo-group "@ + group.id@ + "\n  repos: "@ + join_texts(
        string_views(group.repos@),
        ","@,
    ));
    out
}

pub fn render_repo_group_list(groups: &[RepoGroupSummary]) -> (r: String)
    ensures
        r@ == list_text(groups@, "No repo groups found."@),
{
    render_lines(groups, "No repo groups found.")
}

pub fn render_task_repos_result(result: &TaskReposResult) -> (r: String)
    ensures
        r@ == "Updated task repos for "@ + result.task_id@ + "\n  repo_groups: "@ + list_or_dash(
            result.selected_repo_groups@,
        ) + "\n  repos: "@ + list_or_dash(result.repos@),
{
    let mut out = String::new();
    out.append("Updated task repos for ");
    out.append(result.task_id.as_str());
    out.append("\n  repo_groups: ");
    push_list_or_dash(&mut out, &result.selected_repo_groups);
    out.append("\n  repos: ");
    push_list_or_dash(&mut out, &result.repos);
    assert(out@ =~= "Updated task repos for "@ + result.task_id@ + "\n  repo_groups: "@
        + list_or_dash(result.selected_repo_groups@) + "\n  repos: "@ + list_or_dash(result.repos@));
    out
}

pub fn render_repo_clone_outcomes(outcomes: &[RepoCloneOutcome]) -> (r: String)
    ensures
        r@ == list_text(outcomes@, "No repos selected for clone."@),
{
    render_lines(outcomes, "No repos selected for clone.")
}

pub fn render_repo_statuses(items: &[TaskRepoStatusItem]) -> (r: String)
    ensures
        r@ == list_text(items@, "No repo statuses found."@),
{
    render_lines(items, "No repo statuses found.")
}

pub fn render_knowledge_list(items: &[KnowledgeObjectSummary]) -> (r: String)
    ensures
        r@ == list_text(items@, "No knowledge objects found."@),
{
    render_lines(items, "No knowledge objects found.")
}

/// The block that shows one knowledge object.
pub open spec fn knowledge_detail_text(item: KnowledgeObjectSummary) -> Seq<char> {
    "Knowledge "@ + item.id@ + "\n  title: "@ + item.title@ + "\n  path: "@ + item.path@
        + "\n  category: "@ + or_dash(item.category) + "\n  tags: "@ + list_or_dash(item.tags@)
        + "\n  sources: "@ + decimal_text(item.source_count as nat)
}

pub fn render_knowledge_detail(item: &KnowledgeObjectSummary) -> (r: String)
    ensures
        r@ == knowledge_detail_text(*item),
{
    let mut out = String::new();
    out.append("Knowledge ");
    out.append(item.id.as_str());
    out.append("\n  title: ");
    out.append(item.title.as_str());
    out.append("\n  path: ");
    out.append(item.path.as_str());
    out.append("\n  category: ");
    push_or_dash(&mut out, &item.category);
    out.append("\n  tags: ");
    push_list_or_dash(&mut out, &item.tags);
    out.append("\n  sources: ");
    push_decimal(&mut out, item.source_count);
    assert(out@ =~= knowledge_detail_text(*item));
    out
}

pub fn render_skill_summary(item: &SkillSummary) -> (r: String)
    ensures
        r@ == "Skill "@ + item.id@ + "\n  source: "@ + item.source@ + "\n  versions: "@
            + list_or_dash(item.versions@) + "\n  latest: "@ + or_dash(item.latest),
{
    let mut out = String::new();
    out.append("Skill ");
    out.append(item.id.as_str());
    out.append("\n  source: ");
    out.append(item.source.as_str());
    out.append("\n  versions: ");
    push_list_or_dash(&mut out, &item.versions);
    out.append("\n  latest: ");
    push_or_dash(&mut out, &item.latest);
    assert(out@ =~= "Skill "@ + item.id@ + "\n  source: "@ + item.source@ + "\n  versions: "@
        + list_or_dash(item.versions@) + "\n  latest: "@ + or_dash(item.latest));
    out
}

pub fn render_skill_versions(versions: &[String]) -> (r: String)
    ensures
        r@ == list_text(versions@, "No versions found."@),
{
    render_lines(versions, "No versions found.")
}

pub fn render_skill_mounts(items: &[SkillMountSummary]) -> (r: String)
    ensures
        r@ == list_text(items@, "No skill mounts found."@),
{
    render_lines(items, "No skill mounts found.")
}

pub fn render_skill_mount(item: &SkillMountSummary) -> (r: String)
    ensures
        r@ == "Mounted skill "@ + item.skill_id@ + "\n  mount_id: "@ + item.mount_id@
            + "\n  version: "@ + item.version@ + "\n  source: "@ + item.source@ + "\n  path: "@
            + item.path@,
{
    let mut out = String::new();
    out.append("Mounted skill ");
    out.append(item.skill_id.as_str());
    out.append("\n  mount_id: ");
    out.append(item.mount_id.as_str());
    out.append("\n  version: ");
    out.append(item.version.as_str());
    out.append("\n  source: ");
    out.append(item.source.as_str());
    out.append("\n  path: ");
    out.append(item.path.as_str());
    assert(out@ =~= "Mounted skill "@ + item.skill_id@ + "\n  mount_id: "@ + item.mount_id@
        + "\n  version: "@ + item.version@ + "\n  source: "@ + item.source@ + "\n  path: "@
        + item.path@);
    out
}

pub fn render_skill_updates(items: &[SkillUpdateStatus]) -> (r: String)
    ensures
        r@ == list_text(items@, "No skill updates found."@),
{
    render_lines(items, "No skill updates found.")
}

pub fn render_error(message: &str) -> (r: String)
    ensures
        r@ == "Error: "@ + message@,
{
    let mut out = String::new();
    out.append("Error: ");
    out.append(message);
    out
}

} // verus!
