//! The `skill` commands, and what they ask of the services.
use vstd::prelude::*;
use vstd::string::StringExecFns;

use crate::application::paths::{
    is_plain_base, is_plain_segment, join_path, joined_path, lemma_join_keeps_plain_base,
};
use crate::application::error::ApplicationError;
use crate::application::skill_registry::{
    ApplicationSkillSourceKind, ImportSkillSourceCommand, ImportedSkillDefinition, ShowSkillQuery,
    SkillRegistryApplicationService,
};
use crate::application::task_skills::{
    CheckSkillUpdatesQuery, MountSkillCommand, SkillMountSummary, TaskSkillsApplicationService,
    UnmountSkillCommand,
};
use crate::domain::shared::TaskSlug;
use crate::domain::task::TaskSkillMountStatus;
use crate::application::task_skills::service::three_part_path;
use crate::application::skill_registry::service::{summarizes_skill, versions_listing};
use crate::application::task_skills::service::{mount_listing, update_listing};
use crate::domain::skill_registry::SkillDefinition;
use crate::domain::task::TaskSkillMount;
use crate::presenters::CommandOutput;

verus! {

#[derive(Clone, Debug, PartialEq, Eq)]
pub enum SkillCommand {
    Import(ImportSkillArgs),
    Show(SkillShowArgs),
    Versions(SkillVersionsArgs),
    Mount(SkillMountArgs),
    Mounts(SkillMountsArgs),
    Unmount(SkillUnmountArgs),
    CheckUpdates(SkillCheckUpdatesArgs),
}

#[derive(Clone, Debug, PartialEq, Eq)]
pub struct ImportSkillArgs {
    pub kind: SkillSourceKindArg,
    pub location: String,
    pub source_id: String,
    pub version: Option<String>,
    pub skill_id: Option<String>,
}

#[derive(Clone, Debug, PartialEq, Eq)]
pub struct SkillShowArgs {
    pub skill_id: String,
}

#[derive(Clone, Debug, PartialEq, Eq)]
pub struct SkillVersionsArgs {
    pub skill_id: String,
}

#[derive(Clone, Debug, PartialEq, Eq)]
pub struct SkillMountArgs {
    pub task: String,
    pub skill_id: String,
    pub version: Option<String>,
}

#[derive(Clone, Debug, PartialEq, Eq)]
pub struct SkillMountsArgs {
    pub task: String,
}

#[derive(Clone, Debug, PartialEq, Eq)]
pub struct SkillUnmountArgs {
    pub task: String,
    pub mount_id: String,
}

#[derive(Clone, Debug, PartialEq, Eq)]
pub struct SkillCheckUpdatesArgs {
    pub task: String,
    pub mount_id: Option<String>,
}

#[derive(Clone, Copy, Debug, PartialEq, Eq, Structural)]
pub enum SkillSourceKindArg {
    Git,
    Local,
    Archive,
}

pub open spec fn source_kind_arg_of(value: SkillSourceKindArg) -> ApplicationSkillSourceKind {
    match value {
        SkillSourceKindArg::Git => ApplicationSkillSourceKind::Git,
        SkillSourceKindArg::Local => ApplicationSkillSourceKind::Local,
        SkillSourceKindArg::Archive => ApplicationSkillSourceKind::Archive,
    }
}

pub fn to_source_kind(value: SkillSourceKindArg) -> (r: ApplicationSkillSourceKind)
    ensures
        r == source_kind_arg_of(value),
{
    match value {
        SkillSourceKindArg::Git => ApplicationSkillSourceKind::Git,
        SkillSourceKindArg::Local => ApplicationSkillSourceKind::Local,
        SkillSourceKindArg::Archive => ApplicationSkillSourceKind::Archive,
    }
}

/// The import a `skill import` asks for: the source, and one skill named
/// by `--skill-id` or else after the source, whose only version, and latest,
/// is `--version` when given.
pub fn import_command(args: ImportSkillArgs) -> (r: ImportSkillSourceCommand)
    ensures
        r.source_id == args.source_id,
        r.kind == source_kind_arg_of(args.kind),
        r.location == args.location,
        r.reference == args.version,
        r.skills@.len() == 1,
        r.skills@[0].id == (match args.skill_id {
            Some(id) => id,
            None => args.source_id,
        }),
        r.skills@[0].latest == args.version,
        args.version matches Some(v) ==> r.skills@[0].versions@ == seq![v],
        args.version is None ==> r.skills@[0].versions@.len() == 0,
{
    let id = match &args.skill_id {
        Some(id) => id.clone(),
        None => args.source_id.clone(),
    };
    let mut versions: Vec<String> = Vec::new();
    match &args.version {
        Some(v) => versions.push(v.clone()),
        None => {},
    }
    let latest = match &args.version {
        Some(v) => Some(v.clone()),
        None => None,
    };
    let skill = ImportedSkillDefinition { id, versions, latest };
    let mut skills: Vec<ImportedSkillDefinition> = Vec::new();
    skills.push(skill);
    assert(skills@ =~= seq![skill]);
    ImportSkillSourceCommand {
        source_id: args.source_id,
        kind: to_source_kind(args.kind),
        location: args.location,
        reference: args.version,
        skills,
    }
}

/// The version a local source is cached under: the one given, or `latest`.
pub fn cached_version(version: &Option<String>) -> (r: &str)
    ensures
        version matches Some(v) ==> r@ == v@,
        version is None ==> r@ == "latest"@,
{
    match version {
        Some(v) => v.as_str(),
        None => "latest",
    }
}

/// The message that confirms an import.
pub fn imported_source_message(source_id: &str) -> (r: String)
    ensures
        r@ == "Imported skill source "@ + source_id@,
{
    let mut out = String::new();
    out.append("Imported skill source ");
    out.append(source_id);
    out
}

/// The agent directories a mounted skill is copied into, in order.
pub open spec fn agent_dir_names() -> Seq<Seq<char>> {
    seq![".opencode"@, ".cursor"@, ".agents"@, ".codex"@]
}

/// `path` is `root/<dir>/skills/<skill id>`, joined as
/// `camino::Utf8PathBuf::join` joins it, when the parts are plain segments
/// and the root a plain base.
pub open spec fn agent_skill_path(root: Seq<char>, dir: Seq<char>, skill_id: Seq<char>, path: Seq<char>) -> bool {
    (is_plain_base(root) && is_plain_segment(dir) && is_plain_segment(skill_id))
        ==> exists|a: Seq<char>, b: Seq<char>|
        joined_path(root, dir, a) && joined_path(a, "skills"@, b) && joined_path(b, skill_id, path)
}

fn agent_skill_dir(root: &str, dir: &str, skill_id: &str) -> (r: String)
    ensures
        agent_skill_path(root@, dir@, skill_id@, r@),
{
    proof {
        reveal_strlit("skills");
    }
    let a = join_path(root, dir);
    let b = join_path(a.as_str(), "skills");
    let r = join_path(b.as_str(), skill_id);
    proof {
        if is_plain_base(root@) && is_plain_segment(dir@) && is_plain_segment(skill_id@) {
            lemma_join_keeps_plain_base(root@, dir@, a@);
            lemma_join_keeps_plain_base(a@, "skills"@, b@);
        }
    }
    r
}

/// Where a mounted skill is copied for each agent:
/// `root/<agent dir>/skills/<skill id>`.
pub fn agent_skill_dirs(root: &str, skill_id: &str) -> (r: Vec<String>)
    ensures
        r@.len() == agent_dir_names().len(),
        forall|i: int|
            0 <= i < r@.len() ==> agent_skill_path(root@, agent_dir_names()[i], skill_id@, #[trigger] r@[i]@),
{
    proof {
        reveal_strlit(".opencode");
        reveal_strlit(".cursor");
        reveal_strlit(".agents");
        reveal_strlit(".codex");
    }
    let mut out: Vec<String> = Vec::new();
    out.push(agent_skill_dir(root, ".opencode", skill_id));
    out.push(agent_skill_dir(root, ".cursor", skill_id));
    out.push(agent_skill_dir(root, ".agents", skill_id));
    out.push(agent_skill_dir(root, ".codex", skill_id));
    out
}

/// The query `skill show` makes.
pub fn show_skill_query(args: SkillShowArgs) -> (r: ShowSkillQuery)
    ensures
        r.skill_id == args.skill_id,
{
    ShowSkillQuery { skill_id: args.skill_id }
}

/// The query `skill versions` makes.
pub fn skill_versions_query(args: SkillVersionsArgs) -> (r: ShowSkillQuery)
    ensures
        r.skill_id == args.skill_id,
{
    ShowSkillQuery { skill_id: args.skill_id }
}

/// The request `skill mount` makes.
pub fn mount_command(args: SkillMountArgs) -> (r: MountSkillCommand)
    ensures
        r.task_id == args.task,
        r.skill_id == args.skill_id,
        r.version == args.version,
{
    MountSkillCommand { task_id: args.task, skill_id: args.skill_id, version: args.version }
}

/// The task `skill mounts` lists the mounts of.
pub fn mounts_slug(args: &SkillMountsArgs) -> (r: TaskSlug)
    ensures
        r@ == args.task@,
{
    TaskSlug::from(args.task.as_str())
}

/// The request `skill unmount` makes.
pub fn unmount_command(args: SkillUnmountArgs) -> (r: UnmountSkillCommand)
    ensures
        r.task_id == args.task,
        r.mount_id == args.mount_id,
{
    UnmountSkillCommand { task_id: args.task, mount_id: args.mount_id }
}

/// The query `skill check-updates` makes.
pub fn check_updates_query(args: SkillCheckUpdatesArgs) -> (r: CheckSkillUpdatesQuery)
    ensures
        r.task_id == args.task,
        r.mount_id == args.mount_id,
{
    CheckSkillUpdatesQuery { task_id: args.task, mount_id: args.mount_id }
}

/// The message for a skill the registry does not hold.
pub fn skill_not_found_message() -> (r: &'static str)
    ensures
        r@ == "Skill not found."@,
{
    "Skill not found."
}

/// The message that confirms an unmount.
pub fn unmounted_message() -> (r: &'static str)
    ensures
        r@ == "Unmounted skill"@,
{
    "Unmounted skill"
}

/// What a `skill` command gives when it succeeds: for each command, the
/// message or the service's result, as that service's contract describes it.
pub open spec fn skill_output(command: SkillCommand, o: CommandOutput) -> bool {
    match command {
        SkillCommand::Import(args) => o matches CommandOutput::Message(m) && m@ == "Imported skill source "@
            + args.source_id@,
        SkillCommand::Show(_) => (o matches CommandOutput::Message(m) && m@ == "Skill not found."@)
            || (o matches CommandOutput::Skill(s) && exists|d: SkillDefinition| #[trigger] summarizes_skill(s, d)),
        SkillCommand::Versions(_) => o matches CommandOutput::SkillVersions(v) && exists|
            found: Option<SkillDefinition>,
        | #[trigger] versions_listing(v@, found),
        SkillCommand::Mount(args) => o matches CommandOutput::SkillMount(m) && m.skill_id@ == args.skill_id@
            && m.status == TaskSkillMountStatus::Active && (args.version matches Some(v) ==> m.version@
            == v@) && three_part_path(".opencode"@, "skills"@, args.skill_id@, m.path@),
        SkillCommand::Mounts(args) => o matches CommandOutput::SkillMounts(v) && exists|
            stored: Seq<TaskSkillMount>,
        | #[trigger] mount_listing(v@, args.task@, stored),
        SkillCommand::Unmount(_) => o matches CommandOutput::Message(m) && m@ == "Unmounted skill"@,
        SkillCommand::CheckUpdates(args) => o matches CommandOutput::SkillUpdates(v) && exists|
            stored: Seq<TaskSkillMount>,
        | #[trigger] update_listing(v@, stored, args.mount_id),
    }
}

/// Runs a `skill` command against the registry and task skills services, as
/// `skill_output` describes. A mount hands back the new mount, whose files
/// the caller copies into the agent directories; a local source is cached
/// by the caller before the import.
pub fn run(
    registry: &dyn SkillRegistryApplicationService,
    task_skills: &dyn TaskSkillsApplicationService,
    command: SkillCommand,
) -> (r: Result<CommandOutput, ApplicationError>)
    ensures
        r matches Ok(o) ==> skill_output(command, o),
        r matches Err(e) ==> e is Domain || e is InvalidRequest,
        r matches Err(ApplicationError::InvalidRequest(m)) ==> command is Mount && m@
            == "skill version is required"@,
{
    match command {
        SkillCommand::Import(args) => {
            let message = imported_source_message(args.source_id.as_str());
            match registry.import_source(import_command(args)) {
                Ok(()) => Ok(CommandOutput::Message(message)),
                Err(e) => Err(e),
            }
        },
        SkillCommand::Show(args) => {
            match registry.show_skill(show_skill_query(args)) {
                Ok(Some(item)) => {
                    let r = Ok(CommandOutput::Skill(item));
                    assert(r matches Ok(CommandOutput::Skill(w)) && w == item);
                    r
                },
                Ok(None) => Ok(CommandOutput::Message(skill_not_found_message().to_owned())),
                Err(e) => Err(e),
            }
        },
        SkillCommand::Versions(args) => {
            match registry.list_skill_versions(skill_versions_query(args)) {
                Ok(versions) => {
                    let ghost seen = versions@;
                    let r = Ok(CommandOutput::SkillVersions(versions));
                    assert(r matches Ok(CommandOutput::SkillVersions(w)) && w@ == seen);
                    r
                },
                Err(e) => Err(e),
            }
        },
        SkillCommand::Mount(args) => {
            match task_skills.mount_skill(mount_command(args)) {
                Ok(summary) => Ok(CommandOutput::SkillMount(summary)),
                Err(e) => Err(e),
            }
        },
        SkillCommand::Mounts(args) => {
            match task_skills.list_mounts(&mounts_slug(&args)) {
                Ok(mounts) => {
                    let ghost seen = mounts@;
                    let r = Ok(CommandOutput::SkillMounts(mounts));
                    assert(r matches Ok(CommandOutput::SkillMounts(w)) && w@ == seen);
                    r
                },
                Err(e) => Err(e),
            }
        },
        SkillCommand::Unmount(args) => {
            match task_skills.unmount_skill(unmount_command(args)) {
                Ok(()) => Ok(CommandOutput::Message(unmounted_message().to_owned())),
                Err(e) => Err(e),
            }
        },
        SkillCommand::CheckUpdates(args) => {
            match task_skills.check_skill_updates(check_updates_query(args)) {
                Ok(updates) => {
                    let ghost seen = updates@;
                    let r = Ok(CommandOutput::SkillUpdates(updates));
                    assert(r matches Ok(CommandOutput::SkillUpdates(w)) && w@ == seen);
                    r
                },
                Err(e) => Err(e),
            }
        },
    }
}
} // verus!
