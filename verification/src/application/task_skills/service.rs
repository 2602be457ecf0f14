//! The task skills service and the rules it applies.
use vstd::prelude::*;

use crate::application::error::ApplicationError;
use crate::application::paths::{
    is_plain_base, is_plain_segment, join_path, joined_path, lemma_join_keeps_plain_base,
};
use crate::application::ports::Clock;
use crate::application::task::service::require_task;
use crate::application::task_skills::dtos::{
    CheckSkillUpdatesQuery, MountSkillCommand, OverrideSkillCommand, SandboxSkillCommand,
    SkillMountSummary, SkillSandboxHandle, SkillUpdateStatus, UnmountSkillCommand,
    UpdateSkillCommand,
};
use crate::domain::errors::{DomainError, EntityKind};
use crate::domain::shared::{MountId, SkillId, SkillSourceId, SkillVersion, TaskSlug, Timestamp};
use crate::domain::skill_registry::{SkillDefinition, SkillRegistryRepository};
use crate::domain::task::aggregate::TaskWorkspace;
use crate::domain::task::entities::TaskSkillMount;
use crate::domain::task::repository::{TaskRepository, TaskSkillMountRepository};
use crate::domain::task::value_objects::TaskSkillMountStatus;
use crate::strings::str_eq;

verus! {

/// `path` is `first`, then `second`, then `last`, joined as
/// `camino::Utf8PathBuf::join` joins them, where `last` is a plain segment.
pub open spec fn three_part_path(
    first: Seq<char>,
    second: Seq<char>,
    last: Seq<char>,
    path: Seq<char>,
) -> bool {
    is_plain_segment(last) ==> exists|middle: Seq<char>|
        joined_path(first, second, middle) && joined_path(middle, last, path)
}

/// Joins two fixed plain segments and a third one.
fn three_part_join(first: &str, second: &str, last: &str) -> (r: String)
    requires
        is_plain_base(first@),
        is_plain_segment(second@),
    ensures
        three_part_path(first@, second@, last@, r@),
{
    let middle = join_path(first, second);
    proof {
        lemma_join_keeps_plain_base(first@, second@, middle@);
    }
    join_path(middle.as_str(), last)
}

/// Where a skill is mounted inside the task workspace:
/// `.opencode/skills/<skill id>`.
pub fn mount_skill_path(skill_id: &SkillId) -> (r: String)
    ensures
        three_part_path(".opencode"@, "skills"@, skill_id@, r@),
{
    proof {
        reveal_strlit(".opencode");
        reveal_strlit("skills");
    }
    three_part_join(".opencode", "skills", skill_id.as_str())
}

/// The sandbox directory of a mount: `skills/mounted/<mount id>`.
pub fn mount_path(mount_id: &MountId) -> (r: String)
    ensures
        three_part_path("skills"@, "mounted"@, mount_id@, r@),
{
    proof {
        reveal_strlit("skills");
        reveal_strlit("mounted");
    }
    three_part_join("skills", "mounted", mount_id.as_str())
}

/// `s` summarizes mount `m` of the task `slug`.
pub open spec fn summarizes_mount(s: SkillMountSummary, slug: Seq<char>, m: TaskSkillMount) -> bool {
    &&& s.task_id@ == slug
    &&& s.mount_id@ == m.id@
    &&& s.skill_id@ == m.skill_id@
    &&& s.version@ == m.version@
    &&& s.source@ == m.source@
    &&& s.status == m.status
    &&& s.path == m.path
}

/// The summary of mount `mount` of task `slug`.
pub fn to_summary(slug: &TaskSlug, mount: &TaskSkillMount) -> (r: SkillMountSummary)
    ensures
        summarizes_mount(r, slug@, *mount),
{
    SkillMountSummary {
        task_id: slug.to_string(),
        mount_id: mount.id.to_string(),
        skill_id: mount.skill_id.to_string(),
        version: mount.version.to_string(),
        source: mount.source.to_string(),
        status: mount.status,
        path: mount.path.clone(),
    }
}

/// The summaries of a task's mounts, in their order.
pub fn mount_summaries(slug: &TaskSlug, mounts: &Vec<TaskSkillMount>) -> (r: Vec<SkillMountSummary>)
    ensures
        r@.len() == mounts@.len(),
        forall|i: int| 0 <= i < r@.len() ==> summarizes_mount(#[trigger] r@[i], slug@, mounts@[i]),
{
    let mut out: Vec<SkillMountSummary> = Vec::new();
    let mut i: usize = 0;
    while i < mounts.len()
        invariant
            i <= mounts@.len(),
            out@.len() == i,
            forall|j: int| 0 <= j < i ==> summarizes_mount(#[trigger] out@[j], slug@, mounts@[j]),
        decreases mounts@.len() - i,
    {
        out.push(to_summary(slug, &mounts[i]));
        i = i + 1;
    }
    out
}

/// The skill a lookup found, or the not-found error for its id.
pub fn require_skill(found: Option<SkillDefinition>, skill_id: &SkillId) -> (r: Result<
    SkillDefinition,
    ApplicationError,
>)
    ensures
        found matches Some(s) ==> r == Ok::<SkillDefinition, ApplicationError>(s),
        found is None ==> (r matches Err(ApplicationError::Domain(DomainError::NotFound { entity, slug })) && entity
            == EntityKind::Skill && slug@ == skill_id@),
{
    match found {
        Some(skill) => Ok(skill),
        None => Err(
            ApplicationError::Domain(
                DomainError::NotFound { entity: EntityKind::Skill, slug: skill_id.to_string() },
            ),
        ),
    }
}

/// The version a new mount gets: the one asked for, else the skill's latest;
/// with neither, the request is refused.
pub fn mount_version(requested: Option<String>, latest: &Option<SkillVersion>) -> (r: Result<
    SkillVersion,
    ApplicationError,
>)
    ensures
        requested matches Some(v) ==> (r matches Ok(s) && s@ == v@),
        requested is None && latest is Some ==> (r matches Ok(s) && s@ == latest->0@),
        requested is None && latest is None ==> (r matches Err(ApplicationError::InvalidRequest(m))
            && m@ == "skill version is required"@),
{
    match requested {
        Some(value) => Ok(SkillVersion::from(value.as_str())),
        None => match latest {
            Some(version) => Ok(version.duplicate()),
            None => Err(ApplicationError::InvalidRequest("skill version is required".to_owned())),
        },
    }
}

/// A new active mount of a skill, at its place in the task workspace.
pub fn new_mount(
    id: MountId,
    skill_id: SkillId,
    version: SkillVersion,
    source: SkillSourceId,
    mounted_at: Timestamp,
) -> (r: TaskSkillMount)
    ensures
        r.id == id,
        r.skill_id == skill_id,
        r.version == version,
        r.source == source,
        r.mounted_at == mounted_at,
        r.status == TaskSkillMountStatus::Active,
        three_part_path(".opencode"@, "skills"@, skill_id@, r.path@),
{
    let path = mount_skill_path(&skill_id);
    TaskSkillMount {
        id,
        skill_id,
        version,
        source,
        mounted_at,
        status: TaskSkillMountStatus::Active,
        path,
    }
}

/// A newer version is available: the skill has a latest version and the
/// mount holds another.
pub open spec fn update_available_for(version: Seq<char>, latest: Option<SkillVersion>) -> bool {
    latest matches Some(l) && l@ != version
}

/// `s` reports whether mount `m` can move to the skill's latest version.
pub open spec fn reports_update(s: SkillUpdateStatus, m: TaskSkillMount, latest: Option<SkillVersion>) -> bool {
    &&& s.mount_id@ == m.id@
    &&& s.update_available == update_available_for(m.version@, latest)
    &&& s.target_version is Some <==> latest is Some
    &&& s.target_version matches Some(t) ==> t@ == latest->0@
}

/// Whether mount `mount` can move to `latest`, and to which version.
pub fn update_status(mount: &TaskSkillMount, latest: &Option<SkillVersion>) -> (r: SkillUpdateStatus)
    ensures
        reports_update(r, *mount, *latest),
{
    let update_available = match latest {
        Some(l) => !l.same_as(&mount.version),
        None => false,
    };
    let target_version = match latest {
        Some(l) => Some(l.duplicate()),
        None => None,
    };
    SkillUpdateStatus { mount_id: mount.id.to_string(), update_available, target_version }
}

/// A mount filter lets this mount through: there is none, or it names it.
pub open spec fn mount_admitted(selected: Option<String>, id: Seq<char>) -> bool {
    match selected {
        None => true,
        Some(s) => s@ == id,
    }
}

pub fn mount_selected(selected: &Option<String>, id: &MountId) -> (r: bool)
    ensures
        r == mount_admitted(*selected, id@),
{
    match selected {
        None => true,
        Some(s) => str_eq(s.as_str(), id.as_str()),
    }
}

/// The index of the first mount with this id, if any.
pub fn mount_position(mounts: &Vec<TaskSkillMount>, id: &MountId) -> (r: Option<usize>)
    ensures
        r matches Some(i) ==> i < mounts@.len() && mounts@[i as int].id@ == id@ && forall|j: int|
            0 <= j < i ==> (#[trigger] mounts@[j]).id@ != id@,
        r is None ==> forall|j: int| 0 <= j < mounts@.len() ==> (#[trigger] mounts@[j]).id@ != id@,
{
    let mut i: usize = 0;
    while i < mounts.len()
        invariant
            i <= mounts@.len(),
            forall|j: int| 0 <= j < i ==> (#[trigger] mounts@[j]).id@ != id@,
        decreases mounts@.len() - i,
    {
        if mounts[i].id.same_as(id) {
            return Some(i);
        }
        i = i + 1;
    }
    None
}

/// A task's mounts with `mount` added after them.
pub fn with_new_mount(mounts: Vec<TaskSkillMount>, mount: TaskSkillMount) -> (r: Vec<TaskSkillMount>)
    ensures
        r@ == mounts@.push(mount),
{
    let mut mounts = mounts;
    mounts.push(mount);
    mounts
}

/// The mount moved to version `v`; nothing else changes.
pub open spec fn with_version(m: TaskSkillMount, v: SkillVersion) -> TaskSkillMount {
    TaskSkillMount { version: v, ..m }
}

/// Once a mount holds the skill's latest version, no update is available
/// for it: an update followed by a check reports it current.
pub proof fn law_updated_mount_is_current(m: TaskSkillMount, latest: SkillVersion)
    ensures
        !update_available_for(with_version(m, latest).version@, Some(latest)),
{
}

/// The mount with the skill's latest version: refused when the skill has none.
pub fn moved_to_latest(mount: TaskSkillMount, latest: &Option<SkillVersion>) -> (r: Result<
    TaskSkillMount,
    ApplicationError,
>)
    ensures
        latest is None ==> (r matches Err(ApplicationError::InvalidRequest(m)) && m@
            == "no latest version available"@),
        latest is Some ==> (r matches Ok(n) && n == with_version(mount, n.version) && n.version@
            == latest->0@),
{
    match latest {
        None => Err(ApplicationError::InvalidRequest("no latest version available".to_owned())),
        Some(version) => {
            let mut mount = mount;
            mount.version = version.duplicate();
            Ok(mount)
        },
    }
}

/// The mounts a filter lets through, in order.
pub open spec fn selected_mounts(mounts: Seq<TaskSkillMount>, selected: Option<String>) -> Seq<
    TaskSkillMount,
>
    decreases mounts.len(),
{
    if mounts.len() == 0 {
        Seq::empty()
    } else {
        let before = selected_mounts(mounts.drop_last(), selected);
        if mount_admitted(selected, mounts.last().id@) {
            before.push(mounts.last())
        } else {
            before
        }
    }
}

/// Every mount `selected_mounts` keeps passes the filter.
pub proof fn lemma_selected_mounts_admitted(mounts: Seq<TaskSkillMount>, selected: Option<String>)
    ensures
        forall|k: int|
            0 <= k < selected_mounts(mounts, selected).len() ==> mount_admitted(
                selected,
                (#[trigger] selected_mounts(mounts, selected)[k]).id@,
            ),
    decreases mounts.len(),
{
    if mounts.len() > 0 {
        lemma_selected_mounts_admitted(mounts.drop_last(), selected);
        let before = selected_mounts(mounts.drop_last(), selected);
        let all = selected_mounts(mounts, selected);
        assert forall|k: int| 0 <= k < all.len() implies mount_admitted(
            selected,
            (#[trigger] all[k]).id@,
        ) by {
            if k < before.len() {
                assert(all[k] == before[k]);
            }
        }
    }
}

/// `v` reports, in order, each of the mounts the filter selects against the
/// latest version its skill had when it was looked up.
pub open spec fn update_listing(
    v: Seq<SkillUpdateStatus>,
    mounts: Seq<TaskSkillMount>,
    selected: Option<String>,
) -> bool {
    exists|latest: Seq<Option<SkillVersion>>|
        {
            &&& #[trigger] latest.len() == v.len()
            &&& v.len() == selected_mounts(mounts, selected).len()
            &&& forall|i: int|
                0 <= i < v.len() ==> reports_update(
                    #[trigger] v[i],
                    selected_mounts(mounts, selected)[i],
                    latest[i],
                )
        }
}

/// `v` shows the mounts `mounts` of the task `slug`, one for one, in order.
pub open spec fn mount_listing(v: Seq<SkillMountSummary>, slug: Seq<char>, mounts: Seq<TaskSkillMount>) -> bool {
    &&& v.len() == mounts.len()
    &&& forall|i: int| 0 <= i < v.len() ==> summarizes_mount(#[trigger] v[i], slug, mounts[i])
}

/// The latest version of each selected mount's skill, in the order of the
/// selected mounts, as the registry answers when that skill is looked up; a
/// skill the registry does not hold is reported as not found.
pub fn selected_skill_latests(
    mounts: &Vec<TaskSkillMount>,
    selected: &Option<String>,
    registry: &dyn SkillRegistryRepository,
) -> (r: Result<Vec<Option<SkillVersion>>, ApplicationError>)
    ensures
        r matches Ok(v) ==> v@.len() == selected_mounts(mounts@, *selected).len(),
        r matches Err(e) ==> e is Domain,
{
    let mut latests: Vec<Option<SkillVersion>> = Vec::new();
    let mut i: usize = 0;
    while i < mounts.len()
        invariant
            i <= mounts@.len(),
            latests@.len() == selected_mounts(mounts@.take(i as int), *selected).len(),
        decreases mounts@.len() - i,
    {
        proof {
            assert(mounts@.take(i as int + 1).drop_last() =~= mounts@.take(i as int));
            assert(mounts@.take(i as int + 1).last() == mounts@[i as int]);
        }
        let mount = &mounts[i];
        if mount_selected(selected, &mount.id) {
            let found = match registry.find_skill(&mount.skill_id) {
                Ok(found) => found,
                Err(e) => return Err(ApplicationError::Domain(e)),
            };
            let skill = match require_skill(found, &mount.skill_id) {
                Ok(skill) => skill,
                Err(e) => return Err(e),
            };
            latests.push(skill.latest);
        }
        i = i + 1;
    }
    assert(mounts@.take(mounts@.len() as int) =~= mounts@);
    Ok(latests)
}

/// For each mount the filter selects, in order, whether it can move to the
/// latest version given for it (`latests`, in the order of the selected
/// mounts).
pub fn update_statuses_from(
    mounts: &Vec<TaskSkillMount>,
    selected: &Option<String>,
    latests: &Vec<Option<SkillVersion>>,
) -> (r: Vec<SkillUpdateStatus>)
    requires
        latests@.len() == selected_mounts(mounts@, *selected).len(),
    ensures
        r@.len() == latests@.len(),
        forall|i: int|
            0 <= i < r@.len() ==> reports_update(
                #[trigger] r@[i],
                selected_mounts(mounts@, *selected)[i],
                latests@[i],
            ),
{
    let mut result: Vec<SkillUpdateStatus> = Vec::new();
    let mut i: usize = 0;
    while i < mounts.len()
        invariant
            i <= mounts@.len(),
            latests@.len() == selected_mounts(mounts@, *selected).len(),
            result@.len() == selected_mounts(mounts@.take(i as int), *selected).len(),
            result@.len() <= latests@.len(),
            forall|k: int|
                0 <= k < result@.len() ==> reports_update(
                    #[trigger] result@[k],
                    selected_mounts(mounts@.take(i as int), *selected)[k],
                    latests@[k],
                ),
            forall|k: int|
                0 <= k < selected_mounts(mounts@.take(i as int), *selected).len() ==> #[trigger] selected_mounts(
                    mounts@.take(i as int),
                    *selected,
                )[k] == selected_mounts(mounts@, *selected)[k],
        decreases mounts@.len() - i,
    {
        proof {
            assert(mounts@.take(i as int + 1).drop_last() =~= mounts@.take(i as int));
            assert(mounts@.take(i as int + 1).last() == mounts@[i as int]);
            lemma_selected_mounts_prefix(mounts@, *selected, i as int + 1);
        }
        let mount = &mounts[i];
        if mount_selected(selected, &mount.id) {
            let ghost before = result@;
            let k = result.len();
            result.push(update_status(mount, &latests[k]));
            proof {
                let sel = selected_mounts(mounts@.take(i as int + 1), *selected);
                assert forall|j: int| 0 <= j < result@.len() implies reports_update(
                    #[trigger] result@[j],
                    sel[j],
                    latests@[j],
                ) by {
                    if j < before.len() {
                        assert(result@[j] == before[j]);
                    }
                }
            }
        }
        i = i + 1;
    }
    assert(mounts@.take(mounts@.len() as int) =~= mounts@);
    result
}

/// The mounts a filter selects from a prefix of a list are the first ones it
/// selects from the whole list.
proof fn lemma_selected_mounts_prefix(mounts: Seq<TaskSkillMount>, selected: Option<String>, i: int)
    requires
        0 <= i <= mounts.len(),
    ensures
        selected_mounts(mounts.take(i), selected).len() <= selected_mounts(mounts, selected).len(),
        forall|k: int|
            0 <= k < selected_mounts(mounts.take(i), selected).len() ==> #[trigger] selected_mounts(
                mounts.take(i),
                selected,
            )[k] == selected_mounts(mounts, selected)[k],
    decreases mounts.len() - i,
{
    if i < mounts.len() {
        lemma_selected_mounts_prefix(mounts, selected, i + 1);
        assert(mounts.take(i + 1).drop_last() =~= mounts.take(i));
        let a = selected_mounts(mounts.take(i), selected);
        let b = selected_mounts(mounts.take(i + 1), selected);
        assert forall|k: int| 0 <= k < a.len() implies #[trigger] a[k] == selected_mounts(
            mounts,
            selected,
        )[k] by {
            assert(a[k] == b[k]);
        }
    } else {
        assert(mounts.take(i) =~= mounts);
    }
}

/// For each mount the filter selects, in order, whether its skill's latest
/// version is newer: the registry is asked for each skill's latest version
/// (`selected_skill_latests`) and `update_statuses_from` reports each mount
/// against the answer for it.
pub fn mount_update_statuses(
    mounts: &Vec<TaskSkillMount>,
    selected: &Option<String>,
    registry: &dyn SkillRegistryRepository,
) -> (r: Result<Vec<SkillUpdateStatus>, ApplicationError>)
    ensures
        r matches Ok(v) ==> update_listing(v@, mounts@, *selected),
        r matches Err(e) ==> e is Domain,
{
    let latests = match selected_skill_latests(mounts, selected, registry) {
        Ok(latests) => latests,
        Err(e) => return Err(e),
    };
    let result = update_statuses_from(mounts, selected, &latests);
    assert(update_listing(result@, mounts@, *selected)) by {
        assert(#[trigger] latests@.len() == result@.len());
    }
    Ok(result)
}

/// `s` mounts the registered skill `d`: from its source, at the requested
/// version, or at its latest version when none is requested.
pub open spec fn mounted_from(s: SkillMountSummary, d: SkillDefinition, requested: Option<String>) -> bool {
    &&& s.source@ == d.source@
    &&& requested matches Some(v) ==> s.version@ == v@
    &&& requested is None ==> (d.latest matches Some(l) && s.version@ == l@)
}

/// A mount made without a requested version is at the skill's latest
/// version: never at another version the skill lists, and only when the
/// skill has a latest version at all.
pub proof fn law_mount_defaults_to_latest(s: SkillMountSummary, d: SkillDefinition)
    requires
        mounted_from(s, d, None),
    ensures
        d.latest is Some,
        forall|i: int|
            0 <= i < d.versions@.len() && (#[trigger] d.versions@[i])@ != d.latest->0@ ==> s.version@
                != d.versions@[i]@,
{
}

pub trait TaskSkillsApplicationService {
    fn mount_skill(&self, command: MountSkillCommand) -> (r: Result<
        SkillMountSummary,
        ApplicationError,
    >)
        ensures
            r matches Ok(s) ==> {
                &&& s.skill_id@ == command.skill_id@
                &&& s.status == TaskSkillMountStatus::Active
                &&& command.version matches Some(v) ==> s.version@ == v@
                &&& is_plain_segment(command.skill_id@) ==> three_part_path(
                    ".opencode"@,
                    "skills"@,
                    command.skill_id@,
                    s.path@,
                )
                &&& exists|d: SkillDefinition| #[trigger] mounted_from(s, d, command.version)
            },
            r matches Err(ApplicationError::InvalidRequest(m)) ==> command.version is None && m@
                == "skill version is required"@,
            r matches Err(e) ==> e is Domain || e is InvalidRequest,
    ;

    fn list_mounts(&self, slug: &TaskSlug) -> (r: Result<Vec<SkillMountSummary>, ApplicationError>)
        ensures
            r matches Ok(v) ==> exists|stored: Seq<TaskSkillMount>| #[trigger] mount_listing(
                v@,
                slug@,
                stored,
            ),
            r matches Ok(v) ==> forall|i: int| 0 <= i < v@.len() ==> (#[trigger] v@[i]).task_id@ == slug@,
            r matches Err(e) ==> e is Domain,
    ;

    fn unmount_skill(&self, command: UnmountSkillCommand) -> (r: Result<(), ApplicationError>)
        ensures
            r matches Err(e) ==> e is Domain,
    ;

    fn override_skill(&self, command: OverrideSkillCommand) -> (r: Result<(), ApplicationError>)
        ensures
            r matches Err(ApplicationError::AdapterUnavailable(port)) && port@ == "skill override"@,
    ;

    fn check_skill_updates(&self, query: CheckSkillUpdatesQuery) -> (r: Result<
        Vec<SkillUpdateStatus>,
        ApplicationError,
    >)
        ensures
            r matches Ok(v) ==> exists|stored: Seq<TaskSkillMount>| #[trigger] update_listing(
                v@,
                stored,
                query.mount_id,
            ),
            r matches Ok(v) ==> forall|i: int|
                0 <= i < v@.len() ==> mount_admitted(query.mount_id, (#[trigger] v@[i]).mount_id@),
            r matches Ok(v) ==> forall|i: int|
                0 <= i < v@.len() ==> ((#[trigger] v@[i]).update_available ==> v@[i].target_version is Some),
            r matches Err(e) ==> e is Domain,
    ;

    fn update_skill(&self, command: UpdateSkillCommand) -> (r: Result<
        SkillMountSummary,
        ApplicationError,
    >)
        ensures
            r matches Ok(s) ==> s.mount_id@ == command.mount_id@ && s.task_id@ == command.task_id@,
            r matches Err(ApplicationError::InvalidRequest(m)) ==> m@ == "no latest version available"@,
            r matches Err(e) ==> e is Domain || e is InvalidRequest,
    ;

    fn sandbox_skill(&self, command: SandboxSkillCommand) -> (r: Result<
        SkillSandboxHandle,
        ApplicationError,
    >)
        ensures
            r matches Ok(h) && h.mount_id@ == command.mount_id@ && three_part_path(
                "skills"@,
                "mounted"@,
                command.mount_id@,
                h.path@,
            ),
    ;
}

pub struct DefaultTaskSkillsApplicationService {
    tasks: Box<dyn TaskRepository>,
    mounts: Box<dyn TaskSkillMountRepository>,
    registry: Box<dyn SkillRegistryRepository>,
    clock: Box<dyn Clock>,
}

impl DefaultTaskSkillsApplicationService {
    pub fn new(
        tasks: Box<dyn TaskRepository>,
        mounts: Box<dyn TaskSkillMountRepository>,
        registry: Box<dyn SkillRegistryRepository>,
        clock: Box<dyn Clock>,
    ) -> Self {
        DefaultTaskSkillsApplicationService { tasks, mounts, registry, clock }
    }

    /// The stored task with this slug, or the not-found error for it.
    fn load_task(&self, task_ref: &str) -> (r: Result<TaskWorkspace, ApplicationError>)
        ensures
            r matches Err(e) ==> e is Domain,
    {
        let slug = TaskSlug::from(task_ref);
        let found = match self.tasks.find(&slug) {
            Ok(found) => found,
            Err(e) => return Err(ApplicationError::Domain(e)),
        };
        require_task(found, task_ref)
    }

    /// The registered skill with this id, or the not-found error for it.
    fn load_skill(&self, skill_id: &SkillId) -> (r: Result<SkillDefinition, ApplicationError>)
        ensures
            r matches Err(e) ==> e is Domain,
    {
        let found = match self.registry.find_skill(skill_id) {
            Ok(found) => found,
            Err(e) => return Err(ApplicationError::Domain(e)),
        };
        require_skill(found, skill_id)
    }
}

impl TaskSkillsApplicationService for DefaultTaskSkillsApplicationService {
    /// Mounts a registered skill into the task, at the version asked for or
    /// its latest, under a fresh mount id, and stores it after the task's
    /// other mounts.
    fn mount_skill(&self, command: MountSkillCommand) -> (r: Result<
        SkillMountSummary,
        ApplicationError,
    >)
    {
        let task = match self.load_task(command.task_id.as_str()) {
            Ok(task) => task,
            Err(e) => return Err(e),
        };
        let skill_id = SkillId::from(command.skill_id.as_str());
        let skill = match self.load_skill(&skill_id) {
            Ok(skill) => skill,
            Err(e) => return Err(e),
        };
        let version = match mount_version(command.version, &skill.latest) {
            Ok(version) => version,
            Err(e) => return Err(e),
        };
        let mounts = match self.mounts.list_for_task(&task.meta.slug) {
            Ok(mounts) => mounts,
            Err(e) => return Err(ApplicationError::Domain(e)),
        };
        let ghost registered = skill;
        let mount = new_mount(MountId::generate(), skill_id, version, skill.source, self.clock.now());
        let summary = to_summary(&task.meta.slug, &mount);
        assert(mounted_from(summary, registered, command.version));
        let mounts = with_new_mount(mounts, mount);
        match self.mounts.save_for_task(&task.meta.slug, mounts.as_slice()) {
            Ok(()) => {},
            Err(e) => return Err(ApplicationError::Domain(e)),
        }
        Ok(summary)
    }

    /// The task's mounts, in the order they are stored.
    fn list_mounts(&self, slug: &TaskSlug) -> (r: Result<Vec<SkillMountSummary>, ApplicationError>)
    {
        match self.mounts.list_for_task(slug) {
            Ok(mounts) => {
                let v = mount_summaries(slug, &mounts);
                let r = Ok(v);
                assert(r matches Ok(w) && mount_listing(w@, slug@, mounts@));
                r
            },
            Err(e) => Err(ApplicationError::Domain(e)),
        }
    }

    /// Removes the mount from the task's mounts.
    fn unmount_skill(&self, command: UnmountSkillCommand) -> (r: Result<(), ApplicationError>)
    {
        let slug = TaskSlug::from(command.task_id.as_str());
        let mount_id = MountId::from(command.mount_id.as_str());
        match self.mounts.remove_for_task(&slug, &mount_id) {
            Ok(()) => Ok(()),
            Err(e) => Err(ApplicationError::Domain(e)),
        }
    }

    /// Overriding a mounted skill's files has no adapter: always refused.
    fn override_skill(&self, command: OverrideSkillCommand) -> (r: Result<(), ApplicationError>)
    {
        Err(ApplicationError::AdapterUnavailable("skill override"))
    }

    /// For each of the task's mounts that the query selects, in order,
    /// whether the skill has a newer latest version.
    fn check_skill_updates(&self, query: CheckSkillUpdatesQuery) -> (r: Result<
        Vec<SkillUpdateStatus>,
        ApplicationError,
    >)
    {
        let task_id = TaskSlug::from(query.task_id.as_str());
        let mounts = match self.mounts.list_for_task(&task_id) {
            Ok(mounts) => mounts,
            Err(e) => return Err(ApplicationError::Domain(e)),
        };
        let result = mount_update_statuses(&mounts, &query.mount_id, &*self.registry);
        proof {
            if result is Ok {
                let v = result->Ok_0;
                assert(update_listing(v@, mounts@, query.mount_id));
                let sel = selected_mounts(mounts@, query.mount_id);
                let latest = choose|latest: Seq<Option<SkillVersion>>|
                    {
                        &&& #[trigger] latest.len() == v@.len()
                        &&& v@.len() == sel.len()
                        &&& forall|i: int|
                            0 <= i < v@.len() ==> reports_update(#[trigger] v@[i], sel[i], latest[i])
                    };
                lemma_selected_mounts_admitted(mounts@, query.mount_id);
                assert forall|i: int| 0 <= i < v@.len() implies mount_admitted(
                    query.mount_id,
                    (#[trigger] v@[i]).mount_id@,
                ) by {
                    assert(reports_update(v@[i], sel[i], latest[i]));
                }
                assert forall|i: int| 0 <= i < v@.len() && (#[trigger] v@[i]).update_available implies v@[
                    i].target_version is Some by {
                    assert(reports_update(v@[i], sel[i], latest[i]));
                }
            }
        }
        result
    }

    /// Moves a mount of the task to its skill's latest version and stores
    /// the task's mounts.
    fn update_skill(&self, command: UpdateSkillCommand) -> (r: Result<
        SkillMountSummary,
        ApplicationError,
    >)
    {
        let task_id = TaskSlug::from(command.task_id.as_str());
        let mount_id = MountId::from(command.mount_id.as_str());
        let mut mounts = match self.mounts.list_for_task(&task_id) {
            Ok(mounts) => mounts,
            Err(e) => return Err(ApplicationError::Domain(e)),
        };
        let index = match mount_position(&mounts, &mount_id) {
            Some(index) => index,
            None => {
                return Err(
                    ApplicationError::Domain(
                        DomainError::NotFound {
                            entity: EntityKind::Mount,
                            slug: mount_id.to_string(),
                        },
                    ),
                );
            },
        };
        let skill_id = mounts[index].skill_id.duplicate();
        let skill = match self.load_skill(&skill_id) {
            Ok(skill) => skill,
            Err(e) => return Err(e),
        };
        let mount = mounts.remove(index);
        let updated = match moved_to_latest(mount, &skill.latest) {
            Ok(updated) => updated,
            Err(e) => return Err(e),
        };
        let summary = to_summary(&task_id, &updated);
        mounts.insert(index, updated);
        match self.mounts.save_for_task(&task_id, mounts.as_slice()) {
            Ok(()) => {},
            Err(e) => return Err(ApplicationError::Domain(e)),
        }
        Ok(summary)
    }

    /// The sandbox of a mount: its id and `skills/mounted/<mount id>`.
    fn sandbox_skill(&self, command: SandboxSkillCommand) -> (r: Result<
        SkillSandboxHandle,
        ApplicationError,
    >)
    {
        let mount_id = MountId::from(command.mount_id.as_str());
        Ok(SkillSandboxHandle { mount_id: mount_id.to_string(), path: mount_path(&mount_id) })
    }
}

} // verus!
