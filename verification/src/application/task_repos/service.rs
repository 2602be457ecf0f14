//! The task repos service and the rules it applies.
use vstd::prelude::*;

use crate::application::error::ApplicationError;
use crate::application::paths::{is_plain_base, is_plain_segment, join_path, joined_path, path_exists};
use crate::application::ports::{Clock, CloneState, GitClient, GitError, RepoStatus};
use crate::application::repo_catalog::service::{catalog_lists_repo, has_repo};
use crate::application::task::service::{group_ids_name_texts, repo_group_ids, repo_ids, require_task};
use crate::application::task_repos::dtos::{
    AddTaskReposCommand, CloneStateFilter, CloneTaskReposCommand, RemoveTaskReposCommand,
    RepoCloneOutcome, RepoStatusQuery, SetTaskReposCommand, TaskRepoStatusItem, TaskReposResult,
};
use crate::application::repo_catalog::service::ids_name_texts;
use crate::domain::errors::{DomainError, EntityKind};
use crate::domain::repo_catalog::{RepoCatalog, RepoCatalogRepository, RepoEntry, RepoGroup};
use crate::domain::shared::{RepoGroupId, RepoId, TaskSlug, Timestamp};
use crate::domain::task::aggregate::TaskWorkspace;
use crate::domain::task::entities::{TaskActivity, TaskRepoSelection};
use crate::domain::task::repository::TaskRepository;
use crate::strings::str_eq;
use crate::text_sets::{insert_texts, sorted_unique, text_set, texts_contain};

verus! {

/// The texts of a list of repo ids.
pub open spec fn repo_texts(ids: Seq<RepoId>) -> Seq<Seq<char>> {
    Seq::new(ids.len(), |i: int| ids[i]@)
}

/// The texts of a list of repo group ids.
pub open spec fn group_texts(ids: Seq<RepoGroupId>) -> Seq<Seq<char>> {
    Seq::new(ids.len(), |i: int| ids[i]@)
}

/// The texts of a list of strings.
pub open spec fn string_texts(v: Seq<String>) -> Seq<Seq<char>> {
    Seq::new(v.len(), |i: int| v[i]@)
}

proof fn lemma_repo_texts_push(s: Seq<RepoId>, x: RepoId)
    ensures
        repo_texts(s.push(x)) == repo_texts(s).push(x@),
{
    assert(repo_texts(s.push(x)) =~= repo_texts(s).push(x@));
}

proof fn lemma_repo_texts_take(s: Seq<RepoId>, i: int)
    requires
        0 <= i < s.len(),
    ensures
        repo_texts(s.take(i + 1)) == repo_texts(s.take(i)).push(s[i]@),
{
    assert(s.take(i + 1) =~= s.take(i).push(s[i]));
    lemma_repo_texts_push(s.take(i), s[i]);
}

proof fn lemma_string_texts_push(s: Seq<String>, x: String)
    ensures
        string_texts(s.push(x)) == string_texts(s).push(x@),
{
    assert(string_texts(s.push(x)) =~= string_texts(s).push(x@));
}

proof fn lemma_group_texts_take(s: Seq<RepoGroupId>, i: int)
    requires
        0 <= i < s.len(),
    ensures
        group_texts(s.take(i + 1)) == group_texts(s.take(i)).push(s[i]@),
{
    assert(group_texts(s.take(i + 1)) =~= group_texts(s.take(i)).push(s[i]@));
}

/// The first group of the catalog with this id.
pub open spec fn group_named(groups: Seq<RepoGroup>, id: Seq<char>) -> Option<RepoGroup>
    decreases groups.len(),
{
    if groups.len() == 0 {
        None
    } else if groups[0].id@ == id {
        Some(groups[0])
    } else {
        group_named(groups.drop_first(), id)
    }
}

/// The first catalog entry with this id.
pub open spec fn repo_named(repos: Seq<RepoEntry>, id: Seq<char>) -> Option<RepoEntry>
    decreases repos.len(),
{
    if repos.len() == 0 {
        None
    } else if repos[0].id@ == id {
        Some(repos[0])
    } else {
        repo_named(repos.drop_first(), id)
    }
}

/// The repos of the wanted groups, one group after the other, as the catalog
/// lists them.
pub open spec fn group_repo_texts(groups: Seq<RepoGroup>, wanted: Seq<RepoGroupId>) -> Seq<
    Seq<char>,
>
    decreases wanted.len(),
{
    if wanted.len() == 0 {
        Seq::empty()
    } else {
        let before = group_repo_texts(groups, wanted.drop_last());
        match group_named(groups, wanted.last()@) {
            Some(g) => before + repo_texts(g.repos@),
            None => before,
        }
    }
}

/// `v` holds the repos of the wanted groups, every one of which catalog
/// `groups` lists, one group after the other.
pub open spec fn resolves_groups(v: Seq<RepoId>, groups: Seq<RepoGroup>, wanted: Seq<RepoGroupId>) -> bool {
    &&& all_groups_known(groups, wanted)
    &&& repo_texts(v) == group_repo_texts(groups, wanted)
}

pub open spec fn all_groups_known(groups: Seq<RepoGroup>, wanted: Seq<RepoGroupId>) -> bool {
    forall|j: int| 0 <= j < wanted.len() ==> (#[trigger] group_named(groups, wanted[j]@)) is Some
}

/// `k` is the first of the wanted groups that the catalog does not list.
pub open spec fn first_unknown_group(groups: Seq<RepoGroup>, wanted: Seq<RepoGroupId>, k: int) -> bool {
    &&& 0 <= k < wanted.len()
    &&& group_named(groups, wanted[k]@) is None
    &&& forall|j: int| 0 <= j < k ==> (#[trigger] group_named(groups, wanted[j]@)) is Some
}

pub open spec fn all_texts_known(repos: Seq<RepoEntry>, texts: Seq<Seq<char>>) -> bool {
    forall|j: int| 0 <= j < texts.len() ==> has_repo(repos, #[trigger] texts[j])
}

/// `k` is the first of the texts that names no repo of the catalog.
pub open spec fn first_unknown_text(repos: Seq<RepoEntry>, texts: Seq<Seq<char>>, k: int) -> bool {
    &&& 0 <= k < texts.len()
    &&& !has_repo(repos, texts[k])
    &&& forall|j: int| 0 <= j < k ==> has_repo(repos, #[trigger] texts[j])
}

/// The texts of `ts` that are not in `removed`, in their order.
pub open spec fn without_texts(ts: Seq<Seq<char>>, removed: Set<Seq<char>>) -> Seq<Seq<char>>
    decreases ts.len(),
{
    if ts.len() == 0 {
        Seq::empty()
    } else {
        let before = without_texts(ts.drop_last(), removed);
        if removed.contains(ts.last()) {
            before
        } else {
            before.push(ts.last())
        }
    }
}

/// A repo filter lets this repo through: there is none, or it names the repo.
pub open spec fn selection_admits(selected: Option<Vec<String>>, id: Seq<char>) -> bool {
    match selected {
        None => true,
        Some(v) => text_set(v@).contains(id),
    }
}

/// The group with this id, looked up in the catalog's list.
pub fn find_group<'a>(groups: &'a Vec<RepoGroup>, id: &RepoGroupId) -> (r: Option<&'a RepoGroup>)
    ensures
        r matches Some(g) ==> group_named(groups@, id@) == Some(*g),
        r is None ==> group_named(groups@, id@) is None,
{
    let mut i: usize = 0;
    assert(groups@.skip(0) =~= groups@);
    while i < groups.len()
        invariant
            i <= groups@.len(),
            group_named(groups@, id@) == group_named(groups@.skip(i as int), id@),
        decreases groups@.len() - i,
    {
        if str_eq(groups[i].id.as_str(), id.as_str()) {
            return Some(&groups[i]);
        }
        assert(groups@.skip(i as int).drop_first() =~= groups@.skip(i as int + 1));
        i = i + 1;
    }
    None
}

/// The catalog entry with this id, looked up in the catalog's list.
pub fn find_repo_entry<'a>(repos: &'a Vec<RepoEntry>, id: &RepoId) -> (r: Option<&'a RepoEntry>)
    ensures
        r matches Some(e) ==> repo_named(repos@, id@) == Some(*e),
        r is None ==> repo_named(repos@, id@) is None,
{
    let mut i: usize = 0;
    assert(repos@.skip(0) =~= repos@);
    while i < repos.len()
        invariant
            i <= repos@.len(),
            repo_named(repos@, id@) == repo_named(repos@.skip(i as int), id@),
        decreases repos@.len() - i,
    {
        if str_eq(repos[i].id.as_str(), id.as_str()) {
            return Some(&repos[i]);
        }
        assert(repos@.skip(i as int).drop_first() =~= repos@.skip(i as int + 1));
        i = i + 1;
    }
    None
}

/// A catalog entry is found by an id exactly when the catalog lists that id.
pub proof fn lemma_repo_named_iff_listed(repos: Seq<RepoEntry>, id: Seq<char>)
    ensures
        repo_named(repos, id) is Some <==> has_repo(repos, id),
        repo_named(repos, id) matches Some(e) ==> e.id@ == id,
    decreases repos.len(),
{
    if repos.len() > 0 {
        lemma_repo_named_iff_listed(repos.drop_first(), id);
        if has_repo(repos, id) && repos[0].id@ != id {
            let k = choose|k: int| 0 <= k < repos.len() && #[trigger] repos[k].id@ == id;
            assert(repos.drop_first()[k - 1].id@ == id);
        }
        if has_repo(repos.drop_first(), id) {
            let k = choose|k: int|
                0 <= k < repos.drop_first().len() && #[trigger] repos.drop_first()[k].id@ == id;
            assert(repos[k + 1].id@ == id);
        }
    }
}

/// Copies of repo ids, appended to `out`.
fn append_repo_ids(out: &mut Vec<RepoId>, ids: &Vec<RepoId>)
    ensures
        repo_texts(final(out)@) == repo_texts(old(out)@) + repo_texts(ids@),
{
    let ghost start = out@;
    let mut i: usize = 0;
    while i < ids.len()
        invariant
            i <= ids@.len(),
            repo_texts(out@) == repo_texts(start) + repo_texts(ids@.take(i as int)),
        decreases ids@.len() - i,
    {
        let ghost prev = out@;
        let id = ids[i].duplicate();
        out.push(id);
        proof {
            lemma_repo_texts_push(prev, id);
            lemma_repo_texts_take(ids@, i as int);
            assert(repo_texts(out@) =~= repo_texts(start) + repo_texts(ids@.take(i as int + 1)));
        }
        i = i + 1;
    }
    assert(ids@.take(ids@.len() as int) =~= ids@);
}

/// The repos of the wanted groups, one group after the other; the first
/// group the catalog does not list is reported as not found.
pub fn resolve_group_repos_in(catalog: &RepoCatalog, wanted: &Vec<RepoGroupId>) -> (r: Result<
    Vec<RepoId>,
    ApplicationError,
>)
    ensures
        all_groups_known(catalog.groups@, wanted@) ==> (r matches Ok(v) && repo_texts(v@)
            == group_repo_texts(catalog.groups@, wanted@)),
        !all_groups_known(catalog.groups@, wanted@) ==> exists|k: int|
            first_unknown_group(catalog.groups@, wanted@, k) && (r matches Err(
                ApplicationError::Domain(DomainError::NotFound { entity, slug }),
            ) && entity == EntityKind::RepoGroup && slug@ == (#[trigger] wanted@[k])@),
{
    let mut out: Vec<RepoId> = Vec::new();
    let mut i: usize = 0;
    assert(repo_texts(out@) =~= group_repo_texts(catalog.groups@, wanted@.take(0)));
    while i < wanted.len()
        invariant
            i <= wanted@.len(),
            repo_texts(out@) == group_repo_texts(catalog.groups@, wanted@.take(i as int)),
            forall|j: int|
                0 <= j < i ==> (#[trigger] group_named(catalog.groups@, wanted@[j]@)) is Some,
        decreases wanted@.len() - i,
    {
        proof {
            assert(wanted@.take(i as int + 1).drop_last() =~= wanted@.take(i as int));
            assert(wanted@.take(i as int + 1).last() == wanted@[i as int]);
        }
        match find_group(&catalog.groups, &wanted[i]) {
            Some(group) => {
                append_repo_ids(&mut out, &group.repos);
            },
            None => {
                assert(first_unknown_group(catalog.groups@, wanted@, i as int));
                return Err(
                    ApplicationError::Domain(
                        DomainError::NotFound {
                            entity: EntityKind::RepoGroup,
                            slug: wanted[i].to_string(),
                        },
                    ),
                );
            },
        }
        i = i + 1;
    }
    assert(wanted@.take(wanted@.len() as int) =~= wanted@);
    Ok(out)
}

/// Checks that the catalog lists every repo; the first one it does not list
/// is reported as not found.
pub fn check_repos_exist(catalog: &RepoCatalog, ids: &Vec<RepoId>) -> (r: Result<(), ApplicationError>)
    ensures
        all_texts_known(catalog.repos@, repo_texts(ids@)) <==> r is Ok,
        !all_texts_known(catalog.repos@, repo_texts(ids@)) ==> exists|k: int|
            first_unknown_text(catalog.repos@, repo_texts(ids@), k) && (r matches Err(
                ApplicationError::Domain(DomainError::NotFound { entity, slug }),
            ) && entity == EntityKind::Repo && slug@ == (#[trigger] ids@[k])@),
{
    let mut i: usize = 0;
    while i < ids.len()
        invariant
            i <= ids@.len(),
            forall|j: int| 0 <= j < i ==> has_repo(catalog.repos@, #[trigger] repo_texts(ids@)[j]),
        decreases ids@.len() - i,
    {
        if !catalog_lists_repo(&catalog.repos, ids[i].as_str()) {
            assert(first_unknown_text(catalog.repos@, repo_texts(ids@), i as int));
            return Err(
                ApplicationError::Domain(
                    DomainError::NotFound { entity: EntityKind::Repo, slug: ids[i].to_string() },
                ),
            );
        }
        i = i + 1;
    }
    Ok(())
}

/// The texts of repo ids, one for one.
pub fn repo_id_strings(ids: &Vec<RepoId>) -> (r: Vec<String>)
    ensures
        string_texts(r@) == repo_texts(ids@),
{
    let mut out: Vec<String> = Vec::new();
    let mut i: usize = 0;
    while i < ids.len()
        invariant
            i <= ids@.len(),
            string_texts(out@) == repo_texts(ids@.take(i as int)),
        decreases ids@.len() - i,
    {
        let ghost prev = out@;
        let text = ids[i].to_string();
        out.push(text);
        proof {
            lemma_string_texts_push(prev, text);
            lemma_repo_texts_take(ids@, i as int);
        }
        i = i + 1;
    }
    assert(ids@.take(ids@.len() as int) =~= ids@);
    out
}

/// The texts of repo group ids, one for one.
pub fn group_id_strings(ids: &Vec<RepoGroupId>) -> (r: Vec<String>)
    ensures
        string_texts(r@) == group_texts(ids@),
{
    let mut out: Vec<String> = Vec::new();
    let mut i: usize = 0;
    while i < ids.len()
        invariant
            i <= ids@.len(),
            string_texts(out@) == group_texts(ids@.take(i as int)),
        decreases ids@.len() - i,
    {
        let ghost prev = out@;
        let text = ids[i].to_string();
        out.push(text);
        proof {
            lemma_string_texts_push(prev, text);
            lemma_group_texts_take(ids@, i as int);
        }
        i = i + 1;
    }
    assert(ids@.take(ids@.len() as int) =~= ids@);
    out
}

/// A list's texts as a set is the set of its elements' texts.
pub proof fn lemma_text_set_is_texts(v: Seq<String>)
    ensures
        text_set(v) == string_texts(v).to_set(),
{
    assert forall|t: Seq<char>| #[trigger] text_set(v).contains(t) == string_texts(v).to_set().contains(t) by {
        if text_set(v).contains(t) {
            let k = choose|k: int| 0 <= k < v.len() && #[trigger] v[k]@ == t;
            assert(string_texts(v)[k] == t);
        }
        if string_texts(v).to_set().contains(t) {
            let k = choose|k: int| 0 <= k < v.len() && #[trigger] string_texts(v)[k] == t;
            assert(v[k]@ == t);
        }
    }
    assert(text_set(v) =~= string_texts(v).to_set());
}

/// The union of the repos `base` and the texts `extra`, sorted, each once:
/// what collecting both into a `BTreeSet<String>` yields.
pub fn merged_repo_texts(base: &Vec<RepoId>, extra: &Vec<String>) -> (r: Vec<String>)
    ensures
        sorted_unique(r@),
        string_texts(r@).to_set() == repo_texts(base@).to_set().union(string_texts(extra@).to_set()),
{
    let base_texts = repo_id_strings(base);
    let mut out: Vec<String> = Vec::new();
    assert(text_set(out@) =~= Set::<Seq<char>>::empty());
    insert_texts(&mut out, &base_texts);
    insert_texts(&mut out, extra);
    proof {
        lemma_text_set_is_texts(out@);
        lemma_text_set_is_texts(base_texts@);
        lemma_text_set_is_texts(extra@);
        assert(Set::<Seq<char>>::empty().union(text_set(base_texts@)) =~= text_set(base_texts@));
    }
    out
}

/// The repos whose ids are not among `removed`, in their order.
pub fn kept_repo_ids(repos: &Vec<RepoId>, removed: &Vec<String>) -> (r: Vec<RepoId>)
    ensures
        repo_texts(r@) == without_texts(repo_texts(repos@), text_set(removed@)),
{
    let mut out: Vec<RepoId> = Vec::new();
    let mut i: usize = 0;
    assert(repo_texts(repos@.take(0)) =~= Seq::<Seq<char>>::empty());
    while i < repos.len()
        invariant
            i <= repos@.len(),
            repo_texts(out@) == without_texts(repo_texts(repos@.take(i as int)), text_set(removed@)),
        decreases repos@.len() - i,
    {
        proof {
            lemma_repo_texts_take(repos@, i as int);
            assert(repo_texts(repos@.take(i as int + 1)).drop_last() =~= repo_texts(
                repos@.take(i as int),
            ));
        }
        if !texts_contain(removed, repos[i].as_str()) {
            let ghost prev = out@;
            let id = repos[i].duplicate();
            out.push(id);
            proof {
                lemma_repo_texts_push(prev, id);
            }
        }
        i = i + 1;
    }
    assert(repos@.take(repos@.len() as int) =~= repos@);
    out
}

/// What `without_texts` keeps: the texts of `ts` that are not removed.
pub proof fn lemma_without_texts_contains(ts: Seq<Seq<char>>, removed: Set<Seq<char>>)
    ensures
        forall|t: Seq<char>| #[trigger] without_texts(ts, removed).contains(t) <==> (ts.contains(t)
            && !removed.contains(t)),
    decreases ts.len(),
{
    if ts.len() > 0 {
        lemma_without_texts_contains(ts.drop_last(), removed);
        let before = without_texts(ts.drop_last(), removed);
        assert forall|t: Seq<char>| #[trigger] without_texts(ts, removed).contains(t) <==> (
        ts.contains(t) && !removed.contains(t)) by {
            if ts.contains(t) && t != ts.last() {
                let k = choose|k: int| 0 <= k < ts.len() && ts[k] == t;
                assert(ts.drop_last()[k] == t);
            }
            if ts.drop_last().contains(t) {
                let k = choose|k: int| 0 <= k < ts.drop_last().len() && ts.drop_last()[k] == t;
                assert(ts[k] == t);
            }
            if !removed.contains(ts.last()) {
                if before.contains(t) {
                    let k = choose|k: int| 0 <= k < before.len() && before[k] == t;
                    assert(before.push(ts.last())[k] == t);
                }
                if before.push(ts.last()).contains(t) {
                    let k = choose|k: int|
                        0 <= k < before.len() + 1 && before.push(ts.last())[k] == t;
                    if k < before.len() {
                        assert(before[k] == t);
                    }
                }
                if t == ts.last() {
                    assert(before.push(ts.last())[before.len() as int] == t);
                }
            }
            if t == ts.last() {
                assert(ts[ts.len() - 1] == t);
            }
        }
    }
}

/// What `without_texts` keeps, as sets.
pub proof fn lemma_without_texts_contents(ts: Seq<Seq<char>>, removed: Set<Seq<char>>)
    ensures
        without_texts(ts, removed).to_set() == ts.to_set().difference(removed),
{
    lemma_without_texts_contains(ts, removed);
    assert(without_texts(ts, removed).to_set() =~= ts.to_set().difference(removed));
}

/// Removing the repos that were just added takes away exactly those: of a
/// selection made of `before` and `added`, removing `added` leaves the repos
/// of `before` that are not among them.
pub proof fn law_remove_undoes_add(before: Seq<RepoId>, added: Seq<String>, merged: Seq<String>)
    requires
        string_texts(merged).to_set() == repo_texts(before).to_set().union(
            string_texts(added).to_set(),
        ),
    ensures
        without_texts(string_texts(merged), text_set(added)).to_set() == repo_texts(
            before,
        ).to_set().difference(text_set(added)),
{
    lemma_without_texts_contents(string_texts(merged), text_set(added));
    lemma_text_set_is_texts(added);
    assert(string_texts(merged).to_set().difference(text_set(added)) =~= repo_texts(
        before,
    ).to_set().difference(text_set(added)));
}

/// The task with a new repo selection, touched at `t`.
pub open spec fn reselected_task(
    w: TaskWorkspace,
    groups: Vec<RepoGroupId>,
    repos: Vec<RepoId>,
    t: Timestamp,
) -> TaskWorkspace {
    TaskWorkspace {
        repos: TaskRepoSelection { selected_repo_groups: groups, repos: repos },
        activity: TaskActivity { updated_at: t, last_activity_at: Some(t), ..w.activity },
        ..w
    }
}

/// The task touched at `t`: updated and last active then.
pub open spec fn touched_task(w: TaskWorkspace, t: Timestamp) -> TaskWorkspace {
    TaskWorkspace {
        activity: TaskActivity { updated_at: t, last_activity_at: Some(t), ..w.activity },
        ..w
    }
}

/// `r` reports the repo selection of task `w`, updated at `t`.
pub open spec fn reports_selection(r: TaskReposResult, w: TaskWorkspace, t: Timestamp) -> bool {
    &&& r.task_id@ == w.meta.slug@
    &&& string_texts(r.selected_repo_groups@) == group_texts(w.repos.selected_repo_groups@)
    &&& string_texts(r.repos@) == repo_texts(w.repos.repos@)
    &&& r.updated_at == t
}

/// The task with the given repo selection, touched at `now`.
pub fn with_repo_selection(
    task: TaskWorkspace,
    groups: Vec<RepoGroupId>,
    repos: Vec<RepoId>,
    now: Timestamp,
) -> (r: TaskWorkspace)
    ensures
        r == reselected_task(task, groups, repos, now),
{
    let mut task = task;
    task.repos.selected_repo_groups = groups;
    task.repos.repos = repos;
    task.activity.updated_at = now;
    task.activity.last_activity_at = Some(now);
    task
}

/// The task touched at `now`.
pub fn touch_task(task: TaskWorkspace, now: Timestamp) -> (r: TaskWorkspace)
    ensures
        r == touched_task(task, now),
{
    let mut task = task;
    task.activity.updated_at = now;
    task.activity.last_activity_at = Some(now);
    task
}

/// The report of a task's repo selection, updated at `now`.
pub fn task_repos_result(task: &TaskWorkspace, now: Timestamp) -> (r: TaskReposResult)
    ensures
        reports_selection(r, *task, now),
{
    TaskReposResult {
        task_id: task.meta.slug.to_string(),
        selected_repo_groups: group_id_strings(&task.repos.selected_repo_groups),
        repos: repo_id_strings(&task.repos.repos),
        updated_at: now,
    }
}

/// Where a repo of the task is cloned: under the task's repos directory, in
/// a directory named by the repo's id.
pub open spec fn repo_path_in(base: Seq<char>, id: Seq<char>, path: Seq<char>) -> bool {
    is_plain_segment(id) && is_plain_base(base) ==> joined_path(base, id, path)
}

/// The path a repo of the task is cloned to.
pub fn task_repo_path(task: &TaskWorkspace, repo_id: &RepoId) -> (r: String)
    ensures
        repo_path_in(task.paths.repos_dir@, repo_id@, r@),
{
    join_path(task.paths.repos_dir.as_str(), repo_id.as_str())
}

/// Whether a repo filter lets this repo through.
pub fn is_selected(selected: &Option<Vec<String>>, id: &str) -> (r: bool)
    ensures
        r == selection_admits(*selected, id@),
{
    match selected {
        None => true,
        Some(v) => texts_contain(v, id),
    }
}

/// A repo of the task that a clone request is about.
pub struct CloneCandidate {
    pub repo_id: RepoId,
    pub path: String,
    pub url: String,
}

/// A repo a clone request goes on to, with whether it was present on disk.
pub struct CloneTarget {
    pub repo_id: RepoId,
    pub path: String,
    pub url: String,
    pub exists: bool,
}

/// The task's repos that the filter lets through, in their order.
pub open spec fn selected_repos(ids: Seq<RepoId>, selected: Option<Vec<String>>) -> Seq<RepoId>
    decreases ids.len(),
{
    if ids.len() == 0 {
        Seq::empty()
    } else {
        let before = selected_repos(ids.drop_last(), selected);
        if selection_admits(selected, ids.last()@) {
            before.push(ids.last())
        } else {
            before
        }
    }
}

pub open spec fn selected_known(
    ids: Seq<RepoId>,
    selected: Option<Vec<String>>,
    repos: Seq<RepoEntry>,
) -> bool {
    forall|j: int|
        0 <= j < ids.len() && selection_admits(selected, #[trigger] ids[j]@) ==> has_repo(
            repos,
            ids[j]@,
        )
}

/// `k` is the first of the task's repos that the filter lets through and the
/// catalog does not list.
pub open spec fn first_unknown_selected(
    ids: Seq<RepoId>,
    selected: Option<Vec<String>>,
    repos: Seq<RepoEntry>,
    k: int,
) -> bool {
    &&& 0 <= k < ids.len()
    &&& selection_admits(selected, ids[k]@)
    &&& !has_repo(repos, ids[k]@)
    &&& forall|j: int|
        0 <= j < k && selection_admits(selected, #[trigger] ids[j]@) ==> has_repo(repos, ids[j]@)
}

/// `c` is the clone candidate for repo `id` of a task whose repos live under
/// `base`, with the catalog's url for it.
pub open spec fn candidate_for(c: CloneCandidate, id: RepoId, base: Seq<char>, repos: Seq<RepoEntry>) -> bool {
    &&& c.repo_id@ == id@
    &&& repo_named(repos, id@) matches Some(e) && c.url == e.url
    &&& repo_path_in(base, id@, c.path@)
}

/// The repos of the task a clone request is about, with their paths and the
/// catalog's urls: the task's repos that the filter lets through, in their
/// order. The first of them that the catalog does not list is reported as
/// not found.
pub fn plan_clone_candidates(
    task: &TaskWorkspace,
    catalog: &RepoCatalog,
    selected: &Option<Vec<String>>,
) -> (r: Result<Vec<CloneCandidate>, ApplicationError>)
    ensures
        selected_known(task.repos.repos@, *selected, catalog.repos@) ==> (r matches Ok(v) && {
            let sel = selected_repos(task.repos.repos@, *selected);
            &&& v@.len() == sel.len()
            &&& forall|i: int|
                0 <= i < v@.len() ==> candidate_for(
                    #[trigger] v@[i],
                    sel[i],
                    task.paths.repos_dir@,
                    catalog.repos@,
                )
        }),
        !selected_known(task.repos.repos@, *selected, catalog.repos@) ==> exists|k: int|
            first_unknown_selected(task.repos.repos@, *selected, catalog.repos@, k) && (r matches Err(
                ApplicationError::Domain(DomainError::NotFound { entity, slug }),
            ) && entity == EntityKind::Repo && slug@ == (#[trigger] task.repos.repos@[k])@),
{
    let mut out: Vec<CloneCandidate> = Vec::new();
    let mut i: usize = 0;
    while i < task.repos.repos.len()
        invariant
            i <= task.repos.repos@.len(),
            selected_known(task.repos.repos@.take(i as int), *selected, catalog.repos@),
            out@.len() == selected_repos(task.repos.repos@.take(i as int), *selected).len(),
            forall|j: int|
                0 <= j < out@.len() ==> candidate_for(
                    #[trigger] out@[j],
                    selected_repos(task.repos.repos@.take(i as int), *selected)[j],
                    task.paths.repos_dir@,
                    catalog.repos@,
                ),
        decreases task.repos.repos@.len() - i,
    {
        proof {
            assert(task.repos.repos@.take(i as int + 1).drop_last() =~= task.repos.repos@.take(i as int));
            assert(task.repos.repos@.take(i as int + 1).last() == task.repos.repos@[i as int]);
        }
        if is_selected(selected, task.repos.repos[i].as_str()) {
            match find_repo_entry(&catalog.repos, &task.repos.repos[i]) {
                None => {
                    proof {
                        lemma_repo_named_iff_listed(catalog.repos@, task.repos.repos@[i as int]@);
                        assert forall|j: int|
                            0 <= j < i && selection_admits(
                                *selected,
                                #[trigger] task.repos.repos@[j]@,
                            ) implies has_repo(catalog.repos@, task.repos.repos@[j]@) by {
                            assert(task.repos.repos@.take(i as int)[j] == task.repos.repos@[j]);
                        }
                        assert(first_unknown_selected(task.repos.repos@, *selected, catalog.repos@, i as int));
                        assert(!has_repo(catalog.repos@, task.repos.repos@[i as int]@));
                        assert(!selected_known(task.repos.repos@, *selected, catalog.repos@));
                    }
                    return Err(
                        ApplicationError::Domain(
                            DomainError::NotFound {
                                entity: EntityKind::Repo,
                                slug: task.repos.repos[i].to_string(),
                            },
                        ),
                    );
                },
                Some(entry) => {
                    proof {
                        lemma_repo_named_iff_listed(catalog.repos@, task.repos.repos@[i as int]@);
                    }
                    let candidate = CloneCandidate {
                        repo_id: task.repos.repos[i].duplicate(),
                        path: task_repo_path(task, &task.repos.repos[i]),
                        url: entry.url.clone(),
                    };
                    out.push(candidate);
                },
            }
        }
        proof {
            assert forall|j: int|
                0 <= j < i + 1 && selection_admits(
                    *selected,
                    #[trigger] task.repos.repos@.take(i as int + 1)[j]@,
                ) implies has_repo(catalog.repos@, task.repos.repos@.take(i as int + 1)[j]@) by {
                if j < i {
                    assert(task.repos.repos@.take(i as int + 1)[j] == task.repos.repos@.take(i as int)[j]);
                }
            }
        }
        i = i + 1;
    }
    proof {
        assert(task.repos.repos@.take(task.repos.repos@.len() as int) =~= task.repos.repos@);
    }
    Ok(out)
}

/// The clone targets that remain of the candidates, given whether each was
/// present on disk: with `missing_only`, the present ones are dropped.
pub open spec fn kept_targets(
    candidates: Seq<CloneCandidate>,
    present: Seq<bool>,
    missing_only: bool,
) -> Seq<CloneTarget>
    decreases candidates.len(),
{
    if candidates.len() == 0 {
        Seq::empty()
    } else {
        let before = kept_targets(candidates.drop_last(), present.drop_last(), missing_only);
        let c = candidates.last();
        if missing_only && present.last() {
            before
        } else {
            before.push(CloneTarget { repo_id: c.repo_id, path: c.path, url: c.url, exists: present.last() })
        }
    }
}

/// Whether something is on disk at each candidate's path, in order. What is
/// on disk is not the library's to know; only the count is stated.
pub fn probe_presence(candidates: &Vec<CloneCandidate>) -> (r: Vec<bool>)
    ensures
        r@.len() == candidates@.len(),
{
    let mut present: Vec<bool> = Vec::new();
    let mut i: usize = 0;
    while i < candidates.len()
        invariant
            i <= candidates@.len(),
            present@.len() == i,
        decreases candidates@.len() - i,
    {
        present.push(path_exists(candidates[i].path.as_str()));
        i = i + 1;
    }
    present
}

/// The clone targets that remain of the candidates, given whether each is
/// present on disk: with `missing_only`, the present ones are dropped.
pub fn kept_targets_exec(candidates: Vec<CloneCandidate>, present: &Vec<bool>, missing_only: bool) -> (r: Vec<
    CloneTarget,
>)
    requires
        present@.len() == candidates@.len(),
    ensures
        r@ == kept_targets(candidates@, present@, missing_only),
{
    let ghost all = candidates@;
    let n: usize = candidates.len();
    let mut rest = candidates;
    let mut out: Vec<CloneTarget> = Vec::new();
    let mut i: usize = 0;
    while rest.len() > 0
        invariant
            i <= all.len(),
            all.len() == n,
            present@.len() == n,
            rest@ == all.skip(i as int),
            out@ == kept_targets(all.take(i as int), present@.take(i as int), missing_only),
        decreases rest@.len(),
    {
        let candidate = rest.remove(0);
        let exists = present[i];
        proof {
            assert(all.take(i as int + 1).drop_last() =~= all.take(i as int));
            assert(all.take(i as int + 1).last() == all[i as int]);
            assert(present@.take(i as int + 1).drop_last() =~= present@.take(i as int));
            assert(present@.take(i as int + 1).last() == exists);
        }
        if !(missing_only && exists) {
            out.push(
                CloneTarget {
                    repo_id: candidate.repo_id,
                    path: candidate.path,
                    url: candidate.url,
                    exists,
                },
            );
        }
        assert(rest@ =~= all.skip(i as int + 1));
        i = i + 1;
    }
    assert(all.take(i as int) =~= all);
    assert(present@.take(i as int) =~= present@);
    out
}

/// Looks on disk for each candidate's path and keeps the targets a clone
/// request goes on to, as `kept_targets_exec` does for the disk's answers.
pub fn probe_clone_targets(candidates: Vec<CloneCandidate>, missing_only: bool) -> (r: Vec<CloneTarget>)
    ensures
        exists|present: Seq<bool>|
            present.len() == candidates@.len() && r@ == kept_targets(
                candidates@,
                present,
                missing_only,
            ),
{
    let present = probe_presence(&candidates);
    kept_targets_exec(candidates, &present, missing_only)
}

/// `o` reports target `t` of a dry run: nothing cloned, and why.
pub open spec fn reports_dry_run(o: RepoCloneOutcome, t: CloneTarget) -> bool {
    &&& o.repo_id@ == t.repo_id@
    &&& o.path == t.path
    &&& !o.cloned
    &&& o.dry_run
    &&& o.skipped_reason matches Some(m) && m@ == (if t.exists {
        "already present"@
    } else {
        "dry-run"@
    })
}

/// `o` reports target `t` as skipped because it is present already.
pub open spec fn reports_present(o: RepoCloneOutcome, t: CloneTarget) -> bool {
    &&& o.repo_id@ == t.repo_id@
    &&& o.path == t.path
    &&& !o.cloned
    &&& !o.dry_run
    &&& o.skipped_reason matches Some(m) && m@ == "already present"@
}

/// `o` reports target `t` as cloned.
pub open spec fn reports_cloned(o: RepoCloneOutcome, t: CloneTarget) -> bool {
    &&& o.repo_id@ == t.repo_id@
    &&& o.path == t.path
    &&& o.cloned
    &&& !o.dry_run
    &&& o.skipped_reason is None
}

pub fn dry_run_outcome(target: &CloneTarget) -> (r: RepoCloneOutcome)
    ensures
        reports_dry_run(r, *target),
{
    let reason = if target.exists {
        "already present".to_owned()
    } else {
        "dry-run".to_owned()
    };
    RepoCloneOutcome {
        repo_id: target.repo_id.to_string(),
        path: target.path.clone(),
        cloned: false,
        dry_run: true,
        skipped_reason: Some(reason),
    }
}

pub fn present_outcome(target: &CloneTarget) -> (r: RepoCloneOutcome)
    ensures
        reports_present(r, *target),
{
    RepoCloneOutcome {
        repo_id: target.repo_id.to_string(),
        path: target.path.clone(),
        cloned: false,
        dry_run: false,
        skipped_reason: Some("already present".to_owned()),
    }
}

pub fn cloned_outcome(target: &CloneTarget) -> (r: RepoCloneOutcome)
    ensures
        reports_cloned(r, *target),
{
    RepoCloneOutcome {
        repo_id: target.repo_id.to_string(),
        path: target.path.clone(),
        cloned: true,
        dry_run: false,
        skipped_reason: None,
    }
}

/// The report of a dry run: one outcome per target, in order.
pub fn dry_run_outcomes(targets: &Vec<CloneTarget>) -> (r: Vec<RepoCloneOutcome>)
    ensures
        r@.len() == targets@.len(),
        forall|i: int| 0 <= i < r@.len() ==> reports_dry_run(#[trigger] r@[i], targets@[i]),
{
    let mut out: Vec<RepoCloneOutcome> = Vec::new();
    let mut i: usize = 0;
    while i < targets.len()
        invariant
            i <= targets@.len(),
            out@.len() == i,
            forall|j: int| 0 <= j < i ==> reports_dry_run(#[trigger] out@[j], targets@[j]),
        decreases targets@.len() - i,
    {
        out.push(dry_run_outcome(&targets[i]));
        i = i + 1;
    }
    out
}

/// A git failure, reported against the git port.
pub fn git_failure(error: GitError) -> (r: ApplicationError)
    ensures
        r matches ApplicationError::ExternalFailure { port, detail } && port@ == "git"@ && detail@
            == error.detail@,
{
    ApplicationError::ExternalFailure { port: "git", detail: error.to_string() }
}

/// The clone state a filter asks for.
pub open spec fn filter_state(f: CloneStateFilter) -> CloneState {
    match f {
        CloneStateFilter::Missing => CloneState::Missing,
        CloneStateFilter::Ready => CloneState::Ready,
        CloneStateFilter::Dirty => CloneState::Dirty,
        CloneStateFilter::Unknown => CloneState::Unknown,
    }
}

/// A clone-state filter lets this state through: there is none, or it asks
/// for this state.
pub open spec fn state_admitted(filter: Option<CloneStateFilter>, state: CloneState) -> bool {
    match filter {
        None => true,
        Some(f) => filter_state(f) == state,
    }
}

pub fn state_passes(filter: &Option<CloneStateFilter>, state: CloneState) -> (r: bool)
    ensures
        r == state_admitted(*filter, state),
{
    match filter {
        None => true,
        Some(f) => match (f, state) {
            (CloneStateFilter::Missing, CloneState::Missing) => true,
            (CloneStateFilter::Ready, CloneState::Ready) => true,
            (CloneStateFilter::Dirty, CloneState::Dirty) => true,
            (CloneStateFilter::Unknown, CloneState::Unknown) => true,
            _ => false,
        },
    }
}

/// The status a dry run reports for a repo, from whether its path exists:
/// no branch, clean, level with its remote, and ready or missing.
pub open spec fn dry_run_status_of(exists: bool) -> RepoStatus {
    RepoStatus {
        branch: None,
        dirty: false,
        ahead: 0,
        behind: 0,
        clone_state: if exists {
            CloneState::Ready
        } else {
            CloneState::Missing
        },
    }
}

pub fn dry_run_status(exists: bool) -> (r: RepoStatus)
    ensures
        r == dry_run_status_of(exists),
{
    RepoStatus {
        branch: None,
        dirty: false,
        ahead: 0,
        behind: 0,
        clone_state: if exists {
            CloneState::Ready
        } else {
            CloneState::Missing
        },
    }
}

/// Whether a target of a clone request is missing from disk.
pub fn any_missing(targets: &Vec<CloneTarget>) -> (r: bool)
    ensures
        r == exists|i: int| 0 <= i < targets@.len() && !(#[trigger] targets@[i]).exists,
{
    let mut i: usize = 0;
    while i < targets.len()
        invariant
            i <= targets@.len(),
            forall|j: int| 0 <= j < i ==> (#[trigger] targets@[j]).exists,
        decreases targets@.len() - i,
    {
        if !targets[i].exists {
            return true;
        }
        i = i + 1;
    }
    false
}

/// `o` reports what a real clone run did with target `t`: skipped as present,
/// or cloned.
pub open spec fn reports_run(o: RepoCloneOutcome, t: CloneTarget) -> bool {
    if t.exists {
        reports_present(o, t)
    } else {
        reports_cloned(o, t)
    }
}

/// Clones with git, in order, each target that is not present on disk;
/// present targets are reported as skipped. The first git failure ends the
/// run and is reported against the git port.
pub fn clone_missing_targets(targets: &Vec<CloneTarget>, git: &dyn GitClient) -> (r: Result<
    Vec<RepoCloneOutcome>,
    ApplicationError,
>)
    ensures
        r matches Ok(v) ==> v@.len() == targets@.len() && forall|i: int|
            0 <= i < v@.len() ==> reports_run(#[trigger] v@[i], targets@[i]),
        r matches Err(e) ==> (e matches ApplicationError::ExternalFailure { port, .. } && port@
            == "git"@),
        r is Err ==> exists|i: int| 0 <= i < targets@.len() && !(#[trigger] targets@[i]).exists,
{
    let mut outcomes: Vec<RepoCloneOutcome> = Vec::new();
    let mut i: usize = 0;
    while i < targets.len()
        invariant
            i <= targets@.len(),
            outcomes@.len() == i,
            forall|j: int| 0 <= j < i ==> reports_run(#[trigger] outcomes@[j], targets@[j]),
        decreases targets@.len() - i,
    {
        let target = &targets[i];
        if target.exists {
            outcomes.push(present_outcome(target));
        } else {
            match git.clone_repo(target.path.as_str(), target.url.as_str()) {
                Ok(()) => {},
                Err(e) => {
                    assert(!targets@[i as int].exists);
                    return Err(git_failure(e));
                },
            }
            outcomes.push(cloned_outcome(target));
        }
        i = i + 1;
    }
    Ok(outcomes)
}

/// The repos and statuses a status query lists: of the selected repos, each
/// with the status it got, those whose clone state the filter admits.
pub open spec fn admitted_statuses(
    ids: Seq<RepoId>,
    statuses: Seq<RepoStatus>,
    filter: Option<CloneStateFilter>,
) -> Seq<(Seq<char>, RepoStatus)>
    decreases ids.len(),
{
    if ids.len() == 0 {
        Seq::empty()
    } else {
        let before = admitted_statuses(ids.drop_last(), statuses.drop_last(), filter);
        if state_admitted(filter, statuses.last().clone_state) {
            before.push((ids.last()@, statuses.last()))
        } else {
            before
        }
    }
}

/// `items` show the repos and statuses of `listed`, each at its path under
/// the task's repos directory `base`.
pub open spec fn shows_statuses(
    items: Seq<TaskRepoStatusItem>,
    listed: Seq<(Seq<char>, RepoStatus)>,
    base: Seq<char>,
) -> bool {
    &&& items.len() == listed.len()
    &&& forall|i: int|
        0 <= i < items.len() ==> {
            &&& (#[trigger] items[i]).repo_id@ == listed[i].0
            &&& items[i].status == listed[i].1
            &&& repo_path_in(base, items[i].repo_id@, items[i].path@)
        }
}

/// `v` is what a status query lists for task `t`, for some status each
/// selected repo got: a dry run's statuses are those `dry_run_status_of` gives.
pub open spec fn status_listing(v: Seq<TaskRepoStatusItem>, t: TaskWorkspace, query: RepoStatusQuery) -> bool {
    exists|statuses: Seq<RepoStatus>|
        {
            &&& #[trigger] statuses.len() == selected_repos(t.repos.repos@, query.repos).len()
            &&& query.dry_run ==> forall|j: int|
                0 <= j < statuses.len() ==> #[trigger] statuses[j] == dry_run_status_of(true)
                    || statuses[j] == dry_run_status_of(false)
            &&& shows_statuses(
                v,
                admitted_statuses(selected_repos(t.repos.repos@, query.repos), statuses, query.clone_state),
                t.paths.repos_dir@,
            )
        }
}

/// The candidates `cands` are those of the repos of `t` that the filter
/// selects, in order, with their paths and the urls of catalog `repos`.
pub open spec fn planned_candidates(
    cands: Seq<CloneCandidate>,
    t: TaskWorkspace,
    repos: Seq<RepoEntry>,
    selected: Option<Vec<String>>,
) -> bool {
    &&& cands.len() == selected_repos(t.repos.repos@, selected).len()
    &&& forall|i: int|
        0 <= i < cands.len() ==> candidate_for(
            #[trigger] cands[i],
            selected_repos(t.repos.repos@, selected)[i],
            t.paths.repos_dir@,
            repos,
        )
}

/// `targets` are the clone targets of task `t` against catalog `repos`, for
/// the presence on disk `present` of each candidate.
pub open spec fn targets_from(
    targets: Seq<CloneTarget>,
    t: TaskWorkspace,
    repos: Seq<RepoEntry>,
    cands: Seq<CloneCandidate>,
    present: Seq<bool>,
    selected: Option<Vec<String>>,
    missing_only: bool,
) -> bool {
    &&& planned_candidates(cands, t, repos, selected)
    &&& present.len() == cands.len()
    &&& targets == kept_targets(cands, present, missing_only)
}

/// `v` is what a clone request for the repos of task `t` reports, for some
/// catalog and some presence on disk of each candidate.
pub open spec fn clone_run_of(
    v: Seq<RepoCloneOutcome>,
    t: TaskWorkspace,
    selected: Option<Vec<String>>,
    missing_only: bool,
    dry_run: bool,
) -> bool {
    exists|
        repos: Seq<RepoEntry>,
        cands: Seq<CloneCandidate>,
        present: Seq<bool>,
        targets: Seq<CloneTarget>,
    |
        #[trigger] targets_from(targets, t, repos, cands, present, selected, missing_only)
            && clone_report(v, targets, dry_run)
}

/// `v` reports, one for one, what a clone run did with `targets`: a dry run
/// clones nothing, a real one skips present targets and clones the others.
pub open spec fn clone_report(v: Seq<RepoCloneOutcome>, targets: Seq<CloneTarget>, dry_run: bool) -> bool {
    &&& v.len() == targets.len()
    &&& forall|i: int|
        0 <= i < v.len() ==> if dry_run {
            reports_dry_run(#[trigger] v[i], targets[i])
        } else {
            reports_run(v[i], targets[i])
        }
}

/// The paths of the task's repos that the filter selects, in order.
pub fn selected_paths(task: &TaskWorkspace, selected: &Option<Vec<String>>) -> (r: Vec<String>)
    ensures
        r@.len() == selected_repos(task.repos.repos@, *selected).len(),
        forall|k: int|
            0 <= k < r@.len() ==> repo_path_in(
                task.paths.repos_dir@,
                selected_repos(task.repos.repos@, *selected)[k]@,
                #[trigger] r@[k]@,
            ),
{
    let ghost ids = task.repos.repos@;
    let mut out: Vec<String> = Vec::new();
    let mut i: usize = 0;
    while i < task.repos.repos.len()
        invariant
            ids == task.repos.repos@,
            i <= ids.len(),
            out@.len() == selected_repos(ids.take(i as int), *selected).len(),
            forall|k: int|
                0 <= k < out@.len() ==> repo_path_in(
                    task.paths.repos_dir@,
                    selected_repos(ids.take(i as int), *selected)[k]@,
                    #[trigger] out@[k]@,
                ),
        decreases ids.len() - i,
    {
        proof {
            assert(ids.take(i as int + 1).drop_last() =~= ids.take(i as int));
            assert(ids.take(i as int + 1).last() == ids[i as int]);
        }
        let repo_id = &task.repos.repos[i];
        if is_selected(selected, repo_id.as_str()) {
            let ghost before = out@;
            out.push(task_repo_path(task, repo_id));
            proof {
                let sel = selected_repos(ids.take(i as int + 1), *selected);
                assert forall|k: int| 0 <= k < out@.len() implies repo_path_in(
                    task.paths.repos_dir@,
                    sel[k]@,
                    #[trigger] out@[k]@,
                ) by {
                    if k < before.len() {
                        assert(out@[k] == before[k]);
                    }
                }
            }
        }
        i = i + 1;
    }
    assert(ids.take(ids.len() as int) =~= ids);
    out
}

/// Whether something is on disk at each path, in order. What is on disk is
/// not the library's to know; only the count is stated.
pub fn paths_present(paths: &Vec<String>) -> (r: Vec<bool>)
    ensures
        r@.len() == paths@.len(),
{
    let mut present: Vec<bool> = Vec::new();
    let mut i: usize = 0;
    while i < paths.len()
        invariant
            i <= paths@.len(),
            present@.len() == i,
        decreases paths@.len() - i,
    {
        present.push(path_exists(paths[i].as_str()));
        i = i + 1;
    }
    present
}

/// The statuses a dry run reports, from whether each path is present.
pub fn dry_run_statuses(present: &Vec<bool>) -> (r: Vec<RepoStatus>)
    ensures
        r@.len() == present@.len(),
        forall|i: int| 0 <= i < r@.len() ==> #[trigger] r@[i] == dry_run_status_of(present@[i]),
{
    let mut out: Vec<RepoStatus> = Vec::new();
    let mut i: usize = 0;
    while i < present.len()
        invariant
            i <= present@.len(),
            out@.len() == i,
            forall|j: int| 0 <= j < i ==> #[trigger] out@[j] == dry_run_status_of(present@[j]),
        decreases present@.len() - i,
    {
        out.push(dry_run_status(present[i]));
        i = i + 1;
    }
    out
}

/// What git answers for each path, in order; the first failure ends the
/// asking and is reported against the git port.
pub fn git_statuses(paths: &Vec<String>, git: &dyn GitClient) -> (r: Result<
    Vec<RepoStatus>,
    ApplicationError,
>)
    ensures
        r matches Ok(v) ==> v@.len() == paths@.len(),
        r matches Err(e) ==> (e matches ApplicationError::ExternalFailure { port, .. } && port@
            == "git"@),
{
    let mut out: Vec<RepoStatus> = Vec::new();
    let mut i: usize = 0;
    while i < paths.len()
        invariant
            i <= paths@.len(),
            out@.len() == i,
        decreases paths@.len() - i,
    {
        match git.get_repo_status(paths[i].as_str()) {
            Ok(status) => out.push(status),
            Err(e) => return Err(git_failure(e)),
        }
        i = i + 1;
    }
    Ok(out)
}

/// The items a status query lists for task `t`, given the status each
/// selected repo got (`answers`, in the order of the selected repos): those
/// whose clone state the filter admits, each with its answer, at its path.
pub fn status_items(
    task: &TaskWorkspace,
    selected: &Option<Vec<String>>,
    answers: Vec<RepoStatus>,
    filter: &Option<CloneStateFilter>,
) -> (r: Vec<TaskRepoStatusItem>)
    requires
        answers@.len() == selected_repos(task.repos.repos@, *selected).len(),
    ensures
        shows_statuses(
            r@,
            admitted_statuses(selected_repos(task.repos.repos@, *selected), answers@, *filter),
            task.paths.repos_dir@,
        ),
{
    let ghost ids = task.repos.repos@;
    let ghost all_answers = answers@;
    let mut rest = answers;
    let mut items: Vec<TaskRepoStatusItem> = Vec::new();
    let mut i: usize = 0;
    while i < task.repos.repos.len()
        invariant
            ids == task.repos.repos@,
            i <= ids.len(),
            all_answers.len() == selected_repos(ids, *selected).len(),
            selected_repos(ids.take(i as int), *selected).len() + rest@.len() == all_answers.len(),
            rest@ == all_answers.skip(selected_repos(ids.take(i as int), *selected).len() as int),
            shows_statuses(
                items@,
                admitted_statuses(
                    selected_repos(ids.take(i as int), *selected),
                    all_answers.take(selected_repos(ids.take(i as int), *selected).len() as int),
                    *filter,
                ),
                task.paths.repos_dir@,
            ),
        decreases ids.len() - i,
    {
        proof {
            assert(ids.take(i as int + 1).drop_last() =~= ids.take(i as int));
            assert(ids.take(i as int + 1).last() == ids[i as int]);
            lemma_selected_repos_prefix(ids, *selected, i as int + 1);
        }
        let repo_id = &task.repos.repos[i];
        if is_selected(selected, repo_id.as_str()) {
            let ghost n = selected_repos(ids.take(i as int), *selected).len() as int;
            let status = rest.remove(0);
            let path = task_repo_path(task, repo_id);
            let ghost before_items = items@;
            let ghost sel = selected_repos(ids.take(i as int + 1), *selected);
            proof {
                assert(status == all_answers[n]);
                assert(sel == selected_repos(ids.take(i as int), *selected).push(ids[i as int]));
                assert(sel.drop_last() =~= selected_repos(ids.take(i as int), *selected));
                assert(all_answers.take(n + 1).drop_last() =~= all_answers.take(n));
                assert(all_answers.take(n + 1).last() == status);
                assert(rest@ =~= all_answers.skip(n + 1));
            }
            if state_passes(filter, status.clone_state) {
                let item = TaskRepoStatusItem { repo_id: repo_id.to_string(), path, status };
                items.push(item);
                proof {
                    let listed = admitted_statuses(sel, all_answers.take(n + 1), *filter);
                    assert forall|k: int| 0 <= k < items@.len() implies {
                        &&& (#[trigger] items@[k]).repo_id@ == listed[k].0
                        &&& items@[k].status == listed[k].1
                        &&& repo_path_in(task.paths.repos_dir@, items@[k].repo_id@, items@[k].path@)
                    } by {
                        if k < before_items.len() {
                            assert(items@[k] == before_items[k]);
                        }
                    }
                }
            }
        }
        i = i + 1;
    }
    proof {
        assert(ids.take(ids.len() as int) =~= ids);
        assert(all_answers.take(all_answers.len() as int) =~= all_answers);
    }
    items
}

/// The selected repos of a prefix of the task's repos are no more than those
/// of all of them.
proof fn lemma_selected_repos_prefix(ids: Seq<RepoId>, selected: Option<Vec<String>>, i: int)
    requires
        0 <= i <= ids.len(),
    ensures
        selected_repos(ids.take(i), selected).len() <= selected_repos(ids, selected).len(),
    decreases ids.len() - i,
{
    if i < ids.len() {
        lemma_selected_repos_prefix(ids, selected, i + 1);
        assert(ids.take(i + 1).drop_last() =~= ids.take(i));
    } else {
        assert(ids.take(i) =~= ids);
    }
}

/// The status of each of the task's repos that the query selects, in the
/// task's order: from git, or in a dry run from whether its path exists
/// (`dry_run_statuses`); the list is what `status_items` makes of the
/// answers. A git failure ends the query.
pub fn repo_statuses(task: &TaskWorkspace, query: &RepoStatusQuery, git: &dyn GitClient) -> (r: Result<
    Vec<TaskRepoStatusItem>,
    ApplicationError,
>)
    ensures
        r matches Ok(v) ==> status_listing(v@, *task, *query),
        r matches Err(e) ==> (e matches ApplicationError::ExternalFailure { port, .. } && port@
            == "git"@) && !query.dry_run,
{
    let paths = selected_paths(task, &query.repos);
    let answers = if query.dry_run {
        let present = paths_present(&paths);
        dry_run_statuses(&present)
    } else {
        match git_statuses(&paths, git) {
            Ok(answers) => answers,
            Err(e) => return Err(e),
        }
    };
    let ghost given = answers@;
    let items = status_items(task, &query.repos, answers, &query.clone_state);
    let r = Ok(items);
    assert(r matches Ok(w) && {
        &&& given.len() == selected_repos(task.repos.repos@, query.repos).len()
        &&& query.dry_run ==> forall|j: int|
            0 <= j < given.len() ==> #[trigger] given[j] == dry_run_status_of(true)
                || given[j] == dry_run_status_of(false)
        &&& shows_statuses(
            w@,
            admitted_statuses(selected_repos(task.repos.repos@, query.repos), given, query.clone_state),
            task.paths.repos_dir@,
        )
    });
    r
}

/// Each listed repo and status comes from the inputs, at one position, and
/// its clone state passes the filter.
pub proof fn lemma_admitted_statuses(
    ids: Seq<RepoId>,
    statuses: Seq<RepoStatus>,
    filter: Option<CloneStateFilter>,
)
    requires
        statuses.len() == ids.len(),
    ensures
        forall|k: int|
            0 <= k < admitted_statuses(ids, statuses, filter).len() ==> {
                &&& state_admitted(
                    filter,
                    (#[trigger] admitted_statuses(ids, statuses, filter)[k]).1.clone_state,
                )
                &&& exists|j: int|
                    0 <= j < ids.len() && admitted_statuses(ids, statuses, filter)[k] == (
                    ids[j]@,
                    statuses[j],
                )
            },
    decreases ids.len(),
{
    if ids.len() > 0 {
        let before = admitted_statuses(ids.drop_last(), statuses.drop_last(), filter);
        lemma_admitted_statuses(ids.drop_last(), statuses.drop_last(), filter);
        let all = admitted_statuses(ids, statuses, filter);
        assert forall|k: int| 0 <= k < all.len() implies {
            &&& state_admitted(filter, (#[trigger] all[k]).1.clone_state)
            &&& exists|j: int| 0 <= j < ids.len() && all[k] == (ids[j]@, statuses[j])
        } by {
            if k < before.len() {
                assert(all[k] == before[k]);
                let j = choose|j: int|
                    0 <= j < ids.drop_last().len() && before[k] == (
                    ids.drop_last()[j]@,
                    statuses.drop_last()[j],
                );
                assert(ids.drop_last()[j] == ids[j]);
                assert(statuses.drop_last()[j] == statuses[j]);
            } else {
                assert(all[k] == (ids.last()@, statuses.last()));
                assert(ids.last() == ids[ids.len() - 1]);
            }
        }
    }
}

/// Every repo `selected_repos` keeps passes the filter.
pub proof fn lemma_selected_repos_admitted(ids: Seq<RepoId>, selected: Option<Vec<String>>)
    ensures
        forall|k: int|
            0 <= k < selected_repos(ids, selected).len() ==> selection_admits(
                selected,
                (#[trigger] selected_repos(ids, selected)[k])@,
            ),
    decreases ids.len(),
{
    if ids.len() > 0 {
        lemma_selected_repos_admitted(ids.drop_last(), selected);
        let before = selected_repos(ids.drop_last(), selected);
        let all = selected_repos(ids, selected);
        assert forall|k: int| 0 <= k < all.len() implies selection_admits(
            selected,
            (#[trigger] all[k])@,
        ) by {
            if k < before.len() {
                assert(all[k] == before[k]);
            }
        }
    }
}

/// With `missing_only`, no target that remains was present on disk.
pub proof fn lemma_kept_targets_missing_only(candidates: Seq<CloneCandidate>, present: Seq<bool>)
    requires
        present.len() == candidates.len(),
    ensures
        forall|i: int|
            0 <= i < kept_targets(candidates, present, true).len() ==> !(#[trigger] kept_targets(
                candidates,
                present,
                true,
            )[i]).exists,
    decreases candidates.len(),
{
    if candidates.len() > 0 {
        lemma_kept_targets_missing_only(candidates.drop_last(), present.drop_last());
        let before = kept_targets(candidates.drop_last(), present.drop_last(), true);
        assert forall|i: int| 0 <= i < kept_targets(candidates, present, true).len() implies !(
        #[trigger] kept_targets(candidates, present, true)[i]).exists by {
            if i < before.len() {
                assert(kept_targets(candidates, present, true)[i] == before[i]);
            }
        }
    }
}

proof fn lemma_repo_ids_texts(ids: Seq<RepoId>, texts: Seq<String>)
    requires
        ids_name_texts(ids, texts),
    ensures
        repo_texts(ids) == string_texts(texts),
{
    assert(repo_texts(ids) =~= string_texts(texts));
}

proof fn lemma_group_ids_texts(ids: Seq<RepoGroupId>, texts: Seq<String>)
    requires
        group_ids_name_texts(ids, texts),
    ensures
        group_texts(ids) == string_texts(texts),
{
    assert(group_texts(ids) =~= string_texts(texts));
}

/// Two lists with the same texts, one for one, are sorted alike.
proof fn lemma_sorted_unique_same_texts(a: Seq<String>, b: Seq<String>)
    requires
        string_texts(a) == string_texts(b),
        sorted_unique(b),
    ensures
        sorted_unique(a),
{
    assert forall|i: int, j: int| 0 <= i < j < a.len() implies crate::strings::text_lt(
        #[trigger] a[i]@,
        #[trigger] a[j]@,
    ) by {
        assert(string_texts(a).len() == a.len() && string_texts(b).len() == b.len());
        assert(string_texts(a)[i] == string_texts(b)[i]);
        assert(string_texts(a)[j] == string_texts(b)[j]);
        assert(crate::strings::text_lt(b[i]@, b[j]@));
    }
}

/// `repos` is the selection `task repos set` makes: the repos of the
/// requested groups (`group_ids`, read from catalog groups `groups` as
/// `group_repos`) together with the requested repos, each once.
pub open spec fn set_selection_from(
    repos: Seq<String>,
    wanted_groups: Seq<String>,
    explicit: Seq<String>,
    group_ids: Seq<RepoGroupId>,
    group_repos: Seq<RepoId>,
    groups: Seq<RepoGroup>,
) -> bool {
    &&& group_texts(group_ids) == string_texts(wanted_groups)
    &&& resolves_groups(group_repos, groups, group_ids)
    &&& string_texts(repos).to_set() == repo_texts(group_repos).to_set().union(
        string_texts(explicit).to_set(),
    )
}

/// Some catalog lists every repo of the selection.
pub open spec fn selection_listed(repos: Seq<String>) -> bool {
    exists|entries: Seq<RepoEntry>| #[trigger] all_texts_known(entries, string_texts(repos))
}

/// `res` reports task `t` after `requested` was added to its repos: the
/// same task and groups, and as repos the task's repos together with the
/// requested ones.
pub open spec fn extends_task_selection(res: TaskReposResult, t: TaskWorkspace, requested: Seq<String>) -> bool {
    &&& res.task_id@ == t.meta.slug@
    &&& string_texts(res.selected_repo_groups@) == group_texts(t.repos.selected_repo_groups@)
    &&& string_texts(res.repos@).to_set() == repo_texts(t.repos.repos@).to_set().union(
        string_texts(requested).to_set(),
    )
}

/// The repos of a task with `requested` added: its own repos and the
/// requested ones, sorted, each once.
pub fn added_selection(task: &TaskWorkspace, requested: &Vec<String>) -> (r: Vec<String>)
    ensures
        sorted_unique(r@),
        string_texts(r@).to_set() == repo_texts(task.repos.repos@).to_set().union(
            string_texts(requested@).to_set(),
        ),
{
    merged_repo_texts(&task.repos.repos, requested)
}

/// Adding repos to a task keeps every repo it had and gains every requested
/// one, and brings in nothing else.
pub proof fn law_add_keeps_task_repos(res: TaskReposResult, t: TaskWorkspace, requested: Seq<String>)
    requires
        extends_task_selection(res, t, requested),
    ensures
        forall|i: int|
            0 <= i < t.repos.repos@.len() ==> text_set(res.repos@).contains(
                (#[trigger] t.repos.repos@[i])@,
            ),
        forall|j: int|
            0 <= j < requested.len() ==> text_set(res.repos@).contains((#[trigger] requested[j])@),
        forall|x: Seq<char>|
            #[trigger] text_set(res.repos@).contains(x) ==> repo_texts(t.repos.repos@).contains(x)
                || text_set(requested).contains(x),
{
    lemma_text_set_is_texts(res.repos@);
    lemma_text_set_is_texts(requested);
    assert forall|i: int| 0 <= i < t.repos.repos@.len() implies text_set(res.repos@).contains(
        (#[trigger] t.repos.repos@[i])@,
    ) by {
        assert(repo_texts(t.repos.repos@)[i] == t.repos.repos@[i]@);
        assert(repo_texts(t.repos.repos@).to_set().contains(t.repos.repos@[i]@));
    }
    assert forall|j: int| 0 <= j < requested.len() implies text_set(res.repos@).contains(
        (#[trigger] requested[j])@,
    ) by {
        assert(string_texts(requested)[j] == requested[j]@);
        assert(string_texts(requested).to_set().contains(requested[j]@));
    }
}

pub trait TaskReposApplicationService {
    fn set_task_repos(&self, command: SetTaskReposCommand) -> (r: Result<
        TaskReposResult,
        ApplicationError,
    >)
        ensures
            r matches Ok(res) ==> {
                &&& string_texts(res.selected_repo_groups@) == string_texts(
                    command.selected_repo_groups@,
                )
                &&& sorted_unique(res.repos@)
                &&& string_texts(command.repos@).to_set().subset_of(
                    string_texts(res.repos@).to_set(),
                )
                &&& exists|
                    group_ids: Seq<RepoGroupId>,
                    group_repos: Seq<RepoId>,
                    groups: Seq<RepoGroup>,
                |
                    #[trigger] set_selection_from(
                        res.repos@,
                        command.selected_repo_groups@,
                        command.repos@,
                        group_ids,
                        group_repos,
                        groups,
                    )
                &&& selection_listed(res.repos@)
            },
            r matches Err(e) ==> e is Domain,
    ;

    fn add_task_repos(&self, command: AddTaskReposCommand) -> (r: Result<
        TaskReposResult,
        ApplicationError,
    >)
        ensures
            r matches Ok(res) ==> {
                &&& sorted_unique(res.repos@)
                &&& string_texts(command.repos@).to_set().subset_of(
                    string_texts(res.repos@).to_set(),
                )
                &&& exists|before: Seq<RepoId>|
                    #[trigger] repo_texts(before).to_set().union(string_texts(command.repos@).to_set())
                        == string_texts(res.repos@).to_set()
                &&& exists|t: TaskWorkspace| #[trigger] extends_task_selection(res, t, command.repos@)
                &&& selection_listed(res.repos@)
            },
            r matches Err(e) ==> e is Domain,
    ;

    fn remove_task_repos(&self, command: RemoveTaskReposCommand) -> (r: Result<
        TaskReposResult,
        ApplicationError,
    >)
        ensures
            r matches Ok(res) ==> forall|i: int|
                0 <= i < res.repos@.len() ==> !text_set(command.repos@).contains(
                    #[trigger] res.repos@[i]@,
                ),
            r matches Ok(res) ==> exists|before: Seq<RepoId>|
                #[trigger] without_texts(repo_texts(before), text_set(command.repos@))
                    == string_texts(res.repos@),
            r matches Err(e) ==> e is Domain,
    ;

    fn clone_task_repos(&self, command: CloneTaskReposCommand) -> (r: Result<
        Vec<RepoCloneOutcome>,
        ApplicationError,
    >)
        ensures
            r matches Ok(v) ==> exists|t: TaskWorkspace| #[trigger] clone_run_of(
                v@,
                t,
                command.repos,
                command.missing_only,
                command.dry_run,
            ),
            r matches Ok(v) ==> (command.dry_run ==> forall|i: int|
                0 <= i < v@.len() ==> (#[trigger] v@[i]).dry_run && !v@[i].cloned),
            r matches Ok(v) ==> (!command.dry_run ==> forall|i: int|
                0 <= i < v@.len() ==> !(#[trigger] v@[i]).dry_run && (v@[i].cloned
                    <==> v@[i].skipped_reason is None)),
            r matches Ok(v) ==> (!command.dry_run && command.missing_only ==> forall|i: int|
                0 <= i < v@.len() ==> (#[trigger] v@[i]).cloned),
            r matches Ok(v) ==> (command.dry_run && command.missing_only ==> forall|i: int|
                0 <= i < v@.len() ==> ((#[trigger] v@[i]).skipped_reason matches Some(m) && m@
                    == "dry-run"@)),
            r matches Err(ApplicationError::ExternalFailure { port, .. }) ==> port@ == "git"@
                && !command.dry_run,
            r matches Err(e) ==> e is Domain || e is ExternalFailure,
    ;

    fn get_repo_statuses(&self, query: RepoStatusQuery) -> (r: Result<
        Vec<TaskRepoStatusItem>,
        ApplicationError,
    >)
        ensures
            r matches Ok(v) ==> exists|t: TaskWorkspace| #[trigger] status_listing(v@, t, query),
            r matches Ok(v) ==> forall|i: int|
                0 <= i < v@.len() ==> {
                    &&& state_admitted(query.clone_state, (#[trigger] v@[i]).status.clone_state)
                    &&& selection_admits(query.repos, v@[i].repo_id@)
                    &&& query.dry_run ==> (v@[i].status == dry_run_status_of(true) || v@[i].status
                        == dry_run_status_of(false))
                },
            r matches Err(ApplicationError::ExternalFailure { port, .. }) ==> port@ == "git"@
                && !query.dry_run,
            r matches Err(e) ==> e is Domain || e is ExternalFailure,
    ;
}

pub struct DefaultTaskReposApplicationService {
    tasks: Box<dyn TaskRepository>,
    repo_catalog: Box<dyn RepoCatalogRepository>,
    clock: Box<dyn Clock>,
    git_client: Box<dyn GitClient>,
}

impl DefaultTaskReposApplicationService {
    pub fn new(
        tasks: Box<dyn TaskRepository>,
        repo_catalog: Box<dyn RepoCatalogRepository>,
        clock: Box<dyn Clock>,
        git_client: Box<dyn GitClient>,
    ) -> Self {
        DefaultTaskReposApplicationService { tasks, repo_catalog, clock, git_client }
    }

    /// The stored task with this slug, or the not-found error for it.
    fn load_task(&self, task_ref: &str) -> (r: Result<TaskWorkspace, ApplicationError>)
        ensures
            r matches Err(e) ==> e is Domain,
    {
        let slug = TaskSlug::from(task_ref);
        let found = match self.tasks.find(&slug) {
            Ok(found) => found,
            Err(e) => return Err(ApplicationError::Domain(e)),
        };
        require_task(found, task_ref)
    }

    /// Checks the repos against the stored catalog, as `check_repos_exist` does.
    fn validate_repos_exist(&self, repo_ids: &Vec<RepoId>) -> (r: Result<(), ApplicationError>)
        ensures
            r is Ok ==> exists|repos: Seq<RepoEntry>| #[trigger] all_texts_known(
                repos,
                repo_texts(repo_ids@),
            ),
            r matches Err(e) ==> e is Domain,
    {
        let catalog = match self.repo_catalog.load() {
            Ok(catalog) => catalog,
            Err(e) => return Err(ApplicationError::Domain(e)),
        };
        let r = check_repos_exist(&catalog, repo_ids);
        assert(r is Ok ==> all_texts_known(catalog.repos@, repo_texts(repo_ids@)));
        r
    }

    /// The repos of the groups in the stored catalog, as
    /// `resolve_group_repos_in` gives them.
    fn resolve_group_repos(&self, groups: &Vec<RepoGroupId>) -> (r: Result<
        Vec<RepoId>,
        ApplicationError,
    >)
        ensures
            r matches Ok(v) ==> exists|catalog_groups: Seq<RepoGroup>| #[trigger] resolves_groups(
                v@,
                catalog_groups,
                groups@,
            ),
            r matches Err(e) ==> e is Domain,
    {
        let catalog = match self.repo_catalog.load() {
            Ok(catalog) => catalog,
            Err(e) => return Err(ApplicationError::Domain(e)),
        };
        let r = resolve_group_repos_in(&catalog, groups);
        assert(r matches Ok(w) ==> resolves_groups(w@, catalog.groups@, groups@));
        r
    }

    /// Stores the task with the new selection, touched now, and reports it.
    fn update_task_repos(
        &self,
        task: TaskWorkspace,
        groups: Vec<RepoGroupId>,
        repos: Vec<RepoId>,
    ) -> (r: Result<TaskReposResult, ApplicationError>)
        ensures
            r matches Ok(res) ==> {
                &&& res.task_id@ == task.meta.slug@
                &&& string_texts(res.selected_repo_groups@) == group_texts(groups@)
                &&& string_texts(res.repos@) == repo_texts(repos@)
            },
            r matches Err(e) ==> e is Domain,
    {
        let now = self.clock.now();
        let task = with_repo_selection(task, groups, repos, now);
        match self.tasks.save(&task) {
            Ok(()) => {},
            Err(e) => return Err(ApplicationError::Domain(e)),
        }
        Ok(task_repos_result(&task, now))
    }

    /// The targets of a clone request against the stored catalog: the
    /// candidates `plan_clone_candidates` gives, probed on disk.
    fn resolve_clone_targets(
        &self,
        task: &TaskWorkspace,
        selected: &Option<Vec<String>>,
        missing_only: bool,
    ) -> (r: Result<Vec<CloneTarget>, ApplicationError>)
        ensures
            r matches Ok(v) ==> exists|
                repos: Seq<RepoEntry>,
                cands: Seq<CloneCandidate>,
                present: Seq<bool>,
            |
                #[trigger] targets_from(v@, *task, repos, cands, present, *selected, missing_only),
            r matches Ok(v) ==> (missing_only ==> forall|i: int|
                0 <= i < v@.len() ==> !(#[trigger] v@[i]).exists),
            r matches Err(e) ==> e is Domain,
    {
        let catalog = match self.repo_catalog.load() {
            Ok(catalog) => catalog,
            Err(e) => return Err(ApplicationError::Domain(e)),
        };
        let candidates = match plan_clone_candidates(task, &catalog, selected) {
            Ok(candidates) => candidates,
            Err(e) => return Err(e),
        };
        let ghost all = candidates@;
        let targets = probe_clone_targets(candidates, missing_only);
        let ghost present = choose|present: Seq<bool>|
            present.len() == all.len() && targets@ == kept_targets(all, present, missing_only);
        proof {
            if missing_only {
                lemma_kept_targets_missing_only(all, present);
            }
        }
        let r = Ok(targets);
        assert(r matches Ok(w) && targets_from(
            w@,
            *task,
            catalog.repos@,
            all,
            present,
            *selected,
            missing_only,
        ));
        assert(r matches Ok(w) && exists|
            repos: Seq<RepoEntry>,
            cands: Seq<CloneCandidate>,
            present: Seq<bool>,
        | #[trigger] targets_from(w@, *task, repos, cands, present, *selected, missing_only));
        r
    }
}

impl TaskReposApplicationService for DefaultTaskReposApplicationService {
    /// Replaces the task's selection: the requested groups, and the union of
    /// their repos in the catalog with the requested repos, sorted, each once.
    /// Every repo must be in the catalog.
    fn set_task_repos(&self, command: SetTaskReposCommand) -> (r: Result<
        TaskReposResult,
        ApplicationError,
    >)
    {
        let task = match self.load_task(command.task_id.as_str()) {
            Ok(task) => task,
            Err(e) => return Err(e),
        };
        let group_ids = repo_group_ids(&command.selected_repo_groups);
        let group_repos = match self.resolve_group_repos(&group_ids) {
            Ok(repos) => repos,
            Err(e) => return Err(e),
        };
        let merged = merged_repo_texts(&group_repos, &command.repos);
        let repos = repo_ids(&merged);
        match self.validate_repos_exist(&repos) {
            Ok(()) => {},
            Err(e) => return Err(e),
        }
        proof {
            lemma_group_ids_texts(group_ids@, command.selected_repo_groups@);
            lemma_repo_ids_texts(repos@, merged@);
        }
        let ghost wanted = group_ids@;
        let ghost resolved = group_repos@;
        let ghost groups = choose|groups: Seq<RepoGroup>| #[trigger] resolves_groups(resolved, groups, wanted);
        let ghost entries = choose|entries: Seq<RepoEntry>| #[trigger] all_texts_known(entries, repo_texts(repos@));
        let result = self.update_task_repos(task, group_ids, repos);
        proof {
            if result is Ok {
                let res = result->Ok_0;
                lemma_sorted_unique_same_texts(res.repos@, merged@);
                assert(set_selection_from(
                    res.repos@,
                    command.selected_repo_groups@,
                    command.repos@,
                    wanted,
                    resolved,
                    groups,
                ));
                assert(all_texts_known(entries, string_texts(res.repos@)));
            }
        }
        result
    }

    /// Adds repos to the task's selection: the union of its repos with the
    /// requested ones, sorted, each once. Every repo must be in the catalog.
    fn add_task_repos(&self, command: AddTaskReposCommand) -> (r: Result<
        TaskReposResult,
        ApplicationError,
    >)
    {
        let task = match self.load_task(command.task_id.as_str()) {
            Ok(task) => task,
            Err(e) => return Err(e),
        };
        let selected_repo_groups = copy_group_ids(&task.repos.selected_repo_groups);
        let merged = added_selection(&task, &command.repos);
        let ghost loaded = task;
        let repos = repo_ids(&merged);
        match self.validate_repos_exist(&repos) {
            Ok(()) => {},
            Err(e) => return Err(e),
        }
        proof {
            lemma_repo_ids_texts(repos@, merged@);
        }
        let ghost before = task.repos.repos@;
        let ghost entries = choose|entries: Seq<RepoEntry>| #[trigger] all_texts_known(entries, repo_texts(repos@));
        let result = self.update_task_repos(task, selected_repo_groups, repos);
        proof {
            if result is Ok {
                let res = result->Ok_0;
                lemma_sorted_unique_same_texts(res.repos@, merged@);
                assert(repo_texts(before).to_set().union(string_texts(command.repos@).to_set())
                    == string_texts(res.repos@).to_set());
                assert(extends_task_selection(res, loaded, command.repos@));
                assert(all_texts_known(entries, string_texts(res.repos@)));
            }
        }
        result
    }

    /// Removes repos from the task's selection; the others keep their order.
    fn remove_task_repos(&self, command: RemoveTaskReposCommand) -> (r: Result<
        TaskReposResult,
        ApplicationError,
    >)
    {
        let task = match self.load_task(command.task_id.as_str()) {
            Ok(task) => task,
            Err(e) => return Err(e),
        };
        let selected_repo_groups = copy_group_ids(&task.repos.selected_repo_groups);
        let ghost before = task.repos.repos@;
        let repos = kept_repo_ids(&task.repos.repos, &command.repos);
        let ghost kept = repos@;
        let result = self.update_task_repos(task, selected_repo_groups, repos);
        proof {
            if result is Ok {
                let res = result->Ok_0;
                lemma_without_texts_contains(repo_texts(before), text_set(command.repos@));
                assert forall|i: int| 0 <= i < res.repos@.len() implies !text_set(
                    command.repos@,
                ).contains(#[trigger] res.repos@[i]@) by {
                    assert(string_texts(res.repos@)[i] == res.repos@[i]@);
                    assert(repo_texts(kept).contains(res.repos@[i]@));
                }
                assert(without_texts(repo_texts(before), text_set(command.repos@))
                    == string_texts(res.repos@));
            }
        }
        result
    }

    /// Clones the task's repos that the request selects into the task
    /// workspace. A dry run clones nothing and says for each target whether
    /// it is present already; otherwise present targets are skipped, the
    /// others are cloned with git, the first git failure ends the request, and
    /// the task is touched if anything was cloned.
    fn clone_task_repos(&self, command: CloneTaskReposCommand) -> (r: Result<
        Vec<RepoCloneOutcome>,
        ApplicationError,
    >)
    {
        let task = match self.load_task(command.task_id.as_str()) {
            Ok(task) => task,
            Err(e) => return Err(e),
        };
        let targets = match self.resolve_clone_targets(&task, &command.repos, command.missing_only) {
            Ok(targets) => targets,
            Err(e) => return Err(e),
        };
        let ghost (repos, cands, present) = choose|
            repos: Seq<RepoEntry>,
            cands: Seq<CloneCandidate>,
            present: Seq<bool>,
        |
            #[trigger] targets_from(
                targets@,
                task,
                repos,
                cands,
                present,
                command.repos,
                command.missing_only,
            );
        if command.dry_run {
            let outcomes = dry_run_outcomes(&targets);
            let r = Ok(outcomes);
            assert(r matches Ok(w) && targets_from(
                targets@,
                task,
                repos,
                cands,
                present,
                command.repos,
                command.missing_only,
            ) && clone_report(w@, targets@, command.dry_run));
            assert(r matches Ok(w) && clone_run_of(
                w@,
                task,
                command.repos,
                command.missing_only,
                command.dry_run,
            ));
            return r;
        }
        let now = self.clock.now();
        let outcomes = match clone_missing_targets(&targets, &*self.git_client) {
            Ok(outcomes) => outcomes,
            Err(e) => return Err(e),
        };
        let ghost loaded = task;
        if any_missing(&targets) {
            let task = touch_task(task, now);
            match self.tasks.save(&task) {
                Ok(()) => {},
                Err(e) => return Err(ApplicationError::Domain(e)),
            }
        }
        let r = Ok(outcomes);
        assert(r matches Ok(w) && targets_from(
            targets@,
            loaded,
            repos,
            cands,
            present,
            command.repos,
            command.missing_only,
        ) && clone_report(w@, targets@, command.dry_run));
        assert(r matches Ok(w) && clone_run_of(
            w@,
            loaded,
            command.repos,
            command.missing_only,
            command.dry_run,
        ));
        r
    }

    /// The status of each of the task's repos that the query selects, from
    /// git, or from the disk alone in a dry run; only those whose clone state
    /// the query admits are listed, in the task's order.
    fn get_repo_statuses(&self, query: RepoStatusQuery) -> (r: Result<
        Vec<TaskRepoStatusItem>,
        ApplicationError,
    >)
    {
        let task = match self.load_task(query.task_id.as_str()) {
            Ok(task) => task,
            Err(e) => return Err(e),
        };
        let result = repo_statuses(&task, &query, &*self.git_client);
        proof {
            if result is Ok {
                let v = result->Ok_0;
                let sel = selected_repos(task.repos.repos@, query.repos);
                let statuses = choose|statuses: Seq<RepoStatus>|
                    {
                        &&& statuses.len() == sel.len()
                        &&& query.dry_run ==> forall|j: int|
                            0 <= j < statuses.len() ==> #[trigger] statuses[j]
                                == dry_run_status_of(true) || statuses[j] == dry_run_status_of(
                                false,
                            )
                        &&& shows_statuses(
                            v@,
                            admitted_statuses(sel, statuses, query.clone_state),
                            task.paths.repos_dir@,
                        )
                    };
                lemma_admitted_statuses(sel, statuses, query.clone_state);
                lemma_selected_repos_admitted(task.repos.repos@, query.repos);
                let listed = admitted_statuses(sel, statuses, query.clone_state);
                assert forall|i: int| 0 <= i < v@.len() implies {
                    &&& state_admitted(query.clone_state, (#[trigger] v@[i]).status.clone_state)
                    &&& selection_admits(query.repos, v@[i].repo_id@)
                    &&& query.dry_run ==> (v@[i].status == dry_run_status_of(true)
                        || v@[i].status == dry_run_status_of(false))
                } by {
                    assert(v@[i].repo_id@ == listed[i].0 && v@[i].status == listed[i].1);
                    let j = choose|j: int| 0 <= j < sel.len() && listed[i] == (sel[j]@, statuses[j]);
                    assert(selection_admits(query.repos, sel[j]@));
                }
            }
        }
        result
    }
}

/// Copies of repo group ids, one for one.
pub fn copy_group_ids(ids: &Vec<RepoGroupId>) -> (r: Vec<RepoGroupId>)
    ensures
        group_texts(r@) == group_texts(ids@),
{
    let mut out: Vec<RepoGroupId> = Vec::new();
    let mut i: usize = 0;
    while i < ids.len()
        invariant
            i <= ids@.len(),
            group_texts(out@) == group_texts(ids@.take(i as int)),
        decreases ids@.len() - i,
    {
        let ghost prev = out@;
        let id = ids[i].duplicate();
        out.push(id);
        proof {
            lemma_group_texts_take(ids@, i as int);
            assert(group_texts(out@) =~= group_texts(prev).push(id@));
        }
        i = i + 1;
    }
    assert(ids@.take(ids@.len() as int) =~= ids@);
    out
}

} // verus!
