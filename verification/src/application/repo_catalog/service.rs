//! The repo catalog service and the rules it applies.
use vstd::prelude::*;

use crate::application::error::ApplicationError;
use crate::application::repo_catalog::dtos::{
    AddRepoCommand, AddRepoGroupCommand, RepoGroupSummary, RepoSummary,
};
use crate::domain::errors::{DomainError, EntityKind};
use crate::domain::repo_catalog::{RepoCatalog, RepoCatalogRepository, RepoEntry, RepoGroup};
use crate::domain::shared::{RepoGroupId, RepoId};
use crate::sorting::{sort_by_key, stable_sort_of, SortKey};
use crate::strings::{
    copy_opt_string, copy_strings, is_blank, is_blank_str, lemma_text_order_antisymmetric,
    lemma_text_order_transitive, str_compare, str_eq, text_le,
};

verus! {

impl SortKey for RepoEntry {
    open spec fn key_le(self, other: Self) -> bool {
        text_le(self.id@, other.id@)
    }

    proof fn lemma_key_total(a: Self, b: Self) {
        lemma_text_order_antisymmetric(a.id@, b.id@);
    }

    proof fn lemma_key_transitive(a: Self, b: Self, c: Self) {
        lemma_text_order_transitive(a.id@, b.id@, c.id@);
    }

    fn key_le_exec(&self, other: &Self) -> (r: bool) {
        str_compare(self.id.as_str(), other.id.as_str()) <= 0
    }
}

impl SortKey for RepoGroup {
    open spec fn key_le(self, other: Self) -> bool {
        text_le(self.id@, other.id@)
    }

    proof fn lemma_key_total(a: Self, b: Self) {
        lemma_text_order_antisymmetric(a.id@, b.id@);
    }

    proof fn lemma_key_transitive(a: Self, b: Self, c: Self) {
        lemma_text_order_transitive(a.id@, b.id@, c.id@);
    }

    fn key_le_exec(&self, other: &Self) -> (r: bool) {
        str_compare(self.id.as_str(), other.id.as_str()) <= 0
    }
}

/// The catalog lists a repo with this id.
pub open spec fn has_repo(repos: Seq<RepoEntry>, id: Seq<char>) -> bool {
    exists|i: int| 0 <= i < repos.len() && #[trigger] repos[i].id@ == id
}

/// The catalog lists a group with this id.
pub open spec fn has_group(groups: Seq<RepoGroup>, id: Seq<char>) -> bool {
    exists|i: int| 0 <= i < groups.len() && #[trigger] groups[i].id@ == id
}

/// `k` is the first of the `wanted` repo ids that the catalog does not list.
pub open spec fn first_unknown_repo(repos: Seq<RepoEntry>, wanted: Seq<String>, k: int) -> bool {
    &&& 0 <= k < wanted.len()
    &&& !has_repo(repos, wanted[k]@)
    &&& forall|j: int| 0 <= j < k ==> has_repo(repos, #[trigger] wanted[j]@)
}

pub open spec fn all_repos_known(repos: Seq<RepoEntry>, wanted: Seq<String>) -> bool {
    forall|j: int| 0 <= j < wanted.len() ==> has_repo(repos, #[trigger] wanted[j]@)
}

/// Repo ids named by the given texts, one for one.
pub open spec fn ids_name_texts(ids: Seq<RepoId>, texts: Seq<String>) -> bool {
    &&& ids.len() == texts.len()
    &&& forall|i: int| 0 <= i < ids.len() ==> #[trigger] ids[i]@ == texts[i]@
}

/// `s` shows the catalog entry `e`.
pub open spec fn summarizes_repo(s: RepoSummary, e: RepoEntry) -> bool {
    &&& s.id@ == e.id@
    &&& s.url == e.url
    &&& s.tags@ == e.tags@
    &&& s.description == e.description
}

/// `s` shows the repo group `g`.
pub open spec fn summarizes_group(s: RepoGroupSummary, g: RepoGroup) -> bool {
    &&& s.id@ == g.id@
    &&& s.repos@.len() == g.repos@.len()
    &&& forall|i: int| 0 <= i < s.repos@.len() ==> #[trigger] s.repos@[i]@ == g.repos@[i]@
    &&& s.tags@ == g.tags@
    &&& s.description == g.description
}

/// The summary of a catalog entry.
pub fn repo_summary(entry: &RepoEntry) -> (s: RepoSummary)
    ensures
        summarizes_repo(s, *entry),
{
    RepoSummary {
        id: entry.id.to_string(),
        url: entry.url.clone(),
        tags: copy_strings(&entry.tags),
        description: copy_opt_string(&entry.description),
    }
}

/// The summary of a repo group.
pub fn repo_group_summary(group: &RepoGroup) -> (s: RepoGroupSummary)
    ensures
        summarizes_group(s, *group),
{
    let mut repos: Vec<String> = Vec::new();
    let mut i: usize = 0;
    while i < group.repos.len()
        invariant
            i <= group.repos@.len(),
            repos@.len() == i,
            forall|j: int| 0 <= j < i ==> #[trigger] repos@[j]@ == group.repos@[j]@,
        decreases group.repos@.len() - i,
    {
        repos.push(group.repos[i].to_string());
        i = i + 1;
    }
    RepoGroupSummary {
        id: group.id.to_string(),
        repos,
        tags: copy_strings(&group.tags),
        description: copy_opt_string(&group.description),
    }
}

/// Whether the catalog lists a repo with this id.
pub fn catalog_lists_repo(repos: &Vec<RepoEntry>, id: &str) -> (r: bool)
    ensures
        r == has_repo(repos@, id@),
{
    let mut i: usize = 0;
    while i < repos.len()
        invariant
            i <= repos@.len(),
            forall|j: int| 0 <= j < i ==> #[trigger] repos@[j].id@ != id@,
        decreases repos@.len() - i,
    {
        if str_eq(repos[i].id.as_str(), id) {
            return true;
        }
        i = i + 1;
    }
    false
}

/// Whether the catalog lists a group with this id.
pub fn catalog_lists_group(groups: &Vec<RepoGroup>, id: &str) -> (r: bool)
    ensures
        r == has_group(groups@, id@),
{
    let mut i: usize = 0;
    while i < groups.len()
        invariant
            i <= groups@.len(),
            forall|j: int| 0 <= j < i ==> #[trigger] groups@[j].id@ != id@,
        decreases groups@.len() - i,
    {
        if str_eq(groups[i].id.as_str(), id) {
            return true;
        }
        i = i + 1;
    }
    false
}

/// The entry a request adds, once the lookup of its id in the catalog found
/// `found`: a blank url is refused, then an id the catalog holds already.
pub fn plan_new_repo(found: &Option<RepoEntry>, command: AddRepoCommand) -> (r: Result<
    RepoEntry,
    ApplicationError,
>)
    ensures
        is_blank(command.url@) ==> (r matches Err(ApplicationError::InvalidRequest(m)) && m@
            == "repo url cannot be empty"@),
        !is_blank(command.url@) && found is Some ==> (r matches Err(
            ApplicationError::Domain(DomainError::AlreadyExists { entity, slug }),
        ) && entity == EntityKind::Repo && slug@ == command.id@),
        !is_blank(command.url@) && found is None ==> (r matches Ok(e) && {
            &&& e.id@ == command.id@
            &&& e.url == command.url
            &&& e.tags == command.tags
            &&& e.description == command.description
        }),
{
    let repo_id = RepoId::from(command.id.as_str());
    if is_blank_str(command.url.as_str()) {
        return Err(ApplicationError::InvalidRequest("repo url cannot be empty".to_owned()));
    }
    match found {
        Some(_) => Err(
            ApplicationError::Domain(
                DomainError::AlreadyExists { entity: EntityKind::Repo, slug: repo_id.to_string() },
            ),
        ),
        None => Ok(
            RepoEntry {
                id: repo_id,
                url: command.url,
                tags: command.tags,
                description: command.description,
            },
        ),
    }
}

/// The catalog with `entry` added after its repos; its groups stay.
pub fn with_new_repo(catalog: RepoCatalog, entry: RepoEntry) -> (r: RepoCatalog)
    ensures
        r.repos@ == catalog.repos@.push(entry),
        r.groups == catalog.groups,
{
    let mut catalog = catalog;
    catalog.repos.push(entry);
    catalog
}

/// The catalog with `group` added after its groups; its repos stay.
pub fn with_new_group(catalog: RepoCatalog, group: RepoGroup) -> (r: RepoCatalog)
    ensures
        r.groups@ == catalog.groups@.push(group),
        r.repos == catalog.repos,
{
    let mut catalog = catalog;
    catalog.groups.push(group);
    catalog
}

/// A repo added to a catalog is listed afterwards: the listing of the
/// catalog's repos has one more entry, and one of them shows the new repo.
pub proof fn law_added_repo_is_listed(repos: Seq<RepoEntry>, entry: RepoEntry, v: Seq<RepoSummary>)
    requires
        repo_listing(v, repos.push(entry)),
    ensures
        v.len() == repos.len() + 1,
        exists|i: int| 0 <= i < v.len() && #[trigger] summarizes_repo(v[i], entry),
{
    broadcast use vstd::seq_lib::group_to_multiset_ensures;

    let sorted = choose|sorted: Seq<RepoEntry>|
        {
            &&& sorted.to_multiset() == repos.push(entry).to_multiset()
            &&& stable_sort_of(repos.push(entry), sorted)
            &&& v.len() == sorted.len()
            &&& forall|i: int| 0 <= i < v.len() ==> summarizes_repo(#[trigger] v[i], sorted[i])
        };
    assert(repos.push(entry).len() == repos.len() + 1);
    assert(sorted.len() == sorted.to_multiset().len());
    assert(repos.push(entry)[repos.len() as int] == entry);
    assert(repos.push(entry).to_multiset().count(entry) > 0);
    assert(sorted.contains(entry));
    let i = choose|i: int| 0 <= i < sorted.len() && sorted[i] == entry;
    assert(summarizes_repo(v[i], entry));
}

/// The repo group a request asks for, checked against the catalog. A group
/// needs at least one repo, a new id, and only repos the catalog lists; the
/// first rule broken gives the error.
pub fn plan_repo_group(catalog: &RepoCatalog, command: AddRepoGroupCommand) -> (r: Result<
    RepoGroup,
    ApplicationError,
>)
    ensures
        command.repos@.len() == 0 ==> (r matches Err(ApplicationError::InvalidRequest(m)) && m@
            == "repo group must contain at least one repo"@),
        command.repos@.len() > 0 && has_group(catalog.groups@, command.id@) ==> (r matches Err(
            ApplicationError::Domain(DomainError::AlreadyExists { entity, slug }),
        ) && entity == EntityKind::RepoGroup && slug@ == command.id@),
        command.repos@.len() > 0 && !has_group(catalog.groups@, command.id@) && !all_repos_known(
            catalog.repos@,
            command.repos@,
        ) ==> exists|k: int|
            first_unknown_repo(catalog.repos@, command.repos@, k) && (r matches Err(
                ApplicationError::Domain(DomainError::NotFound { entity, slug }),
            ) && entity == EntityKind::Repo && slug@ == (#[trigger] command.repos@[k])@),
        command.repos@.len() > 0 && !has_group(catalog.groups@, command.id@) && all_repos_known(
            catalog.repos@,
            command.repos@,
        ) ==> (r matches Ok(g) && {
            &&& g.id@ == command.id@
            &&& ids_name_texts(g.repos@, command.repos@)
            &&& g.tags == command.tags
            &&& g.description == command.description
        }),
{
    if command.repos.len() == 0 {
        return Err(
            ApplicationError::InvalidRequest("repo group must contain at least one repo".to_owned()),
        );
    }
    let group_id = RepoGroupId::from(command.id.as_str());
    if catalog_lists_group(&catalog.groups, command.id.as_str()) {
        return Err(
            ApplicationError::Domain(
                DomainError::AlreadyExists { entity: EntityKind::RepoGroup, slug: group_id.to_string() },
            ),
        );
    }
    let mut repo_ids: Vec<RepoId> = Vec::new();
    let mut i: usize = 0;
    while i < command.repos.len()
        invariant
            i <= command.repos@.len(),
            command.repos@.len() > 0,
            !has_group(catalog.groups@, command.id@),
            ids_name_texts(repo_ids@, command.repos@.take(i as int)),
            forall|j: int| 0 <= j < i ==> has_repo(catalog.repos@, #[trigger] command.repos@[j]@),
        decreases command.repos@.len() - i,
    {
        let repo_id = RepoId::from(command.repos[i].as_str());
        if !catalog_lists_repo(&catalog.repos, command.repos[i].as_str()) {
            assert(first_unknown_repo(catalog.repos@, command.repos@, i as int));
            return Err(
                ApplicationError::Domain(
                    DomainError::NotFound { entity: EntityKind::Repo, slug: repo_id.to_string() },
                ),
            );
        }
        repo_ids.push(repo_id);
        i = i + 1;
    }
    assert(command.repos@.take(command.repos@.len() as int) =~= command.repos@);
    Ok(RepoGroup { id: group_id, repos: repo_ids, tags: command.tags, description: command.description })
}

/// `v` lists the catalog entries `repos`: their summaries, sorted by id,
/// entries with the same id in their catalog order.
pub open spec fn repo_listing(v: Seq<RepoSummary>, repos: Seq<RepoEntry>) -> bool {
    exists|sorted: Seq<RepoEntry>|
        {
            &&& sorted.to_multiset() == repos.to_multiset()
            &&& stable_sort_of(repos, sorted)
            &&& v.len() == sorted.len()
            &&& forall|i: int| 0 <= i < v.len() ==> summarizes_repo(#[trigger] v[i], sorted[i])
        }
}

/// `v` lists the repo groups `groups`: their summaries, sorted by id, groups
/// with the same id in their catalog order.
pub open spec fn group_listing(v: Seq<RepoGroupSummary>, groups: Seq<RepoGroup>) -> bool {
    exists|sorted: Seq<RepoGroup>|
        {
            &&& sorted.to_multiset() == groups.to_multiset()
            &&& stable_sort_of(groups, sorted)
            &&& v.len() == sorted.len()
            &&& forall|i: int| 0 <= i < v.len() ==> summarizes_group(#[trigger] v[i], sorted[i])
        }
}

/// The summaries of catalog entries, sorted by id.
pub fn summarize_repos(repos: Vec<RepoEntry>) -> (r: Vec<RepoSummary>)
    ensures
        repo_listing(r@, repos@),
        forall|i: int, j: int| 0 <= i < j < r@.len() ==> text_le(#[trigger] r@[i].id@, #[trigger] r@[j].id@),
{
    let sorted = sort_by_key(repos);
    let mut out: Vec<RepoSummary> = Vec::new();
    let mut i: usize = 0;
    while i < sorted.len()
        invariant
            i <= sorted@.len(),
            out@.len() == i,
            forall|j: int| 0 <= j < i ==> summarizes_repo(#[trigger] out@[j], sorted@[j]),
        decreases sorted@.len() - i,
    {
        out.push(repo_summary(&sorted[i]));
        i = i + 1;
    }
    assert forall|i: int, j: int| 0 <= i < j < out@.len() implies text_le(
        #[trigger] out@[i].id@,
        #[trigger] out@[j].id@,
    ) by {
        assert(sorted@[i].key_le(sorted@[j]));
    }
    out
}

/// The summaries of repo groups, sorted by id.
pub fn summarize_repo_groups(groups: Vec<RepoGroup>) -> (r: Vec<RepoGroupSummary>)
    ensures
        group_listing(r@, groups@),
        forall|i: int, j: int| 0 <= i < j < r@.len() ==> text_le(#[trigger] r@[i].id@, #[trigger] r@[j].id@),
{
    let sorted = sort_by_key(groups);
    let mut out: Vec<RepoGroupSummary> = Vec::new();
    let mut i: usize = 0;
    while i < sorted.len()
        invariant
            i <= sorted@.len(),
            out@.len() == i,
            forall|j: int| 0 <= j < i ==> summarizes_group(#[trigger] out@[j], sorted@[j]),
        decreases sorted@.len() - i,
    {
        out.push(repo_group_summary(&sorted[i]));
        i = i + 1;
    }
    assert forall|i: int, j: int| 0 <= i < j < out@.len() implies text_le(
        #[trigger] out@[i].id@,
        #[trigger] out@[j].id@,
    ) by {
        assert(sorted@[i].key_le(sorted@[j]));
    }
    out
}

pub trait RepoCatalogApplicationService {
    fn add_repo(&self, command: AddRepoCommand) -> (r: Result<RepoSummary, ApplicationError>)
        ensures
            is_blank(command.url@) <==> (r matches Err(ApplicationError::InvalidRequest(_))),
            is_blank(command.url@) ==> (r matches Err(ApplicationError::InvalidRequest(m)) && m@
                == "repo url cannot be empty"@),
            r matches Ok(s) ==> {
                &&& s.id@ == command.id@
                &&& s.url == command.url
                &&& s.tags@ == command.tags@
                &&& s.description == command.description
            },
    ;

    fn list_repos(&self) -> (r: Result<Vec<RepoSummary>, ApplicationError>)
        ensures
            r matches Ok(v) ==> exists|stored: Seq<RepoEntry>| #[trigger] repo_listing(v@, stored),
            r matches Ok(v) ==> forall|i: int, j: int|
                0 <= i < j < v@.len() ==> text_le(#[trigger] v@[i].id@, #[trigger] v@[j].id@),
            r matches Err(e) ==> e is Domain,
    ;

    fn add_repo_group(&self, command: AddRepoGroupCommand) -> (r: Result<
        RepoGroupSummary,
        ApplicationError,
    >)
        ensures
            command.repos@.len() == 0 <==> (r matches Err(ApplicationError::InvalidRequest(_))),
            command.repos@.len() == 0 ==> (r matches Err(ApplicationError::InvalidRequest(m)) && m@
                == "repo group must contain at least one repo"@),
            r matches Ok(s) ==> {
                &&& s.id@ == command.id@
                &&& s.repos@.len() == command.repos@.len()
                &&& forall|i: int| 0 <= i < s.repos@.len() ==> #[trigger] s.repos@[i]@ == command.repos@[i]@
                &&& s.tags@ == command.tags@
                &&& s.description == command.description
            },
    ;

    fn list_repo_groups(&self) -> (r: Result<Vec<RepoGroupSummary>, ApplicationError>)
        ensures
            r matches Ok(v) ==> exists|stored: Seq<RepoGroup>| #[trigger] group_listing(v@, stored),
            r matches Ok(v) ==> forall|i: int, j: int|
                0 <= i < j < v@.len() ==> text_le(#[trigger] v@[i].id@, #[trigger] v@[j].id@),
            r matches Err(e) ==> e is Domain,
    ;
}

pub struct DefaultRepoCatalogApplicationService {
    repository: Box<dyn RepoCatalogRepository>,
}

impl DefaultRepoCatalogApplicationService {
    /// A service over the given catalog store.
    pub fn new(repository: Box<dyn RepoCatalogRepository>) -> Self {
        DefaultRepoCatalogApplicationService { repository }
    }
}

impl RepoCatalogApplicationService for DefaultRepoCatalogApplicationService {
    /// Adds a repo to the catalog. A blank url is refused before the catalog
    /// is read; an id the catalog holds already is refused as existing.
    fn add_repo(&self, command: AddRepoCommand) -> (r: Result<RepoSummary, ApplicationError>)
    {
        if is_blank_str(command.url.as_str()) {
            return Err(ApplicationError::InvalidRequest("repo url cannot be empty".to_owned()));
        }
        let found = match self.repository.find_repo(&RepoId::from(command.id.as_str())) {
            Ok(found) => found,
            Err(e) => return Err(ApplicationError::Domain(e)),
        };
        let entry = match plan_new_repo(&found, command) {
            Ok(entry) => entry,
            Err(e) => return Err(e),
        };
        let catalog = match self.repository.load() {
            Ok(catalog) => catalog,
            Err(e) => return Err(ApplicationError::Domain(e)),
        };
        let summary = repo_summary(&entry);
        let catalog = with_new_repo(catalog, entry);
        match self.repository.save(&catalog) {
            Ok(()) => {},
            Err(e) => return Err(ApplicationError::Domain(e)),
        }
        Ok(summary)
    }

    /// The catalog's repos, sorted by id.
    fn list_repos(&self) -> (r: Result<Vec<RepoSummary>, ApplicationError>)
    {
        match self.repository.load() {
            Ok(catalog) => {
                let ghost stored = catalog.repos@;
                let v = summarize_repos(catalog.repos);
                assert(repo_listing(v@, stored));
                Ok(v)
            },
            Err(e) => Err(ApplicationError::Domain(e)),
        }
    }

    /// Adds a repo group, as `plan_repo_group` decides, to the catalog. A
    /// request without repos is refused before the catalog is read.
    fn add_repo_group(&self, command: AddRepoGroupCommand) -> (r: Result<
        RepoGroupSummary,
        ApplicationError,
    >)
    {
        if command.repos.len() == 0 {
            return Err(
                ApplicationError::InvalidRequest(
                    "repo group must contain at least one repo".to_owned(),
                ),
            );
        }
        let catalog = match self.repository.load() {
            Ok(catalog) => catalog,
            Err(e) => return Err(ApplicationError::Domain(e)),
        };
        let group = match plan_repo_group(&catalog, command) {
            Ok(group) => group,
            Err(e) => return Err(e),
        };
        let summary = repo_group_summary(&group);
        let catalog = with_new_group(catalog, group);
        match self.repository.save(&catalog) {
            Ok(()) => {},
            Err(e) => return Err(ApplicationError::Domain(e)),
        }
        Ok(summary)
    }

    /// The catalog's repo groups, sorted by id.
    fn list_repo_groups(&self) -> (r: Result<Vec<RepoGroupSummary>, ApplicationError>)
    {
        match self.repository.load() {
            Ok(catalog) => {
                let ghost stored = catalog.groups@;
                let v = summarize_repo_groups(catalog.groups);
                assert(group_listing(v@, stored));
                Ok(v)
            },
            Err(e) => Err(ApplicationError::Domain(e)),
        }
    }
}

} // verus!
