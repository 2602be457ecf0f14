//! The skill registry service and the rules of an import.
use vstd::prelude::*;

use crate::application::error::ApplicationError;
use crate::application::ports::Clock;
use crate::application::skill_registry::dtos::{
    ApplicationSkillSourceKind, ImportSkillSourceCommand, ImportedSkillDefinition, ShowSkillQuery,
    SkillSummary,
};
use crate::domain::errors::{DomainError, EntityKind};
use crate::domain::shared::{SkillId, SkillSourceId, SkillVersion, Timestamp};
use crate::domain::skill_registry::{
    SkillDefinition, SkillRegistry, SkillRegistryRepository, SkillSource, SkillSourceKind,
};
use crate::strings::str_eq;

verus! {

/// The domain kind of source an application kind stands for.
pub open spec fn source_kind_of(value: ApplicationSkillSourceKind) -> SkillSourceKind {
    match value {
        ApplicationSkillSourceKind::Git => SkillSourceKind::Git,
        ApplicationSkillSourceKind::Local => SkillSourceKind::Local,
        ApplicationSkillSourceKind::Archive => SkillSourceKind::Archive,
        ApplicationSkillSourceKind::Other(v) => SkillSourceKind::Other(v),
    }
}

pub fn to_source_kind(value: ApplicationSkillSourceKind) -> (r: SkillSourceKind)
    ensures
        r == source_kind_of(value),
{
    match value {
        ApplicationSkillSourceKind::Git => SkillSourceKind::Git,
        ApplicationSkillSourceKind::Local => SkillSourceKind::Local,
        ApplicationSkillSourceKind::Archive => SkillSourceKind::Archive,
        ApplicationSkillSourceKind::Other(value) => SkillSourceKind::Other(value),
    }
}

/// The texts of a list of versions.
pub open spec fn version_texts(v: Seq<SkillVersion>) -> Seq<Seq<char>> {
    Seq::new(v.len(), |i: int| v[i]@)
}

/// The texts of a list of strings.
pub open spec fn texts_of(v: Seq<String>) -> Seq<Seq<char>> {
    Seq::new(v.len(), |i: int| v[i]@)
}

/// The text of an optional version.
pub open spec fn opt_version_text(o: Option<SkillVersion>) -> Option<Seq<char>> {
    match o {
        Some(v) => Some(v@),
        None => None,
    }
}

/// The text of an optional string.
pub open spec fn opt_text(o: Option<String>) -> Option<Seq<char>> {
    match o {
        Some(v) => Some(v@),
        None => None,
    }
}

/// The registry lists a source with this id.
pub open spec fn has_source(sources: Seq<SkillSource>, id: Seq<char>) -> bool {
    exists|i: int| 0 <= i < sources.len() && #[trigger] sources[i].id@ == id
}

/// The registry lists a skill with this id.
pub open spec fn has_skill(skills: Seq<SkillDefinition>, id: Seq<char>) -> bool {
    exists|i: int| 0 <= i < skills.len() && #[trigger] skills[i].id@ == id
}

/// The `k`th imported skill clashes: the registry holds its id already, or
/// an earlier skill of the same import has it.
pub open spec fn skill_clash(
    existing: Seq<SkillDefinition>,
    imported: Seq<ImportedSkillDefinition>,
    k: int,
) -> bool {
    ||| has_skill(existing, imported[k].id@)
    ||| exists|j: int| 0 <= j < k && #[trigger] imported[j].id@ == imported[k].id@
}

pub open spec fn no_skill_clash(existing: Seq<SkillDefinition>, imported: Seq<ImportedSkillDefinition>) -> bool {
    forall|k: int| 0 <= k < imported.len() ==> !#[trigger] skill_clash(existing, imported, k)
}

/// `k` is the first imported skill that clashes.
pub open spec fn first_skill_clash(
    existing: Seq<SkillDefinition>,
    imported: Seq<ImportedSkillDefinition>,
    k: int,
) -> bool {
    &&& 0 <= k < imported.len()
    &&& skill_clash(existing, imported, k)
    &&& forall|j: int| 0 <= j < k ==> !#[trigger] skill_clash(existing, imported, j)
}

/// `d` is the registry's definition of imported skill `s`, from source `source`.
pub open spec fn defines_skill(d: SkillDefinition, s: ImportedSkillDefinition, source: Seq<char>) -> bool {
    &&& d.id@ == s.id@
    &&& d.source@ == source
    &&& version_texts(d.versions@) == texts_of(s.versions@)
    &&& opt_version_text(d.latest) == opt_text(s.latest)
}

/// `s` is the source an import command registers at `t`.
pub open spec fn imported_source(s: SkillSource, command: ImportSkillSourceCommand, t: Timestamp) -> bool {
    &&& s.id@ == command.source_id@
    &&& s.kind == source_kind_of(command.kind)
    &&& s.location == command.location
    &&& s.reference == command.reference
    &&& s.imported_at == Some(t)
}

/// Versions named by the given texts, one for one.
pub fn skill_versions(texts: &Vec<String>) -> (r: Vec<SkillVersion>)
    ensures
        version_texts(r@) == texts_of(texts@),
{
    let mut out: Vec<SkillVersion> = Vec::new();
    let mut i: usize = 0;
    while i < texts.len()
        invariant
            i <= texts@.len(),
            version_texts(out@) == texts_of(texts@.take(i as int)),
        decreases texts@.len() - i,
    {
        let ghost prev = out@;
        let v = SkillVersion::from(texts[i].as_str());
        out.push(v);
        assert(version_texts(out@) =~= texts_of(texts@.take(i as int + 1))) by {
            assert(version_texts(out@) =~= version_texts(prev).push(v@));
            assert(texts_of(texts@.take(i as int + 1)) =~= texts_of(texts@.take(i as int)).push(
                texts@[i as int]@,
            ));
        }
        i = i + 1;
    }
    assert(texts@.take(texts@.len() as int) =~= texts@);
    out
}

/// The texts of versions, one for one.
pub fn version_strings(versions: &Vec<SkillVersion>) -> (r: Vec<String>)
    ensures
        texts_of(r@) == version_texts(versions@),
{
    let mut out: Vec<String> = Vec::new();
    let mut i: usize = 0;
    while i < versions.len()
        invariant
            i <= versions@.len(),
            texts_of(out@) == version_texts(versions@.take(i as int)),
        decreases versions@.len() - i,
    {
        let ghost prev = out@;
        let v = versions[i].to_string();
        out.push(v);
        assert(texts_of(out@) =~= version_texts(versions@.take(i as int + 1))) by {
            assert(texts_of(out@) =~= texts_of(prev).push(v@));
            assert(version_texts(versions@.take(i as int + 1)) =~= version_texts(
                versions@.take(i as int),
            ).push(versions@[i as int]@));
        }
        i = i + 1;
    }
    assert(versions@.take(versions@.len() as int) =~= versions@);
    out
}

/// The registry's definition of an imported skill, from source `source`.
pub fn skill_definition(skill: &ImportedSkillDefinition, source: &SkillSourceId) -> (r: SkillDefinition)
    ensures
        defines_skill(r, *skill, source@),
{
    let latest = match &skill.latest {
        Some(v) => Some(SkillVersion::from(v.as_str())),
        None => None,
    };
    SkillDefinition {
        id: SkillId::from(skill.id.as_str()),
        source: source.duplicate(),
        versions: skill_versions(&skill.versions),
        latest,
    }
}

/// Whether the registry lists a source with this id.
pub fn registry_has_source(sources: &Vec<SkillSource>, id: &str) -> (r: bool)
    ensures
        r == has_source(sources@, id@),
{
    let mut i: usize = 0;
    while i < sources.len()
        invariant
            i <= sources@.len(),
            forall|j: int| 0 <= j < i ==> #[trigger] sources@[j].id@ != id@,
        decreases sources@.len() - i,
    {
        if str_eq(sources[i].id.as_str(), id) {
            return true;
        }
        i = i + 1;
    }
    false
}

/// Whether the registry lists a skill with this id.
pub fn registry_has_skill(skills: &Vec<SkillDefinition>, id: &str) -> (r: bool)
    ensures
        r == has_skill(skills@, id@),
{
    let mut i: usize = 0;
    while i < skills.len()
        invariant
            i <= skills@.len(),
            forall|j: int| 0 <= j < i ==> #[trigger] skills@[j].id@ != id@,
        decreases skills@.len() - i,
    {
        if str_eq(skills[i].id.as_str(), id) {
            return true;
        }
        i = i + 1;
    }
    false
}

/// Adds imported skills, in order, after the registry's skills, all from
/// source `source_id`. A skill whose id the registry holds, or an earlier
/// skill of the import has, is refused, the first such skill giving the
/// error; the skills before it stay added.
pub fn import_skills(
    skills: &mut Vec<SkillDefinition>,
    imported: &Vec<ImportedSkillDefinition>,
    source_id: &SkillSourceId,
) -> (r: Result<(), ApplicationError>)
    ensures
        !no_skill_clash(old(skills)@, imported@) ==> exists|k: int|
            first_skill_clash(old(skills)@, imported@, k) && (r matches Err(
                ApplicationError::Domain(DomainError::AlreadyExists { entity, slug }),
            ) && entity == EntityKind::Skill && slug@ == (#[trigger] imported@[k]).id@),
        no_skill_clash(old(skills)@, imported@) ==> (r is Ok && {
            &&& final(skills)@.len() == old(skills)@.len() + imported@.len()
            &&& final(skills)@.take(old(skills)@.len() as int) == old(skills)@
            &&& forall|i: int|
                0 <= i < imported@.len() ==> defines_skill(
                    #[trigger] final(skills)@[old(skills)@.len() + i],
                    imported@[i],
                    source_id@,
                )
        }),
{
    let ghost old_skills = skills@;
    let mut i: usize = 0;
    assert(skills@.take(old_skills.len() as int) =~= old_skills);
    while i < imported.len()
        invariant
            old_skills == old(skills)@,
            i <= imported@.len(),
            skills@.len() == old_skills.len() + i,
            skills@.take(old_skills.len() as int) == old_skills,
            forall|j: int|
                0 <= j < i ==> defines_skill(
                    #[trigger] skills@[old_skills.len() + j],
                    imported@[j],
                    source_id@,
                ),
            forall|j: int| 0 <= j < i ==> !#[trigger] skill_clash(old_skills, imported@, j),
        decreases imported@.len() - i,
    {
        let present = registry_has_skill(skills, imported[i].id.as_str());
        proof {
            let all = skills@;
            let id = imported@[i as int].id@;
            if has_skill(old_skills, id) {
                let k = choose|k: int| 0 <= k < old_skills.len() && #[trigger] old_skills[k].id@ == id;
                assert(all.take(old_skills.len() as int)[k] == all[k]);
                assert(has_skill(all, id));
            }
            if exists|j: int| 0 <= j < i && #[trigger] imported@[j].id@ == id {
                let j = choose|j: int| 0 <= j < i && #[trigger] imported@[j].id@ == id;
                assert(defines_skill(all[old_skills.len() + j], imported@[j], source_id@));
                assert(all[old_skills.len() + j].id@ == id);
                assert(has_skill(all, id));
            }
            if has_skill(all, id) {
                let k = choose|k: int| 0 <= k < all.len() && #[trigger] all[k].id@ == id;
                if k < old_skills.len() {
                    assert(all.take(old_skills.len() as int)[k] == all[k]);
                    assert(old_skills[k].id@ == id);
                } else {
                    let j = k - old_skills.len();
                    assert(defines_skill(all[old_skills.len() + j], imported@[j], source_id@));
                    assert(imported@[j].id@ == id);
                }
            }
            assert(present == skill_clash(old_skills, imported@, i as int));
        }
        if present {
            proof {
                assert(first_skill_clash(old_skills, imported@, i as int));
            }
            return Err(
                ApplicationError::Domain(
                    DomainError::AlreadyExists {
                        entity: EntityKind::Skill,
                        slug: SkillId::from(imported[i].id.as_str()).to_string(),
                    },
                ),
            );
        }
        let definition = skill_definition(&imported[i], source_id);
        let ghost before = skills@;
        skills.push(definition);
        proof {
            assert(skills@.take(old_skills.len() as int) =~= old_skills) by {
                assert(before.take(old_skills.len() as int) == old_skills);
            }
            assert forall|j: int| 0 <= j < i + 1 implies defines_skill(
                #[trigger] skills@[old_skills.len() + j],
                imported@[j],
                source_id@,
            ) by {
                if j < i {
                    assert(skills@[old_skills.len() + j] == before[old_skills.len() + j]);
                }
            }
        }
        i = i + 1;
    }
    Ok(())
}

/// The registry after importing a source with its skills at `now`. A source
/// id the registry holds already is refused; so is a skill whose id the
/// registry holds or an earlier skill of the import has, the first such
/// skill giving the error. On success the source comes after the registry's
/// sources and the skills, in order, after its skills.
pub fn plan_import(registry: SkillRegistry, command: ImportSkillSourceCommand, now: Timestamp) -> (r: Result<
    SkillRegistry,
    ApplicationError,
>)
    ensures
        has_source(registry.sources@, command.source_id@) ==> (r matches Err(
            ApplicationError::Domain(DomainError::AlreadyExists { entity, slug }),
        ) && entity == EntityKind::Skill && slug@ == command.source_id@),
        !has_source(registry.sources@, command.source_id@) && !no_skill_clash(
            registry.skills@,
            command.skills@,
        ) ==> exists|k: int|
            first_skill_clash(registry.skills@, command.skills@, k) && (r matches Err(
                ApplicationError::Domain(DomainError::AlreadyExists { entity, slug }),
            ) && entity == EntityKind::Skill && slug@ == (#[trigger] command.skills@[k]).id@),
        !has_source(registry.sources@, command.source_id@) && no_skill_clash(
            registry.skills@,
            command.skills@,
        ) ==> (r matches Ok(n) && {
            &&& n.sources@.len() == registry.sources@.len() + 1
            &&& n.sources@.take(registry.sources@.len() as int) == registry.sources@
            &&& imported_source(n.sources@.last(), command, now)
            &&& n.skills@.len() == registry.skills@.len() + command.skills@.len()
            &&& n.skills@.take(registry.skills@.len() as int) == registry.skills@
            &&& forall|i: int|
                0 <= i < command.skills@.len() ==> defines_skill(
                    #[trigger] n.skills@[registry.skills@.len() + i],
                    command.skills@[i],
                    command.source_id@,
                )
        }),
{
    if registry_has_source(&registry.sources, command.source_id.as_str()) {
        return Err(
            ApplicationError::Domain(
                DomainError::AlreadyExists {
                    entity: EntityKind::Skill,
                    slug: SkillSourceId::from(command.source_id.as_str()).to_string(),
                },
            ),
        );
    }
    let source_id = SkillSourceId::from(command.source_id.as_str());
    let source = SkillSource {
        id: source_id.duplicate(),
        kind: to_source_kind(command.kind),
        location: command.location,
        reference: command.reference,
        imported_at: Some(now),
    };
    let mut sources = registry.sources;
    let mut skills = registry.skills;
    let ghost old_sources = sources@;
    sources.push(source);
    assert(sources@.take(old_sources.len() as int) =~= old_sources);
    match import_skills(&mut skills, &command.skills, &source_id) {
        Ok(()) => {},
        Err(e) => return Err(e),
    }
    Ok(SkillRegistry { sources, skills })
}

/// `s` shows the registered skill `d`.
pub open spec fn summarizes_skill(s: SkillSummary, d: SkillDefinition) -> bool {
    &&& s.id@ == d.id@
    &&& s.source@ == d.source@
    &&& texts_of(s.versions@) == version_texts(d.versions@)
    &&& opt_text(s.latest) == opt_version_text(d.latest)
}

/// The summary of a registered skill.
pub fn skill_summary(skill: &SkillDefinition) -> (r: SkillSummary)
    ensures
        summarizes_skill(r, *skill),
{
    let latest = match &skill.latest {
        Some(v) => Some(v.to_string()),
        None => None,
    };
    SkillSummary {
        id: skill.id.to_string(),
        source: skill.source.to_string(),
        versions: version_strings(&skill.versions),
        latest,
    }
}

/// `v` lists the versions of the skill a lookup found, in order; nothing when
/// it found none.
pub open spec fn versions_listing(v: Seq<String>, found: Option<SkillDefinition>) -> bool {
    match found {
        Some(d) => texts_of(v) == version_texts(d.versions@),
        None => v.len() == 0,
    }
}

/// The versions of a skill a lookup found; none when it found nothing.
pub fn versions_of(found: &Option<SkillDefinition>) -> (r: Vec<String>)
    ensures
        found matches Some(d) ==> texts_of(r@) == version_texts(d.versions@),
        found is None ==> r@.len() == 0,
{
    match found {
        Some(skill) => version_strings(&skill.versions),
        None => Vec::new(),
    }
}

/// A registry holding `sources` and `skills` admits the import: it holds
/// neither the source nor any of the imported skills, and no skill is
/// imported twice.
pub open spec fn import_admitted(
    sources: Seq<SkillSource>,
    skills: Seq<SkillDefinition>,
    command: ImportSkillSourceCommand,
) -> bool {
    !has_source(sources, command.source_id@) && no_skill_clash(skills, command.skills@)
}

/// Skills that clash among themselves clash in any registry.
pub proof fn lemma_clash_in_any_registry(
    existing: Seq<SkillDefinition>,
    imported: Seq<ImportedSkillDefinition>,
)
    requires
        !no_skill_clash(Seq::empty(), imported),
    ensures
        !no_skill_clash(existing, imported),
{
    let k = choose|k: int| 0 <= k < imported.len() && #[trigger] skill_clash(Seq::empty(), imported, k);
    assert(!has_skill(Seq::<SkillDefinition>::empty(), imported[k].id@));
    assert(skill_clash(existing, imported, k));
}

pub trait SkillRegistryApplicationService {
    fn import_source(&self, command: ImportSkillSourceCommand) -> (r: Result<(), ApplicationError>)
        ensures
            !no_skill_clash(Seq::empty(), command.skills@) ==> r is Err,
            r is Ok ==> exists|sources: Seq<SkillSource>, skills: Seq<SkillDefinition>|
                #[trigger] import_admitted(sources, skills, command),
            r matches Err(e) ==> e is Domain,
    ;

    fn show_skill(&self, query: ShowSkillQuery) -> (r: Result<Option<SkillSummary>, ApplicationError>)
        ensures
            r matches Ok(Some(s)) ==> exists|d: SkillDefinition| #[trigger] summarizes_skill(s, d),
            r matches Err(e) ==> e is Domain,
    ;

    fn list_skill_versions(&self, query: ShowSkillQuery) -> (r: Result<Vec<String>, ApplicationError>)
        ensures
            r matches Ok(v) ==> exists|found: Option<SkillDefinition>| #[trigger] versions_listing(
                v@,
                found,
            ),
            r matches Err(e) ==> e is Domain,
    ;
}

pub struct DefaultSkillRegistryApplicationService {
    repository: Box<dyn SkillRegistryRepository>,
    clock: Box<dyn Clock>,
}

impl DefaultSkillRegistryApplicationService {
    pub fn new(repository: Box<dyn SkillRegistryRepository>, clock: Box<dyn Clock>) -> Self {
        DefaultSkillRegistryApplicationService { repository, clock }
    }
}

impl SkillRegistryApplicationService for DefaultSkillRegistryApplicationService {
    /// Imports a source with its skills into the stored registry, as
    /// `plan_import` decides, and stores it.
    fn import_source(&self, command: ImportSkillSourceCommand) -> (r: Result<(), ApplicationError>)
    {
        let registry = match self.repository.load() {
            Ok(registry) => registry,
            Err(e) => return Err(ApplicationError::Domain(e)),
        };
        let now = self.clock.now();
        let ghost read = registry;
        let ghost requested = command;
        proof {
            if !no_skill_clash(Seq::empty(), command.skills@) {
                lemma_clash_in_any_registry(registry.skills@, command.skills@);
            }
        }
        let registry = match plan_import(registry, command, now) {
            Ok(registry) => registry,
            Err(e) => return Err(e),
        };
        assert(import_admitted(read.sources@, read.skills@, requested));
        match self.repository.save(&registry) {
            Ok(()) => Ok(()),
            Err(e) => Err(ApplicationError::Domain(e)),
        }
    }

    /// The summary of the skill with the query's id, if it is registered.
    fn show_skill(&self, query: ShowSkillQuery) -> (r: Result<Option<SkillSummary>, ApplicationError>)
    {
        match self.repository.find_skill(&SkillId::from(query.skill_id.as_str())) {
            Ok(Some(skill)) => {
                let item = skill_summary(&skill);
                let r = Ok(Some(item));
                assert(r matches Ok(Some(w)) && summarizes_skill(w, skill));
                r
            },
            Ok(None) => Ok(None),
            Err(e) => Err(ApplicationError::Domain(e)),
        }
    }

    /// The versions of the skill with the query's id; none if it is not
    /// registered.
    fn list_skill_versions(&self, query: ShowSkillQuery) -> (r: Result<Vec<String>, ApplicationError>)
    {
        match self.repository.find_skill(&SkillId::from(query.skill_id.as_str())) {
            Ok(found) => {
                let v = versions_of(&found);
                let r = Ok(v);
                assert(r matches Ok(w) && versions_listing(w@, found));
                r
            },
            Err(e) => Err(ApplicationError::Domain(e)),
        }
    }
}

} // verus!
