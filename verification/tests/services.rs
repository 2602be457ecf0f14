use std::cell::RefCell;
use std::collections::BTreeMap;
use std::rc::Rc;

use workc::application::error::ApplicationError;
use workc::application::knowledge::{
    CreateKnowledgeCandidateCommand, DefaultKnowledgeApplicationService,
    DeleteKnowledgeCandidateCommand, DeleteKnowledgeCommand, KnowledgeApplicationService,
    ListKnowledgeCandidatesQuery, ListKnowledgeQuery, PromoteKnowledgeCommand,
    ShowKnowledgeCandidateQuery, ShowKnowledgeQuery, UpdateKnowledgeCandidateMetaCommand,
    UpdateKnowledgeMetaCommand,
};
use workc::application::ports::{
    Clock, CloneState, EditorError, EditorLauncher, GitClient, GitError, RepoStatus,
};
use workc::application::repo_catalog::{
    AddRepoCommand, AddRepoGroupCommand, DefaultRepoCatalogApplicationService,
    RepoCatalogApplicationService,
};
use workc::application::skill_registry::{
    ApplicationSkillSourceKind, DefaultSkillRegistryApplicationService, ImportSkillSourceCommand,
    ImportedSkillDefinition, ShowSkillQuery, SkillRegistryApplicationService,
};
use workc::application::task::{
    ApplicationTaskStatus, CloseTaskCommand, CreateTaskCommand, DefaultTaskApplicationService,
    ListTasksQuery, OpenTaskCommand, TaskApplicationService,
};
use workc::application::task_repos::{
    AddTaskReposCommand, CloneStateFilter, CloneTaskReposCommand,
    DefaultTaskReposApplicationService, RemoveTaskReposCommand, RepoStatusQuery,
    SetTaskReposCommand, TaskReposApplicationService,
};
use workc::application::task_skills::{
    CheckSkillUpdatesQuery, DefaultTaskSkillsApplicationService, MountSkillCommand,
    OverrideSkillCommand, SandboxSkillCommand, TaskSkillsApplicationService,
    UnmountSkillCommand, UpdateSkillCommand,
};
use workc::cli::knowledge::{
    run as run_knowledge, KnowledgeCandidateCommand, KnowledgeCandidateCreateArgs, KnowledgeCommand,
    KnowledgeDeleteArgs, KnowledgeShowArgs,
};
use workc::cli::knowledge::KnowledgePromoteArgs;
use workc::cli::repo::{
    run_repo as repo_command, run_repo_group as repo_group_command, RepoAddArgs, RepoCommand,
    RepoGroupAddArgs, RepoGroupCommand,
};
use workc::cli::skill::{
    run as skill_command, ImportSkillArgs, SkillCommand, SkillMountArgs, SkillShowArgs, SkillSourceKindArg,
};
use workc::cli::task::{
    run_close as close_command, run_create as create_command, run_list as list_command, CloseTaskArgs,
    CreateTaskArgs, ListCommand,
};
use workc::domain::errors::{DomainError, EntityKind, FieldKind};
use workc::domain::workspace::{WorkspaceEntry, WorkspaceRegistryRepository, WorkspaceStatus};
use workc::presenters::{render_text, CommandOutput, TextPresenter};
use workc::application::task_skills::SkillMountSummary;
use workc::domain::knowledge::{
    KnowledgeBase, KnowledgeCandidate, KnowledgeEntry, KnowledgeRepository,
};
use workc::domain::repo_catalog::{RepoCatalog, RepoCatalogRepository, RepoEntry, RepoGroup};
use workc::domain::shared::{
    KnowledgeCandidateId, KnowledgeId, MountId, RepoGroupId, RepoId, SkillId, SkillSourceId,
    SkillVersion, TaskSlug, Timestamp,
};
use workc::domain::skill_registry::{
    SkillDefinition, SkillRegistry, SkillRegistryRepository, SkillSource,
};
use workc::domain::task::{
    TaskActivity, TaskMeta, TaskPaths, TaskRepoSelection, TaskRepository, TaskSkillMount,
    TaskSkillMountRepository, TaskSkillMountStatus, TaskStatus, TaskWorkspace,
};

const HOUR: i128 = 3_600_000_000_000;

fn at_hours(hours: i128) -> Timestamp {
    Timestamp::from_unix_nanos(hours * HOUR)
}

// ---- in-memory adapters ----

#[derive(Clone, Default)]
struct InMemoryTaskRepository {
    tasks: Rc<RefCell<BTreeMap<String, TaskWorkspace>>>,
}

impl TaskRepository for InMemoryTaskRepository {
    fn find(&self, slug: &TaskSlug) -> Result<Option<TaskWorkspace>, DomainError> {
        Ok(self.tasks.borrow().values().find(|task| task.meta.slug == *slug).cloned())
    }

    fn list(&self) -> Result<Vec<TaskWorkspace>, DomainError> {
        Ok(self.tasks.borrow().values().cloned().collect())
    }

    fn save(&self, task: &TaskWorkspace) -> Result<(), DomainError> {
        self.tasks.borrow_mut().insert(task.meta.slug.to_string(), task.clone());
        Ok(())
    }
}

#[derive(Clone)]
struct InMemoryRepoCatalogRepository {
    catalog: Rc<RefCell<RepoCatalog>>,
}

impl Default for InMemoryRepoCatalogRepository {
    fn default() -> Self {
        InMemoryRepoCatalogRepository {
            catalog: Rc::new(RefCell::new(RepoCatalog { repos: Vec::new(), groups: Vec::new() })),
        }
    }
}

impl RepoCatalogRepository for InMemoryRepoCatalogRepository {
    fn load(&self) -> Result<RepoCatalog, DomainError> {
        Ok(self.catalog.borrow().clone())
    }

    fn save(&self, catalog: &RepoCatalog) -> Result<(), DomainError> {
        *self.catalog.borrow_mut() = catalog.clone();
        Ok(())
    }

    fn find_repo(&self, id: &RepoId) -> Result<Option<RepoEntry>, DomainError> {
        Ok(self.catalog.borrow().repos.iter().find(|repo| repo.id == *id).cloned())
    }

    fn find_group(&self, id: &RepoGroupId) -> Result<Option<RepoGroup>, DomainError> {
        Ok(self.catalog.borrow().groups.iter().find(|group| group.id == *id).cloned())
    }
}

#[derive(Clone, Default)]
struct InMemorySkillRegistryRepository {
    registry: Rc<RefCell<SkillRegistry>>,
}

impl SkillRegistryRepository for InMemorySkillRegistryRepository {
    fn load(&self) -> Result<SkillRegistry, DomainError> {
        Ok(self.registry.borrow().clone())
    }

    fn save(&self, registry: &SkillRegistry) -> Result<(), DomainError> {
        *self.registry.borrow_mut() = registry.clone();
        Ok(())
    }

    fn find_source(&self, id: &SkillSourceId) -> Result<Option<SkillSource>, DomainError> {
        Ok(self.registry.borrow().sources.iter().find(|s| s.id == *id).cloned())
    }

    fn find_skill(&self, id: &SkillId) -> Result<Option<SkillDefinition>, DomainError> {
        Ok(self.registry.borrow().skills.iter().find(|s| s.id == *id).cloned())
    }
}

#[derive(Clone, Default)]
struct InMemoryTaskSkillMountRepository {
    mounts: Rc<RefCell<BTreeMap<String, Vec<TaskSkillMount>>>>,
}

impl TaskSkillMountRepository for InMemoryTaskSkillMountRepository {
    fn list_for_task(&self, slug: &TaskSlug) -> Result<Vec<TaskSkillMount>, DomainError> {
        Ok(self.mounts.borrow().get(slug.as_str()).cloned().unwrap_or_default())
    }

    fn save_for_task(&self, slug: &TaskSlug, mounts: &[TaskSkillMount]) -> Result<(), DomainError> {
        self.mounts.borrow_mut().insert(slug.to_string(), mounts.to_vec());
        Ok(())
    }

    fn remove_for_task(&self, slug: &TaskSlug, mount_id: &MountId) -> Result<(), DomainError> {
        if let Some(mounts) = self.mounts.borrow_mut().get_mut(slug.as_str()) {
            mounts.retain(|m| m.id != *mount_id);
        }
        Ok(())
    }
}

struct InMemoryKnowledgeRepository {
    base: RefCell<KnowledgeBase>,
    candidates: RefCell<BTreeMap<(String, String), KnowledgeCandidate>>,
}

impl InMemoryKnowledgeRepository {
    fn new() -> Self {
        InMemoryKnowledgeRepository {
            base: RefCell::new(KnowledgeBase::default()),
            candidates: RefCell::new(BTreeMap::new()),
        }
    }
}

impl KnowledgeRepository for InMemoryKnowledgeRepository {
    fn load(&self) -> Result<KnowledgeBase, DomainError> {
        Ok(self.base.borrow().clone())
    }

    fn save(&self, knowledge_base: &KnowledgeBase) -> Result<(), DomainError> {
        *self.base.borrow_mut() = knowledge_base.clone();
        Ok(())
    }

    fn list_candidates(&self, task: &TaskSlug) -> Result<Vec<KnowledgeCandidate>, DomainError> {
        let prefix = task.to_string();
        Ok(self
            .candidates
            .borrow()
            .iter()
            .filter(|((tid, _), _)| tid == &prefix)
            .map(|(_, c)| c.clone())
            .collect())
    }

    fn create_candidate(&self, candidate: &KnowledgeCandidate) -> Result<(), DomainError> {
        self.candidates
            .borrow_mut()
            .insert((candidate.task_slug.to_string(), candidate.id.to_string()), candidate.clone());
        Ok(())
    }

    fn update_candidate(&self, _task: &TaskSlug, candidate: &KnowledgeCandidate) -> Result<(), DomainError> {
        self.candidates
            .borrow_mut()
            .insert((candidate.task_slug.to_string(), candidate.id.to_string()), candidate.clone());
        Ok(())
    }

    fn delete_candidate(&self, task: &TaskSlug, candidate_id: &KnowledgeCandidateId) -> Result<(), DomainError> {
        self.candidates.borrow_mut().remove(&(task.to_string(), candidate_id.to_string()));
        Ok(())
    }

    fn find_candidate(
        &self,
        task: &TaskSlug,
        candidate_id: &KnowledgeCandidateId,
    ) -> Result<Option<KnowledgeCandidate>, DomainError> {
        Ok(self.candidates.borrow().get(&(task.to_string(), candidate_id.to_string())).cloned())
    }

    fn create_entry(&self, entry: &KnowledgeEntry) -> Result<(), DomainError> {
        self.base.borrow_mut().entries.push(entry.clone());
        Ok(())
    }

    fn update_entry(&self, entry: &KnowledgeEntry) -> Result<(), DomainError> {
        let mut base = self.base.borrow_mut();
        if let Some(existing) = base.entries.iter_mut().find(|e| e.id == entry.id) {
            *existing = entry.clone();
        }
        Ok(())
    }

    fn delete_entry(&self, id: &KnowledgeId) -> Result<(), DomainError> {
        self.base.borrow_mut().entries.retain(|e| e.id != *id);
        Ok(())
    }

    fn promote_candidate(
        &self,
        task: &TaskSlug,
        candidate_id: &KnowledgeCandidateId,
        knowledge_id: &KnowledgeId,
    ) -> Result<(), DomainError> {
        let candidate = self.find_candidate(task, candidate_id)?.ok_or_else(|| {
            DomainError::NotFound {
                entity: EntityKind::KnowledgeCandidate,
                slug: candidate_id.to_string(),
            }
        })?;
        let entry = KnowledgeEntry {
            id: knowledge_id.clone(),
            title: candidate.title,
            path: format!("knowledge/{}", knowledge_id.as_str()),
            category: candidate.category,
            tags: candidate.tags,
            sources: candidate.sources,
            created_at: Some(Timestamp::unix_epoch()),
            updated_at: Some(Timestamp::unix_epoch()),
        };
        self.create_entry(&entry)?;
        Ok(())
    }

    fn find_entry(&self, id: &KnowledgeId) -> Result<Option<KnowledgeEntry>, DomainError> {
        Ok(self.base.borrow().entries.iter().find(|e| e.id == *id).cloned())
    }
}

struct FixedClock {
    now: Timestamp,
}

impl Clock for FixedClock {
    fn now(&self) -> Timestamp {
        self.now
    }
}

fn epoch_clock() -> Box<FixedClock> {
    Box::new(FixedClock { now: Timestamp::unix_epoch() })
}

#[derive(Clone, Default)]
struct RecordingEditorLauncher {
    calls: Rc<RefCell<Vec<(String, String)>>>,
}

impl EditorLauncher for RecordingEditorLauncher {
    fn open_dir(&self, path: &str, editor: &str) -> Result<(), EditorError> {
        self.calls.borrow_mut().push((path.to_owned(), editor.to_owned()));
        Ok(())
    }
}

struct FailingEditorLauncher;

impl EditorLauncher for FailingEditorLauncher {
    fn open_dir(&self, _path: &str, _editor: &str) -> Result<(), EditorError> {
        Err(EditorError { detail: "editor unavailable".to_owned() })
    }
}

struct RecordingGitClient;

impl GitClient for RecordingGitClient {
    fn clone_repo(&self, _path: &str, _url: &str) -> Result<(), GitError> {
        Ok(())
    }

    fn get_repo_status(&self, _path: &str) -> Result<RepoStatus, GitError> {
        Ok(RepoStatus {
            branch: Some("main".to_owned()),
            dirty: false,
            ahead: 0,
            behind: 0,
            clone_state: CloneState::Ready,
        })
    }

    fn fetch_repo(&self, _path: &str) -> Result<(), GitError> {
        Ok(())
    }

    fn pull_repo(&self, _path: &str) -> Result<(), GitError> {
        Ok(())
    }
}

struct FailingGitClient;

impl GitClient for FailingGitClient {
    fn clone_repo(&self, _path: &str, _url: &str) -> Result<(), GitError> {
        Err(GitError { detail: "network down".to_owned() })
    }

    fn get_repo_status(&self, _path: &str) -> Result<RepoStatus, GitError> {
        Err(GitError { detail: "not a repository".to_owned() })
    }

    fn fetch_repo(&self, _path: &str) -> Result<(), GitError> {
        Ok(())
    }

    fn pull_repo(&self, _path: &str) -> Result<(), GitError> {
        Ok(())
    }
}

// ---- task service ----

fn task_service(repo: InMemoryTaskRepository, launcher: RecordingEditorLauncher) -> DefaultTaskApplicationService {
    DefaultTaskApplicationService::new(
        "/workspace".to_owned(),
        Box::new(repo),
        epoch_clock(),
        Box::new(launcher),
    )
}

fn sample_listed_task(slug: &str, title: &str, last_activity_at: Option<Timestamp>) -> TaskWorkspace {
    TaskWorkspace {
        meta: TaskMeta {
            slug: TaskSlug::from(slug),
            title: title.to_owned(),
            template: "default".to_owned(),
            status: TaskStatus::Active,
            description: None,
            source_brief: None,
            tags: vec!["auth".to_owned()],
        },
        repos: TaskRepoSelection {
            selected_repo_groups: vec![],
            repos: vec![RepoId::from("api-gateway")],
        },
        activity: TaskActivity {
            created_at: Timestamp::unix_epoch(),
            updated_at: Timestamp::unix_epoch(),
            last_opened_at: None,
            last_activity_at,
            last_editor: None,
        },
        paths: TaskPaths {
            materials_dir: "materials".into(),
            repos_dir: "repos".into(),
            knowledge_candidates_dir: "knowledge-candidates".into(),
            task_skills_dir: ".codex/skills".into(),
        },
    }
}

#[test]
fn create_task_accepts_initial_skills_and_repo_groups() {
    let service = task_service(InMemoryTaskRepository::default(), RecordingEditorLauncher::default());

    let result = service.create_task(CreateTaskCommand {
        slug: "auth-session-fix".to_owned(),
        title: "Fix session renewal".to_owned(),
        template: "default".to_owned(),
        description: None,
        source_brief: None,
        tags: vec![],
        selected_repo_groups: vec!["auth-core".to_owned()],
        repos: vec![],
        initial_skills: vec!["frontend-testing".to_owned()],
    });

    assert!(result.is_ok());
    let created = result.unwrap();
    assert_eq!(created.slug.as_str(), "auth-session-fix");
}

#[test]
fn list_tasks_sorts_by_last_activity_desc() {
    let repo = InMemoryTaskRepository::default();
    repo.save(&sample_listed_task("older", "Older task", Some(Timestamp::unix_epoch()))).unwrap();
    repo.save(&sample_listed_task("newer", "Newer task", Some(at_hours(1)))).unwrap();
    let service = task_service(repo, RecordingEditorLauncher::default());

    let items = service
        .list_tasks(ListTasksQuery {
            status: Some(ApplicationTaskStatus::Active),
            tag: Some("auth".to_owned()),
            limit: None,
        })
        .unwrap();

    assert_eq!(items.len(), 2);
    assert_eq!(items[0].slug.as_str(), "newer");
    assert_eq!(items[1].slug.as_str(), "older");
}

#[test]
fn open_task_requires_editor_in_this_phase() {
    let repo = InMemoryTaskRepository::default();
    repo.save(&sample_listed_task("auth-session-fix", "Fix session renewal", None)).unwrap();
    let service = task_service(repo, RecordingEditorLauncher::default());

    let result = service.open_task(OpenTaskCommand { task: "auth-session-fix".to_owned(), editor: None });

    assert!(
        matches!(result, Err(ApplicationError::InvalidRequest(message)) if message.contains("missing --editor"))
    );
}

#[test]
fn open_task_does_not_persist_opened_state_when_launcher_fails() {
    let repo = InMemoryTaskRepository::default();
    repo.save(&sample_listed_task("auth-session-fix", "Fix session renewal", None)).unwrap();
    let service = DefaultTaskApplicationService::new(
        "/workspace".to_owned(),
        Box::new(repo.clone()),
        Box::new(FixedClock { now: at_hours(2) }),
        Box::new(FailingEditorLauncher),
    );

    let result = service.open_task(OpenTaskCommand {
        task: "auth-session-fix".to_owned(),
        editor: Some("cursor".to_owned()),
    });

    assert!(matches!(result, Err(ApplicationError::ExternalFailure { port, .. }) if port == "editor"));

    let stored = repo.find(&TaskSlug::from("auth-session-fix")).unwrap().unwrap();
    assert_eq!(stored.activity.last_opened_at, None);
    assert_eq!(stored.activity.last_editor, None);
}

#[test]
fn close_task_sets_status_to_closed() {
    let repo = InMemoryTaskRepository::default();
    repo.save(&sample_listed_task("auth-session-fix", "Fix session renewal", None)).unwrap();
    let service = task_service(repo.clone(), RecordingEditorLauncher::default());

    service.close_task(CloseTaskCommand { task_id: "auth-session-fix".to_owned() }).unwrap();

    let stored = repo.find(&TaskSlug::from("auth-session-fix")).unwrap().unwrap();
    assert_eq!(stored.meta.status, TaskStatus::Closed);
}

#[test]
fn close_task_fails_for_missing_task() {
    let service = task_service(InMemoryTaskRepository::default(), RecordingEditorLauncher::default());

    let result = service.close_task(CloseTaskCommand { task_id: "missing".to_owned() });
    assert!(result.is_err());
}

#[test]
fn create_task_generates_slug_when_empty() {
    let service = task_service(InMemoryTaskRepository::default(), RecordingEditorLauncher::default());
    let result = service
        .create_task(CreateTaskCommand {
            slug: String::new(),
            title: "Title".to_owned(),
            template: "default".to_owned(),
            description: None,
            source_brief: None,
            tags: vec![],
            selected_repo_groups: vec![],
            repos: vec![],
            initial_skills: vec![],
        })
        .unwrap();
    assert_eq!(result.slug.len(), 8);
}

#[test]
fn list_tasks_respects_limit() {
    let repo = InMemoryTaskRepository::default();
    repo.save(&sample_listed_task("a", "A", None)).unwrap();
    repo.save(&sample_listed_task("b", "B", None)).unwrap();
    repo.save(&sample_listed_task("c", "C", None)).unwrap();
    let service = task_service(repo, RecordingEditorLauncher::default());

    let items = service.list_tasks(ListTasksQuery { status: None, tag: None, limit: Some(2) }).unwrap();

    assert_eq!(items.len(), 2);
}

#[test]
fn list_tasks_empty_with_no_tasks() {
    let service = task_service(InMemoryTaskRepository::default(), RecordingEditorLauncher::default());

    let items = service.list_tasks(ListTasksQuery { status: None, tag: None, limit: None }).unwrap();

    assert!(items.is_empty());
}

#[test]
fn load_task_returns_error_for_missing() {
    let service = task_service(InMemoryTaskRepository::default(), RecordingEditorLauncher::default());

    let result = service.load_task("missing");
    assert!(result.is_err());
}

#[test]
fn open_task_launches_editor_at_workspace_root() {
    let repo = InMemoryTaskRepository::default();
    repo.save(&sample_listed_task("auth-session-fix", "Fix session renewal", None)).unwrap();
    let launcher = RecordingEditorLauncher::default();
    let calls = launcher.calls.clone();
    let svc = task_service(repo.clone(), launcher);

    svc.open_task(OpenTaskCommand {
        task: "auth-session-fix".to_owned(),
        editor: Some("cursor".to_owned()),
    })
    .unwrap();

    assert_eq!(calls.borrow()[0].0.as_str(), "/workspace");
    assert_eq!(calls.borrow()[0].1.as_str(), "cursor");
    let stored = repo.find(&TaskSlug::from("auth-session-fix")).unwrap().unwrap();
    assert_eq!(stored.activity.last_editor.as_deref(), Some("cursor"));
    assert_eq!(stored.activity.last_opened_at, Some(Timestamp::unix_epoch()));
}

#[test]
fn list_tasks_filters_ties_and_limits() {
    let repo = InMemoryTaskRepository::default();
    let mut closed = sample_listed_task("d-closed", "D", Some(at_hours(5)));
    closed.meta.status = TaskStatus::Closed;
    repo.save(&closed).unwrap();
    let mut untagged = sample_listed_task("e-untagged", "E", Some(at_hours(6)));
    untagged.meta.tags = vec!["infra".to_owned()];
    repo.save(&untagged).unwrap();
    repo.save(&sample_listed_task("b-same", "B", Some(at_hours(3)))).unwrap();
    repo.save(&sample_listed_task("a-same", "A", Some(at_hours(3)))).unwrap();
    repo.save(&sample_listed_task("c-never", "C", None)).unwrap();
    let service = task_service(repo, RecordingEditorLauncher::default());

    let all = service.list_tasks(ListTasksQuery { status: None, tag: None, limit: Some(0) }).unwrap();
    let slugs: Vec<&str> = all.iter().map(|i| i.slug.as_str()).collect();
    assert_eq!(slugs, vec!["e-untagged", "d-closed", "a-same", "b-same", "c-never"]);
    assert_eq!(all[0].id, "e-untagged");
    assert_eq!(all[1].status, ApplicationTaskStatus::Closed);
    assert_eq!(all[4].last_activity_at, None);

    let active_auth = service
        .list_tasks(ListTasksQuery {
            status: Some(ApplicationTaskStatus::Active),
            tag: Some("auth".to_owned()),
            limit: Some(2),
        })
        .unwrap();
    let slugs: Vec<&str> = active_auth.iter().map(|i| i.slug.as_str()).collect();
    assert_eq!(slugs, vec!["a-same", "b-same"]);
}

#[test]
fn create_task_reports_first_broken_rule() {
    let service = task_service(InMemoryTaskRepository::default(), RecordingEditorLauncher::default());
    let result = service.create_task(CreateTaskCommand {
        slug: "  ".to_owned(),
        title: " ".to_owned(),
        template: "default".to_owned(),
        description: None,
        source_brief: None,
        tags: vec![],
        selected_repo_groups: vec![],
        repos: vec![],
        initial_skills: vec![],
    });
    match result {
        Err(ApplicationError::Domain(DomainError::InvalidInput { field, reason })) => {
            assert_eq!(field, FieldKind::Title);
            assert_eq!(reason, "title cannot be empty");
        },
        other => panic!("unexpected {:?}", other),
    }
}

#[test]
fn close_task_twice_reports_conflict() {
    let repo = InMemoryTaskRepository::default();
    repo.save(&sample_listed_task("t", "T", None)).unwrap();
    let service = task_service(repo, RecordingEditorLauncher::default());
    service.close_task(CloseTaskCommand { task_id: "t".to_owned() }).unwrap();
    let again = service.close_task(CloseTaskCommand { task_id: "t".to_owned() });
    assert!(matches!(
        again,
        Err(ApplicationError::Domain(DomainError::Conflict { entity: EntityKind::Task, reason })) if reason == "already closed"
    ));
    let missing = service.close_task(CloseTaskCommand { task_id: "nope".to_owned() });
    assert!(matches!(
        missing,
        Err(ApplicationError::Domain(DomainError::NotFound { entity: EntityKind::Task, slug })) if slug == "nope"
    ));
}

// ---- task repos service ----

fn repos_sample_task() -> TaskWorkspace {
    TaskWorkspace {
        meta: TaskMeta {
            slug: TaskSlug::from("auth-session-fix"),
            title: "Fix session renewal".to_owned(),
            template: "default".to_owned(),
            status: TaskStatus::Active,
            description: None,
            source_brief: None,
            tags: vec!["auth".to_owned()],
        },
        repos: TaskRepoSelection { selected_repo_groups: vec![], repos: vec![] },
        activity: TaskActivity {
            created_at: Timestamp::unix_epoch(),
            updated_at: Timestamp::unix_epoch(),
            last_opened_at: None,
            last_activity_at: Some(Timestamp::unix_epoch()),
            last_editor: None,
        },
        paths: TaskPaths {
            materials_dir: "materials".into(),
            repos_dir: "repos".into(),
            knowledge_candidates_dir: "knowledge-candidates".into(),
            task_skills_dir: ".codex/skills".into(),
        },
    }
}

fn sample_catalog() -> RepoCatalog {
    RepoCatalog {
        repos: vec![
            RepoEntry {
                id: RepoId::from("api-gateway"),
                url: "git@github.com:example/api-gateway.git".to_owned(),
                tags: vec!["backend".to_owned()],
                description: None,
            },
            RepoEntry {
                id: RepoId::from("auth-service"),
                url: "git@github.com:example/auth-service.git".to_owned(),
                tags: vec!["backend".to_owned()],
                description: None,
            },
        ],
        groups: vec![RepoGroup {
            id: RepoGroupId::from("auth-core"),
            repos: vec![RepoId::from("api-gateway"), RepoId::from("auth-service")],
            tags: vec!["auth".to_owned()],
            description: None,
        }],
    }
}

fn repos_service_with(tasks: InMemoryTaskRepository, git: Box<dyn GitClient>) -> DefaultTaskReposApplicationService {
    DefaultTaskReposApplicationService::new(
        Box::new(tasks),
        Box::new(InMemoryRepoCatalogRepository { catalog: Rc::new(RefCell::new(sample_catalog())) }),
        epoch_clock(),
        git,
    )
}

fn repos_service(task: TaskWorkspace) -> DefaultTaskReposApplicationService {
    let tasks = InMemoryTaskRepository::default();
    tasks.save(&task).unwrap();
    repos_service_with(tasks, Box::new(RecordingGitClient))
}

fn task_with_repos(repos: &[&str]) -> TaskWorkspace {
    let mut task = repos_sample_task();
    task.repos.repos = repos.iter().map(|r| RepoId::from(*r)).collect();
    task
}

#[test]
fn set_task_repos_merges_group_and_explicit_repo_ids() {
    let tasks = InMemoryTaskRepository::default();
    tasks.save(&repos_sample_task()).unwrap();
    let service = DefaultTaskReposApplicationService::new(
        Box::new(tasks),
        Box::new(InMemoryRepoCatalogRepository { catalog: Rc::new(RefCell::new(sample_catalog())) }),
        Box::new(FixedClock { now: at_hours(1) }),
        Box::new(RecordingGitClient),
    );

    let result = service
        .set_task_repos(SetTaskReposCommand {
            task_id: "auth-session-fix".to_owned(),
            selected_repo_groups: vec!["auth-core".to_owned()],
            repos: vec!["api-gateway".to_owned()],
        })
        .unwrap();

    assert_eq!(result.selected_repo_groups, vec!["auth-core".to_owned()]);
    assert_eq!(result.repos.len(), 2);
}

#[test]
fn add_task_repos_rejects_unknown_repo() {
    let service = repos_service(repos_sample_task());

    let result = service.add_task_repos(AddTaskReposCommand {
        task_id: "auth-session-fix".to_owned(),
        repos: vec!["unknown-repo".to_owned()],
    });

    assert!(
        matches!(result, Err(ApplicationError::Domain(DomainError::NotFound { entity, .. })) if entity == EntityKind::Repo)
    );
}

#[test]
fn clone_task_repos_dry_run_reports_targets_without_cloning() {
    let service = repos_service(task_with_repos(&["api-gateway"]));

    let result = service
        .clone_task_repos(CloneTaskReposCommand {
            task_id: "auth-session-fix".to_owned(),
            repos: None,
            missing_only: false,
            dry_run: true,
        })
        .unwrap();

    assert_eq!(result.len(), 1);
    assert!(result[0].dry_run);
}

#[test]
fn repo_status_dry_run_reports_missing_clone_state() {
    let service = repos_service(task_with_repos(&["api-gateway"]));

    let result = service
        .get_repo_statuses(RepoStatusQuery {
            task_id: "auth-session-fix".to_owned(),
            repos: None,
            clone_state: Some(CloneStateFilter::Missing),
            dry_run: true,
        })
        .unwrap();

    assert_eq!(result.len(), 1);
    assert_eq!(result[0].status.clone_state, CloneState::Missing);
}

#[test]
fn remove_task_repos_removes_repository() {
    let service = repos_service(task_with_repos(&["api-gateway", "auth-service"]));

    let result = service
        .remove_task_repos(RemoveTaskReposCommand {
            task_id: "auth-session-fix".to_owned(),
            repos: vec!["api-gateway".to_owned()],
        })
        .unwrap();

    assert_eq!(result.repos.len(), 1);
    assert_eq!(result.repos[0], "auth-service");
}

#[test]
fn clone_task_repos_real_execution_uses_git_client() {
    let service = repos_service(task_with_repos(&["api-gateway"]));

    let result = service
        .clone_task_repos(CloneTaskReposCommand {
            task_id: "auth-session-fix".to_owned(),
            repos: None,
            missing_only: false,
            dry_run: false,
        })
        .unwrap();

    assert_eq!(result.len(), 1);
    assert!(result[0].cloned);
    assert!(!result[0].dry_run);
}

#[test]
fn get_repo_statuses_with_real_git() {
    let service = repos_service(task_with_repos(&["api-gateway"]));

    let result = service
        .get_repo_statuses(RepoStatusQuery {
            task_id: "auth-session-fix".to_owned(),
            repos: None,
            clone_state: None,
            dry_run: false,
        })
        .unwrap();

    assert_eq!(result.len(), 1);
    assert_eq!(result[0].status.clone_state, CloneState::Ready);
    assert_eq!(result[0].status.branch.as_deref(), Some("main"));
}

#[test]
fn get_repo_statuses_filters_by_dirty_clone_state() {
    let service = repos_service(task_with_repos(&["api-gateway"]));

    let result = service
        .get_repo_statuses(RepoStatusQuery {
            task_id: "auth-session-fix".to_owned(),
            repos: None,
            clone_state: Some(CloneStateFilter::Dirty),
            dry_run: false,
        })
        .unwrap();

    assert!(result.is_empty());
}

#[test]
fn set_task_repos_with_groups_only() {
    let service = repos_service(task_with_repos(&[]));

    let result = service
        .set_task_repos(SetTaskReposCommand {
            task_id: "auth-session-fix".to_owned(),
            selected_repo_groups: vec!["auth-core".to_owned()],
            repos: vec![],
        })
        .unwrap();

    assert_eq!(result.repos.len(), 2);
}

#[test]
fn clone_task_repos_missing_only_skips_existing() {
    let service = repos_service(task_with_repos(&["api-gateway"]));

    let result = service
        .clone_task_repos(CloneTaskReposCommand {
            task_id: "auth-session-fix".to_owned(),
            repos: None,
            missing_only: true,
            dry_run: false,
        })
        .unwrap();

    assert_eq!(result.len(), 1);
    assert!(result[0].cloned);
}

#[test]
fn load_task_by_slug_fallback() {
    let service = repos_service(repos_sample_task());

    let result = service.set_task_repos(SetTaskReposCommand {
        task_id: "auth-session-fix".to_owned(),
        selected_repo_groups: vec![],
        repos: vec!["api-gateway".to_owned()],
    });
    assert!(result.is_ok());
}

#[test]
fn get_repo_statuses_filters_by_ready_clone_state() {
    let service = repos_service(task_with_repos(&["api-gateway"]));

    let result = service
        .get_repo_statuses(RepoStatusQuery {
            task_id: "auth-session-fix".to_owned(),
            repos: None,
            clone_state: Some(CloneStateFilter::Ready),
            dry_run: false,
        })
        .unwrap();

    assert_eq!(result.len(), 1);
    assert_eq!(result[0].status.clone_state, CloneState::Ready);
}

#[test]
fn resolve_group_repos_fails_for_unknown_group() {
    let service = repos_service(repos_sample_task());

    let result = service.set_task_repos(SetTaskReposCommand {
        task_id: "auth-session-fix".to_owned(),
        selected_repo_groups: vec!["nonexistent".to_owned()],
        repos: vec![],
    });
    assert!(
        matches!(result, Err(ApplicationError::Domain(DomainError::NotFound { entity, .. })) if entity == EntityKind::RepoGroup)
    );
}

#[test]
fn task_repos_are_kept_sorted_and_unique() {
    let tasks = InMemoryTaskRepository::default();
    tasks.save(&task_with_repos(&["auth-service"])).unwrap();
    let service = repos_service_with(tasks.clone(), Box::new(RecordingGitClient));

    let added = service
        .add_task_repos(AddTaskReposCommand {
            task_id: "auth-session-fix".to_owned(),
            repos: vec!["api-gateway".to_owned(), "auth-service".to_owned(), "api-gateway".to_owned()],
        })
        .unwrap();
    assert_eq!(added.repos, vec!["api-gateway", "auth-service"]);
    assert_eq!(added.task_id, "auth-session-fix");
    assert_eq!(added.updated_at, Timestamp::unix_epoch());

    let removed = service
        .remove_task_repos(RemoveTaskReposCommand {
            task_id: "auth-session-fix".to_owned(),
            repos: vec!["api-gateway".to_owned(), "not-there".to_owned()],
        })
        .unwrap();
    assert_eq!(removed.repos, vec!["auth-service"]);
    let stored = tasks.find(&TaskSlug::from("auth-session-fix")).unwrap().unwrap();
    assert_eq!(stored.repos.repos, vec![RepoId::from("auth-service")]);
}

#[test]
fn clone_dry_run_on_selected_repo_and_git_failure() {
    let service = repos_service(task_with_repos(&["api-gateway", "auth-service"]));
    let result = service
        .clone_task_repos(CloneTaskReposCommand {
            task_id: "auth-session-fix".to_owned(),
            repos: Some(vec!["auth-service".to_owned()]),
            missing_only: false,
            dry_run: true,
        })
        .unwrap();
    assert_eq!(result.len(), 1);
    assert_eq!(result[0].repo_id, "auth-service");
    assert_eq!(result[0].path, "repos/auth-service");
    assert_eq!(result[0].skipped_reason.as_deref(), Some("dry-run"));
    assert!(!result[0].cloned);

    let tasks = InMemoryTaskRepository::default();
    tasks.save(&task_with_repos(&["api-gateway"])).unwrap();
    let failing = repos_service_with(tasks, Box::new(FailingGitClient));
    let result = failing.clone_task_repos(CloneTaskReposCommand {
        task_id: "auth-session-fix".to_owned(),
        repos: None,
        missing_only: false,
        dry_run: false,
    });
    match result {
        Err(ApplicationError::ExternalFailure { port, detail }) => {
            assert_eq!(port, "git");
            assert_eq!(detail, "network down");
        },
        other => panic!("unexpected {:?}", other),
    }
}

#[test]
fn clone_reports_repo_missing_from_catalog() {
    let service = repos_service(task_with_repos(&["api-gateway", "ghost"]));
    let result = service.clone_task_repos(CloneTaskReposCommand {
        task_id: "auth-session-fix".to_owned(),
        repos: None,
        missing_only: false,
        dry_run: true,
    });
    assert!(matches!(
        result,
        Err(ApplicationError::Domain(DomainError::NotFound { entity: EntityKind::Repo, slug })) if slug == "ghost"
    ));
}

// ---- task skills service ----

fn skills_sample_task() -> TaskWorkspace {
    let mut task = repos_sample_task();
    task.meta.slug = TaskSlug::from("auth-fix");
    task.meta.title = "Auth Fix".to_owned();
    task.meta.tags = vec![];
    task
}

fn skills_service_with(skill: SkillDefinition) -> DefaultTaskSkillsApplicationService {
    let tasks = InMemoryTaskRepository::default();
    tasks.save(&skills_sample_task()).unwrap();
    let registry = InMemorySkillRegistryRepository::default();
    registry.registry.borrow_mut().skills.push(skill);
    DefaultTaskSkillsApplicationService::new(
        Box::new(tasks),
        Box::new(InMemoryTaskSkillMountRepository::default()),
        Box::new(registry),
        epoch_clock(),
    )
}

fn skills_service() -> DefaultTaskSkillsApplicationService {
    skills_service_with(SkillDefinition {
        id: SkillId::from("frontend-testing"),
        source: SkillSourceId::from("frontend-toolkit"),
        versions: vec![SkillVersion::from("2026-05-22")],
        latest: Some(SkillVersion::from("2026-05-22")),
    })
}

#[test]
fn mount_skill_creates_mount_with_latest_version() {
    let svc = skills_service();
    let summary = svc
        .mount_skill(MountSkillCommand {
            task_id: "auth-fix".to_owned(),
            skill_id: "frontend-testing".to_owned(),
            version: None,
        })
        .unwrap();

    assert_eq!(summary.skill_id, "frontend-testing");
    assert_eq!(summary.version, "2026-05-22");
    assert_eq!(summary.status, TaskSkillMountStatus::Active);
    assert!(summary.path.as_str().contains("frontend-testing"));
}

#[test]
fn mount_skill_fails_for_missing_skill() {
    let svc = skills_service();
    let result = svc.mount_skill(MountSkillCommand {
        task_id: "auth-fix".to_owned(),
        skill_id: "nonexistent".to_owned(),
        version: None,
    });
    assert!(result.is_err());
}

#[test]
fn mount_skill_fails_when_no_version_and_no_latest() {
    let svc = skills_service_with(SkillDefinition {
        id: SkillId::from("frontend-testing"),
        source: SkillSourceId::from("frontend-toolkit"),
        versions: vec![],
        latest: None,
    });

    let result = svc.mount_skill(MountSkillCommand {
        task_id: "auth-fix".to_owned(),
        skill_id: "frontend-testing".to_owned(),
        version: None,
    });
    assert!(result.is_err());
}

#[test]
fn list_mounts_returns_empty_initially() {
    let svc = skills_service();
    let mounts = svc.list_mounts(&TaskSlug::from("auth-fix")).unwrap();
    assert!(mounts.is_empty());
}

#[test]
fn unmount_skill_removes_mount() {
    let svc = skills_service();
    let summary = svc
        .mount_skill(MountSkillCommand {
            task_id: "auth-fix".to_owned(),
            skill_id: "frontend-testing".to_owned(),
            version: None,
        })
        .unwrap();

    svc.unmount_skill(UnmountSkillCommand {
        task_id: "auth-fix".to_owned(),
        mount_id: summary.mount_id.clone(),
    })
    .unwrap();

    let mounts = svc.list_mounts(&TaskSlug::from("auth-fix")).unwrap();
    assert!(mounts.is_empty());
}

#[test]
fn override_skill_returns_adapter_unavailable() {
    let svc = skills_service();
    let result = svc.override_skill(OverrideSkillCommand {
        task_id: "task-x".to_owned(),
        mount_id: "m1".to_owned(),
        relative_path: "override".into(),
    });
    assert!(matches!(result, Err(ApplicationError::AdapterUnavailable("skill override"))));
}

#[test]
fn check_skill_updates_detects_update_available() {
    let svc = skills_service();
    svc.mount_skill(MountSkillCommand {
        task_id: "auth-fix".to_owned(),
        skill_id: "frontend-testing".to_owned(),
        version: Some("2026-05-20".to_owned()),
    })
    .unwrap();

    let updates = svc
        .check_skill_updates(CheckSkillUpdatesQuery { task_id: "auth-fix".to_owned(), mount_id: None })
        .unwrap();
    assert_eq!(updates.len(), 1);
    assert!(updates[0].update_available);
    assert_eq!(updates[0].target_version.as_ref().map(|v| v.as_str()), Some("2026-05-22"));
}

#[test]
fn check_skill_updates_no_update_when_already_latest() {
    let svc = skills_service();
    svc.mount_skill(MountSkillCommand {
        task_id: "auth-fix".to_owned(),
        skill_id: "frontend-testing".to_owned(),
        version: None,
    })
    .unwrap();

    let updates = svc
        .check_skill_updates(CheckSkillUpdatesQuery { task_id: "auth-fix".to_owned(), mount_id: None })
        .unwrap();
    assert_eq!(updates.len(), 1);
    assert!(!updates[0].update_available);
}

#[test]
fn update_skill_changes_version_to_latest() {
    let svc = skills_service();
    let summary = svc
        .mount_skill(MountSkillCommand {
            task_id: "auth-fix".to_owned(),
            skill_id: "frontend-testing".to_owned(),
            version: Some("2026-05-20".to_owned()),
        })
        .unwrap();

    let updated = svc
        .update_skill(UpdateSkillCommand { task_id: "auth-fix".to_owned(), mount_id: summary.mount_id })
        .unwrap();

    assert_eq!(updated.version, "2026-05-22");
}

#[test]
fn update_skill_fails_for_missing_mount() {
    let svc = skills_service();
    let result = svc.update_skill(UpdateSkillCommand {
        task_id: "auth-fix".to_owned(),
        mount_id: "mount-999".to_owned(),
    });
    assert!(result.is_err());
}

#[test]
fn sandbox_skill_returns_handle() {
    let svc = skills_service();
    let handle = svc
        .sandbox_skill(SandboxSkillCommand { task_id: "auth-fix".to_owned(), mount_id: "mount-001".to_owned() })
        .unwrap();

    assert_eq!(handle.mount_id, "mount-001");
    assert!(handle.path.as_str().contains("mount-001"));
}

#[test]
fn update_then_check_reports_no_update() {
    let svc = skills_service();
    let summary = svc
        .mount_skill(MountSkillCommand {
            task_id: "auth-fix".to_owned(),
            skill_id: "frontend-testing".to_owned(),
            version: Some("old".to_owned()),
        })
        .unwrap();
    assert_eq!(summary.path, ".opencode/skills/frontend-testing");
    assert_eq!(summary.source, "frontend-toolkit");
    assert_eq!(summary.mount_id.len(), 8);
    svc.update_skill(UpdateSkillCommand { task_id: "auth-fix".to_owned(), mount_id: summary.mount_id.clone() })
        .unwrap();
    let updates = svc
        .check_skill_updates(CheckSkillUpdatesQuery {
            task_id: "auth-fix".to_owned(),
            mount_id: Some(summary.mount_id.clone()),
        })
        .unwrap();
    assert_eq!(updates.len(), 1);
    assert!(!updates[0].update_available);
    let none = svc
        .check_skill_updates(CheckSkillUpdatesQuery {
            task_id: "auth-fix".to_owned(),
            mount_id: Some("other".to_owned()),
        })
        .unwrap();
    assert!(none.is_empty());
    let handle = svc
        .sandbox_skill(SandboxSkillCommand { task_id: "auth-fix".to_owned(), mount_id: "m1".to_owned() })
        .unwrap();
    assert_eq!(handle.path, "skills/mounted/m1");
}

#[test]
fn mount_skill_without_version_or_latest_says_why() {
    let svc = skills_service_with(SkillDefinition {
        id: SkillId::from("s"),
        source: SkillSourceId::from("src"),
        versions: vec![],
        latest: None,
    });
    let result = svc.mount_skill(MountSkillCommand {
        task_id: "auth-fix".to_owned(),
        skill_id: "s".to_owned(),
        version: None,
    });
    assert!(matches!(result, Err(ApplicationError::InvalidRequest(m)) if m == "skill version is required"));
    let missing_task = svc.mount_skill(MountSkillCommand {
        task_id: "nope".to_owned(),
        skill_id: "s".to_owned(),
        version: Some("1".to_owned()),
    });
    assert!(matches!(
        missing_task,
        Err(ApplicationError::Domain(DomainError::NotFound { entity: EntityKind::Task, .. }))
    ));
}

// ---- skill registry service ----

fn registry_service() -> DefaultSkillRegistryApplicationService {
    DefaultSkillRegistryApplicationService::new(Box::new(InMemorySkillRegistryRepository::default()), epoch_clock())
}

#[test]
fn import_source_persists_source_and_skills() {
    let service = registry_service();

    service
        .import_source(ImportSkillSourceCommand {
            source_id: "frontend-toolkit".to_owned(),
            kind: ApplicationSkillSourceKind::Local,
            location: "C:/skills/frontend-toolkit".to_owned(),
            reference: Some("2026-05-24".to_owned()),
            skills: vec![ImportedSkillDefinition {
                id: "frontend-testing".to_owned(),
                versions: vec!["2026-05-22".to_owned()],
                latest: Some("2026-05-22".to_owned()),
            }],
        })
        .unwrap();

    let shown = service
        .show_skill(ShowSkillQuery { skill_id: "frontend-testing".to_owned() })
        .unwrap()
        .unwrap();

    assert_eq!(shown.id, "frontend-testing");
    assert_eq!(shown.source, "frontend-toolkit");
}

#[test]
fn import_source_rejects_duplicate_source() {
    let service = registry_service();
    service
        .import_source(ImportSkillSourceCommand {
            source_id: "frontend-toolkit".to_owned(),
            kind: ApplicationSkillSourceKind::Local,
            location: "C:/skills".to_owned(),
            reference: None,
            skills: vec![],
        })
        .unwrap();

    let result = service.import_source(ImportSkillSourceCommand {
        source_id: "frontend-toolkit".to_owned(),
        kind: ApplicationSkillSourceKind::Local,
        location: "C:/skills2".to_owned(),
        reference: None,
        skills: vec![],
    });
    assert!(
        matches!(result, Err(ApplicationError::Domain(DomainError::AlreadyExists { entity, .. })) if entity == EntityKind::Skill)
    );
}

#[test]
fn import_source_rejects_duplicate_skill() {
    let service = registry_service();
    service
        .import_source(ImportSkillSourceCommand {
            source_id: "frontend-toolkit".to_owned(),
            kind: ApplicationSkillSourceKind::Local,
            location: "C:/skills".to_owned(),
            reference: None,
            skills: vec![ImportedSkillDefinition { id: "frontend-testing".to_owned(), versions: vec![], latest: None }],
        })
        .unwrap();

    let result = service.import_source(ImportSkillSourceCommand {
        source_id: "frontend-toolkit-2".to_owned(),
        kind: ApplicationSkillSourceKind::Local,
        location: "C:/skills2".to_owned(),
        reference: None,
        skills: vec![ImportedSkillDefinition { id: "frontend-testing".to_owned(), versions: vec![], latest: None }],
    });
    assert!(
        matches!(result, Err(ApplicationError::Domain(DomainError::AlreadyExists { entity, .. })) if entity == EntityKind::Skill)
    );
}

#[test]
fn show_skill_returns_none_for_missing() {
    let service = registry_service();
    let result = service.show_skill(ShowSkillQuery { skill_id: "nonexistent".to_owned() }).unwrap();
    assert!(result.is_none());
}

#[test]
fn list_skill_versions_returns_empty_for_missing() {
    let service = registry_service();
    let versions = service.list_skill_versions(ShowSkillQuery { skill_id: "nonexistent".to_owned() }).unwrap();
    assert!(versions.is_empty());
}

#[test]
fn list_skill_versions_returns_versions_for_existing_skill() {
    let repo = InMemorySkillRegistryRepository::default();
    repo.registry.borrow_mut().skills.push(SkillDefinition {
        id: SkillId::from("frontend-testing"),
        source: SkillSourceId::from("src"),
        versions: vec![SkillVersion::from("v1"), SkillVersion::from("v2")],
        latest: Some(SkillVersion::from("v2")),
    });
    let service = DefaultSkillRegistryApplicationService::new(Box::new(repo), epoch_clock());
    let versions = service.list_skill_versions(ShowSkillQuery { skill_id: "frontend-testing".to_owned() }).unwrap();
    assert_eq!(versions, vec!["v1".to_owned(), "v2".to_owned()]);
}

#[test]
fn import_source_with_archive_kind() {
    let service = registry_service();
    let result = service.import_source(ImportSkillSourceCommand {
        source_id: "my-source".to_owned(),
        kind: ApplicationSkillSourceKind::Archive,
        location: "https://example.com/skill.zip".to_owned(),
        reference: None,
        skills: vec![ImportedSkillDefinition { id: "archive-skill".to_owned(), versions: vec![], latest: None }],
    });
    assert!(result.is_ok());
}

#[test]
fn import_source_with_other_kind() {
    let service = registry_service();
    let result = service.import_source(ImportSkillSourceCommand {
        source_id: "custom-src".to_owned(),
        kind: ApplicationSkillSourceKind::Other("custom-type".to_owned()),
        location: "/tmp/skill".to_owned(),
        reference: None,
        skills: vec![ImportedSkillDefinition { id: "custom-skill".to_owned(), versions: vec![], latest: None }],
    });
    assert!(result.is_ok());
}

#[test]
fn import_source_with_local_kind() {
    let service = registry_service();
    let result = service.import_source(ImportSkillSourceCommand {
        source_id: "local-src".to_owned(),
        kind: ApplicationSkillSourceKind::Local,
        location: "/home/user/skills/my-skill".to_owned(),
        reference: None,
        skills: vec![ImportedSkillDefinition { id: "local-skill".to_owned(), versions: vec![], latest: None }],
    });
    assert!(result.is_ok());
}

#[test]
fn import_rejects_skill_repeated_within_one_import_and_stores_nothing() {
    let repo = InMemorySkillRegistryRepository::default();
    let store = repo.registry.clone();
    let service = DefaultSkillRegistryApplicationService::new(Box::new(repo), epoch_clock());
    let result = service.import_source(ImportSkillSourceCommand {
        source_id: "src".to_owned(),
        kind: ApplicationSkillSourceKind::Git,
        location: "git@example.com:s.git".to_owned(),
        reference: None,
        skills: vec![
            ImportedSkillDefinition { id: "a".to_owned(), versions: vec![], latest: None },
            ImportedSkillDefinition { id: "b".to_owned(), versions: vec![], latest: None },
            ImportedSkillDefinition { id: "a".to_owned(), versions: vec![], latest: None },
        ],
    });
    assert!(matches!(
        result,
        Err(ApplicationError::Domain(DomainError::AlreadyExists { entity: EntityKind::Skill, slug })) if slug == "a"
    ));
    assert!(store.borrow().sources.is_empty());
    assert!(store.borrow().skills.is_empty());

    service
        .import_source(ImportSkillSourceCommand {
            source_id: "src".to_owned(),
            kind: ApplicationSkillSourceKind::Git,
            location: "git@example.com:s.git".to_owned(),
            reference: Some("main".to_owned()),
            skills: vec![ImportedSkillDefinition {
                id: "a".to_owned(),
                versions: vec!["1".to_owned(), "2".to_owned()],
                latest: Some("2".to_owned()),
            }],
        })
        .unwrap();
    let stored = store.borrow();
    assert_eq!(stored.sources.len(), 1);
    assert_eq!(stored.sources[0].imported_at, Some(Timestamp::unix_epoch()));
    assert_eq!(stored.sources[0].reference.as_deref(), Some("main"));
    assert_eq!(stored.skills.len(), 1);
    assert_eq!(stored.skills[0].source.as_str(), "src");
    assert_eq!(stored.skills[0].latest.as_ref().map(|v| v.as_str()), Some("2"));
}

// ---- repo catalog service ----

fn catalog_service() -> DefaultRepoCatalogApplicationService {
    DefaultRepoCatalogApplicationService::new(Box::new(InMemoryRepoCatalogRepository::default()))
}

#[test]
fn add_repo_persists_and_lists() {
    let service = catalog_service();

    let repo = service
        .add_repo(AddRepoCommand {
            id: "auth-service".to_owned(),
            url: "git@github.com:example/auth-service.git".to_owned(),
            tags: vec!["backend".to_owned()],
            description: Some("Auth service".to_owned()),
        })
        .unwrap();

    assert_eq!(repo.id, "auth-service");
    assert_eq!(service.list_repos().unwrap().len(), 1);
}

#[test]
fn add_repo_group_requires_existing_repos() {
    let service = catalog_service();

    let result = service.add_repo_group(AddRepoGroupCommand {
        id: "auth-core".to_owned(),
        repos: vec!["auth-service".to_owned()],
        tags: vec![],
        description: None,
    });

    assert!(
        matches!(result, Err(ApplicationError::Domain(DomainError::NotFound { entity, .. })) if entity == EntityKind::Repo)
    );
}

#[test]
fn add_repo_rejects_duplicate() {
    let service = catalog_service();

    service
        .add_repo(AddRepoCommand {
            id: "auth-service".to_owned(),
            url: "git@github.com:example/auth-service.git".to_owned(),
            tags: vec![],
            description: None,
        })
        .unwrap();

    let result = service.add_repo(AddRepoCommand {
        id: "auth-service".to_owned(),
        url: "git@github.com:example/auth-service-2.git".to_owned(),
        tags: vec![],
        description: None,
    });

    assert!(
        matches!(result, Err(ApplicationError::Domain(DomainError::AlreadyExists { entity, .. })) if entity == EntityKind::Repo)
    );
}

#[test]
fn add_repo_rejects_empty_url() {
    let service = catalog_service();

    let result = service.add_repo(AddRepoCommand {
        id: "auth-service".to_owned(),
        url: "   ".to_owned(),
        tags: vec![],
        description: None,
    });

    assert!(result.is_err());
}

#[test]
fn add_repo_group_creates_successfully_when_repos_exist() {
    let service = catalog_service();

    service
        .add_repo(AddRepoCommand {
            id: "auth-service".to_owned(),
            url: "git@github.com:example/auth-service.git".to_owned(),
            tags: vec![],
            description: None,
        })
        .unwrap();

    let group = service
        .add_repo_group(AddRepoGroupCommand {
            id: "auth-core".to_owned(),
            repos: vec!["auth-service".to_owned()],
            tags: vec!["core".to_owned()],
            description: None,
        })
        .unwrap();

    assert_eq!(group.id, "auth-core");
    assert_eq!(group.repos, vec!["auth-service"]);
}

#[test]
fn add_repo_group_rejects_empty_repos_list() {
    let service = catalog_service();

    let result = service.add_repo_group(AddRepoGroupCommand {
        id: "auth-core".to_owned(),
        repos: vec![],
        tags: vec![],
        description: None,
    });

    assert!(result.is_err());
}

#[test]
fn list_repos_sorts_alphabetically() {
    let service = catalog_service();

    service
        .add_repo(AddRepoCommand { id: "zulu".to_owned(), url: "url-z".to_owned(), tags: vec![], description: None })
        .unwrap();
    service
        .add_repo(AddRepoCommand { id: "alpha".to_owned(), url: "url-a".to_owned(), tags: vec![], description: None })
        .unwrap();

    let repos = service.list_repos().unwrap();
    assert_eq!(repos.len(), 2);
    assert_eq!(repos[0].id, "alpha");
    assert_eq!(repos[1].id, "zulu");
}

#[test]
fn list_repo_groups_sorts_alphabetically() {
    let service = catalog_service();

    service
        .add_repo(AddRepoCommand { id: "auth-service".to_owned(), url: "url".to_owned(), tags: vec![], description: None })
        .unwrap();
    service
        .add_repo_group(AddRepoGroupCommand {
            id: "z-group".to_owned(),
            repos: vec!["auth-service".to_owned()],
            tags: vec![],
            description: None,
        })
        .unwrap();
    service
        .add_repo_group(AddRepoGroupCommand {
            id: "a-group".to_owned(),
            repos: vec!["auth-service".to_owned()],
            tags: vec![],
            description: None,
        })
        .unwrap();

    let groups = service.list_repo_groups().unwrap();
    assert_eq!(groups[0].id, "a-group");
    assert_eq!(groups[1].id, "z-group");
}

#[test]
fn repo_catalog_errors_name_what_was_wrong() {
    let service = catalog_service();
    let blank = service.add_repo(AddRepoCommand {
        id: "x".to_owned(),
        url: "\t".to_owned(),
        tags: vec![],
        description: None,
    });
    assert!(matches!(blank, Err(ApplicationError::InvalidRequest(m)) if m == "repo url cannot be empty"));
    let empty = service.add_repo_group(AddRepoGroupCommand {
        id: "g".to_owned(),
        repos: vec![],
        tags: vec![],
        description: None,
    });
    assert!(matches!(empty, Err(ApplicationError::InvalidRequest(m)) if m == "repo group must contain at least one repo"));
    service
        .add_repo(AddRepoCommand { id: "a".to_owned(), url: "u".to_owned(), tags: vec![], description: None })
        .unwrap();
    service
        .add_repo_group(AddRepoGroupCommand { id: "g".to_owned(), repos: vec!["a".to_owned()], tags: vec![], description: None })
        .unwrap();
    let dup = service.add_repo_group(AddRepoGroupCommand {
        id: "g".to_owned(),
        repos: vec!["a".to_owned()],
        tags: vec![],
        description: None,
    });
    assert!(matches!(
        dup,
        Err(ApplicationError::Domain(DomainError::AlreadyExists { entity: EntityKind::RepoGroup, slug })) if slug == "g"
    ));
    let unknown = service.add_repo_group(AddRepoGroupCommand {
        id: "h".to_owned(),
        repos: vec!["a".to_owned(), "b".to_owned(), "c".to_owned()],
        tags: vec![],
        description: None,
    });
    assert!(matches!(
        unknown,
        Err(ApplicationError::Domain(DomainError::NotFound { entity: EntityKind::Repo, slug })) if slug == "b"
    ));
}

// ---- knowledge service ----

fn knowledge_service() -> DefaultKnowledgeApplicationService {
    DefaultKnowledgeApplicationService::new(Box::new(InMemoryKnowledgeRepository::new()), epoch_clock())
}

fn create_cmd(title: &str, category: Option<&str>, tags: Vec<&str>, sources: Vec<&str>) -> CreateKnowledgeCandidateCommand {
    CreateKnowledgeCandidateCommand {
        task_id: "task-20260524-auth".to_owned(),
        candidate_id: "cand-01".to_owned(),
        title: title.to_owned(),
        category: category.map(|c| c.to_owned()),
        tags: tags.into_iter().map(|t| t.to_owned()).collect(),
        source_paths: sources.into_iter().map(|s| s.to_owned()).collect(),
    }
}

#[test]
fn create_candidate_returns_summary() {
    let svc = knowledge_service();
    let result = svc
        .create_candidate(create_cmd("Auth patterns", Some("security"), vec!["auth"], vec!["materials/notes.md"]))
        .unwrap();

    assert_eq!(result.task_id, "task-20260524-auth");
    assert_eq!(result.candidate.title, "Auth patterns");
    assert_eq!(result.candidate.source_count, 1);
    assert_eq!(result.candidate.category.as_deref(), Some("security"));
}

#[test]
fn list_candidates_returns_created_candidates() {
    let svc = knowledge_service();
    svc.create_candidate(create_cmd("Auth patterns", None, vec![], vec![])).unwrap();

    let items = svc
        .list_candidates(ListKnowledgeCandidatesQuery { task_id: "task-20260524-auth".to_owned() })
        .unwrap();
    assert_eq!(items.len(), 1);
    assert_eq!(items[0].id, "cand-01");
}

#[test]
fn list_candidates_empty_for_unknown_task() {
    let svc = knowledge_service();
    let items = svc.list_candidates(ListKnowledgeCandidatesQuery { task_id: "task-unknown".to_owned() }).unwrap();
    assert!(items.is_empty());
}

#[test]
fn show_candidate_returns_none_for_missing() {
    let svc = knowledge_service();
    let item = svc
        .show_candidate(ShowKnowledgeCandidateQuery { task_id: "task-x".to_owned(), candidate_id: "cand-y".to_owned() })
        .unwrap();
    assert!(item.is_none());
}

#[test]
fn show_candidate_returns_summary() {
    let svc = knowledge_service();
    svc.create_candidate(create_cmd("Auth patterns", None, vec![], vec![])).unwrap();

    let item = svc
        .show_candidate(ShowKnowledgeCandidateQuery {
            task_id: "task-20260524-auth".to_owned(),
            candidate_id: "cand-01".to_owned(),
        })
        .unwrap()
        .unwrap();
    assert_eq!(item.title, "Auth patterns");
}

#[test]
fn update_candidate_meta_changes_fields() {
    let svc = knowledge_service();
    svc.create_candidate(create_cmd("Old title", Some("old"), vec!["old"], vec![])).unwrap();

    let updated = svc
        .update_candidate_meta(UpdateKnowledgeCandidateMetaCommand {
            task_id: "task-20260524-auth".to_owned(),
            candidate_id: "cand-01".to_owned(),
            title: Some("New title".to_owned()),
            category: Some("new".to_owned()),
            tags: Some(vec!["new".to_owned()]),
        })
        .unwrap();

    assert_eq!(updated.candidate.title, "New title");
    assert_eq!(updated.candidate.category.as_deref(), Some("new"));
    assert_eq!(updated.candidate.tags, vec!["new"]);
}

#[test]
fn update_candidate_meta_partial_updates_do_not_clear_other_fields() {
    let svc = knowledge_service();
    svc.create_candidate(create_cmd("Old title", Some("old"), vec!["old"], vec![])).unwrap();

    let updated = svc
        .update_candidate_meta(UpdateKnowledgeCandidateMetaCommand {
            task_id: "task-20260524-auth".to_owned(),
            candidate_id: "cand-01".to_owned(),
            title: Some("New title".to_owned()),
            category: None,
            tags: None,
        })
        .unwrap();

    assert_eq!(updated.candidate.title, "New title");
    assert_eq!(updated.candidate.category.as_deref(), Some("old"));
    assert_eq!(updated.candidate.tags, vec!["old"]);
}

#[test]
fn update_candidate_meta_fails_for_missing_candidate() {
    let svc = knowledge_service();
    let result = svc.update_candidate_meta(UpdateKnowledgeCandidateMetaCommand {
        task_id: "task-x".to_owned(),
        candidate_id: "cand-y".to_owned(),
        title: Some("x".to_owned()),
        category: None,
        tags: None,
    });
    assert!(result.is_err());
}

#[test]
fn delete_candidate_removes_it() {
    let svc = knowledge_service();
    svc.create_candidate(create_cmd("Auth patterns", None, vec![], vec![])).unwrap();

    svc.delete_candidate(DeleteKnowledgeCandidateCommand {
        task_id: "task-20260524-auth".to_owned(),
        candidate_id: "cand-01".to_owned(),
    })
    .unwrap();

    let items = svc
        .list_candidates(ListKnowledgeCandidatesQuery { task_id: "task-20260524-auth".to_owned() })
        .unwrap();
    assert!(items.is_empty());
}

#[test]
fn list_knowledge_is_initially_empty() {
    let svc = knowledge_service();
    let items = svc.list_knowledge(ListKnowledgeQuery).unwrap();
    assert!(items.is_empty());
}

#[test]
fn show_knowledge_returns_none_for_missing() {
    let svc = knowledge_service();
    let item = svc.show_knowledge(ShowKnowledgeQuery { knowledge_id: "k-unknown".to_owned() }).unwrap();
    assert!(item.is_none());
}

#[test]
fn update_knowledge_meta_fails_for_missing() {
    let svc = knowledge_service();
    let result = svc.update_knowledge_meta(UpdateKnowledgeMetaCommand {
        knowledge_id: "k-missing".to_owned(),
        title: Some("x".to_owned()),
        category: None,
        tags: None,
    });
    assert!(result.is_err());
}

#[test]
fn delete_knowledge_does_not_panic_for_missing() {
    let svc = knowledge_service();
    svc.delete_knowledge(DeleteKnowledgeCommand { knowledge_id: "k-missing".to_owned() }).unwrap();
}

#[test]
fn promote_creates_entry_and_applies_overrides() {
    let svc = knowledge_service();
    svc.create_candidate(create_cmd("Auth patterns", Some("security"), vec!["auth"], vec!["notes.md"])).unwrap();

    let result = svc
        .promote(PromoteKnowledgeCommand {
            task_id: "task-20260524-auth".to_owned(),
            candidate_id: "cand-01".to_owned(),
            knowledge_id: "k-001".to_owned(),
            title: Some("Promoted Auth".to_owned()),
            category: None,
            tags: None,
        })
        .unwrap();

    assert_eq!(result.task_id, "task-20260524-auth");
    assert_eq!(result.candidate_id, "cand-01");
    assert_eq!(result.knowledge.title, "Promoted Auth");
    assert_eq!(result.knowledge.source_count, 1);

    let entries = svc.list_knowledge(ListKnowledgeQuery).unwrap();
    assert_eq!(entries.len(), 1);
    assert_eq!(entries[0].id, "k-001");
}

#[test]
fn candidate_lives_under_its_task_and_errors_name_it() {
    let svc = knowledge_service();
    let created = svc.create_candidate(create_cmd("T", None, vec![], vec!["a.md", "b.md"])).unwrap();
    assert_eq!(created.candidate.path, "tasks/task-20260524-auth/knowledge-candidates/cand-01");
    assert_eq!(created.candidate.source_count, 2);
    let missing = svc.update_candidate_meta(UpdateKnowledgeCandidateMetaCommand {
        task_id: "task-20260524-auth".to_owned(),
        candidate_id: "cand-02".to_owned(),
        title: None,
        category: None,
        tags: None,
    });
    assert!(matches!(
        missing,
        Err(ApplicationError::Domain(DomainError::NotFound { entity: EntityKind::KnowledgeCandidate, slug })) if slug == "cand-02"
    ));
    let missing_entry = svc.update_knowledge_meta(UpdateKnowledgeMetaCommand {
        knowledge_id: "k9".to_owned(),
        title: None,
        category: None,
        tags: None,
    });
    assert!(matches!(
        missing_entry,
        Err(ApplicationError::Domain(DomainError::NotFound { entity: EntityKind::Knowledge, slug })) if slug == "k9"
    ));
}

// ---- command flows ----

#[derive(Clone, Default)]
struct InMemoryWorkspaceRegistry {
    entries: Rc<RefCell<Vec<WorkspaceEntry>>>,
}

impl WorkspaceRegistryRepository for InMemoryWorkspaceRegistry {
    fn load(&self) -> Result<Vec<WorkspaceEntry>, DomainError> {
        Ok(self.entries.borrow().clone())
    }

    fn save(&self, entries: &[WorkspaceEntry]) -> Result<(), DomainError> {
        *self.entries.borrow_mut() = entries.to_vec();
        Ok(())
    }
}

#[test]
fn create_flow_mounts_skills_and_registers_workspace() {
    let tasks = InMemoryTaskRepository::default();
    let task_service = task_service(tasks.clone(), RecordingEditorLauncher::default());
    let registry = InMemorySkillRegistryRepository::default();
    registry.registry.borrow_mut().skills.push(SkillDefinition {
        id: SkillId::from("frontend-testing"),
        source: SkillSourceId::from("toolkit"),
        versions: vec![SkillVersion::from("1")],
        latest: Some(SkillVersion::from("1")),
    });
    let mounts = InMemoryTaskSkillMountRepository::default();
    let skills = DefaultTaskSkillsApplicationService::new(
        Box::new(tasks.clone()),
        Box::new(mounts.clone()),
        Box::new(registry),
        epoch_clock(),
    );
    let workspaces = InMemoryWorkspaceRegistry::default();
    let output = run_create(
        &task_service,
        &skills,
        &workspaces,
        &FixedClock { now: at_hours(1) },
        "/test",
        CreateTaskArgs {
            slug: "my-task".to_owned(),
            title: "Smoke Test".to_owned(),
            template: "default".to_owned(),
            description: None,
            source_brief: None,
            tags: vec![],
            selected_repo_groups: vec![],
            repos: vec![],
            skills: vec!["frontend-testing".to_owned()],
        },
        &TextPresenter,
    )
    .unwrap();
    assert!(output.contains("Created task"));
    assert_eq!(mounts.mounts.borrow().get("my-task").map(|m| m.len()), Some(1));
    let entries = workspaces.entries.borrow().clone();
    assert_eq!(entries.len(), 1);
    assert_eq!(entries[0].slug.as_str(), "my-task");
    assert_eq!(entries[0].path, "/test");
    assert_eq!(entries[0].status, WorkspaceStatus::Active);
    assert_eq!(entries[0].last_activity_at, Some(at_hours(1)));

    let closed = run_close(
        &task_service,
        &workspaces,
        &FixedClock { now: at_hours(2) },
        "/test",
        CloseTaskArgs { task_id: "my-task".to_owned() },
        &TextPresenter,
    )
    .unwrap();
    assert_eq!(closed, "Closed task");
    assert_eq!(workspaces.entries.borrow()[0].status, WorkspaceStatus::Closed);
    let stored = tasks.find(&TaskSlug::from("my-task")).unwrap().unwrap();
    assert_eq!(stored.meta.status, TaskStatus::Closed);

    let listed = run_list(
        &task_service,
        ListCommand { status: None, tag: None, limit: None },
        &TextPresenter,
    )
    .unwrap();
    assert!(listed.starts_with("my-task | Smoke Test | Closed | last_activity_at="));
}

#[test]
fn knowledge_command_runs_against_service() {
    let svc = knowledge_service();
    let created = run_knowledge(
        &svc,
        KnowledgeCommand::Candidate {
            command: KnowledgeCandidateCommand::Create(KnowledgeCandidateCreateArgs {
                task_id: "my-task".to_owned(),
                candidate_id: "c1".to_owned(),
                title: "Test Knowledge".to_owned(),
                category: None,
                tags: vec![],
                sources: vec!["docs/readme".to_owned()],
            }),
        },
    )
    .unwrap();
    assert!(created.contains("Test Knowledge"));
    let missing = run_knowledge(&svc, KnowledgeCommand::Show(KnowledgeShowArgs { knowledge_id: "k1".to_owned() })).unwrap();
    assert_eq!(missing, "Knowledge not found.");
    let deleted = run_knowledge(&svc, KnowledgeCommand::Delete(KnowledgeDeleteArgs { knowledge_id: "k1".to_owned() })).unwrap();
    assert_eq!(deleted, "Deleted knowledge");
}

// ---- command-line scenarios, run against in-memory stores ----

struct Stores {
    tasks: InMemoryTaskRepository,
    catalog: InMemoryRepoCatalogRepository,
    skills: InMemorySkillRegistryRepository,
    mounts: InMemoryTaskSkillMountRepository,
    workspaces: InMemoryWorkspaceRegistry,
}

impl Stores {
    fn new() -> Self {
        Stores {
            tasks: InMemoryTaskRepository::default(),
            catalog: InMemoryRepoCatalogRepository::default(),
            skills: InMemorySkillRegistryRepository::default(),
            mounts: InMemoryTaskSkillMountRepository::default(),
            workspaces: InMemoryWorkspaceRegistry::default(),
        }
    }

    fn task_service(&self) -> DefaultTaskApplicationService {
        DefaultTaskApplicationService::new(
            "/test".to_owned(),
            Box::new(self.tasks.clone()),
            epoch_clock(),
            Box::new(RecordingEditorLauncher::default()),
        )
    }

    fn skill_service(&self) -> DefaultTaskSkillsApplicationService {
        DefaultTaskSkillsApplicationService::new(
            Box::new(self.tasks.clone()),
            Box::new(self.mounts.clone()),
            Box::new(self.skills.clone()),
            epoch_clock(),
        )
    }

    fn registry_service(&self) -> DefaultSkillRegistryApplicationService {
        DefaultSkillRegistryApplicationService::new(Box::new(self.skills.clone()), epoch_clock())
    }

    fn create(&self, slug: &str, title: &str, skills: Vec<String>) -> Result<String, ApplicationError> {
        run_create(
            &self.task_service(),
            &self.skill_service(),
            &self.workspaces,
            &FixedClock { now: Timestamp::unix_epoch() },
            "/test",
            CreateTaskArgs {
                slug: slug.to_owned(),
                title: title.to_owned(),
                template: "default".to_owned(),
                description: None,
                source_brief: None,
                tags: vec![],
                selected_repo_groups: vec![],
                repos: vec![],
                skills,
            },
            &TextPresenter,
        )
    }
}

#[test]
fn task_create_and_list() {
    let stores = Stores::new();
    let output = stores.create("my-task", "Smoke Test", vec![]).unwrap();
    assert!(output.contains("Created task"));

    let entries = stores.workspaces.entries.borrow().clone();
    assert!(entries.iter().any(|e| e.slug.as_str() == "my-task" && e.title == "Smoke Test"));
    assert!(stores.tasks.find(&TaskSlug::from("my-task")).unwrap().is_some());
}

#[test]
fn task_close() {
    let stores = Stores::new();
    stores.create("to-close", "Close Me", vec![]).unwrap();

    let output = run_close(
        &stores.task_service(),
        &stores.workspaces,
        &FixedClock { now: Timestamp::unix_epoch() },
        "/test",
        CloseTaskArgs { task_id: "to-close".to_owned() },
        &TextPresenter,
    )
    .unwrap();
    assert!(output.contains("Closed task"));

    let entries = stores.workspaces.entries.borrow().clone();
    assert_eq!(entries[0].status.as_str(), "closed");
}

#[test]
fn repo_add_and_list() {
    let stores = Stores::new();
    let service = DefaultRepoCatalogApplicationService::new(Box::new(stores.catalog.clone()));
    let output = run_repo(
        &service,
        RepoCommand::Add(RepoAddArgs {
            id: "test-repo".to_owned(),
            url: "https://github.com/test/repo.git".to_owned(),
            tags: vec![],
            description: None,
        }),
        &TextPresenter,
    )
    .unwrap();
    assert!(output.contains("test-repo"));
    assert_eq!(stores.catalog.catalog.borrow().repos.len(), 1);
    let listed = run_repo(&service, RepoCommand::List, &TextPresenter).unwrap();
    assert_eq!(listed, "test-repo | https://github.com/test/repo.git | tags=");
}

#[test]
fn knowledge_candidate_promote() {
    let svc = knowledge_service();
    let output = run_knowledge(
        &svc,
        KnowledgeCommand::Candidate {
            command: KnowledgeCandidateCommand::Create(KnowledgeCandidateCreateArgs {
                task_id: "my-task".to_owned(),
                candidate_id: "c1".to_owned(),
                title: "Test Knowledge".to_owned(),
                category: None,
                tags: vec![],
                sources: vec!["docs/readme".to_owned()],
            }),
        },
    )
    .unwrap();
    assert!(output.contains("Test Knowledge"));

    let output = run_knowledge(
        &svc,
        KnowledgeCommand::Promote(KnowledgePromoteArgs {
            task_id: "my-task".to_owned(),
            candidate_id: "c1".to_owned(),
            knowledge_id: "k1".to_owned(),
            title: None,
            category: None,
            tags: None,
        }),
    )
    .unwrap();
    assert!(output.contains("Test Knowledge"));
}

#[test]
fn skill_import_and_mount() {
    let stores = Stores::new();
    let (output, mounted) = run_skill(
        &stores.registry_service(),
        &stores.skill_service(),
        SkillCommand::Import(ImportSkillArgs {
            kind: SkillSourceKindArg::Local,
            location: "test-skill".to_owned(),
            source_id: "test-skill-import".to_owned(),
            version: Some("0.1.0".to_owned()),
            skill_id: None,
        }),
        &TextPresenter,
    )
    .unwrap();
    assert!(output.contains("Imported skill source"));
    assert!(mounted.is_none());

    let output = stores.create("skill-task", "Skill Test", vec!["test-skill-import".to_owned()]).unwrap();
    assert!(output.contains("Created task"));
    let mounts = stores.mounts.mounts.borrow().get("skill-task").cloned().unwrap();
    assert_eq!(mounts.len(), 1);
    assert_eq!(mounts[0].version.as_str(), "0.1.0");
}

#[test]
fn open_without_editor_fails() {
    let stores = Stores::new();
    stores.create("editor-test", "Editor", vec![]).unwrap();

    let result = stores
        .task_service()
        .open_task(OpenTaskCommand { task: "editor-test".to_owned(), editor: None });
    assert!(result.is_err());
}

#[test]
fn skill_mount_command_hands_back_the_mount() {
    let stores = Stores::new();
    stores.create("t", "T", vec![]).unwrap();
    run_skill(
        &stores.registry_service(),
        &stores.skill_service(),
        SkillCommand::Import(ImportSkillArgs {
            kind: SkillSourceKindArg::Git,
            location: "git@x:s.git".to_owned(),
            source_id: "src".to_owned(),
            version: Some("2".to_owned()),
            skill_id: Some("s".to_owned()),
        }),
        &TextPresenter,
    )
    .unwrap();
    let (output, mounted) = run_skill(
        &stores.registry_service(),
        &stores.skill_service(),
        SkillCommand::Mount(SkillMountArgs { task: "t".to_owned(), skill_id: "s".to_owned(), version: None }),
        &TextPresenter,
    )
    .unwrap();
    let mounted = mounted.unwrap();
    assert_eq!(mounted.version, "2");
    assert!(output.starts_with("Mounted skill s\n  mount_id: "));
    let (missing, none) = run_skill(
        &stores.registry_service(),
        &stores.skill_service(),
        SkillCommand::Show(SkillShowArgs { skill_id: "nope".to_owned() }),
        &TextPresenter,
    )
    .unwrap();
    assert_eq!(missing, "Skill not found.");
    assert!(none.is_none());
}

#[test]
fn repo_commands_refuse_blank_url_and_empty_group() {
    let stores = Stores::new();
    let service = DefaultRepoCatalogApplicationService::new(Box::new(stores.catalog.clone()));
    let blank = run_repo(
        &service,
        RepoCommand::Add(RepoAddArgs { id: "r".to_owned(), url: " ".to_owned(), tags: vec![], description: None }),
        &TextPresenter,
    );
    assert!(matches!(blank, Err(ApplicationError::InvalidRequest(m)) if m == "repo url cannot be empty"));
    let empty = run_repo_group(
        &service,
        RepoGroupCommand::Add(RepoGroupAddArgs {
            id: "g".to_owned(),
            repos: " , ,".to_owned(),
            tags: vec![],
            description: None,
        }),
        &TextPresenter,
    );
    assert!(matches!(empty, Err(ApplicationError::InvalidRequest(m)) if m == "repo group must contain at least one repo"));
}

// ---- the commands, rendered as plain text ----

fn run_create(
    tasks: &dyn TaskApplicationService,
    skills: &dyn TaskSkillsApplicationService,
    registry: &dyn WorkspaceRegistryRepository,
    clock: &dyn Clock,
    root: &str,
    args: CreateTaskArgs,
    _presenter: &TextPresenter,
) -> Result<String, ApplicationError> {
    create_command(tasks, skills, registry, clock, root, args).map(|o| render_text(&o))
}

fn run_close(
    tasks: &dyn TaskApplicationService,
    registry: &dyn WorkspaceRegistryRepository,
    clock: &dyn Clock,
    root: &str,
    args: CloseTaskArgs,
    _presenter: &TextPresenter,
) -> Result<String, ApplicationError> {
    close_command(tasks, registry, clock, root, args).map(|o| render_text(&o))
}

fn run_list(
    service: &dyn TaskApplicationService,
    command: ListCommand,
    _presenter: &TextPresenter,
) -> Result<String, ApplicationError> {
    list_command(service, command).map(|o| render_text(&o))
}

fn run_repo(
    service: &dyn RepoCatalogApplicationService,
    command: RepoCommand,
    _presenter: &TextPresenter,
) -> Result<String, ApplicationError> {
    repo_command(service, command).map(|o| render_text(&o))
}

fn run_repo_group(
    service: &dyn RepoCatalogApplicationService,
    command: RepoGroupCommand,
    _presenter: &TextPresenter,
) -> Result<String, ApplicationError> {
    repo_group_command(service, command).map(|o| render_text(&o))
}

fn run_skill(
    registry: &dyn SkillRegistryApplicationService,
    task_skills: &dyn TaskSkillsApplicationService,
    command: SkillCommand,
    _presenter: &TextPresenter,
) -> Result<(String, Option<SkillMountSummary>), ApplicationError> {
    skill_command(registry, task_skills, command).map(|o| {
        let mounted = match &o {
            CommandOutput::SkillMount(m) => Some(m.clone()),
            _ => None,
        };
        (render_text(&o), mounted)
    })
}
