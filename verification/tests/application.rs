use workc::application::error::ApplicationError;
use workc::application::knowledge::KnowledgeObjectSummary;
use workc::application::ports::{CloneState, EditorError, GitError, RepoStatus};
use workc::application::repo_catalog::{RepoGroupSummary, RepoSummary};
use workc::application::skill_registry::SkillSummary;
use workc::application::task::{ApplicationTaskStatus, CreateTaskResult, TaskListItem};
use workc::application::task_repos::{RepoCloneOutcome, TaskRepoStatusItem, TaskReposResult};
use workc::application::task_skills::{SkillMountSummary, SkillUpdateStatus};
use workc::cli::repo::{split_repo_list, to_clone_state_filter, CloneStateArg};
use workc::cli::skill::{agent_skill_dirs, cached_version, import_command, ImportSkillArgs, SkillSourceKindArg};
use workc::cli::task::{
    list_query, opened_editor_name, to_editor_name, to_task_status, workspace_path_for, EditorArg,
    ListCommand, TaskStatusArg,
};
use workc::application::skill_registry::ApplicationSkillSourceKind;
use workc::application::task_repos::CloneStateFilter;
use workc::domain::errors::{DomainError, EntityKind};
use workc::domain::shared::{SkillVersion, TaskSlug, Timestamp};
use workc::domain::task::TaskSkillMountStatus;
use workc::domain::workspace::{WorkspaceEntry, WorkspaceStatus};
use workc::presenters::text;
use workc::presenters::{Presenter, TextPresenter};

// ---- application errors ----

#[test]
fn domain_error_display_passthrough() {
    let err = ApplicationError::Domain(DomainError::NotFound {
        entity: EntityKind::Other("repo"),
        slug: "x".to_owned(),
    });
    assert_eq!(err.to_string(), "repo not found: x");
}

#[test]
fn invalid_request_display() {
    let err = ApplicationError::InvalidRequest("bad input".to_owned());
    assert_eq!(err.to_string(), "invalid request: bad input");
}

#[test]
fn adapter_unavailable_display() {
    let err = ApplicationError::AdapterUnavailable("git");
    assert_eq!(err.to_string(), "adapter unavailable: git");
}

#[test]
fn external_failure_display() {
    let err = ApplicationError::ExternalFailure { port: "editor", detail: "launch failed".to_owned() };
    assert_eq!(err.to_string(), "external failure on editor: launch failed");
}

#[test]
fn domain_error_is_source() {
    let domain = DomainError::NotFound { entity: EntityKind::Other("task"), slug: "t1".to_owned() };
    let app_err = ApplicationError::Domain(domain.clone());
    let source = app_err.source();
    assert!(source.is_some());
    assert_eq!(source.unwrap().to_string(), domain.to_string());
}

#[test]
fn non_domain_error_has_no_source() {
    let err = ApplicationError::InvalidRequest("nope".to_owned());
    assert!(err.source().is_none());
}

#[test]
fn from_domain_error_conversion() {
    let domain = DomainError::Conflict { entity: EntityKind::Other("task"), reason: "locked".to_owned() };
    let app_err: ApplicationError = domain.into();
    assert!(matches!(app_err, ApplicationError::Domain(..)));
}

#[test]
fn git_error_display() {
    assert_eq!(GitError { detail: "oops".to_owned() }.to_string(), "oops");
}

#[test]
fn editor_error_display() {
    assert_eq!(EditorError { detail: "fail".to_owned() }.to_string(), "fail");
}

// ---- text presenter ----

#[test]
fn render_error_prefixes_message() {
    assert_eq!(text::render_error("boom"), "Error: boom");
}

#[test]
fn render_task_created_and_opened() {
    assert_eq!(
        text::render_task_created("id1", "slug1", "Title", "default"),
        "Created task id1\n  slug: slug1\n  title: Title\n  template: default"
    );
    assert_eq!(text::render_task_opened("t1", "cursor"), "Opened task t1 with cursor");
    let created = CreateTaskResult {
        task_id: "a".to_owned(),
        slug: "b".to_owned(),
        title: "c".to_owned(),
        template: "d".to_owned(),
    };
    assert_eq!(TextPresenter.render_task_created(&created), "Created task a\n  slug: b\n  title: c\n  template: d");
    assert_eq!(TextPresenter.render_message("Closed task"), "Closed task");
}

#[test]
fn render_task_list_lines() {
    assert_eq!(text::render_task_list(&[]), "No tasks found.");
    let items = vec![
        TaskListItem {
            id: "a".to_owned(),
            slug: "a".to_owned(),
            title: "Alpha".to_owned(),
            status: ApplicationTaskStatus::Active,
            last_activity_at: None,
        },
        TaskListItem {
            id: "b".to_owned(),
            slug: "b".to_owned(),
            title: "Beta".to_owned(),
            status: ApplicationTaskStatus::Closed,
            last_activity_at: Some(Timestamp::unix_epoch()),
        },
    ];
    assert_eq!(
        text::render_task_list(&items),
        "a | Alpha | Active | last_activity_at=never\nb | Beta | Closed | last_activity_at=1970-01-01 0:00:00.0 +00:00:00"
    );
}

#[test]
fn render_repo_views() {
    let repo = RepoSummary {
        id: "api".to_owned(),
        url: "git@x:api.git".to_owned(),
        tags: vec!["a".to_owned(), "b".to_owned()],
        description: None,
    };
    assert_eq!(text::render_repo_created(&repo), "Added repo api\n  url: git@x:api.git");
    assert_eq!(text::render_repo_list(&[repo.clone()]), "api | git@x:api.git | tags=a,b");
    assert_eq!(text::render_repo_list(&[]), "No repos found.");
    let group = RepoGroupSummary {
        id: "g".to_owned(),
        repos: vec!["api".to_owned(), "web".to_owned()],
        tags: vec![],
        description: None,
    };
    assert_eq!(text::render_repo_group_created(&group), "Added repo-group g\n  repos: api,web");
    assert_eq!(text::render_repo_group_list(&[group]), "g | repos=api,web | tags=");
    assert_eq!(text::render_repo_group_list(&[]), "No repo groups found.");
}

#[test]
fn render_task_repo_views() {
    let result = TaskReposResult {
        task_id: "t".to_owned(),
        selected_repo_groups: vec![],
        repos: vec!["a".to_owned(), "b".to_owned()],
        updated_at: Timestamp::unix_epoch(),
    };
    assert_eq!(text::render_task_repos_result(&result), "Updated task repos for t\n  repo_groups: -\n  repos: a,b");
    let outcomes = vec![
        RepoCloneOutcome {
            repo_id: "a".to_owned(),
            path: "repos/a".to_owned(),
            cloned: true,
            dry_run: false,
            skipped_reason: None,
        },
        RepoCloneOutcome {
            repo_id: "b".to_owned(),
            path: "repos/b".to_owned(),
            cloned: false,
            dry_run: true,
            skipped_reason: Some("dry-run".to_owned()),
        },
        RepoCloneOutcome {
            repo_id: "c".to_owned(),
            path: "repos/c".to_owned(),
            cloned: false,
            dry_run: false,
            skipped_reason: None,
        },
    ];
    assert_eq!(
        text::render_repo_clone_outcomes(&outcomes),
        "a | repos/a | real | cloned\nb | repos/b | dry-run | dry-run\nc | repos/c | real | skipped"
    );
    assert_eq!(text::render_repo_clone_outcomes(&[]), "No repos selected for clone.");
    let statuses = vec![TaskRepoStatusItem {
        repo_id: "a".to_owned(),
        path: "repos/a".to_owned(),
        status: RepoStatus {
            branch: None,
            dirty: true,
            ahead: 12,
            behind: 0,
            clone_state: CloneState::Dirty,
        },
    }];
    assert_eq!(
        text::render_repo_statuses(&statuses),
        "a | Dirty | branch=- | dirty=true | ahead=12 | behind=0"
    );
    assert_eq!(text::render_repo_statuses(&[]), "No repo statuses found.");
}

#[test]
fn render_knowledge_views() {
    let item = KnowledgeObjectSummary {
        id: "k1".to_owned(),
        title: "Title".to_owned(),
        path: "knowledge/k1".to_owned(),
        category: None,
        tags: vec!["x".to_owned(), "y".to_owned()],
        source_count: 3,
    };
    assert_eq!(
        text::render_knowledge_detail(&item),
        "Knowledge k1\n  title: Title\n  path: knowledge/k1\n  category: -\n  tags: x,y\n  sources: 3"
    );
    assert_eq!(text::render_knowledge_list(&[item]), "k1 | knowledge/k1 | category=- | tags=x,y");
    assert_eq!(text::render_knowledge_list(&[]), "No knowledge objects found.");
}

#[test]
fn render_skill_views() {
    let skill = SkillSummary {
        id: "s".to_owned(),
        source: "src".to_owned(),
        versions: vec![],
        latest: Some("v2".to_owned()),
    };
    assert_eq!(text::render_skill_summary(&skill), "Skill s\n  source: src\n  versions: -\n  latest: v2");
    assert_eq!(text::render_skill_versions(&["v1".to_owned(), "v2".to_owned()]), "v1\nv2");
    assert_eq!(text::render_skill_versions(&[]), "No versions found.");
    let mount = SkillMountSummary {
        task_id: "t".to_owned(),
        mount_id: "m".to_owned(),
        skill_id: "s".to_owned(),
        version: "v".to_owned(),
        source: "src".to_owned(),
        status: TaskSkillMountStatus::Inactive,
        path: ".opencode/skills/s".to_owned(),
    };
    assert_eq!(
        text::render_skill_mount(&mount),
        "Mounted skill s\n  mount_id: m\n  version: v\n  source: src\n  path: .opencode/skills/s"
    );
    assert_eq!(text::render_skill_mounts(&[mount]), "m | s | version=v | status=inactive");
    assert_eq!(text::render_skill_mounts(&[]), "No skill mounts found.");
    let updates = vec![
        SkillUpdateStatus {
            mount_id: "m".to_owned(),
            update_available: true,
            target_version: Some(SkillVersion::from("v3")),
        },
        SkillUpdateStatus { mount_id: "n".to_owned(), update_available: false, target_version: None },
    ];
    assert_eq!(
        text::render_skill_updates(&updates),
        "m | update_available=true | target_version=v3\nn | update_available=false | target_version=-"
    );
    assert_eq!(text::render_skill_updates(&[]), "No skill updates found.");
}

// ---- command line pieces ----

#[test]
fn repo_list_is_split_and_trimmed() {
    assert_eq!(split_repo_list("a, b ,,c,  "), vec!["a", "b", "c"]);
    assert_eq!(split_repo_list(""), Vec::<String>::new());
    assert_eq!(split_repo_list(" single "), vec!["single"]);
}

#[test]
fn command_line_values_map_to_requests() {
    assert_eq!(to_editor_name(EditorArg::Vscode), "vscode");
    assert_eq!(opened_editor_name(Some(EditorArg::Cursor)), "cursor");
    assert_eq!(opened_editor_name(None), "unknown");
    assert_eq!(to_task_status(TaskStatusArg::Archived), ApplicationTaskStatus::Archived);
    assert_eq!(to_clone_state_filter(CloneStateArg::Unknown), CloneStateFilter::Unknown);
    let query = list_query(ListCommand { status: Some(TaskStatusArg::Draft), tag: None, limit: Some(3) });
    assert_eq!(query.status, Some(ApplicationTaskStatus::Draft));
    assert_eq!(query.limit, Some(3));
    assert_eq!(cached_version(&None), "latest");
    assert_eq!(cached_version(&Some("1.0".to_owned())), "1.0");
}

#[test]
fn skill_import_names_one_skill() {
    let cmd = import_command(ImportSkillArgs {
        kind: SkillSourceKindArg::Local,
        location: "skills/x".to_owned(),
        source_id: "x-src".to_owned(),
        version: Some("0.1.0".to_owned()),
        skill_id: None,
    });
    assert_eq!(cmd.kind, ApplicationSkillSourceKind::Local);
    assert_eq!(cmd.skills.len(), 1);
    assert_eq!(cmd.skills[0].id, "x-src");
    assert_eq!(cmd.skills[0].versions, vec!["0.1.0"]);
    assert_eq!(cmd.skills[0].latest.as_deref(), Some("0.1.0"));
    assert_eq!(cmd.reference.as_deref(), Some("0.1.0"));
    let dirs = agent_skill_dirs("/root", "x");
    assert_eq!(dirs[0], "/root/.opencode/skills/x");
    assert_eq!(dirs[3], "/root/.codex/skills/x");
    assert_eq!(dirs.len(), 4);
}

#[test]
fn workspace_lookup_by_slug() {
    let entries = vec![
        WorkspaceEntry {
            slug: TaskSlug::from("a"),
            path: "/w/a".to_owned(),
            title: "A".to_owned(),
            status: WorkspaceStatus::Active,
            last_activity_at: None,
        },
        WorkspaceEntry {
            slug: TaskSlug::from("b"),
            path: "/w/b".to_owned(),
            title: "B".to_owned(),
            status: WorkspaceStatus::Closed,
            last_activity_at: None,
        },
    ];
    assert_eq!(workspace_path_for(&entries, "b").as_deref(), Some("/w/b"));
    assert_eq!(workspace_path_for(&entries, "c"), None);
}
