use workc::domain::editor::editors::{Cursor, VsCode};
use workc::domain::editor::{Editor, EditorRegistry};
use workc::domain::errors::{DomainError, EntityKind, FieldKind};
use workc::domain::knowledge::KnowledgeBase;
use workc::domain::shared::{RepoGroupId, RepoId, TaskSlug, Timestamp};
use workc::domain::task::{TaskMeta, TaskSkillMountStatus, TaskStatus, TaskWorkspace};
use workc::domain::workspace::{
    mark_workspace_status, register_workspace_entry, WorkspaceEntry, WorkspaceStatus,
};

const HOUR: i128 = 3_600_000_000_000;

fn at_hours(hours: i128) -> Timestamp {
    Timestamp::from_unix_nanos(hours * HOUR)
}

// ---- errors ----

#[test]
fn not_found_display() {
    let err = DomainError::NotFound { entity: EntityKind::Task, slug: "abc12345".to_owned() };
    assert_eq!(err.to_string(), "Task not found: abc12345");
}

#[test]
fn already_exists_display() {
    let err = DomainError::AlreadyExists { entity: EntityKind::Repo, slug: "api-gateway".to_owned() };
    assert_eq!(err.to_string(), "Repo already exists: api-gateway");
}

#[test]
fn invalid_input_display() {
    let err = DomainError::InvalidInput {
        field: FieldKind::Slug,
        reason: "slug cannot be empty".to_owned(),
    };
    assert_eq!(err.to_string(), "invalid input for Slug: slug cannot be empty");
}

#[test]
fn conflict_display() {
    let err = DomainError::Conflict { entity: EntityKind::Task, reason: "already closed".to_owned() };
    assert_eq!(err.to_string(), "Task conflict: already closed");
}

#[test]
fn persistence_failed_display() {
    let err = DomainError::PersistenceFailed { operation: "write", detail: "disk full".to_owned() };
    assert_eq!(err.to_string(), "persistence error during write: disk full");
}

#[test]
fn other_entity_and_field_display() {
    let err = DomainError::NotFound { entity: EntityKind::Other("widget"), slug: "w1".to_owned() };
    assert_eq!(err.to_string(), "widget not found: w1");
    let err = DomainError::InvalidInput {
        field: FieldKind::Other("color"),
        reason: "must not be \"red\"".to_owned(),
    };
    assert_eq!(err.to_string(), "invalid input for Other(\"color\"): must not be \"red\"");
    let err = DomainError::Conflict { entity: EntityKind::KnowledgeCandidate, reason: "busy".to_owned() };
    assert_eq!(err.to_string(), "KnowledgeCandidate conflict: busy");
}

// ---- editor ----

#[test]
fn cursor_name() {
    assert_eq!(Cursor.name(), "cursor");
}

#[test]
fn cursor_launch_cmd() {
    assert_eq!(Cursor.launch_cmd(), "cursor");
}

#[test]
fn vscode_name() {
    assert_eq!(VsCode.name(), "vscode");
}

#[test]
fn vscode_launch_cmd() {
    assert_eq!(VsCode.launch_cmd(), "code");
}

#[test]
fn registry_finds_cursor() {
    let reg = EditorRegistry::new();
    let found = reg.find("cursor");
    assert!(found.is_some());
    assert_eq!(found.unwrap().name(), "cursor");
}

#[test]
fn registry_finds_vscode() {
    let reg = EditorRegistry::new();
    let found = reg.find("vscode");
    assert!(found.is_some());
    assert_eq!(found.unwrap().name(), "vscode");
}

#[test]
fn registry_returns_none_for_unknown() {
    let reg = EditorRegistry::new();
    assert!(reg.find("unknown").is_none());
}

#[test]
fn registry_falls_back_to_first_editor() {
    let reg = EditorRegistry::new();
    assert_eq!(reg.find_or_default("vscode").unwrap().launch_cmd(), "code");
    assert_eq!(reg.find_or_default("emacs").unwrap().name(), "cursor");
    let empty = EditorRegistry::default();
    assert!(empty.find_or_default("cursor").is_none());
    assert!(empty.find("cursor").is_none());
}

// ---- shared ----

#[test]
fn from_string_roundtrip() {
    let slug = TaskSlug::from_string("abc12345");
    assert_eq!(slug.as_str(), "abc12345");
    assert_eq!(slug.to_string(), "abc12345");
}

#[test]
fn generate_creates_eight_char_id() {
    let slug = TaskSlug::generate();
    assert_eq!(slug.as_str().len(), 8);
}

#[test]
fn from_string_via_from_str() {
    let slug = TaskSlug::from("test-slug");
    assert_eq!(slug.as_str(), "test-slug");
}

#[test]
fn generated_ids_use_the_url_safe_alphabet() {
    for _ in 0..20 {
        let id = RepoId::generate();
        assert_eq!(id.as_str().chars().count(), 8);
        assert!(id
            .as_str()
            .chars()
            .all(|c| c.is_ascii_alphanumeric() || c == '_' || c == '-'));
    }
}

#[test]
fn timestamp_renders_as_utc_instant() {
    assert_eq!(Timestamp::unix_epoch().to_text(), "1970-01-01 0:00:00.0 +00:00:00");
    assert_eq!(at_hours(1).to_text(), "1970-01-01 1:00:00.0 +00:00:00");
    assert!(at_hours(1).is_before(&at_hours(2)));
    assert!(!at_hours(2).is_before(&at_hours(2)));
    assert_eq!(at_hours(3).unix_nanos(), 3 * HOUR);
}

// ---- task entities ----

fn valid_meta() -> TaskMeta {
    TaskMeta::new(
        TaskSlug::from("test-slug"),
        "Test Title".to_owned(),
        "default".to_owned(),
        Some("Description".to_owned()),
        Some("Source brief".to_owned()),
        vec!["rust".to_owned(), "cli".to_owned()],
    )
    .unwrap()
}

#[test]
fn creates_meta_with_valid_inputs() {
    let meta = valid_meta();
    assert_eq!(meta.slug.as_str(), "test-slug");
    assert_eq!(meta.title, "Test Title");
    assert_eq!(meta.template, "default");
    assert_eq!(meta.status, TaskStatus::Active);
    assert_eq!(meta.description.as_deref(), Some("Description"));
    assert_eq!(meta.source_brief.as_deref(), Some("Source brief"));
    assert_eq!(meta.tags, vec!["rust", "cli"]);
}

#[test]
fn rejects_empty_slug() {
    let result = TaskMeta::new(
        TaskSlug::from(" "),
        "Title".to_owned(),
        "default".to_owned(),
        None,
        None,
        vec![],
    );
    assert!(
        matches!(result, Err(DomainError::InvalidInput { field, .. }) if field == FieldKind::Slug)
    );
}

#[test]
fn rejects_empty_title() {
    let result = TaskMeta::new(
        TaskSlug::from("slug"),
        "".to_owned(),
        "default".to_owned(),
        None,
        None,
        vec![],
    );
    assert!(
        matches!(result, Err(DomainError::InvalidInput { field, .. }) if field == FieldKind::Title)
    );
}

#[test]
fn rejects_whitespace_only_title() {
    let result = TaskMeta::new(
        TaskSlug::from("slug"),
        "   ".to_owned(),
        "default".to_owned(),
        None,
        None,
        vec![],
    );
    assert!(
        matches!(result, Err(DomainError::InvalidInput { field, .. }) if field == FieldKind::Title)
    );
}

#[test]
fn rejects_empty_template() {
    let result = TaskMeta::new(
        TaskSlug::from("slug"),
        "Title".to_owned(),
        "".to_owned(),
        None,
        None,
        vec![],
    );
    assert!(
        matches!(result, Err(DomainError::InvalidInput { field, .. }) if field == FieldKind::Template)
    );
}

#[test]
fn rejects_empty_tag_in_list() {
    let result = TaskMeta::new(
        TaskSlug::from("slug"),
        "Title".to_owned(),
        "default".to_owned(),
        None,
        None,
        vec!["rust".to_owned(), "".to_owned(), "cli".to_owned()],
    );
    assert!(
        matches!(result, Err(DomainError::InvalidInput { field, .. }) if field == FieldKind::Tags)
    );
}

#[test]
fn accepts_empty_tags_vec() {
    let result = TaskMeta::new(
        TaskSlug::from("slug"),
        "Title".to_owned(),
        "default".to_owned(),
        None,
        None,
        vec![],
    );
    assert!(result.is_ok());
}

#[test]
fn meta_rules_are_checked_in_order_with_reasons() {
    let result = TaskMeta::new(
        TaskSlug::from("\t\n"),
        "".to_owned(),
        "".to_owned(),
        None,
        None,
        vec![" ".to_owned()],
    );
    match result {
        Err(DomainError::InvalidInput { field, reason }) => {
            assert_eq!(field, FieldKind::Slug);
            assert_eq!(reason, "slug cannot be empty");
        },
        other => panic!("unexpected {:?}", other),
    }
    let result = TaskMeta::new(
        TaskSlug::from("s"),
        "T".to_owned(),
        "\u{3000}".to_owned(),
        None,
        None,
        vec![],
    );
    match result {
        Err(DomainError::InvalidInput { field, reason }) => {
            assert_eq!(field, FieldKind::Template);
            assert_eq!(reason, "template cannot be empty");
        },
        other => panic!("unexpected {:?}", other),
    }
}

// ---- value objects ----

#[test]
fn display_active() {
    assert_eq!(TaskSkillMountStatus::Active.to_string(), "active");
}

#[test]
fn display_inactive() {
    assert_eq!(TaskSkillMountStatus::Inactive.to_string(), "inactive");
}

#[test]
fn display_removed() {
    assert_eq!(TaskSkillMountStatus::Removed.to_string(), "removed");
}

// ---- workspace ----

#[test]
fn as_str_active() {
    assert_eq!(WorkspaceStatus::Active.as_str(), "active");
}

#[test]
fn as_str_closed() {
    assert_eq!(WorkspaceStatus::Closed.as_str(), "closed");
}

#[test]
fn as_str_archived() {
    assert_eq!(WorkspaceStatus::Archived.as_str(), "archived");
}

#[test]
fn parse_active() {
    assert_eq!(WorkspaceStatus::parse("active"), Some(WorkspaceStatus::Active));
}

#[test]
fn parse_closed() {
    assert_eq!(WorkspaceStatus::parse("closed"), Some(WorkspaceStatus::Closed));
}

#[test]
fn parse_archived() {
    assert_eq!(WorkspaceStatus::parse("archived"), Some(WorkspaceStatus::Archived));
}

#[test]
fn parse_unknown_returns_none() {
    assert_eq!(WorkspaceStatus::parse("unknown"), None);
}

#[test]
fn workspace_status_round_trips_through_text() {
    for s in [WorkspaceStatus::Active, WorkspaceStatus::Closed, WorkspaceStatus::Archived] {
        assert_eq!(WorkspaceStatus::parse(s.as_str()), Some(s));
    }
    assert_eq!(WorkspaceStatus::parse("Active"), None);
}

fn entry(slug: &str, path: &str) -> WorkspaceEntry {
    WorkspaceEntry {
        slug: TaskSlug::from(slug),
        path: path.to_owned(),
        title: slug.to_owned(),
        status: WorkspaceStatus::Active,
        last_activity_at: None,
    }
}

#[test]
fn register_workspace_updates_entry_at_same_path() {
    let mut entries = vec![entry("a", "/w/a"), entry("b", "/w/b")];
    register_workspace_entry(
        &mut entries,
        "/w/b",
        TaskSlug::from("b2"),
        "B two".to_owned(),
        WorkspaceStatus::Active,
        at_hours(1),
    );
    assert_eq!(entries.len(), 2);
    assert_eq!(entries[1].slug.as_str(), "b2");
    assert_eq!(entries[1].title, "B two");
    assert_eq!(entries[1].path, "/w/b");
    assert_eq!(entries[1].last_activity_at, Some(at_hours(1)));
    assert_eq!(entries[0], entry("a", "/w/a"));

    register_workspace_entry(
        &mut entries,
        "/w/c",
        TaskSlug::from("c"),
        "C".to_owned(),
        WorkspaceStatus::Active,
        at_hours(2),
    );
    assert_eq!(entries.len(), 3);
    assert_eq!(entries[2].path, "/w/c");
    assert_eq!(entries[2].slug.as_str(), "c");
}

#[test]
fn mark_workspace_status_only_touches_registered_root() {
    let mut entries = vec![entry("a", "/w/a")];
    assert!(!mark_workspace_status(&mut entries, "/w/x", WorkspaceStatus::Closed, at_hours(1)));
    assert_eq!(entries, vec![entry("a", "/w/a")]);
    assert!(mark_workspace_status(&mut entries, "/w/a", WorkspaceStatus::Closed, at_hours(1)));
    assert_eq!(entries[0].status, WorkspaceStatus::Closed);
    assert_eq!(entries[0].last_activity_at, Some(at_hours(1)));
    assert_eq!(entries[0].title, "a");
}

// ---- task aggregate ----

fn sample_task() -> TaskWorkspace {
    TaskWorkspace::create(
        TaskSlug::from("test-slug"),
        "Test Title".to_owned(),
        "default".to_owned(),
        Some("Description".to_owned()),
        Some("Source brief".to_owned()),
        vec!["rust".to_owned()],
        vec![RepoGroupId::from("auth-core")],
        vec![RepoId::from("api-gateway")],
        Timestamp::unix_epoch(),
    )
    .unwrap()
}

#[test]
fn create_sets_initial_activity() {
    let task = sample_task();
    assert_eq!(task.activity.created_at, Timestamp::unix_epoch());
    assert_eq!(task.activity.updated_at, Timestamp::unix_epoch());
    assert_eq!(task.activity.last_activity_at, Some(Timestamp::unix_epoch()));
    assert_eq!(task.activity.last_opened_at, None);
    assert_eq!(task.activity.last_editor, None);
    assert_eq!(task.meta.status, TaskStatus::Active);
}

#[test]
fn create_stores_repo_selection() {
    let task = sample_task();
    assert_eq!(task.repos.selected_repo_groups.len(), 1);
    assert_eq!(task.repos.selected_repo_groups[0].as_str(), "auth-core");
    assert_eq!(task.repos.repos.len(), 1);
    assert_eq!(task.repos.repos[0].as_str(), "api-gateway");
}

#[test]
fn create_propagates_meta_validation_error() {
    let result = TaskWorkspace::create(
        TaskSlug::from(""),
        "Title".to_owned(),
        "default".to_owned(),
        None,
        None,
        vec![],
        vec![],
        vec![],
        Timestamp::unix_epoch(),
    );
    assert!(result.is_err());
}

#[test]
fn mark_opened_updates_activity_fields() {
    let mut task = sample_task();
    let later = at_hours(2);

    task.mark_opened(later, "cursor".to_owned());

    assert_eq!(task.activity.updated_at, later);
    assert_eq!(task.activity.last_opened_at, Some(later));
    assert_eq!(task.activity.last_activity_at, Some(later));
    assert_eq!(task.activity.last_editor.as_deref(), Some("cursor"));
}

#[test]
fn close_sets_status_to_closed() {
    let mut task = sample_task();
    let later = at_hours(5 * 24);

    task.close(later).unwrap();

    assert_eq!(task.meta.status, TaskStatus::Closed);
    assert_eq!(task.activity.updated_at, later);
    assert_eq!(task.activity.last_activity_at, Some(later));
}

#[test]
fn paths_are_set_to_default_values() {
    let task = sample_task();
    assert_eq!(task.paths.materials_dir.as_str(), "materials");
    assert_eq!(task.paths.repos_dir.as_str(), "repos");
    assert_eq!(task.paths.knowledge_candidates_dir.as_str(), "knowledge-candidates");
    assert_eq!(task.paths.task_skills_dir.as_str(), ".codex/skills");
}

#[test]
fn close_on_closed_task_returns_conflict() {
    let mut task = sample_task();
    task.meta.status = TaskStatus::Closed;
    let result = task.close(Timestamp::unix_epoch());
    assert!(matches!(
        result,
        Err(DomainError::Conflict { entity: EntityKind::Task, reason }) if reason == "already closed"
    ));
}

#[test]
fn close_on_archived_task_returns_conflict() {
    let mut task = sample_task();
    task.meta.status = TaskStatus::Archived;
    let result = task.close(Timestamp::unix_epoch());
    assert!(matches!(
        result,
        Err(DomainError::Conflict { entity: EntityKind::Task, reason }) if reason == "archived tasks cannot be closed"
    ));
}

#[test]
fn closing_twice_is_refused_and_leaves_task_unchanged() {
    let mut task = sample_task();
    task.close(at_hours(1)).unwrap();
    let closed = task.clone();
    let second = task.close(at_hours(2));
    assert!(matches!(
        second,
        Err(DomainError::Conflict { entity: EntityKind::Task, reason }) if reason == "already closed"
    ));
    assert_eq!(task, closed);
}

#[test]
fn opening_keeps_meta_repos_and_paths() {
    let mut task = sample_task();
    let before = task.clone();
    task.mark_opened(at_hours(3), "vscode".to_owned());
    assert_eq!(task.meta, before.meta);
    assert_eq!(task.repos, before.repos);
    assert_eq!(task.paths, before.paths);
    assert_eq!(task.activity.created_at, before.activity.created_at);
}

// ---- knowledge aggregate ----

#[test]
fn default_has_empty_entries() {
    let kb = KnowledgeBase::default();
    assert!(kb.entries.is_empty());
}
