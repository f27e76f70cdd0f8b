use plandb::scope::{use_target, Scope, UseOutcome, UseTarget};

fn scope(project: Option<&str>, task: Option<&str>) -> Scope {
    Scope { project: project.map(|p| p.to_string()), task: task.map(|t| t.to_string()) }
}

#[test]
fn targets_are_classified() {
    assert!(matches!(use_target(Some("t-abc"), true), UseTarget::Clear));
    assert!(matches!(use_target(None, false), UseTarget::Show));
    assert!(matches!(use_target(Some(".."), false), UseTarget::Parent));
    assert!(matches!(use_target(Some("t-abc"), false), UseTarget::TaskOrProject(t) if t == "t-abc"));
    assert!(matches!(use_target(Some("p-abc"), false), UseTarget::Project(p) if p == "p-abc"));
    assert!(matches!(use_target(Some("t"), false), UseTarget::Project(p) if p == "t"));
}

#[test]
fn clear_returns_to_root() {
    let s = scope(Some("p-1"), Some("t-1")).after(UseOutcome::Cleared);
    assert_eq!(s.project, None);
    assert_eq!(s.task, None);
}

#[test]
fn up_moves_to_parent() {
    let s = scope(Some("p-1"), Some("t-child")).after(UseOutcome::Up { parent: Some("t-parent".to_string()) });
    assert_eq!(s.project.as_deref(), Some("p-1"));
    assert_eq!(s.task.as_deref(), Some("t-parent"));
    let s = s.after(UseOutcome::Up { parent: None });
    assert_eq!(s.project.as_deref(), Some("p-1"));
    assert_eq!(s.task, None);
}

#[test]
fn up_at_root_changes_nothing() {
    let s = scope(Some("p-1"), None).after(UseOutcome::Up { parent: Some("t-x".to_string()) });
    assert_eq!(s.project.as_deref(), Some("p-1"));
    assert_eq!(s.task, None);
}

#[test]
fn entering_task_and_project() {
    let s = scope(None, None).after(UseOutcome::EnteredTask {
        task_id: "t-api".to_string(),
        project_id: "p-2".to_string(),
    });
    assert_eq!(s.project.as_deref(), Some("p-2"));
    assert_eq!(s.task.as_deref(), Some("t-api"));
    let s = s.after(UseOutcome::EnteredProject { project_id: "p-3".to_string() });
    assert_eq!(s.project.as_deref(), Some("p-3"));
    assert_eq!(s.task, None);
    let s = s.after(UseOutcome::Shown);
    assert_eq!(s.project.as_deref(), Some("p-3"));
}
