use plandb::project::{resolve_project_id, ProjectRef, ResolveError, ResolveStep};

fn project(id: &str, name: &str) -> ProjectRef {
    ProjectRef { id: id.to_string(), name: name.to_string() }
}

fn done(step: ResolveStep) -> Result<String, ResolveError> {
    match step {
        ResolveStep::Done(r) => r,
        other => panic!("expected an answer, got {other:?}"),
    }
}

#[test]
fn explicit_project_wins_without_lookups() {
    let r = resolve_project_id(Some("p-x"), None, None);
    assert_eq!(done(r).unwrap(), "p-x");
    let projects = vec![project("p-a", "alpha")];
    let r = resolve_project_id(Some("p-x"), Some(Some("p-a".to_string())), Some(&projects));
    assert_eq!(done(r).unwrap(), "p-x");
}

#[test]
fn stored_default_is_read_next() {
    assert!(matches!(resolve_project_id(None, None, None), ResolveStep::NeedCurrentProject));
    let r = resolve_project_id(None, Some(Some("p-b".to_string())), None);
    assert_eq!(done(r).unwrap(), "p-b");
}

#[test]
fn projects_are_listed_only_without_default() {
    assert!(matches!(resolve_project_id(None, Some(None), None), ResolveStep::NeedProjects));
}

#[test]
fn single_project_is_chosen() {
    let projects = vec![project("p-only", "solo")];
    assert_eq!(done(resolve_project_id(None, Some(None), Some(&projects))).unwrap(), "p-only");
}

#[test]
fn several_projects_are_listed_in_error() {
    let projects = vec![project("p-a", "alpha"), project("p-b", "beta")];
    let err = done(resolve_project_id(None, Some(None), Some(&projects))).unwrap_err();
    match &err {
        ResolveError::MultipleProjects(ps) => {
            assert_eq!(ps.len(), 2);
            assert_eq!(ps[1].id, "p-b");
        }
        ResolveError::NoProjects => panic!("expected several projects"),
    }
    assert_eq!(
        err.message(),
        "Multiple projects found. Use --project <id> or 'plandb use <id>':\n  p-a (alpha)\n  p-b (beta)"
    );
}

#[test]
fn no_projects_error() {
    let err = done(resolve_project_id(None, Some(None), Some(&[]))).unwrap_err();
    assert!(matches!(err, ResolveError::NoProjects));
    assert_eq!(err.message(), "No projects found. Run 'plandb init <name>' to create one.");
}
