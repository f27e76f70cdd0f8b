use plandb::cli::{
    color_task_status, colorize, parse_dependency_kind, parse_event_type, parse_project_status, parse_task_kind,
    parse_task_status, status_icon, watch_step, WatchStep,
};
use plandb::models::{DependencyKind, EventType, ProjectStatus, TaskKind, TaskStatus};

#[test]
fn colorize_wraps_in_ansi_codes() {
    assert_eq!(colorize("done", "32", true), "\x1b[32mdone\x1b[0m");
}

#[test]
fn colorize_leaves_text_when_color_is_off() {
    assert_eq!(colorize("done", "32", false), "done");
}

#[test]
fn status_icons() {
    assert_eq!(status_icon(&TaskStatus::Done), "✓");
    assert_eq!(status_icon(&TaskStatus::DonePartial), "✓");
    assert_eq!(status_icon(&TaskStatus::Running), "◉");
    assert_eq!(status_icon(&TaskStatus::Claimed), "◉");
    assert_eq!(status_icon(&TaskStatus::Ready), "○");
    assert_eq!(status_icon(&TaskStatus::Pending), "·");
    assert_eq!(status_icon(&TaskStatus::Failed), "✗");
    assert_eq!(status_icon(&TaskStatus::Cancelled), "⊘");
}

#[test]
fn colored_statuses() {
    assert_eq!(color_task_status(&TaskStatus::Done, true), "\x1b[32mdone\x1b[0m");
    assert_eq!(color_task_status(&TaskStatus::DonePartial, true), "\x1b[32mdone_partial\x1b[0m");
    assert_eq!(color_task_status(&TaskStatus::Running, true), "\x1b[33mrunning\x1b[0m");
    assert_eq!(color_task_status(&TaskStatus::Ready, true), "\x1b[34mready\x1b[0m");
    assert_eq!(color_task_status(&TaskStatus::Pending, true), "\x1b[90mpending\x1b[0m");
    assert_eq!(color_task_status(&TaskStatus::Failed, true), "\x1b[31mfailed\x1b[0m");
    assert_eq!(color_task_status(&TaskStatus::Cancelled, true), "\x1b[31mcancelled\x1b[0m");
    assert_eq!(color_task_status(&TaskStatus::Claimed, false), "claimed");
}

#[test]
fn parse_known_values() {
    assert_eq!(parse_task_status("done_partial"), Ok(TaskStatus::DonePartial));
    assert_eq!(parse_task_status("pending"), Ok(TaskStatus::Pending));
    assert_eq!(parse_task_kind("research"), Ok(TaskKind::Research));
    assert_eq!(parse_task_kind("shell"), Ok(TaskKind::Shell));
    assert_eq!(parse_dependency_kind("feeds_into"), Ok(DependencyKind::FeedsInto));
    assert_eq!(parse_dependency_kind("suggests"), Ok(DependencyKind::Suggests));
    assert_eq!(parse_project_status("archived"), Ok(ProjectStatus::Archived));
}

#[test]
fn parse_rejects_unknown_values() {
    assert_eq!(parse_task_status("finished"), Err("unknown task status: finished".to_string()));
    assert_eq!(parse_task_kind("Code"), Err("unknown task kind: Code".to_string()));
    assert_eq!(parse_dependency_kind(""), Err("unknown dependency kind: ".to_string()));
    assert_eq!(parse_project_status("done"), Err("unknown project status: done".to_string()));
}

#[test]
fn text_forms_read_back() {
    for s in [
        TaskStatus::Pending,
        TaskStatus::Ready,
        TaskStatus::Claimed,
        TaskStatus::Running,
        TaskStatus::Done,
        TaskStatus::DonePartial,
        TaskStatus::Failed,
        TaskStatus::Cancelled,
    ] {
        assert_eq!(TaskStatus::parse(s.as_str()), Some(s));
    }
    for k in [TaskKind::Generic, TaskKind::Code, TaskKind::Research, TaskKind::Review, TaskKind::Test, TaskKind::Shell] {
        assert_eq!(TaskKind::parse(k.as_str()), Some(k));
    }
    for k in [DependencyKind::FeedsInto, DependencyKind::Blocks, DependencyKind::Suggests] {
        assert_eq!(DependencyKind::parse(k.as_str()), Some(k));
    }
    for s in [ProjectStatus::Active, ProjectStatus::Paused, ProjectStatus::Completed, ProjectStatus::Archived] {
        assert_eq!(ProjectStatus::parse(s.as_str()), Some(s));
    }
}

#[test]
fn watch_decisions() {
    assert_eq!(watch_step(3, 1, 5), WatchStep { parallel_hint: true, finished: false });
    assert_eq!(watch_step(1, 5, 5), WatchStep { parallel_hint: false, finished: true });
    assert_eq!(watch_step(0, 0, 0), WatchStep { parallel_hint: false, finished: false });
}

#[test]
fn event_types() {
    assert_eq!(parse_event_type("task_completed"), Ok(EventType::TaskCompleted));
    assert_eq!(parse_event_type("dep_added"), Ok(EventType::DepAdded));
    assert_eq!(parse_event_type("approval_resolved"), Ok(EventType::ApprovalResolved));
    assert_eq!(parse_event_type("task_done"), Err("unknown event type: task_done".to_string()));
    for e in [
        EventType::TaskCreated,
        EventType::TaskReady,
        EventType::TaskClaimed,
        EventType::TaskStarted,
        EventType::TaskCompleted,
        EventType::TaskFailed,
        EventType::TaskRetrying,
        EventType::DepAdded,
        EventType::ArtifactCreated,
        EventType::ApprovalRequested,
        EventType::ApprovalResolved,
    ] {
        assert_eq!(EventType::parse(e.as_str()), Some(e));
    }
}
