use vstd::prelude::*;
use crate::text::str_equal;

verus! {

/// Lifecycle state of a task: pending until its blocking dependencies are done, then ready, claimed, running, and finally done, done_partial, failed or cancelled.
#[derive(Clone, Copy, Debug, PartialEq, Eq, Structural)]
pub enum TaskStatus {
    Pending,
    Ready,
    Claimed,
    Running,
    Done,
    DonePartial,
    Failed,
    Cancelled,
}

/// The text form of each task status.
pub open spec fn task_status_name(x: TaskStatus) -> Seq<char> {
    match x {
        TaskStatus::Pending => "pending"@,
        TaskStatus::Ready => "ready"@,
        TaskStatus::Claimed => "claimed"@,
        TaskStatus::Running => "running"@,
        TaskStatus::Done => "done"@,
        TaskStatus::DonePartial => "done_partial"@,
        TaskStatus::Failed => "failed"@,
        TaskStatus::Cancelled => "cancelled"@,
    }
}

/// The task status whose text form is `t`, if any.
pub open spec fn task_status_from_name(t: Seq<char>) -> Option<TaskStatus> {
    if t == "pending"@ {
        Some(TaskStatus::Pending)
    } else if t == "ready"@ {
        Some(TaskStatus::Ready)
    } else if t == "claimed"@ {
        Some(TaskStatus::Claimed)
    } else if t == "running"@ {
        Some(TaskStatus::Running)
    } else if t == "done"@ {
        Some(TaskStatus::Done)
    } else if t == "done_partial"@ {
        Some(TaskStatus::DonePartial)
    } else if t == "failed"@ {
        Some(TaskStatus::Failed)
    } else if t == "cancelled"@ {
        Some(TaskStatus::Cancelled)
    } else {
        None
    }
}

impl TaskStatus {
    /// The status written as text.
    pub fn as_str(&self) -> (r: &'static str)
        ensures
            r@ == task_status_name(*self),
    {
        match self {
            TaskStatus::Pending => "pending",
            TaskStatus::Ready => "ready",
            TaskStatus::Claimed => "claimed",
            TaskStatus::Running => "running",
            TaskStatus::Done => "done",
            TaskStatus::DonePartial => "done_partial",
            TaskStatus::Failed => "failed",
            TaskStatus::Cancelled => "cancelled",
        }
    }

    /// Reads a task status from its text form.
    pub fn parse(input: &str) -> (r: Option<TaskStatus>)
        ensures
            r == task_status_from_name(input@),
    {
        if str_equal(input, "pending") {
            Some(TaskStatus::Pending)
        } else if str_equal(input, "ready") {
            Some(TaskStatus::Ready)
        } else if str_equal(input, "claimed") {
            Some(TaskStatus::Claimed)
        } else if str_equal(input, "running") {
            Some(TaskStatus::Running)
        } else if str_equal(input, "done") {
            Some(TaskStatus::Done)
        } else if str_equal(input, "done_partial") {
            Some(TaskStatus::DonePartial)
        } else if str_equal(input, "failed") {
            Some(TaskStatus::Failed)
        } else if str_equal(input, "cancelled") {
            Some(TaskStatus::Cancelled)
        } else {
            None
        }
    }
}

/// Every task status is read back from its own text form, so distinct
/// values have distinct text forms.
pub proof fn lemma_task_status_name_roundtrip(x: TaskStatus)
    ensures
        task_status_from_name(task_status_name(x)) == Some(x),
{
    reveal_strlit("pending");
    assert("pending"@.len() == 7);
    reveal_strlit("ready");
    assert("ready"@.len() == 5);
    reveal_strlit("claimed");
    assert("claimed"@.len() == 7);
    reveal_strlit("running");
    assert("running"@.len() == 7);
    reveal_strlit("done");
    assert("done"@.len() == 4);
    reveal_strlit("done_partial");
    assert("done_partial"@.len() == 12);
    reveal_strlit("failed");
    assert("failed"@.len() == 6);
    reveal_strlit("cancelled");
    assert("cancelled"@.len() == 9);
    assert("pending"@[0] == 'p');
    assert("running"@[0] == 'r');
    assert("claimed"@[0] == 'c');
}

/// What sort of work a task is.
#[derive(Clone, Copy, Debug, PartialEq, Eq, Structural)]
pub enum TaskKind {
    Generic,
    Code,
    Research,
    Review,
    Test,
    Shell,
}

/// The text form of each task kind.
pub open spec fn task_kind_name(x: TaskKind) -> Seq<char> {
    match x {
        TaskKind::Generic => "generic"@,
        TaskKind::Code => "code"@,
        TaskKind::Research => "research"@,
        TaskKind::Review => "review"@,
        TaskKind::Test => "test"@,
        TaskKind::Shell => "shell"@,
    }
}

/// The task kind whose text form is `t`, if any.
pub open spec fn task_kind_from_name(t: Seq<char>) -> Option<TaskKind> {
    if t == "generic"@ {
        Some(TaskKind::Generic)
    } else if t == "code"@ {
        Some(TaskKind::Code)
    } else if t == "research"@ {
        Some(TaskKind::Research)
    } else if t == "review"@ {
        Some(TaskKind::Review)
    } else if t == "test"@ {
        Some(TaskKind::Test)
    } else if t == "shell"@ {
        Some(TaskKind::Shell)
    } else {
        None
    }
}

impl TaskKind {
    /// The kind written as text.
    pub fn as_str(&self) -> (r: &'static str)
        ensures
            r@ == task_kind_name(*self),
    {
        match self {
            TaskKind::Generic => "generic",
            TaskKind::Code => "code",
            TaskKind::Research => "research",
            TaskKind::Review => "review",
            TaskKind::Test => "test",
            TaskKind::Shell => "shell",
        }
    }

    /// Reads a task kind from its text form.
    pub fn parse(input: &str) -> (r: Option<TaskKind>)
        ensures
            r == task_kind_from_name(input@),
    {
        if str_equal(input, "generic") {
            Some(TaskKind::Generic)
        } else if str_equal(input, "code") {
            Some(TaskKind::Code)
        } else if str_equal(input, "research") {
            Some(TaskKind::Research)
        } else if str_equal(input, "review") {
            Some(TaskKind::Review)
        } else if str_equal(input, "test") {
            Some(TaskKind::Test)
        } else if str_equal(input, "shell") {
            Some(TaskKind::Shell)
        } else {
            None
        }
    }
}

/// Every task kind is read back from its own text form, so distinct
/// values have distinct text forms.
pub proof fn lemma_task_kind_name_roundtrip(x: TaskKind)
    ensures
        task_kind_from_name(task_kind_name(x)) == Some(x),
{
    reveal_strlit("generic");
    assert("generic"@.len() == 7);
    reveal_strlit("code");
    assert("code"@.len() == 4);
    reveal_strlit("research");
    assert("research"@.len() == 8);
    reveal_strlit("review");
    assert("review"@.len() == 6);
    reveal_strlit("test");
    assert("test"@.len() == 4);
    reveal_strlit("shell");
    assert("shell"@.len() == 5);
    assert("code"@[0] == 'c');
    assert("test"@[0] == 't');
}

/// Type of a dependency edge: `feeds_into` (passes the upstream result downstream), `blocks` (ordering only) or `suggests` (soft, does not block).
#[derive(Clone, Copy, Debug, PartialEq, Eq, Structural)]
pub enum DependencyKind {
    FeedsInto,
    Blocks,
    Suggests,
}

/// The text form of each dependency kind.
pub open spec fn dependency_kind_name(x: DependencyKind) -> Seq<char> {
    match x {
        DependencyKind::FeedsInto => "feeds_into"@,
        DependencyKind::Blocks => "blocks"@,
        DependencyKind::Suggests => "suggests"@,
    }
}

/// The dependency kind whose text form is `t`, if any.
pub open spec fn dependency_kind_from_name(t: Seq<char>) -> Option<DependencyKind> {
    if t == "feeds_into"@ {
        Some(DependencyKind::FeedsInto)
    } else if t == "blocks"@ {
        Some(DependencyKind::Blocks)
    } else if t == "suggests"@ {
        Some(DependencyKind::Suggests)
    } else {
        None
    }
}

impl DependencyKind {
    /// The kind written as text.
    pub fn as_str(&self) -> (r: &'static str)
        ensures
            r@ == dependency_kind_name(*self),
    {
        match self {
            DependencyKind::FeedsInto => "feeds_into",
            DependencyKind::Blocks => "blocks",
            DependencyKind::Suggests => "suggests",
        }
    }

    /// Reads a dependency kind from its text form.
    pub fn parse(input: &str) -> (r: Option<DependencyKind>)
        ensures
            r == dependency_kind_from_name(input@),
    {
        if str_equal(input, "feeds_into") {
            Some(DependencyKind::FeedsInto)
        } else if str_equal(input, "blocks") {
            Some(DependencyKind::Blocks)
        } else if str_equal(input, "suggests") {
            Some(DependencyKind::Suggests)
        } else {
            None
        }
    }
}

/// Every dependency kind is read back from its own text form, so distinct
/// values have distinct text forms.
pub proof fn lemma_dependency_kind_name_roundtrip(x: DependencyKind)
    ensures
        dependency_kind_from_name(dependency_kind_name(x)) == Some(x),
{
    reveal_strlit("feeds_into");
    assert("feeds_into"@.len() == 10);
    reveal_strlit("blocks");
    assert("blocks"@.len() == 6);
    reveal_strlit("suggests");
    assert("suggests"@.len() == 8);
}

/// Lifecycle state of a project.
#[derive(Clone, Copy, Debug, PartialEq, Eq, Structural)]
pub enum ProjectStatus {
    Active,
    Paused,
    Completed,
    Archived,
}

/// The text form of each project status.
pub open spec fn project_status_name(x: ProjectStatus) -> Seq<char> {
    match x {
        ProjectStatus::Active => "active"@,
        ProjectStatus::Paused => "paused"@,
        ProjectStatus::Completed => "completed"@,
        ProjectStatus::Archived => "archived"@,
    }
}

/// The project status whose text form is `t`, if any.
pub open spec fn project_status_from_name(t: Seq<char>) -> Option<ProjectStatus> {
    if t == "active"@ {
        Some(ProjectStatus::Active)
    } else if t == "paused"@ {
        Some(ProjectStatus::Paused)
    } else if t == "completed"@ {
        Some(ProjectStatus::Completed)
    } else if t == "archived"@ {
        Some(ProjectStatus::Archived)
    } else {
        None
    }
}

impl ProjectStatus {
    /// The status written as text.
    pub fn as_str(&self) -> (r: &'static str)
        ensures
            r@ == project_status_name(*self),
    {
        match self {
            ProjectStatus::Active => "active",
            ProjectStatus::Paused => "paused",
            ProjectStatus::Completed => "completed",
            ProjectStatus::Archived => "archived",
        }
    }

    /// Reads a project status from its text form.
    pub fn parse(input: &str) -> (r: Option<ProjectStatus>)
        ensures
            r == project_status_from_name(input@),
    {
        if str_equal(input, "active") {
            Some(ProjectStatus::Active)
        } else if str_equal(input, "paused") {
            Some(ProjectStatus::Paused)
        } else if str_equal(input, "completed") {
            Some(ProjectStatus::Completed)
        } else if str_equal(input, "archived") {
            Some(ProjectStatus::Archived)
        } else {
            None
        }
    }
}

/// Every project status is read back from its own text form, so distinct
/// values have distinct text forms.
pub proof fn lemma_project_status_name_roundtrip(x: ProjectStatus)
    ensures
        project_status_from_name(project_status_name(x)) == Some(x),
{
    reveal_strlit("active");
    assert("active"@.len() == 6);
    reveal_strlit("paused");
    assert("paused"@.len() == 6);
    reveal_strlit("completed");
    assert("completed"@.len() == 9);
    reveal_strlit("archived");
    assert("archived"@.len() == 8);
    assert("active"@[0] == 'a');
    assert("paused"@[0] == 'p');
}

/// Kind of an entry in the project event log.
#[derive(Clone, Copy, Debug, PartialEq, Eq, Structural)]
pub enum EventType {
    TaskCreated,
    TaskReady,
    TaskClaimed,
    TaskStarted,
    TaskCompleted,
    TaskFailed,
    TaskRetrying,
    DepAdded,
    ArtifactCreated,
    ApprovalRequested,
    ApprovalResolved,
}

/// The text form of each event type.
pub open spec fn event_type_name(x: EventType) -> Seq<char> {
    match x {
        EventType::TaskCreated => "task_created"@,
        EventType::TaskReady => "task_ready"@,
        EventType::TaskClaimed => "task_claimed"@,
        EventType::TaskStarted => "task_started"@,
        EventType::TaskCompleted => "task_completed"@,
        EventType::TaskFailed => "task_failed"@,
        EventType::TaskRetrying => "task_retrying"@,
        EventType::DepAdded => "dep_added"@,
        EventType::ArtifactCreated => "artifact_created"@,
        EventType::ApprovalRequested => "approval_requested"@,
        EventType::ApprovalResolved => "approval_resolved"@,
    }
}

/// The event type whose text form is `t`, if any.
pub open spec fn event_type_from_name(t: Seq<char>) -> Option<EventType> {
    if t == "task_created"@ {
        Some(EventType::TaskCreated)
    } else if t == "task_ready"@ {
        Some(EventType::TaskReady)
    } else if t == "task_claimed"@ {
        Some(EventType::TaskClaimed)
    } else if t == "task_started"@ {
        Some(EventType::TaskStarted)
    } else if t == "task_completed"@ {
        Some(EventType::TaskCompleted)
    } else if t == "task_failed"@ {
        Some(EventType::TaskFailed)
    } else if t == "task_retrying"@ {
        Some(EventType::TaskRetrying)
    } else if t == "dep_added"@ {
        Some(EventType::DepAdded)
    } else if t == "artifact_created"@ {
        Some(EventType::ArtifactCreated)
    } else if t == "approval_requested"@ {
        Some(EventType::ApprovalRequested)
    } else if t == "approval_resolved"@ {
        Some(EventType::ApprovalResolved)
    } else {
        None
    }
}

impl EventType {
    /// The event type written as text.
    pub fn as_str(&self) -> (r: &'static str)
        ensures
            r@ == event_type_name(*self),
    {
        match self {
            EventType::TaskCreated => "task_created",
            EventType::TaskReady => "task_ready",
            EventType::TaskClaimed => "task_claimed",
            EventType::TaskStarted => "task_started",
            EventType::TaskCompleted => "task_completed",
            EventType::TaskFailed => "task_failed",
            EventType::TaskRetrying => "task_retrying",
            EventType::DepAdded => "dep_added",
            EventType::ArtifactCreated => "artifact_created",
            EventType::ApprovalRequested => "approval_requested",
            EventType::ApprovalResolved => "approval_resolved",
        }
    }

    /// Reads an event type from its text form.
    pub fn parse(input: &str) -> (r: Option<EventType>)
        ensures
            r == event_type_from_name(input@),
    {
        if str_equal(input, "task_created") {
            Some(EventType::TaskCreated)
        } else if str_equal(input, "task_ready") {
            Some(EventType::TaskReady)
        } else if str_equal(input, "task_claimed") {
            Some(EventType::TaskClaimed)
        } else if str_equal(input, "task_started") {
            Some(EventType::TaskStarted)
        } else if str_equal(input, "task_completed") {
            Some(EventType::TaskCompleted)
        } else if str_equal(input, "task_failed") {
            Some(EventType::TaskFailed)
        } else if str_equal(input, "task_retrying") {
            Some(EventType::TaskRetrying)
        } else if str_equal(input, "dep_added") {
            Some(EventType::DepAdded)
        } else if str_equal(input, "artifact_created") {
            Some(EventType::ArtifactCreated)
        } else if str_equal(input, "approval_requested") {
            Some(EventType::ApprovalRequested)
        } else if str_equal(input, "approval_resolved") {
            Some(EventType::ApprovalResolved)
        } else {
            None
        }
    }
}

/// Every event type is read back from its own text form, so distinct
/// values have distinct text forms.
pub proof fn lemma_event_type_name_roundtrip(x: EventType)
    ensures
        event_type_from_name(event_type_name(x)) == Some(x),
{
    reveal_strlit("task_created");
    assert("task_created"@.len() == 12);
    reveal_strlit("task_ready");
    assert("task_ready"@.len() == 10);
    reveal_strlit("task_claimed");
    assert("task_claimed"@.len() == 12);
    reveal_strlit("task_started");
    assert("task_started"@.len() == 12);
    reveal_strlit("task_completed");
    assert("task_completed"@.len() == 14);
    reveal_strlit("task_failed");
    assert("task_failed"@.len() == 11);
    reveal_strlit("task_retrying");
    assert("task_retrying"@.len() == 13);
    reveal_strlit("dep_added");
    assert("dep_added"@.len() == 9);
    reveal_strlit("artifact_created");
    assert("artifact_created"@.len() == 16);
    reveal_strlit("approval_requested");
    assert("approval_requested"@.len() == 18);
    reveal_strlit("approval_resolved");
    assert("approval_resolved"@.len() == 17);
    assert("task_created"@[5] == 'c');
    assert("task_started"@[5] == 's');
    assert("task_claimed"@[6] == 'l');
    assert("task_created"@[6] == 'r');
    assert("task_claimed"@[5] == 'c');
}

/// The text form of each task status is its documented lower-case name, and
/// reading that name gives the task status back.
pub proof fn lemma_task_status_documented_names()
    ensures
        task_status_name(TaskStatus::Pending) == "pending"@,
        task_status_name(TaskStatus::Ready) == "ready"@,
        task_status_name(TaskStatus::Claimed) == "claimed"@,
        task_status_name(TaskStatus::Running) == "running"@,
        task_status_name(TaskStatus::Done) == "done"@,
        task_status_name(TaskStatus::DonePartial) == "done_partial"@,
        task_status_name(TaskStatus::Failed) == "failed"@,
        task_status_name(TaskStatus::Cancelled) == "cancelled"@,
        task_status_from_name("pending"@) == Some(TaskStatus::Pending),
        task_status_from_name("ready"@) == Some(TaskStatus::Ready),
        task_status_from_name("claimed"@) == Some(TaskStatus::Claimed),
        task_status_from_name("running"@) == Some(TaskStatus::Running),
        task_status_from_name("done"@) == Some(TaskStatus::Done),
        task_status_from_name("done_partial"@) == Some(TaskStatus::DonePartial),
        task_status_from_name("failed"@) == Some(TaskStatus::Failed),
        task_status_from_name("cancelled"@) == Some(TaskStatus::Cancelled),
{
    lemma_task_status_name_roundtrip(TaskStatus::Pending);
    lemma_task_status_name_roundtrip(TaskStatus::Ready);
    lemma_task_status_name_roundtrip(TaskStatus::Claimed);
    lemma_task_status_name_roundtrip(TaskStatus::Running);
    lemma_task_status_name_roundtrip(TaskStatus::Done);
    lemma_task_status_name_roundtrip(TaskStatus::DonePartial);
    lemma_task_status_name_roundtrip(TaskStatus::Failed);
    lemma_task_status_name_roundtrip(TaskStatus::Cancelled);
}

/// The text form of each task kind is its documented lower-case name, and
/// reading that name gives the task kind back.
pub proof fn lemma_task_kind_documented_names()
    ensures
        task_kind_name(TaskKind::Generic) == "generic"@,
        task_kind_name(TaskKind::Code) == "code"@,
        task_kind_name(TaskKind::Research) == "research"@,
        task_kind_name(TaskKind::Review) == "review"@,
        task_kind_name(TaskKind::Test) == "test"@,
        task_kind_name(TaskKind::Shell) == "shell"@,
        task_kind_from_name("generic"@) == Some(TaskKind::Generic),
        task_kind_from_name("code"@) == Some(TaskKind::Code),
        task_kind_from_name("research"@) == Some(TaskKind::Research),
        task_kind_from_name("review"@) == Some(TaskKind::Review),
        task_kind_from_name("test"@) == Some(TaskKind::Test),
        task_kind_from_name("shell"@) == Some(TaskKind::Shell),
{
    lemma_task_kind_name_roundtrip(TaskKind::Generic);
    lemma_task_kind_name_roundtrip(TaskKind::Code);
    lemma_task_kind_name_roundtrip(TaskKind::Research);
    lemma_task_kind_name_roundtrip(TaskKind::Review);
    lemma_task_kind_name_roundtrip(TaskKind::Test);
    lemma_task_kind_name_roundtrip(TaskKind::Shell);
}

/// The text form of each dependency kind is its documented lower-case name, and
/// reading that name gives the dependency kind back.
pub proof fn lemma_dependency_kind_documented_names()
    ensures
        dependency_kind_name(DependencyKind::FeedsInto) == "feeds_into"@,
        dependency_kind_name(DependencyKind::Blocks) == "blocks"@,
        dependency_kind_name(DependencyKind::Suggests) == "suggests"@,
        dependency_kind_from_name("feeds_into"@) == Some(DependencyKind::FeedsInto),
        dependency_kind_from_name("blocks"@) == Some(DependencyKind::Blocks),
        dependency_kind_from_name("suggests"@) == Some(DependencyKind::Suggests),
{
    lemma_dependency_kind_name_roundtrip(DependencyKind::FeedsInto);
    lemma_dependency_kind_name_roundtrip(DependencyKind::Blocks);
    lemma_dependency_kind_name_roundtrip(DependencyKind::Suggests);
}

/// The text form of each project status is its documented lower-case name, and
/// reading that name gives the project status back.
pub proof fn lemma_project_status_documented_names()
    ensures
        project_status_name(ProjectStatus::Active) == "active"@,
        project_status_name(ProjectStatus::Paused) == "paused"@,
        project_status_name(ProjectStatus::Completed) == "completed"@,
        project_status_name(ProjectStatus::Archived) == "archived"@,
        project_status_from_name("active"@) == Some(ProjectStatus::Active),
        project_status_from_name("paused"@) == Some(ProjectStatus::Paused),
        project_status_from_name("completed"@) == Some(ProjectStatus::Completed),
        project_status_from_name("archived"@) == Some(ProjectStatus::Archived),
{
    lemma_project_status_name_roundtrip(ProjectStatus::Active);
    lemma_project_status_name_roundtrip(ProjectStatus::Paused);
    lemma_project_status_name_roundtrip(ProjectStatus::Completed);
    lemma_project_status_name_roundtrip(ProjectStatus::Archived);
}

/// The text form of each event type is its documented lower-case name, and
/// reading that name gives the event type back.
pub proof fn lemma_event_type_documented_names()
    ensures
        event_type_name(EventType::TaskCreated) == "task_created"@,
        event_type_name(EventType::TaskReady) == "task_ready"@,
        event_type_name(EventType::TaskClaimed) == "task_claimed"@,
        event_type_name(EventType::TaskStarted) == "task_started"@,
        event_type_name(EventType::TaskCompleted) == "task_completed"@,
        event_type_name(EventType::TaskFailed) == "task_failed"@,
        event_type_name(EventType::TaskRetrying) == "task_retrying"@,
        event_type_name(EventType::DepAdded) == "dep_added"@,
        event_type_name(EventType::ArtifactCreated) == "artifact_created"@,
        event_type_name(EventType::ApprovalRequested) == "approval_requested"@,
        event_type_name(EventType::ApprovalResolved) == "approval_resolved"@,
        event_type_from_name("task_created"@) == Some(EventType::TaskCreated),
        event_type_from_name("task_ready"@) == Some(EventType::TaskReady),
        event_type_from_name("task_claimed"@) == Some(EventType::TaskClaimed),
        event_type_from_name("task_started"@) == Some(EventType::TaskStarted),
        event_type_from_name("task_completed"@) == Some(EventType::TaskCompleted),
        event_type_from_name("task_failed"@) == Some(EventType::TaskFailed),
        event_type_from_name("task_retrying"@) == Some(EventType::TaskRetrying),
        event_type_from_name("dep_added"@) == Some(EventType::DepAdded),
        event_type_from_name("artifact_created"@) == Some(EventType::ArtifactCreated),
        event_type_from_name("approval_requested"@) == Some(EventType::ApprovalRequested),
        event_type_from_name("approval_resolved"@) == Some(EventType::ApprovalResolved),
{
    lemma_event_type_name_roundtrip(EventType::TaskCreated);
    lemma_event_type_name_roundtrip(EventType::TaskReady);
    lemma_event_type_name_roundtrip(EventType::TaskClaimed);
    lemma_event_type_name_roundtrip(EventType::TaskStarted);
    lemma_event_type_name_roundtrip(EventType::TaskCompleted);
    lemma_event_type_name_roundtrip(EventType::TaskFailed);
    lemma_event_type_name_roundtrip(EventType::TaskRetrying);
    lemma_event_type_name_roundtrip(EventType::DepAdded);
    lemma_event_type_name_roundtrip(EventType::ArtifactCreated);
    lemma_event_type_name_roundtrip(EventType::ApprovalRequested);
    lemma_event_type_name_roundtrip(EventType::ApprovalResolved);
}
} // verus!
