use vstd::prelude::*;
use crate::models::{
    dependency_kind_from_name, event_type_from_name, project_status_from_name, task_kind_from_name,
    task_status_from_name, task_status_name, DependencyKind, EventType, ProjectStatus, TaskKind, TaskStatus,
};

verus! {

/// The ANSI escape that starts a colored span.
pub open spec fn ansi_open() -> Seq<char> {
    "\x1b["@
}

/// The ANSI escape that resets the color.
pub open spec fn ansi_reset() -> Seq<char> {
    "\x1b[0m"@
}

/// `text` wrapped in the ANSI color `code` when coloring is on, unchanged
/// otherwise.
pub open spec fn colorized(text: Seq<char>, code: Seq<char>, color: bool) -> Seq<char> {
    if color {
        ansi_open() + code + "m"@ + text + ansi_reset()
    } else {
        text
    }
}

/// Wraps `text` in the ANSI color `ansi_code` when `color` holds (that is,
/// when the `NO_COLOR` environment variable is unset).
pub fn colorize(text: &str, ansi_code: &str, color: bool) -> (r: String)
    ensures
        r@ == colorized(text@, ansi_code@, color),
{
    let mut r = String::new();
    if color {
        r.append("\x1b[");
        r.append(ansi_code);
        r.append("m");
        r.append(text);
        r.append("\x1b[0m");
    } else {
        r.append(text);
    }
    r
}

/// The one-character icon shown for each task status.
pub open spec fn status_icon_text(status: TaskStatus) -> Seq<char> {
    match status {
        TaskStatus::Done | TaskStatus::DonePartial => "\u{2713}"@,
        TaskStatus::Running | TaskStatus::Claimed => "\u{25c9}"@,
        TaskStatus::Ready => "\u{25cb}"@,
        TaskStatus::Pending => "\u{b7}"@,
        TaskStatus::Failed => "\u{2717}"@,
        TaskStatus::Cancelled => "\u{2298}"@,
    }
}

/// The icon shown for a task status: a check mark when done, a filled
/// circle while claimed or running, an open circle when ready, a dot while
/// pending, a cross when failed and a slashed circle when cancelled.
pub fn status_icon(status: &TaskStatus) -> (r: &'static str)
    ensures
        r@ == status_icon_text(*status),
{
    match status {
        TaskStatus::Done | TaskStatus::DonePartial => "\u{2713}",
        TaskStatus::Running | TaskStatus::Claimed => "\u{25c9}",
        TaskStatus::Ready => "\u{25cb}",
        TaskStatus::Pending => "\u{b7}",
        TaskStatus::Failed => "\u{2717}",
        TaskStatus::Cancelled => "\u{2298}",
    }
}

/// The ANSI color code for each task status: green when done, yellow while
/// claimed or running, blue when ready, grey while pending, red when failed
/// or cancelled.
pub open spec fn status_color_code(status: TaskStatus) -> Seq<char> {
    match status {
        TaskStatus::Done | TaskStatus::DonePartial => "32"@,
        TaskStatus::Running | TaskStatus::Claimed => "33"@,
        TaskStatus::Ready => "34"@,
        TaskStatus::Pending => "90"@,
        TaskStatus::Failed => "31"@,
        TaskStatus::Cancelled => "31"@,
    }
}

/// The status's text form, colored by status.
pub fn color_task_status(status: &TaskStatus, color: bool) -> (r: String)
    ensures
        r@ == colorized(task_status_name(*status), status_color_code(*status), color),
{
    let label = status.as_str();
    let code = match status {
        TaskStatus::Done | TaskStatus::DonePartial => "32",
        TaskStatus::Running | TaskStatus::Claimed => "33",
        TaskStatus::Ready => "34",
        TaskStatus::Pending => "90",
        TaskStatus::Failed => "31",
        TaskStatus::Cancelled => "31",
    };
    colorize(label, code, color)
}

/// The message given for text that names no value of the given kind.
pub open spec fn unknown_value_message(what: Seq<char>, input: Seq<char>) -> Seq<char> {
    "unknown "@ + what + ": "@ + input
}

fn unknown_value(what: &str, input: &str) -> (r: String)
    ensures
        r@ == unknown_value_message(what@, input@),
{
    let mut r = String::new();
    r.append("unknown ");
    r.append(what);
    r.append(": ");
    r.append(input);
    r
}

/// Reads a project status given on the command line.
pub fn parse_project_status(input: &str) -> (r: Result<ProjectStatus, String>)
    ensures
        match r {
            Ok(s) => project_status_from_name(input@) == Some(s),
            Err(msg) => project_status_from_name(input@) is None && msg@ == unknown_value_message(
                "project status"@,
                input@,
            ),
        },
{
    match ProjectStatus::parse(input) {
        Some(s) => Ok(s),
        None => Err(unknown_value("project status", input)),
    }
}

/// Reads a task status given on the command line.
pub fn parse_task_status(input: &str) -> (r: Result<TaskStatus, String>)
    ensures
        match r {
            Ok(s) => task_status_from_name(input@) == Some(s),
            Err(msg) => task_status_from_name(input@) is None && msg@ == unknown_value_message(
                "task status"@,
                input@,
            ),
        },
{
    match TaskStatus::parse(input) {
        Some(s) => Ok(s),
        None => Err(unknown_value("task status", input)),
    }
}

/// Reads a task kind given on the command line.
pub fn parse_task_kind(input: &str) -> (r: Result<TaskKind, String>)
    ensures
        match r {
            Ok(k) => task_kind_from_name(input@) == Some(k),
            Err(msg) => task_kind_from_name(input@) is None && msg@ == unknown_value_message(
                "task kind"@,
                input@,
            ),
        },
{
    match TaskKind::parse(input) {
        Some(k) => Ok(k),
        None => Err(unknown_value("task kind", input)),
    }
}

/// Reads a dependency kind given on the command line.
pub fn parse_dependency_kind(input: &str) -> (r: Result<DependencyKind, String>)
    ensures
        match r {
            Ok(k) => dependency_kind_from_name(input@) == Some(k),
            Err(msg) => dependency_kind_from_name(input@) is None && msg@ == unknown_value_message(
                "dependency kind"@,
                input@,
            ),
        },
{
    match DependencyKind::parse(input) {
        Some(k) => Ok(k),
        None => Err(unknown_value("dependency kind", input)),
    }
}

/// Reads an event type given on the command line.
pub fn parse_event_type(input: &str) -> (r: Result<EventType, String>)
    ensures
        match r {
            Ok(e) => event_type_from_name(input@) == Some(e),
            Err(msg) => event_type_from_name(input@) is None && msg@ == unknown_value_message(
                "event type"@,
                input@,
            ),
        },
{
    match EventType::parse(input) {
        Some(e) => Ok(e),
        None => Err(unknown_value("event type", input)),
    }
}

/// Statuses are colored by how far along they are: both done states green
/// (32), claimed and running alike yellow (33), ready blue (34), pending
/// grey (90), failed and cancelled red (31); and the icons are a check mark
/// for both done states, a filled circle for claimed and running alike, an
/// open circle for ready, a middle dot for pending, a cross for failed and
/// a slashed circle for cancelled.
pub proof fn lemma_status_colors_and_icons()
    ensures
        status_color_code(TaskStatus::Done) == "32"@,
        status_color_code(TaskStatus::DonePartial) == "32"@,
        status_color_code(TaskStatus::Claimed) == "33"@,
        status_color_code(TaskStatus::Running) == "33"@,
        status_color_code(TaskStatus::Ready) == "34"@,
        status_color_code(TaskStatus::Pending) == "90"@,
        status_color_code(TaskStatus::Failed) == "31"@,
        status_color_code(TaskStatus::Cancelled) == "31"@,
        status_icon_text(TaskStatus::Done) == "\u{2713}"@,
        status_icon_text(TaskStatus::DonePartial) == "\u{2713}"@,
        status_icon_text(TaskStatus::Claimed) == "\u{25c9}"@,
        status_icon_text(TaskStatus::Running) == "\u{25c9}"@,
        status_icon_text(TaskStatus::Ready) == "\u{25cb}"@,
        status_icon_text(TaskStatus::Pending) == "\u{b7}"@,
        status_icon_text(TaskStatus::Failed) == "\u{2717}"@,
        status_icon_text(TaskStatus::Cancelled) == "\u{2298}"@,
{
}

/// With color on, text is wrapped in the ANSI sequence ESC `[` code `m`
/// and followed by the reset ESC `[0m`; with color off it is left as is.
pub proof fn lemma_colorized_escape(text: Seq<char>, code: Seq<char>)
    ensures
        colorized(text, code, true) == seq!['\x1b', '['] + code + seq!['m'] + text + seq![
            '\x1b',
            '[',
            '0',
            'm',
        ],
        colorized(text, code, false) == text,
{
    reveal_strlit("\x1b[");
    reveal_strlit("m");
    reveal_strlit("\x1b[0m");
    assert(ansi_open() =~= seq!['\x1b', '[']);
    assert("m"@ =~= seq!['m']);
    assert(ansi_reset() =~= seq!['\x1b', '[', '0', 'm']);
}

/// What one refresh of `watch` decided.
#[derive(Debug, Clone, Copy, PartialEq, Eq)]
pub struct WatchStep {
    /// More than one task is ready: suggest working on them in parallel.
    pub parallel_hint: bool,
    /// Every task of a non-empty project is done: stop watching.
    pub finished: bool,
}

/// Decides one refresh of `watch` from the number of ready tasks and the
/// project's done and total counts.
pub fn watch_step(ready: usize, done: u64, total: u64) -> (r: WatchStep)
    ensures
        r.parallel_hint == (ready > 1),
        r.finished == (done == total && total > 0),
{
    WatchStep { parallel_hint: ready > 1, finished: done == total && total > 0 }
}

} // verus!
