use vstd::prelude::*;
use crate::text::{starts_with, str_equal};

verus! {

/// Where commands operate: the default project and, inside it, the
/// composite task that scopes task listing, claiming and creation.
#[derive(Debug)]
pub struct Scope {
    pub project: Option<String>,
    pub task: Option<String>,
}

/// The text views of an optional string.
pub open spec fn opt_view(s: Option<String>) -> Option<Seq<char>> {
    match s {
        Some(x) => Some(x@),
        None => None,
    }
}

impl View for Scope {
    type V = (Option<Seq<char>>, Option<Seq<char>>);

    open spec fn view(&self) -> (Option<Seq<char>>, Option<Seq<char>>) {
        (opt_view(self.project), opt_view(self.task))
    }
}

/// What `use` was asked to do.
#[derive(Debug)]
pub enum UseTarget {
    /// `use --clear`: forget the default project and the scope.
    Clear,
    /// `use ..`: move the scope up to the parent of the scope task.
    Parent,
    /// `use t-...`: scope into that task if it exists, else treat the
    /// argument as a project id.
    TaskOrProject(String),
    /// `use <project>`: make that project the default.
    Project(String),
    /// `use` alone: show the current project and scope.
    Show,
}

/// Whether a target names a task (task ids start with `t-`).
pub open spec fn names_task(target: Seq<char>) -> bool {
    target.len() >= 2 && target.take(2) == "t-"@
}

/// Classifies the arguments of `use`. `--clear` wins over a target; `..`
/// means the parent scope; an id starting with `t-` is tried as a task
/// first.
pub fn use_target(target: Option<&str>, clear: bool) -> (r: UseTarget)
    ensures
        clear ==> r is Clear,
        !clear && target is None ==> r is Show,
        !clear && target is Some && target->0@ == ".."@ ==> r is Parent,
        !clear && target is Some && target->0@ != ".."@ && names_task(target->0@) ==> (r matches UseTarget::TaskOrProject(t) && t@ == target->0@),
        !clear && target is Some && target->0@ != ".."@ && !names_task(target->0@) ==> (r matches UseTarget::Project(t) && t@ == target->0@),
{
    if clear {
        return UseTarget::Clear;
    }
    match target {
        None => UseTarget::Show,
        Some(t) => {
            if str_equal(t, "..") {
                UseTarget::Parent
            } else {
                proof {
                    reveal_strlit("t-");
                }
                if starts_with(t, "t-") {
                    UseTarget::TaskOrProject(t.to_owned())
                } else {
                    UseTarget::Project(t.to_owned())
                }
            }
        },
    }
}

/// What `use` found once the lookups it needed were made.
#[derive(Debug)]
pub enum UseOutcome {
    /// `use --clear`.
    Cleared,
    /// `use ..`; `parent` is the parent of the scope task (none when that
    /// task is at the top level), looked up only when a scope is set.
    Up { parent: Option<String> },
    /// `use t-...` found the task.
    EnteredTask { task_id: String, project_id: String },
    /// `use <project>` found the project.
    EnteredProject { project_id: String },
    /// `use` alone: nothing changes.
    Shown,
}

impl Scope {
    /// The scope after `use`:
    /// clearing forgets the default project and the scope; going up makes
    /// the scope task's parent the scope (the project root when it has
    /// none) and does nothing without a scope; entering a task scopes into
    /// it and makes its project the default; entering a project makes it
    /// the default at its root; showing changes nothing.
    pub fn after(self, outcome: UseOutcome) -> (r: Scope)
        ensures
            outcome is Cleared ==> r@ == (None::<Seq<char>>, None::<Seq<char>>),
            outcome matches UseOutcome::Up { parent } ==> r@.0 == self@.0 && r@.1 == (if self@.1 is Some {
                opt_view(parent)
            } else {
                None
            }),
            outcome matches UseOutcome::EnteredTask { task_id, project_id } ==> r@ == (
                Some(project_id@),
                Some(task_id@),
            ),
            outcome matches UseOutcome::EnteredProject { project_id } ==> r@ == (
                Some(project_id@),
                None::<Seq<char>>,
            ),
            outcome is Shown ==> r@ == self@,
    {
        match outcome {
            UseOutcome::Cleared => Scope { project: None, task: None },
            UseOutcome::Up { parent } => match self.task {
                Some(_) => Scope { project: self.project, task: parent },
                None => Scope { project: self.project, task: None },
            },
            UseOutcome::EnteredTask { task_id, project_id } => Scope {
                project: Some(project_id),
                task: Some(task_id),
            },
            UseOutcome::EnteredProject { project_id } => Scope {
                project: Some(project_id),
                task: None,
            },
            UseOutcome::Shown => self,
        }
    }
}

} // verus!
