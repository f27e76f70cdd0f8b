use vstd::prelude::*;
use crate::text::{joined, lemma_joined_push};

verus! {

/// A project as the command line lists it: its id and its name.
#[derive(Debug)]
pub struct ProjectRef {
    pub id: String,
    pub name: String,
}

impl View for ProjectRef {
    type V = (Seq<char>, Seq<char>);

    open spec fn view(&self) -> (Seq<char>, Seq<char>) {
        (self.id@, self.name@)
    }
}

impl Clone for ProjectRef {
    fn clone(&self) -> (r: Self)
        ensures
            r@ == self@,
    {
        ProjectRef { id: self.id.clone(), name: self.name.clone() }
    }
}

/// The projects' ids and names.
pub open spec fn project_views(ps: Seq<ProjectRef>) -> Seq<(Seq<char>, Seq<char>)> {
    ps.map_values(|p: ProjectRef| p@)
}

/// Why no project could be chosen.
#[derive(Debug)]
pub enum ResolveError {
    /// Several projects exist and none was named or set as the default.
    MultipleProjects(Vec<ProjectRef>),
    /// No project exists yet.
    NoProjects,
}

/// How one project is listed in the error for several projects.
pub open spec fn project_line(p: (Seq<char>, Seq<char>)) -> Seq<char> {
    "  "@ + p.0 + " ("@ + p.1 + ")"@
}

/// The text of each error.
pub open spec fn resolve_error_text(e: ResolveError) -> Seq<char> {
    match e {
        ResolveError::MultipleProjects(ps) => "Multiple projects found. Use --project <id> or 'plandb use <id>':\n"@
            + joined(project_views(ps@).map_values(|p: (Seq<char>, Seq<char>)| project_line(p)), "\n"@),
        ResolveError::NoProjects => "No projects found. Run 'plandb init <name>' to create one."@,
    }
}

impl ResolveError {
    /// The message shown to the user.
    pub fn message(&self) -> (r: String)
        ensures
            r@ == resolve_error_text(*self),
    {
        let mut r = String::new();
        match self {
            ResolveError::MultipleProjects(ps) => {
                r.append("Multiple projects found. Use --project <id> or 'plandb use <id>':\n");
                let ghost head = r@;
                let ghost lines = project_views(ps@).map_values(
                    |p: (Seq<char>, Seq<char>)| project_line(p),
                );
                let mut i: usize = 0;
                while i < ps.len()
                    invariant
                        i <= ps@.len(),
                        lines == project_views(ps@).map_values(
                            |p: (Seq<char>, Seq<char>)| project_line(p),
                        ),
                        r@ == head + joined(lines.take(i as int), "\n"@),
                    decreases ps@.len() - i,
                {
                    proof {
                        lemma_joined_push(lines, "\n"@, i as int);
                    }
                    if i > 0 {
                        r.append("\n");
                    }
                    r.append("  ");
                    r.append(ps[i].id.as_str());
                    r.append(" (");
                    r.append(ps[i].name.as_str());
                    r.append(")");
                    proof {
                        assert(lines[i as int] == project_line(ps@[i as int]@));
                    }
                    i += 1;
                }
                proof {
                    assert(lines.take(ps@.len() as int) =~= lines);
                }
            },
            ResolveError::NoProjects => {
                r.append("No projects found. Run 'plandb init <name>' to create one.");
            },
        }
        r
    }
}

fn clone_projects(ps: &[ProjectRef]) -> (r: Vec<ProjectRef>)
    ensures
        project_views(r@) == project_views(ps@),
{
    let mut r: Vec<ProjectRef> = Vec::new();
    let mut i: usize = 0;
    while i < ps.len()
        invariant
            i <= ps@.len(),
            r@.len() == i,
            forall|k: int| 0 <= k < i ==> (#[trigger] r@[k])@ == ps@[k]@,
        decreases ps@.len() - i,
    {
        r.push(ps[i].clone());
        i += 1;
    }
    assert(project_views(r@) =~= project_views(ps@));
    r
}

/// A step of choosing the project a command works on: either the next
/// lookup it needs, or its answer.
#[derive(Debug)]
pub enum ResolveStep {
    /// Read the stored default project and step again.
    NeedCurrentProject,
    /// List the existing projects and step again.
    NeedProjects,
    /// The chosen project id, or why none could be chosen.
    Done(Result<String, ResolveError>),
}

/// Chooses the project a command works on, one lookup at a time: the one
/// named with `--project` (`explicit`), else the stored default, else the
/// only existing project. With several projects and no choice it lists
/// them in the error; with none it says so.
///
/// `current_project` is `None` until the stored default has been read, then
/// `Some` of what was read; `projects` is `None` until the projects have
/// been listed. The stored default is asked for only when no project was
/// named, and the projects only when there is no stored default either.
pub fn resolve_project_id(
    explicit: Option<&str>,
    current_project: Option<Option<String>>,
    projects: Option<&[ProjectRef]>,
) -> (r: ResolveStep)
    ensures
        explicit is Some ==> (r matches ResolveStep::Done(Ok(id)) && id@ == explicit->0@),
        explicit is None && current_project is None ==> r is NeedCurrentProject,
        explicit is None && current_project is Some && current_project->0 is Some ==> (r matches ResolveStep::Done(Ok(id))
            && id@ == current_project->0->0@),
        explicit is None && current_project == Some(None::<String>) && projects is None
            ==> r is NeedProjects,
        explicit is None && current_project == Some(None::<String>) && projects is Some
            && projects->0@.len() == 1 ==> (r matches ResolveStep::Done(Ok(id)) && id@
            == projects->0@[0].id@),
        explicit is None && current_project == Some(None::<String>) && projects is Some
            && projects->0@.len() > 1 ==> (r matches ResolveStep::Done(
            Err(ResolveError::MultipleProjects(ps)),
        ) && project_views(ps@) == project_views(projects->0@)),
        explicit is None && current_project == Some(None::<String>) && projects is Some
            && projects->0@.len() == 0 ==> r matches ResolveStep::Done(
            Err(ResolveError::NoProjects),
        ),
{
    if let Some(project_id) = explicit {
        return ResolveStep::Done(Ok(project_id.to_owned()));
    }
    match current_project {
        None => ResolveStep::NeedCurrentProject,
        Some(Some(project_id)) => ResolveStep::Done(Ok(project_id)),
        Some(None) => match projects {
            None => ResolveStep::NeedProjects,
            Some(projects) => {
                if projects.len() == 1 {
                    ResolveStep::Done(Ok(projects[0].id.clone()))
                } else if projects.len() > 0 {
                    ResolveStep::Done(Err(ResolveError::MultipleProjects(clone_projects(projects))))
                } else {
                    ResolveStep::Done(Err(ResolveError::NoProjects))
                }
            },
        },
    }
}

} // verus!
