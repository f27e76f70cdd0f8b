use vstd::prelude::*;

verus! {

/// `artifact write`: attach content to a task, inline or from a file.
#[derive(Debug)]
pub struct WriteArtifactArgs {
    pub task: String,
    pub name: String,
    pub file: Option<String>,
    pub content: Option<String>,
    pub kind: Option<String>,
    pub mime: Option<String>,
}

/// `artifact read`: show one artifact of a task by name.
#[derive(Debug)]
pub struct ReadArtifactArgs {
    pub task: String,
    pub name: String,
}

/// `artifact list`: list a task's artifacts.
#[derive(Debug)]
pub struct ListArtifactArgs {
    pub task: String,
}

/// The artifact subcommands.
#[derive(Debug)]
pub enum ArtifactSubcommand {
    Write(WriteArtifactArgs),
    Read(ReadArtifactArgs),
    List(ListArtifactArgs),
}

/// Attach, read or list the artifacts (files, outputs) of tasks.
#[derive(Debug)]
pub struct ArtifactCommand {
    pub command: ArtifactSubcommand,
}

/// Where the content of a new artifact comes from.
#[derive(Debug)]
pub enum ContentSource {
    /// The text given with `--content`.
    Inline(String),
    /// The file given with `--file`, to be read.
    File(String),
}

/// Why an artifact command was refused.
#[derive(Debug)]
pub enum ArtifactError {
    /// Neither `--file` nor `--content` was given.
    NoContent,
    /// No artifact of that name on that task.
    NotFound { task: String, name: String },
}

/// The message shown for each error.
pub open spec fn artifact_error_text(e: ArtifactError) -> Seq<char> {
    match e {
        ArtifactError::NoContent => "provide --file or --content"@,
        ArtifactError::NotFound { task, name } => "artifact not found: task="@ + task@ + " name="@
            + name@,
    }
}

impl ArtifactError {
    /// The message shown to the user.
    pub fn message(&self) -> (r: String)
        ensures
            r@ == artifact_error_text(*self),
    {
        let mut r = String::new();
        match self {
            ArtifactError::NoContent => r.append("provide --file or --content"),
            ArtifactError::NotFound { task, name } => {
                r.append("artifact not found: task=");
                r.append(task.as_str());
                r.append(" name=");
                r.append(name.as_str());
            },
        }
        r
    }
}

/// Decides where a new artifact's content comes from: `--content` when
/// given (even together with `--file`), else the file; one of them is
/// required.
pub fn content_source(args: &WriteArtifactArgs) -> (r: Result<ContentSource, ArtifactError>)
    ensures
        args.content is Some ==> (r matches Ok(ContentSource::Inline(c)) && c@
            == args.content->0@),
        args.content is None && args.file is Some ==> (r matches Ok(ContentSource::File(p))
            && p@ == args.file->0@),
        args.content is None && args.file is None ==> r matches Err(ArtifactError::NoContent),
{
    match &args.content {
        Some(c) => Ok(ContentSource::Inline(c.clone())),
        None => match &args.file {
            Some(p) => Ok(ContentSource::File(p.clone())),
            None => Err(ArtifactError::NoContent),
        },
    }
}

/// The recorded size of a new artifact: the file's length when it came
/// from a file, else the content's length in bytes, as a signed 64-bit
/// count.
pub fn artifact_size(file_len: Option<u64>, content: Option<&str>) -> (r: Option<i64>)
    ensures
        file_len is Some ==> r == Some(file_len->0 as i64),
        file_len is None && content is Some ==> r == Some(content->0.len() as i64),
        file_len is None && content is None ==> r is None,
{
    match file_len {
        Some(n) => Some(n as i64),
        None => match content {
            Some(c) => Some(c.len() as i64),
            None => None,
        },
    }
}

/// The artifact that `artifact read` shows among a task's artifacts
/// (given by their names, in listing order): the last one with the wanted
/// name.
pub fn select_artifact(names: &[String], wanted: &str) -> (r: Option<usize>)
    ensures
        match r {
            Some(i) => i < names@.len() && names@[i as int]@ == wanted@ && forall|j: int|
                i < j < names@.len() ==> (#[trigger] names@[j])@ != wanted@,
            None => forall|j: int| 0 <= j < names@.len() ==> (#[trigger] names@[j])@ != wanted@,
        },
{
    let mut i: usize = names.len();
    while i > 0
        invariant
            i <= names@.len(),
            forall|j: int| i <= j < names@.len() ==> (#[trigger] names@[j])@ != wanted@,
        decreases i,
    {
        i -= 1;
        if crate::text::str_equal(names[i].as_str(), wanted) {
            return Some(i);
        }
    }
    None
}

/// What `artifact read` prints for an artifact without `--json`.
pub open spec fn read_display_text(content: Option<Seq<char>>, path: Option<Seq<char>>) -> Seq<char> {
    match content {
        Some(c) => c,
        None => match path {
            Some(p) => "artifact path: "@ + p,
            None => "artifact has no content"@,
        },
    }
}

/// `artifact read` shows an artifact's content in full whenever it has
/// content, whatever its length and whether or not it also has a path;
/// without content it shows the path after "artifact path: ", and without
/// either a fixed note.
pub proof fn lemma_read_display_shows_content(c: Seq<char>, p: Option<Seq<char>>, q: Seq<char>)
    ensures
        read_display_text(Some(c), p) == c,
        read_display_text(None, Some(q)).len() == 15 + q.len(),
        read_display_text(None, Some(q)).skip(15) == q,
        read_display_text(None, None) == "artifact has no content"@,
{
    reveal_strlit("artifact path: ");
    assert(("artifact path: "@ + q).skip(15) =~= q);
}

/// The text shown for an artifact: its content, else where it is stored,
/// else a note that it has neither.
pub fn read_display(content: Option<&str>, path: Option<&str>) -> (r: String)
    ensures
        r@ == read_display_text(
            match content {
                Some(c) => Some(c@),
                None => None,
            },
            match path {
                Some(p) => Some(p@),
                None => None,
            },
        ),
{
    let mut r = String::new();
    match content {
        Some(c) => r.append(c),
        None => match path {
            Some(p) => {
                r.append("artifact path: ");
                r.append(p);
            },
            None => r.append("artifact has no content"),
        },
    }
    r
}

} // verus!
