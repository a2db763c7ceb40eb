//! The steps of a plan: what the driver runs, creates, copies or fetches, in order.

use vstd::prelude::*;
use vstd::string::StringExecFns;


verus! {

/// One action of a plan. A driver performs the steps in order and stops at the
/// first one that fails.
#[derive(Debug, Clone, PartialEq, Eq)]
pub enum Step {
    /// Fails unless the tool `name` can be found on the search path.
    RequireTool { name: String },
    /// Runs `program` with `args`, in `dir` where one is given, and fails
    /// unless it exits successfully; a failure is reported with `description`.
    Run { program: String, args: Vec<String>, dir: Option<String>, description: String },
    /// Fails, reporting `message`, where `path` exists.
    RequireAbsent { path: String, message: String },
    /// Creates the directory `path` and its missing parents.
    CreateDir { path: String },
    /// Copies the directory `from` into `to`, overwriting what is there; with
    /// `content_only` the entries of `from` are copied rather than `from` itself.
    CopyDir { from: String, to: String, content_only: bool },
    /// Copies the file `from` to `to`, overwriting it; with `only_if_present`
    /// nothing is done where `from` does not exist.
    CopyFile { from: String, to: String, only_if_present: bool },
    /// Downloads `url` into the directory `folder`, trying again until it succeeds.
    Download { url: String, folder: String },
    /// Unpacks the gzip-compressed tarball `archive` into the directory `into`.
    Unpack { archive: String, into: String },
    /// Removes the directory `path` and everything under it; fails where it is
    /// absent, and is then reported with `description`.
    RemoveDir { path: String, description: String },
}

/// A step with its strings seen as character sequences.
pub enum StepV {
    RequireTool { name: Seq<char> },
    Run { program: Seq<char>, args: Seq<Seq<char>>, dir: Option<Seq<char>>, description: Seq<char> },
    RequireAbsent { path: Seq<char>, message: Seq<char> },
    CreateDir { path: Seq<char> },
    CopyDir { from: Seq<char>, to: Seq<char>, content_only: bool },
    CopyFile { from: Seq<char>, to: Seq<char>, only_if_present: bool },
    Download { url: Seq<char>, folder: Seq<char> },
    Unpack { archive: Seq<char>, into: Seq<char> },
    RemoveDir { path: Seq<char>, description: Seq<char> },
}

impl DeepView for Step {
    type V = StepV;

    open spec fn deep_view(&self) -> StepV {
        match self {
            Step::RequireTool { name } => StepV::RequireTool { name: name@ },
            Step::Run { program, args, dir, description } => StepV::Run {
                program: program@,
                args: args.deep_view(),
                dir: dir.deep_view(),
                description: description@,
            },
            Step::RequireAbsent { path, message } => StepV::RequireAbsent {
                path: path@,
                message: message@,
            },
            Step::CreateDir { path } => StepV::CreateDir { path: path@ },
            Step::CopyDir { from, to, content_only } => StepV::CopyDir {
                from: from@,
                to: to@,
                content_only: *content_only,
            },
            Step::CopyFile { from, to, only_if_present } => StepV::CopyFile {
                from: from@,
                to: to@,
                only_if_present: *only_if_present,
            },
            Step::Download { url, folder } => StepV::Download { url: url@, folder: folder@ },
            Step::Unpack { archive, into } => StepV::Unpack { archive: archive@, into: into@ },
            Step::RemoveDir { path, description } => StepV::RemoveDir {
                path: path@,
                description: description@,
            },
        }
    }
}

/// Appends one element to a vector, as seen through `deep_view`.
pub fn push_one<T: DeepView>(v: &mut Vec<T>, x: T)
    ensures
        final(v).deep_view() == old(v).deep_view().push(x.deep_view()),
{
    let ghost x_view = x.deep_view();
    v.push(x);
    assert(final(v).deep_view() =~= old(v).deep_view().push(x_view));
}

/// Appends all elements of `w` to `v`, as seen through `deep_view`.
pub fn push_all<T: DeepView>(v: &mut Vec<T>, w: Vec<T>)
    ensures
        final(v).deep_view() == old(v).deep_view() + w.deep_view(),
{
    let ghost start = v.deep_view();
    let ghost all = w.deep_view();
    let mut w = w;
    v.append(&mut w);
    assert(final(v).deep_view() =~= start + all);
}

/// Appends a copy of the text `s` to a list of strings.
pub fn push_text(v: &mut Vec<String>, s: &str)
    ensures
        final(v).deep_view() == old(v).deep_view().push(s@),
{
    push_one(v, String::from_str(s));
}


/// A run of `program` with `args` in `dir`, reported as `description`.
pub open spec fn run_v(
    program: Seq<char>,
    args: Seq<Seq<char>>,
    dir: Option<Seq<char>>,
    description: Seq<char>,
) -> StepV {
    StepV::Run { program, args, dir, description }
}

/// A run of `program` with `args` in `dir`, reported as `description`.
pub fn run(program: &str, args: Vec<String>, dir: Option<String>, description: &str) -> (r: Step)
    ensures
        r.deep_view() == run_v(program@, args.deep_view(), dir.deep_view(), description@),
{
    Step::Run {
        program: String::from_str(program),
        args,
        dir,
        description: String::from_str(description),
    }
}

/// Checks for each of the tools, in order.
pub open spec fn require_tools_v(names: Seq<Seq<char>>) -> Seq<StepV> {
    names.map_values(|n: Seq<char>| StepV::RequireTool { name: n })
}

/// Appends a check for the tool `name`.
pub fn push_require(steps: &mut Vec<Step>, name: &str)
    ensures
        final(steps).deep_view() == old(steps).deep_view().push(StepV::RequireTool { name: name@ }),
{
    push_one(steps, Step::RequireTool { name: String::from_str(name) });
}

} // verus!
