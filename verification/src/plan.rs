//! The installer as data: each step is an outside action, how its outcome
//! is judged, and the message that goes with it.
use vstd::prelude::*;

verus! {

/// A program to start, with its arguments.
#[derive(Debug, PartialEq, Eq)]
pub struct Invocation {
    pub program: String,
    pub args: Vec<String>,
    /// The directory to run in; `None` keeps the installer's own.
    pub workdir: Option<String>,
    /// Whether standard input and output are handed to the program
    /// explicitly (as for interactive prompts).
    pub inherit_stdio: bool,
}

/// The abstract value of an [`Invocation`].
pub struct InvocationView {
    pub program: Seq<char>,
    pub args: Seq<Seq<char>>,
    pub workdir: Option<Seq<char>>,
    pub inherit_stdio: bool,
}

/// The characters of each string of `v`.
pub open spec fn views(v: Seq<String>) -> Seq<Seq<char>> {
    v.map_values(|s: String| s@)
}

/// The characters of each string literal of `v`.
pub open spec fn str_views(v: Seq<&str>) -> Seq<Seq<char>> {
    v.map_values(|s: &str| s@)
}

impl View for Invocation {
    type V = InvocationView;

    open spec fn view(&self) -> InvocationView {
        InvocationView {
            program: self.program@,
            args: views(self.args@),
            workdir: match self.workdir {
                Some(w) => Some(w@),
                None => None,
            },
            inherit_stdio: self.inherit_stdio,
        }
    }
}

/// One file copy, from `from` to `to`.
#[derive(Debug, PartialEq, Eq)]
pub struct FileCopy {
    pub from: String,
    pub to: String,
}

/// An outside action of the installer.
#[derive(Debug, PartialEq, Eq)]
pub enum Action {
    /// Start the program and wait for its exit status.
    Run(Invocation),
    /// Start the program and collect its exit status and output.
    Capture(Invocation),
    /// Append `text` to the file at `path`.
    AppendFile { path: String, text: String },
    /// Create (or truncate) the file at `path`.
    CreateFile { path: String },
    /// Write `contents` to the file at `path`.
    WriteFile { path: String, contents: String },
    /// Replace every `find` by `replace` in the file at `path`.
    ReplaceInFile { path: String, find: String, replace: String },
    /// Create the directory at `path` with its parents.
    CreateDir { path: String },
    /// Copy files one after the other, stopping at the first failure.
    Copy(Vec<FileCopy>),
    /// Ask whether something exists at `path`.
    PathExists { path: String },
    /// Read the lines of the text file at `path`.
    ReadLines { path: String },
    /// Show `text` to the user.
    Print { text: String },
    /// Log `text` at debug level.
    LogDebug { text: String },
    /// Stop the installer with `message` and exit code `code`.
    Abort { message: String, code: i32 },
}

/// The abstract value of an [`Action`].
pub enum ActionView {
    Run(InvocationView),
    Capture(InvocationView),
    AppendFile { path: Seq<char>, text: Seq<char> },
    CreateFile { path: Seq<char> },
    WriteFile { path: Seq<char>, contents: Seq<char> },
    ReplaceInFile { path: Seq<char>, find: Seq<char>, replace: Seq<char> },
    CreateDir { path: Seq<char> },
    Copy(Seq<(Seq<char>, Seq<char>)>),
    PathExists { path: Seq<char> },
    ReadLines { path: Seq<char> },
    Print { text: Seq<char> },
    LogDebug { text: Seq<char> },
    Abort { message: Seq<char>, code: i32 },
}

impl View for Action {
    type V = ActionView;

    open spec fn view(&self) -> ActionView {
        match self {
            Action::Run(i) => ActionView::Run(i@),
            Action::Capture(i) => ActionView::Capture(i@),
            Action::AppendFile { path, text } => ActionView::AppendFile { path: path@, text: text@ },
            Action::CreateFile { path } => ActionView::CreateFile { path: path@ },
            Action::WriteFile { path, contents } => ActionView::WriteFile {
                path: path@,
                contents: contents@,
            },
            Action::ReplaceInFile { path, find, replace } => ActionView::ReplaceInFile {
                path: path@,
                find: find@,
                replace: replace@,
            },
            Action::CreateDir { path } => ActionView::CreateDir { path: path@ },
            Action::Copy(pairs) => ActionView::Copy(
                pairs@.map_values(|c: FileCopy| (c.from@, c.to@)),
            ),
            Action::PathExists { path } => ActionView::PathExists { path: path@ },
            Action::ReadLines { path } => ActionView::ReadLines { path: path@ },
            Action::Print { text } => ActionView::Print { text: text@ },
            Action::LogDebug { text } => ActionView::LogDebug { text: text@ },
            Action::Abort { message, code } => ActionView::Abort { message: message@, code: *code },
        }
    }
}

/// How the outcome of a step is judged.
#[derive(Debug, Clone, Copy, PartialEq, Eq)]
pub enum Check {
    /// Only a failure to perform the action stops the installer
    /// (`os_eval`, `files_eval`).
    Performed,
    /// The program must also exit successfully (`exec_eval`).
    Succeeded,
    /// A failure to perform the action is a panic (`unwrap`).
    Unwrapped,
    /// The path must exist.
    Present,
    /// The outcome is not looked at.
    Ignored,
}

/// One step of the installer.
#[derive(Debug, PartialEq, Eq)]
pub struct Step {
    pub action: Action,
    pub check: Check,
    /// What is logged when the step goes through, and what error messages
    /// start with.
    pub message: String,
}

/// The abstract value of a [`Step`].
pub struct StepView {
    pub action: ActionView,
    pub check: Check,
    pub message: Seq<char>,
}

impl View for Step {
    type V = StepView;

    open spec fn view(&self) -> StepView {
        StepView { action: self.action@, check: self.check, message: self.message@ }
    }
}

/// The abstract values of a list of steps.
pub open spec fn plan_view(steps: Seq<Step>) -> Seq<StepView> {
    steps.map_values(|s: Step| s@)
}

/// Whether `path` lies in the new system, mounted at `/mnt`.
pub open spec fn in_new_system(path: Seq<char>) -> bool {
    path.len() >= 5 && path.subrange(0, 5) == "/mnt/"@
}

/// The file that a file action acts on.
pub open spec fn file_of(action: ActionView) -> Option<Seq<char>> {
    match action {
        ActionView::AppendFile { path, .. } => Some(path),
        ActionView::CreateFile { path } => Some(path),
        ActionView::WriteFile { path, .. } => Some(path),
        ActionView::ReplaceInFile { path, .. } => Some(path),
        _ => None,
    }
}

// Abstract steps, as the contracts of the installer's parts state them.

/// The program `program` with `args`, run in place, with default standard
/// streams.
pub open spec fn program(program: Seq<char>, args: Seq<Seq<char>>) -> InvocationView {
    InvocationView { program, args, workdir: None, inherit_stdio: false }
}

/// A step that runs `inv`; only a failure to start it stops the installer.
pub open spec fn run_step(inv: InvocationView, message: Seq<char>) -> StepView {
    StepView { action: ActionView::Run(inv), check: Check::Performed, message }
}

/// A step that runs `inv` and needs it to exit successfully.
pub open spec fn capture_step(inv: InvocationView, message: Seq<char>) -> StepView {
    StepView { action: ActionView::Capture(inv), check: Check::Succeeded, message }
}

/// A step that appends `text` to `path`.
pub open spec fn append_step(path: Seq<char>, text: Seq<char>, message: Seq<char>) -> StepView {
    StepView { action: ActionView::AppendFile { path, text }, check: Check::Performed, message }
}

/// A step that creates the file `path`, whatever comes of it.
pub open spec fn create_file_step(path: Seq<char>) -> StepView {
    StepView {
        action: ActionView::CreateFile { path },
        check: Check::Ignored,
        message: Seq::empty(),
    }
}

/// A step that creates the directory `path`.
pub open spec fn create_dir_step(path: Seq<char>, message: Seq<char>) -> StepView {
    StepView { action: ActionView::CreateDir { path }, check: Check::Performed, message }
}

/// A step that stops the installer with `message` and `code`.
pub open spec fn abort_step(message: Seq<char>, code: i32) -> StepView {
    StepView {
        action: ActionView::Abort { message, code },
        check: Check::Ignored,
        message: Seq::empty(),
    }
}

/// A step that runs `inv`; only a failure to start it stops the installer.
pub(crate) fn running(inv: Invocation, message: String) -> (s: Step)
    ensures
        s@ == run_step(inv@, message@),
{
    Step { action: Action::Run(inv), check: Check::Performed, message }
}

/// A step that runs `inv` and needs it to exit successfully.
pub(crate) fn capturing(inv: Invocation, message: String) -> (s: Step)
    ensures
        s@ == capture_step(inv@, message@),
{
    Step { action: Action::Capture(inv), check: Check::Succeeded, message }
}

/// A step that appends `text` to the file `path`.
pub(crate) fn appending(path: &str, text: String, message: String) -> (s: Step)
    ensures
        s@ == append_step(path@, text@, message@),
{
    Step {
        action: Action::AppendFile { path: path.to_string(), text },
        check: Check::Performed,
        message,
    }
}

/// A step that creates the file `path`, whatever comes of it.
pub(crate) fn creating_file(path: &str) -> (s: Step)
    ensures
        s@ == create_file_step(path@),
{
    Step {
        action: Action::CreateFile { path: path.to_string() },
        check: Check::Ignored,
        message: String::new(),
    }
}

/// A step that creates the directory `path` and its parents.
pub(crate) fn creating_dir(path: String, message: String) -> (s: Step)
    ensures
        s@ == create_dir_step(path@, message@),
{
    Step { action: Action::CreateDir { path }, check: Check::Performed, message }
}

/// Owned copies of string literals.
pub(crate) fn owned(parts: &[&str]) -> (v: Vec<String>)
    ensures
        views(v@) == str_views(parts@),
{
    let mut v: Vec<String> = Vec::new();
    let mut i: usize = 0;
    while i < parts.len()
        invariant
            i <= parts@.len(),
            views(v@) == str_views(parts@.take(i as int)),
        decreases parts@.len() - i,
    {
        let s = parts[i].to_string();
        let ghost before = v@;
        v.push(s);
        assert(views(v@) =~= views(before).push(s@));
        assert(str_views(parts@.take(i + 1)) =~= str_views(parts@.take(i as int)).push(parts@[i as int]@));
        i = i + 1;
    }
    assert(parts@.take(parts@.len() as int) =~= parts@);
    v
}

/// Appends `step` to `steps`.
pub(crate) fn push_step(steps: &mut Vec<Step>, step: Step)
    ensures
        plan_view(final(steps)@) == plan_view(old(steps)@).push(step@),
{
    let ghost before = steps@;
    steps.push(step);
    assert(plan_view(steps@) =~= plan_view(before).push(step@));
}

/// Appends all of `more` to `steps`.
pub(crate) fn append_steps(steps: &mut Vec<Step>, more: Vec<Step>)
    ensures
        plan_view(final(steps)@) == plan_view(old(steps)@) + plan_view(more@),
{
    let ghost before = steps@;
    let ghost added = more@;
    let mut more = more;
    steps.append(&mut more);
    assert(plan_view(steps@) =~= plan_view(before) + plan_view(added));
}

} // verus!
