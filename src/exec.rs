//! External commands as values: what to run, with which arguments, where.
//!
//! The library never spawns a process. It hands out `Step`s in the order in
//! which they must happen; the caller performs each one and stops at the
//! first that fails.
use vstd::prelude::*;

verus! {

/// One external command.
#[derive(Debug, Clone, PartialEq, Eq)]
pub struct Invocation {
    pub program: String,
    pub args: Vec<String>,
    /// The working directory, where it matters.
    pub cwd: Option<String>,
}

/// The text of a list of strings.
pub open spec fn texts(v: Seq<String>) -> Seq<Seq<char>> {
    v.map_values(|s: String| s@)
}

/// The text of an optional string.
pub open spec fn opt_text(s: Option<String>) -> Option<Seq<char>> {
    match s {
        Some(t) => Some(t@),
        None => None,
    }
}

/// A command as plain values.
pub struct InvocationView {
    pub program: Seq<char>,
    pub args: Seq<Seq<char>>,
    pub cwd: Option<Seq<char>>,
}

impl View for Invocation {
    type V = InvocationView;

    open spec fn view(&self) -> InvocationView {
        InvocationView { program: self.program@, args: texts(self.args@), cwd: opt_text(self.cwd) }
    }
}

impl Invocation {
    /// `program` with no arguments, run where the caller stands.
    pub fn new(program: &str) -> (r: Invocation)
        ensures
            r@ == (InvocationView { program: program@, args: seq![], cwd: None }),
    {
        let r = Invocation { program: String::from_str(program), args: Vec::new(), cwd: None };
        assert(texts(r.args@) =~= seq![]);
        r
    }

    /// The command with `a` added as its last argument.
    pub fn arg(self, a: &str) -> (r: Invocation)
        ensures
            r@ == (InvocationView { args: self@.args.push(a@), ..self@ }),
    {
        let mut r = self;
        r.args.push(String::from_str(a));
        assert(texts(r.args@) =~= texts(self.args@).push(a@));
        r
    }

    /// The command with `a` added as its last argument.
    pub fn arg_string(self, a: String) -> (r: Invocation)
        ensures
            r@ == (InvocationView { args: self@.args.push(a@), ..self@ }),
    {
        let mut r = self;
        r.args.push(a);
        assert(texts(r.args@) =~= texts(self.args@).push(a@));
        r
    }

    /// The command run in the directory `dir`.
    pub fn current_dir(self, dir: &str) -> (r: Invocation)
        ensures
            r@ == (InvocationView { cwd: Some(dir@), ..self@ }),
    {
        let mut r = self;
        r.cwd = Some(String::from_str(dir));
        r
    }
}

/// `sep` and each of `args` in turn, as one text.
pub open spec fn joined_args(args: Seq<Seq<char>>, sep: Seq<char>) -> Seq<char>
    decreases args.len(),
{
    if args.len() == 0 {
        seq![]
    } else {
        joined_args(args.drop_last(), sep) + sep + args.last()
    }
}

/// The command line of `cmd` with its words separated by `sep`, as written
/// in diagnostics.
pub fn join_args(cmd: &Invocation, sep: &str) -> (r: String)
    ensures
        r@ == cmd.program@ + joined_args(texts(cmd.args@), sep@),
{
    let mut r = cmd.program.clone();
    let mut i: usize = 0;
    while i < cmd.args.len()
        invariant
            i <= cmd.args.len(),
            r@ == cmd.program@ + joined_args(texts(cmd.args@).take(i as int), sep@),
        decreases cmd.args.len() - i,
    {
        assert(texts(cmd.args@).take(i + 1).drop_last() =~= texts(cmd.args@).take(i as int));
        r.append(sep);
        r.append(cmd.args[i].as_str());
        i = i + 1;
    }
    assert(texts(cmd.args@).take(i as int) =~= texts(cmd.args@));
    r
}

/// The snapshot-store tool.
pub fn ostree() -> (r: Invocation)
    ensures
        r@ == (InvocationView { program: "ostree"@, args: seq![], cwd: None }),
{
    Invocation::new("ostree")
}

/// The Flatpak tool, working on the per-user installation when `is_user`.
pub fn flatpak(is_user: bool) -> (r: Invocation)
    ensures
        r@ == (InvocationView {
            program: "flatpak"@,
            args: if is_user {
                seq!["--user"@]
            } else {
                seq![]
            },
            cwd: None,
        }),
{
    let cmd = Invocation::new("flatpak");
    if is_user {
        cmd.arg("--user")
    } else {
        cmd
    }
}

/// One unit of work of a plan.
#[derive(Debug, Clone, PartialEq, Eq)]
pub enum Step {
    /// Run a command; a failure ends the plan.
    Run(Invocation),
    /// Create a directory and any missing parents.
    CreateDirAll(String),
    /// Write `contents` to the file at `path`.
    WriteFile { path: String, contents: String },
    /// Create the symbolic link `link` pointing at `target`.
    Symlink { target: String, link: String },
}

/// A step as plain values.
pub enum StepView {
    Run(InvocationView),
    CreateDirAll(Seq<char>),
    WriteFile { path: Seq<char>, contents: Seq<char> },
    Symlink { target: Seq<char>, link: Seq<char> },
}

impl View for Step {
    type V = StepView;

    open spec fn view(&self) -> StepView {
        match self {
            Step::Run(c) => StepView::Run(c@),
            Step::CreateDirAll(p) => StepView::CreateDirAll(p@),
            Step::WriteFile { path, contents } => StepView::WriteFile {
                path: path@,
                contents: contents@,
            },
            Step::Symlink { target, link } => StepView::Symlink { target: target@, link: link@ },
        }
    }
}

/// The plan `v` as plain values.
pub open spec fn steps_view(v: Seq<Step>) -> Seq<StepView> {
    v.map_values(|s: Step| s@)
}

/// The view of a concatenation of plans is the concatenation of their views.
pub proof fn lemma_steps_view_concat(a: Seq<Step>, b: Seq<Step>)
    ensures
        steps_view(a + b) == steps_view(a) + steps_view(b),
{
    assert(steps_view(a + b) =~= steps_view(a) + steps_view(b));
}

/// The plan `a` followed by the plan `b`.
pub fn concat_steps(a: Vec<Step>, b: Vec<Step>) -> (r: Vec<Step>)
    ensures
        steps_view(r@) == steps_view(a@) + steps_view(b@),
{
    let mut r = a;
    let mut b = b;
    proof {
        lemma_steps_view_concat(r@, b@);
    }
    r.append(&mut b);
    r
}

/// Why an external command did not succeed.
#[derive(Debug, Clone, PartialEq, Eq)]
pub enum ToolFailure {
    /// The program could not be started.
    Spawn { program: String, cause: String },
    /// The program ran and reported failure.
    Exit { program: String, status: String },
}

impl ToolFailure {
    /// The failure as told to the user.
    pub fn message(&self) -> (r: String)
        ensures
            r@ == match self {
                ToolFailure::Spawn { program, cause } => "Failed to spawn command "@ + program@
                    + ": "@ + cause@,
                ToolFailure::Exit { program, status } => "Command "@ + program@
                    + " exited with status "@ + status@,
            },
    {
        match self {
            ToolFailure::Spawn { program, cause } => {
                let mut r = String::from_str("Failed to spawn command ");
                r.append(program.as_str());
                r.append(": ");
                r.append(cause.as_str());
                r
            },
            ToolFailure::Exit { program, status } => {
                let mut r = String::from_str("Command ");
                r.append(program.as_str());
                r.append(" exited with status ");
                r.append(status.as_str());
                r
            },
        }
    }
}

} // verus!
