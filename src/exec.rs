use vstd::prelude::*;
use crate::git::string_views;

verus! {

/// The host family, which decides how commands are handed to a shell and how
/// tools are looked up.
#[derive(Clone, Copy, Debug, PartialEq, Eq, Structural)]
pub enum Platform {
    Windows,
    MacOs,
    Linux,
    Other,
}

/// The interpreter and the flag that make it run one command line: the
/// native command interpreter on Windows, a POSIX shell elsewhere.
pub open spec fn shell_of(platform: Platform) -> (Seq<char>, Seq<char>) {
    if platform == Platform::Windows {
        ("cmd"@, "/C"@)
    } else {
        ("sh"@, "-c"@)
    }
}

/// The program and the flag to start so that a command line runs as if typed
/// at a terminal.
pub fn shell_invocation(platform: Platform) -> (r: (String, String))
    ensures
        (r.0@, r.1@) == shell_of(platform),
{
    match platform {
        Platform::Windows => (String::from_str("cmd"), String::from_str("/C")),
        _ => (String::from_str("sh"), String::from_str("-c")),
    }
}

/// How a spawned command ended.
#[derive(Clone, Copy, Debug, PartialEq, Eq, Structural)]
pub enum Outcome {
    /// The shell or program could not be started.
    NotStarted,
    /// The process ended with this exit code, or without one when a signal
    /// stopped it.
    Exited(Option<i32>),
}

impl Outcome {
    /// A command succeeded when it ran and exited with code zero; a command
    /// that could not be started counts as a failure, never as an error.
    pub fn succeeded(&self) -> (r: bool)
        ensures
            r == (*self == Outcome::Exited(Some(0))),
    {
        match self {
            Outcome::Exited(Some(code)) => *code == 0,
            _ => false,
        }
    }
}

/// A run of a list of commands, one after the other, that goes on past a
/// failure. The caller runs each command that `next_command` names and
/// reports its success to `record`.
pub struct Execution {
    commands: Vec<String>,
    results: Vec<bool>,
}

impl Execution {
    /// The commands of the run, in order.
    pub closed spec fn commands(&self) -> Seq<Seq<char>> {
        string_views(self.commands@)
    }

    /// One success flag for each command run so far, in the same order.
    pub closed spec fn results(&self) -> Seq<bool> {
        self.results@
    }

    /// No more results than commands.
    pub open spec fn wf(&self) -> bool {
        self.results().len() <= self.commands().len()
    }

    /// Every command has been run.
    pub open spec fn finished(&self) -> bool {
        self.results().len() == self.commands().len()
    }

    /// The index of the command to run next.
    pub open spec fn position(&self) -> int {
        self.results().len() as int
    }

    /// Starts a run of `commands`, with nothing run yet.
    pub fn start(commands: Vec<String>) -> (e: Execution)
        ensures
            e.wf(),
            e.commands() == string_views(commands@),
            e.results() == Seq::<bool>::empty(),
    {
        Execution { commands, results: Vec::new() }
    }

    /// Whether every command has been run.
    pub fn is_finished(&self) -> (r: bool)
        requires
            self.wf(),
        ensures
            r == self.finished(),
    {
        self.results.len() == self.commands.len()
    }

    /// The command to run next, or `None` once all have run.
    pub fn next_command(&self) -> (r: Option<&String>)
        requires
            self.wf(),
        ensures
            match r {
                Some(c) => !self.finished() && c@ == self.commands()[self.position()],
                None => self.finished(),
            },
    {
        if self.results.len() < self.commands.len() {
            Some(&self.commands[self.results.len()])
        } else {
            None
        }
    }

    /// Records whether the command that `next_command` named succeeded, and
    /// moves on to the next one whatever the outcome.
    pub fn record(&mut self, succeeded: bool)
        requires
            old(self).wf(),
            !old(self).finished(),
        ensures
            final(self).wf(),
            final(self).commands() == old(self).commands(),
            final(self).results() == old(self).results().push(succeeded),
    {
        self.results.push(succeeded);
    }

    /// The success flags so far, one per command run, in order.
    pub fn results_so_far(&self) -> (r: &Vec<bool>)
        ensures
            r@ == self.results(),
    {
        &self.results
    }
}

/// Starts running a list of commands: each is run once, in order, and a
/// failure does not stop the ones after it. An empty list is finished at once.
pub fn execute_cmd_list(cmd_list: &[String]) -> (e: Execution)
    ensures
        e.wf(),
        e.commands() == string_views(cmd_list@),
        e.results() == Seq::<bool>::empty(),
{
    let mut commands: Vec<String> = Vec::new();
    let mut i: usize = 0;
    while i < cmd_list.len()
        invariant
            i <= cmd_list.len(),
            commands@ == cmd_list@.subrange(0, i as int),
        decreases cmd_list.len() - i,
    {
        commands.push(cmd_list[i].clone());
        assert(commands@ =~= cmd_list@.subrange(0, i + 1));
        i = i + 1;
    }
    assert(cmd_list@.subrange(0, cmd_list@.len() as int) =~= cmd_list@);
    Execution::start(commands)
}

/// A list of commands to run, and whether they need elevated rights.
pub struct Plan {
    pub requires_elevator: bool,
    pub commands: Vec<String>,
}

impl Plan {
    /// A plan with no commands that needs no elevated rights.
    pub fn new() -> (p: Plan)
        ensures
            !p.requires_elevator,
            p.commands@ == Seq::<String>::empty(),
    {
        Plan { requires_elevator: false, commands: Vec::new() }
    }

    /// The lines that show the plan before it runs: each command after `+ `.
    pub fn preview_plan(&self) -> (lines: Vec<String>)
        ensures
            string_views(lines@) == string_views(self.commands@).map_values(
                |c: Seq<char>| "+ "@ + c,
            ),
    {
        let mut lines: Vec<String> = Vec::new();
        let mut i: usize = 0;
        while i < self.commands.len()
            invariant
                i <= self.commands.len(),
                lines.len() == i,
                forall|j: int| 0 <= j < i ==> #[trigger] lines[j]@ == "+ "@ + self.commands[j]@,
            decreases self.commands.len() - i,
        {
            let mut line = String::from_str("+ ");
            line.append(self.commands[i].as_str());
            lines.push(line);
            i = i + 1;
        }
        assert(string_views(lines@) =~= string_views(self.commands@).map_values(
            |c: Seq<char>| "+ "@ + c,
        ));
        lines
    }

    /// Starts running the plan's commands in order, going on past failures.
    pub fn execute_plan(plan: &Plan) -> (e: Execution)
        ensures
            e.wf(),
            e.commands() == string_views(plan.commands@),
            e.results() == Seq::<bool>::empty(),
    {
        execute_cmd_list(plan.commands.as_slice())
    }
}

} // verus!
