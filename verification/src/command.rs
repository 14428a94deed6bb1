//! Commands as values: what a pipeline asks its driver to run, and what the
//! driver reports back.

use crate::push::PushProfileError;
use crate::text::{texts, texts_push};
use vstd::prelude::*;
use vstd::string::*;

verus! {

/// An external command: the program, its arguments, and what it is given
/// beyond the parent's environment.
#[derive(Debug, Clone)]
pub struct Command {
    pub program: String,
    pub args: Vec<String>,
    pub env: Vec<(String, String)>,
    /// Whether what the command writes to standard output is dropped.
    pub discard_stdout: bool,
}

/// The mathematical value of a [`Command`].
pub struct CommandView {
    pub program: Seq<char>,
    pub args: Seq<Seq<char>>,
    pub env: Seq<(Seq<char>, Seq<char>)>,
    pub discard_stdout: bool,
}

/// The characters of each pair of a list, in order.
pub open spec fn pairs(v: Seq<(String, String)>) -> Seq<(Seq<char>, Seq<char>)> {
    Seq::new(v.len(), |i: int| (v[i].0@, v[i].1@))
}

impl CommandView {
    /// The command that runs `program` with no arguments.
    pub open spec fn new(program: Seq<char>) -> CommandView {
        CommandView { program, args: Seq::empty(), env: Seq::empty(), discard_stdout: false }
    }

    /// The command with one more argument.
    pub open spec fn arg(self, arg: Seq<char>) -> CommandView {
        CommandView { args: self.args.push(arg), ..self }
    }

    /// The command with more arguments.
    pub open spec fn args(self, args: Seq<Seq<char>>) -> CommandView {
        CommandView { args: self.args + args, ..self }
    }

    /// The command with one more variable.
    pub open spec fn env(self, key: Seq<char>, value: Seq<char>) -> CommandView {
        CommandView { env: self.env.push((key, value)), ..self }
    }

    /// The command with its standard output dropped.
    pub open spec fn quiet(self) -> CommandView {
        CommandView { discard_stdout: true, ..self }
    }
}

impl View for Command {
    type V = CommandView;

    open spec fn view(&self) -> CommandView {
        CommandView {
            program: self.program@,
            args: texts(self.args@),
            env: pairs(self.env@),
            discard_stdout: self.discard_stdout,
        }
    }
}

impl Command {
    /// The command that runs `program` with no arguments.
    pub fn new(program: &str) -> (r: Command)
        ensures
            r@ == CommandView::new(program@),
    {
        let r = Command {
            program: String::from_str(program),
            args: Vec::new(),
            env: Vec::new(),
            discard_stdout: false,
        };
        assert(r@.args =~= Seq::empty());
        assert(r@.env =~= Seq::empty());
        r
    }

    /// Adds one argument.
    pub fn arg(&mut self, arg: &str)
        ensures
            final(self)@ == old(self)@.arg(arg@),
    {
        let s = String::from_str(arg);
        proof {
            texts_push(self.args@, s);
        }
        self.args.push(s);
    }

    /// Adds the arguments in order.
    pub fn args(&mut self, args: &Vec<String>)
        ensures
            final(self)@ == old(self)@.args(texts(args@)),
    {
        let mut i: usize = 0;
        while i < args.len()
            invariant
                i <= args.len(),
                self@ == old(self)@.args(texts(args@).take(i as int)),
            decreases args.len() - i,
        {
            let s = args[i].clone();
            proof {
                texts_push(self.args@, s);
                assert(texts(args@).take(i + 1) =~= texts(args@).take(i as int).push(s@));
                assert(old(self)@.args + texts(args@).take(i as int).push(s@) =~= (old(self)@.args
                    + texts(args@).take(i as int)).push(s@));
            }
            self.args.push(s);
            i = i + 1;
        }
        assert(texts(args@).take(args.len() as int) =~= texts(args@));
    }

    /// Sets one variable for the command.
    pub fn env(&mut self, key: &str, value: &str)
        ensures
            final(self)@ == old(self)@.env(key@, value@),
    {
        let k = String::from_str(key);
        let v = String::from_str(value);
        assert(pairs(self.env@.push((k, v))) =~= pairs(self.env@).push((k@, v@)));
        self.env.push((k, v));
    }

    /// Drops what the command writes to standard output.
    pub fn quiet(&mut self)
        ensures
            final(self)@ == old(self)@.quiet(),
    {
        self.discard_stdout = true;
    }
}

/// What the driver reports to a pipeline.
#[derive(Debug)]
pub enum Event {
    /// The pipeline is started.
    Start,
    /// The command could not be run to its end.
    Failed(std::io::Error),
    /// The command ran to its end: its exit code, none where a signal ended
    /// it, and what it wrote to standard output where that was captured.
    Exited { code: Option<i32>, stdout: Vec<u8> },
    /// Whether the path exists.
    Exists(bool),
}

/// What a pipeline asks of its driver next.
#[derive(Debug)]
pub enum Action {
    /// Run the command to its end and report what it wrote to standard output.
    Capture(Command),
    /// Run the command to its end on the parent's streams.
    Run(Command),
    /// Run the command to its end; where `display` is set, show each line
    /// that it writes, as it comes, on the target's progress line.
    Stream { command: Command, display: bool },
    /// Report whether the path exists.
    CheckExists(String),
    /// Stop: the pipeline has ended with this result.
    Finish(Result<(), PushProfileError>),
}

/// The mathematical value of an [`Action`].
pub enum ActionView {
    Capture(CommandView),
    Run(CommandView),
    Stream { command: CommandView, display: bool },
    CheckExists(Seq<char>),
    Finish(Result<(), PushProfileError>),
}

impl View for Action {
    type V = ActionView;

    open spec fn view(&self) -> ActionView {
        match self {
            Action::Capture(c) => ActionView::Capture(c@),
            Action::Run(c) => ActionView::Run(c@),
            Action::Stream { command, display } => ActionView::Stream {
                command: command@,
                display: *display,
            },
            Action::CheckExists(p) => ActionView::CheckExists(p@),
            Action::Finish(r) => ActionView::Finish(*r),
        }
    }
}

impl ActionView {
    /// Whether the action runs a command.
    pub open spec fn is_command(self) -> bool {
        self is Capture || self is Run || self is Stream
    }
}

} // verus!
