//! What a command is, what running one hands back, and the step-by-step
//! protocol between a flow of this library and the program that runs the
//! commands for it.

use crate::text::{
    chars_of, extend, join, join2, lemma_views_push, split_words, string_of, views, words,
};
use crate::utils::duration_nanos;
use std::time::Duration;
use vstd::prelude::*;
use vstd::utf8::{decode_utf8, valid_utf8};

verus! {

/// An external program and its arguments, and whether the time that it
/// takes is to be measured.
#[derive(Debug, PartialEq)]
pub struct Command {
    pub program: String,
    pub args: Vec<String>,
    pub timed: bool,
}

/// A command as a value of specifications.
pub struct CommandView {
    pub program: Seq<char>,
    pub args: Seq<Seq<char>>,
    pub timed: bool,
}

impl View for Command {
    type V = CommandView;

    open spec fn view(&self) -> CommandView {
        CommandView { program: self.program@, args: views(self.args@), timed: self.timed }
    }
}

impl CommandView {
    /// The command that runs `program` without arguments.
    pub open spec fn new(program: Seq<char>) -> CommandView {
        CommandView { program, args: Seq::empty(), timed: false }
    }

    /// The command with one more argument at its end.
    pub open spec fn arg(self, a: Seq<char>) -> CommandView {
        CommandView { program: self.program, args: self.args.push(a), timed: self.timed }
    }

    /// The command, to be run with the time measured.
    pub open spec fn timed(self) -> CommandView {
        CommandView { program: self.program, args: self.args, timed: true }
    }

    /// The command that a line of words stands for: the first word is the
    /// program, the others are its arguments.
    pub open spec fn of_line(line: Seq<char>) -> CommandView {
        let w = words(line);
        if w.len() > 0 {
            CommandView { program: w[0], args: w.skip(1), timed: false }
        } else {
            CommandView::new(Seq::empty())
        }
    }

    /// The command as one line: the program, a space, and the arguments with a
    /// space between each two.
    pub open spec fn line(self) -> Seq<char> {
        self.program + seq![' '] + join(self.args, seq![' '])
    }
}

impl Command {
    /// The command that runs `program` without arguments.
    pub fn new(program: &str) -> (r: Command)
        ensures
            r@ == CommandView::new(program@),
    {
        let r = Command { program: program.to_owned(), args: Vec::new(), timed: false };
        assert(r@.args =~= Seq::<Seq<char>>::empty());
        r
    }

    /// Reads a command from a line of words.
    pub fn of_line(line: &str) -> (r: Command)
        ensures
            r@ == CommandView::of_line(line@),
    {
        let w = split_words(&chars_of(line));
        if w.len() == 0 {
            let r = Command { program: String::new(), args: Vec::new(), timed: false };
            assert(r@.args =~= Seq::<Seq<char>>::empty());
            return r;
        }
        let ghost all = views(w@);
        let mut args: Vec<String> = Vec::new();
        let mut i: usize = 1;
        while i < w.len()
            invariant
                1 <= i <= w.len(),
                all == views(w@),
                views(args@) == all.subrange(1, i as int),
            decreases w.len() - i,
        {
            let word = string_of(&w[i]);
            proof {
                lemma_views_push(args@, word);
            }
            args.push(word);
            i += 1;
        }
        Command { program: string_of(&w[0]), args, timed: false }
    }

    /// Adds an argument at the end.
    pub fn arg(self, a: &str) -> (r: Command)
        ensures
            r@ == self@.arg(a@),
    {
        let mut args = self.args;
        let ghost before = args@;
        let owned = a.to_owned();
        args.push(owned);
        let r = Command { program: self.program, args, timed: self.timed };
        assert(r@.args =~= views(before).push(a@));
        r
    }

    /// Asks for the time to be measured.
    pub fn timed(self) -> (r: Command)
        ensures
            r@ == self@.timed(),
    {
        Command { program: self.program, args: self.args, timed: true }
    }

    /// The command as one line, as a log or an error shows it.
    pub fn line(&self) -> (r: String)
        ensures
            r@ == self@.line(),
    {
        let mut out = chars_of(self.program.as_str());
        out.push(' ');
        let mut i: usize = 0;
        let ghost all = views(self.args@);
        let ghost head = self.program@ + seq![' '];
        while i < self.args.len()
            invariant
                i <= self.args.len(),
                all == views(self.args@),
                head == self.program@ + seq![' '],
                out@ == head + join(all.take(i as int), seq![' ']),
            decreases self.args.len() - i,
        {
            let piece = chars_of(self.args[i].as_str());
            proof {
                let next = all.take(i + 1);
                assert(next.drop_last() =~= all.take(i as int));
            }
            if i > 0 {
                out.push(' ');
            }
            extend(&mut out, &piece);
            i += 1;
        }
        assert(all.take(self.args.len() as int) =~= all);
        string_of(&out)
    }
}

/// What a program left behind when it ran to its end: whether it
/// exited with status zero, what it wrote, and how long it took where that was
/// measured. A status other than zero is a result, not an error.
#[derive(Debug, PartialEq)]
pub struct CommandResult {
    pub succeeded: bool,
    pub stdout: String,
    pub stderr: String,
    pub elapsed: Option<Duration>,
}

/// The text that `String::from_utf8_lossy` makes of bytes: their decoding,
/// with the replacement character in place of every sequence that is no
/// UTF-8.
pub uninterp spec fn lossy_text(bytes: Seq<u8>) -> Seq<char>;

/// `String::from_utf8_lossy` turns bytes into text and never fails. Bytes
/// that are UTF-8 give the text that they encode.
#[verifier::external_body]
pub(crate) fn decode_lossy(bytes: &[u8]) -> (r: String)
    ensures
        r@ == lossy_text(bytes@),
        valid_utf8(bytes@) ==> r@ == decode_utf8(bytes@),
{
    String::from_utf8_lossy(bytes).into_owned()
}

impl CommandResult {
    /// The result of a program that ran to its end, from what the system
    /// hands back: the exit code, where the program exited with one, and the
    /// bytes that it wrote. It succeeded where the code is zero.
    pub fn from_output(
        code: Option<i32>,
        stdout: &[u8],
        stderr: &[u8],
        elapsed: Option<Duration>,
    ) -> (r: CommandResult)
        ensures
            r.succeeded == (code == Some(0i32)),
            r.stdout@ == lossy_text(stdout@),
            r.stderr@ == lossy_text(stderr@),
            valid_utf8(stdout@) ==> r.stdout@ == decode_utf8(stdout@),
            valid_utf8(stderr@) ==> r.stderr@ == decode_utf8(stderr@),
            r.elapsed == elapsed,
    {
        let succeeded = match code {
            Some(c) => c == 0,
            None => false,
        };
        CommandResult {
            succeeded,
            stdout: decode_lossy(stdout),
            stderr: decode_lossy(stderr),
            elapsed,
        }
    }

    /// The measured time in nanoseconds, where there is one.
    pub open spec fn elapsed_nanos(self) -> Option<nat> {
        match self.elapsed {
            Some(d) => Some(duration_nanos(d)),
            None => None,
        }
    }
}

/// The program could not be started.
#[derive(Debug, PartialEq)]
pub struct ExecError {
    /// The command line that was tried.
    pub command_line: String,
}

/// The text of the error for a command line that could not be started.
pub open spec fn exec_error_text(command_line: Seq<char>) -> Seq<char> {
    "Failed to execute command: "@ + command_line
}

impl ExecError {
    /// The error for a command that could not be started.
    pub fn for_command(command: &Command) -> (r: ExecError)
        ensures
            r.command_line@ == command@.line(),
    {
        ExecError { command_line: command.line() }
    }

    /// The error as a reader sees it.
    pub fn message(&self) -> (r: String)
        ensures
            r@ == exec_error_text(self.command_line@),
    {
        join2("Failed to execute command: ", self.command_line.as_str())
    }
}

/// What the runner hands back for one command.
#[derive(Debug, PartialEq)]
pub enum Outcome {
    /// The program ran to its end.
    Ran(CommandResult),
    /// The program could not be started.
    Failed(ExecError),
}

impl Outcome {
    /// What the program wrote to standard output, where it ran.
    pub open spec fn stdout(self) -> Option<Seq<char>> {
        match self {
            Outcome::Ran(r) => Some(r.stdout@),
            Outcome::Failed(_) => None,
        }
    }

    /// The text of the error, where the program could not be started.
    pub open spec fn error_text(self) -> Option<Seq<char>> {
        match self {
            Outcome::Ran(_) => None,
            Outcome::Failed(e) => Some(exec_error_text(e.command_line@)),
        }
    }
}

/// What a flow asks for next: one more command to run, or nothing more,
/// with its result.
#[derive(Debug, PartialEq)]
pub enum Step<R> {
    Run(Command),
    Done(R),
}

/// A step as a value of specifications.
pub enum StepView<V> {
    Run(CommandView),
    Done(V),
}

impl<R: View> View for Step<R> {
    type V = StepView<R::V>;

    open spec fn view(&self) -> StepView<R::V> {
        match self {
            Step::Run(c) => StepView::Run(c@),
            Step::Done(r) => StepView::Done(r@),
        }
    }
}

} // verus!
