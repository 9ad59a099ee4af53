//! A process to start, written down before anything is started.

use vstd::prelude::*;
use vstd::string::*;

verus! {

/// What is needed to start a process: the program, its arguments, the
/// directory it runs in, and whether it keeps the caller's standard streams.
#[derive(Clone, Debug, PartialEq, Eq)]
pub struct Command {
    /// The program: a path, or a name for the search path.
    pub program: String,
    /// The arguments, in order, without the program's own name.
    pub args: Vec<String>,
    /// The working directory; the caller's if there is none.
    pub dir: Option<String>,
    /// Whether standard input, output and error are tied to the null device.
    pub null_stdio: bool,
}

/// A `Command` as plain text.
pub struct CommandView {
    pub program: Seq<char>,
    pub args: Seq<Seq<char>>,
    pub dir: Option<Seq<char>>,
    pub null_stdio: bool,
}

impl CommandView {
    /// This command with `more` behind its arguments.
    pub open spec fn with_args(self, more: Seq<Seq<char>>) -> CommandView {
        CommandView { args: self.args + more, ..self }
    }

    /// This command, run in `dir`.
    pub open spec fn in_dir(self, dir: Seq<char>) -> CommandView {
        CommandView { dir: Some(dir), ..self }
    }

    /// This command with its standard streams tied to the null device.
    pub open spec fn silenced(self) -> CommandView {
        CommandView { null_stdio: true, ..self }
    }

    /// The command that runs `program` with no arguments, in the caller's
    /// directory and on the caller's standard streams.
    pub open spec fn bare(program: Seq<char>) -> CommandView {
        CommandView { program, args: Seq::empty(), dir: None, null_stdio: false }
    }
}

impl View for Command {
    type V = CommandView;

    open spec fn view(&self) -> CommandView {
        CommandView {
            program: self.program@,
            args: self.args.deep_view(),
            dir: self.dir.deep_view(),
            null_stdio: self.null_stdio,
        }
    }
}

/// The texts of `list`, one after the other, copied.
pub fn clone_strings(list: &[String]) -> (copy: Vec<String>)
    ensures
        copy.deep_view() == list.deep_view(),
{
    let mut copy: Vec<String> = Vec::new();
    let mut i: usize = 0;
    while i < list.len()
        invariant
            i <= list.len(),
            copy.len() == i,
            forall|j: int| 0 <= j < i ==> copy[j]@ == list[j]@,
        decreases list.len() - i,
    {
        copy.push(list[i].clone());
        i = i + 1;
    }
    assert(copy.deep_view() =~= list.deep_view());
    copy
}

impl Command {
    /// A command that runs `program` with no arguments.
    pub fn new(program: &str) -> (cmd: Command)
        ensures
            cmd@ == CommandView::bare(program@),
    {
        let cmd = Command {
            program: String::from_str(program),
            args: Vec::new(),
            dir: None,
            null_stdio: false,
        };
        assert(cmd@.args =~= Seq::empty());
        cmd
    }

    /// Adds one argument.
    pub fn arg(&mut self, arg: &str)
        ensures
            final(self)@ == old(self)@.with_args(seq![arg@]),
    {
        self.args.push(String::from_str(arg));
        assert(self@.args =~= old(self)@.args + seq![arg@]);
    }

    /// Adds arguments, in order.
    pub fn args(&mut self, args: &[String])
        ensures
            final(self)@ == old(self)@.with_args(args.deep_view()),
    {
        let mut i: usize = 0;
        while i < args.len()
            invariant
                i <= args.len(),
                self@ == old(self)@.with_args(args.deep_view().take(i as int)),
            decreases args.len() - i,
        {
            let ghost before = self@;
            self.args.push(args[i].clone());
            assert(self@.args =~= before.args + seq![args[i as int]@]);
            assert(args.deep_view().take(i as int + 1) =~= args.deep_view().take(i as int) + seq![
                args[i as int]@,
            ]);
            assert(self@.args =~= old(self)@.args + args.deep_view().take(i as int + 1));
            i = i + 1;
        }
        assert(args.deep_view().take(i as int) =~= args.deep_view());
    }

    /// Sets the working directory.
    pub fn current_dir(&mut self, dir: &str)
        ensures
            final(self)@ == old(self)@.in_dir(dir@),
    {
        self.dir = Some(String::from_str(dir));
    }

    /// Ties the standard streams to the null device.
    pub fn silence(&mut self)
        ensures
            final(self)@ == old(self)@.silenced(),
    {
        self.null_stdio = true;
    }
}

} // verus!
