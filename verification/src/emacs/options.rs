//! What the user asked for.

use crate::emacs::command::{Command, CommandView};
use vstd::prelude::*;
use vstd::string::*;

verus! {

/// The flag that asks for help, short form.
pub const HELP_SHORT: &'static str = "-h";

/// The flag that asks for help, long form.
pub const HELP_LONG: &'static str = "--help";

/// The flag that makes the client wait until editing is finished.
pub const WAIT_FLAG: &'static str = "-w";

/// The flag that runs `magit-status`.
pub const MAGIT_FLAG: &'static str = "-m";

/// The call that the flag `-m` stands for.
pub const MAGIT_STATUS: &'static str = "(magit-status)";

/// The client's flag for "do not read the init file".
pub const NO_INIT: &'static str = "-u";

/// The client's flag for "evaluate the next argument".
pub const EVAL: &'static str = "-e";

/// The client's flag for "return at once".
pub const NO_WAIT: &'static str = "-n";

/// The expression that raises the editor's frame and gives it the focus.
pub const RAISE_FRAME: &'static str = "(select-frame-set-input-focus (selected-frame))";

/// What stands before a named command in the expression handed to the client.
pub const PROGN_OPEN: &'static str = "(progn (select-frame-set-input-focus (selected-frame)) ";

/// What closes that expression.
pub const PROGN_CLOSE: &'static str = ")";

/// A named editor command, with the directory to run it in.
#[derive(Clone, Debug, PartialEq, Eq)]
pub struct ElispCommand {
    /// The call, as an expression of the editor's language.
    pub elisp: &'static str,
    /// The directory to run it in; the caller's if there is none.
    pub dir: Option<String>,
}

/// Files or expressions to hand to the editor.
#[derive(Clone, Debug, PartialEq, Eq)]
pub struct StandardOptions {
    /// Whether the caller waits until editing is finished.
    pub wait: bool,
    /// The arguments, in the order given.
    pub args: Vec<String>,
}

/// A request, as read from the command line.
#[derive(Clone, Debug, PartialEq, Eq)]
pub enum Options {
    /// Open what the arguments name.
    Standard(StandardOptions),
    /// Run a named command.
    Elisp(ElispCommand),
    /// Show how to use the program.
    Help,
}

/// An `ElispCommand` as plain text.
pub struct ElispCommandView {
    pub elisp: Seq<char>,
    pub dir: Option<Seq<char>>,
}

/// A `StandardOptions` as plain text.
pub struct StandardOptionsView {
    pub wait: bool,
    pub args: Seq<Seq<char>>,
}

/// An `Options` as plain text.
pub enum OptionsView {
    Standard(StandardOptionsView),
    Elisp(ElispCommandView),
    Help,
}

impl View for ElispCommand {
    type V = ElispCommandView;

    open spec fn view(&self) -> ElispCommandView {
        ElispCommandView { elisp: self.elisp@, dir: self.dir.deep_view() }
    }
}

impl View for StandardOptions {
    type V = StandardOptionsView;

    open spec fn view(&self) -> StandardOptionsView {
        StandardOptionsView { wait: self.wait, args: self.args.deep_view() }
    }
}

impl View for Options {
    type V = OptionsView;

    open spec fn view(&self) -> OptionsView {
        match self {
            Options::Standard(opts) => OptionsView::Standard(opts@),
            Options::Elisp(ec) => OptionsView::Elisp(ec@),
            Options::Help => OptionsView::Help,
        }
    }
}

/// Whether `arg` asks for help.
pub open spec fn is_help_flag(arg: Seq<char>) -> bool {
    arg == HELP_LONG@ || arg == HELP_SHORT@
}

/// Whether `arg` asks the client to wait.
pub open spec fn is_wait_flag(arg: Seq<char>) -> bool {
    arg == WAIT_FLAG@
}

/// The call that `arg` stands for, if it is the flag of a named command.
pub open spec fn elisp_of(arg: Seq<char>) -> Option<Seq<char>> {
    if arg == MAGIT_FLAG@ {
        Some(MAGIT_STATUS@)
    } else {
        None
    }
}

/// The arguments that follow the program's own name.
pub open spec fn tail(args: Seq<Seq<char>>) -> Seq<Seq<char>> {
    if args.len() == 0 {
        args
    } else {
        args.skip(1)
    }
}

/// Whether one of `rest` asks for help.
pub open spec fn asks_help(rest: Seq<Seq<char>>) -> bool {
    exists|i: int| 0 <= i < rest.len() && is_help_flag(#[trigger] rest[i])
}

/// Whether one of `rest` asks the client to wait.
pub open spec fn asks_wait(rest: Seq<Seq<char>>) -> bool {
    exists|i: int| 0 <= i < rest.len() && is_wait_flag(#[trigger] rest[i])
}

/// The position of the first flag of a named command in `rest`, at or after
/// `from`; the length of `rest` if there is none.
pub open spec fn first_command(rest: Seq<Seq<char>>, from: int) -> int
    decreases rest.len() - from,
{
    if 0 <= from < rest.len() && elisp_of(rest[from]) is None {
        first_command(rest, from + 1)
    } else {
        from
    }
}

/// The test that an argument passes if it is handed on to the editor.
pub open spec fn is_forwarded() -> spec_fn(Seq<char>) -> bool {
    |arg: Seq<char>| !is_wait_flag(arg)
}

/// What a command line means. `args` begins with the program's own name.
///
/// A help flag anywhere wins. Otherwise the first flag of a named command
/// wins, and the argument behind it, if there is one, is its directory.
/// Otherwise all arguments but the wait flag are handed on, in order.
pub open spec fn parsed(args: Seq<Seq<char>>) -> OptionsView {
    let rest = tail(args);
    let at = first_command(rest, 0);
    if asks_help(rest) {
        OptionsView::Help
    } else if at < rest.len() {
        OptionsView::Elisp(
            ElispCommandView {
                elisp: elisp_of(rest[at])->0,
                dir: if at + 1 < rest.len() {
                    Some(rest[at + 1])
                } else {
                    None
                },
            },
        )
    } else {
        OptionsView::Standard(
            StandardOptionsView { wait: asks_wait(rest), args: rest.filter(is_forwarded()) },
        )
    }
}

/// `first_command` stops inside the arguments, on a flag of a named command,
/// and passes over other arguments only.
pub proof fn lemma_first_command(rest: Seq<Seq<char>>, from: int)
    requires
        0 <= from <= rest.len(),
    ensures
        from <= first_command(rest, from) <= rest.len(),
        first_command(rest, from) < rest.len() ==> elisp_of(
            rest[first_command(rest, from)],
        ) is Some,
        forall|i: int| from <= i < first_command(rest, from) ==> elisp_of(#[trigger] rest[i]) is None,
    decreases rest.len() - from,
{
    if from < rest.len() && elisp_of(rest[from]) is None {
        lemma_first_command(rest, from + 1);
    }
}

/// Whether `arg` asks for help.
fn is_help(arg: &String) -> (b: bool)
    ensures
        b == is_help_flag(arg@),
{
    let long = String::from_str(HELP_LONG);
    let short = String::from_str(HELP_SHORT);
    *arg == long || *arg == short
}

/// Whether `arg` asks the client to wait.
fn is_wait(arg: &String) -> (b: bool)
    ensures
        b == is_wait_flag(arg@),
{
    let flag = String::from_str(WAIT_FLAG);
    *arg == flag
}

/// The call that `arg` stands for, if it is the flag of a named command.
fn elisp_for(arg: &String) -> (elisp: Option<&'static str>)
    ensures
        elisp.deep_view() == elisp_of(arg@),
{
    let flag = String::from_str(MAGIT_FLAG);
    if *arg == flag {
        Some(MAGIT_STATUS)
    } else {
        None
    }
}

impl Options {
    /// A request to open `args`, waiting or not.
    pub fn explicit(wait: bool, args: Vec<String>) -> (opts: Options)
        ensures
            opts@ == OptionsView::Standard(
                StandardOptionsView { wait, args: args.deep_view() },
            ),
    {
        Options::Standard(StandardOptions { wait: wait, args: args })
    }

    /// Reads a command line. `args` begins with the program's own name,
    /// which is passed over.
    pub fn parse(args: &[String]) -> (opts: Options)
        ensures
            opts@ == parsed(args.deep_view()),
    {
        let ghost rest = tail(args.deep_view());
        let n = args.len();
        let mut i: usize = 1;
        while i < n
            invariant
                1 <= i,
                n == args.len(),
                rest == tail(args.deep_view()),
                forall|j: int| 0 <= j < i - 1 && j < rest.len() ==> !is_help_flag(#[trigger] rest[j]),
            decreases n - i,
        {
            assert(rest[i - 1] == args[i as int]@);
            if is_help(&args[i]) {
                return Options::Help;
            }
            i = i + 1;
        }
        assert(!asks_help(rest));
        let mut wait = false;
        let mut kept: Vec<String> = Vec::new();
        i = 1;
        assert(rest.take(0).filter(is_forwarded()) =~= Seq::empty()) by {
            reveal(Seq::filter);
        }
        while i < n
            invariant
                1 <= i,
                n == args.len(),
                i <= n || n == 0,
                rest == tail(args.deep_view()),
                !asks_help(rest),
                first_command(rest, 0) == first_command(rest, i - 1),
                wait == asks_wait(rest.take(i - 1)),
                kept.deep_view() == rest.take(i - 1).filter(is_forwarded()),
            decreases n - i,
        {
            let ghost seen = rest.take(i - 1);
            let ghost more = rest.take(i as int);
            assert(rest[i - 1] == args[i as int]@);
            assert(more =~= seen.push(rest[i - 1]));
            match elisp_for(&args[i]) {
                Some(elisp) => {
                    let dir = if i + 1 < n {
                        assert(rest[i as int] == args[i + 1]@);
                        Some(args[i + 1].clone())
                    } else {
                        None
                    };
                    return Options::Elisp(ElispCommand { elisp: elisp, dir: dir });
                },
                None => {},
            }
            proof {
                seen.lemma_filter_push(rest[i - 1], is_forwarded());
            }
            if is_wait(&args[i]) {
                wait = true;
                assert(is_wait_flag(more[i - 1]));
            } else {
                let ghost before = kept.deep_view();
                kept.push(args[i].clone());
                assert(kept.deep_view() =~= before.push(rest[i - 1]));
                assert(asks_wait(more) == asks_wait(seen)) by {
                    if asks_wait(more) {
                        let w = choose|w: int| 0 <= w < more.len() && is_wait_flag(#[trigger] more[w]);
                        assert(is_wait_flag(seen[w]));
                    }
                    if asks_wait(seen) {
                        let w = choose|w: int| 0 <= w < seen.len() && is_wait_flag(#[trigger] seen[w]);
                        assert(is_wait_flag(more[w]));
                    }
                }
            }
            i = i + 1;
        }
        assert(rest.take(rest.len() as int) =~= rest);
        Options::Standard(StandardOptions { wait: wait, args: kept })
    }

    /// Whether the request is to connect a client and wait for it.
    pub fn is_with_client(&self) -> (b: bool)
        ensures
            b == self@.waits(),
    {
        match self {
            Options::Standard(opts) => opts.wait,
            _ => false,
        }
    }

    /// The arguments that the request hands on; none for a named command or
    /// for help.
    pub fn args(&self) -> (args: &[String])
        ensures
            args.deep_view() == match self@ {
                OptionsView::Standard(opts) => opts.args,
                _ => Seq::empty(),
            },
    {
        match self {
            Options::Standard(opts) => opts.args.as_slice(),
            _ => &[],
        }
    }
}

/// Something that shapes the command line of a client.
pub trait CommandModifier {
    /// The command that `modify` makes of `cmd`.
    spec fn modified(&self, cmd: CommandView) -> CommandView;

    /// Adds to `cmd` what this request asks of a client.
    fn modify(&self, cmd: &mut Command)
        ensures
            final(cmd)@ == self.modified(old(cmd)@),
    ;
}

/// The expression that raises the editor's frame and then makes the call
/// `elisp`.
pub open spec fn raise_and_call(elisp: Seq<char>) -> Seq<char> {
    PROGN_OPEN@ + elisp + PROGN_CLOSE@
}

impl CommandModifier for ElispCommand {
    /// The client evaluates the frame-raising expression with the call in
    /// it, without reading the init file, in the directory asked for.
    open spec fn modified(&self, cmd: CommandView) -> CommandView {
        let evaluated = cmd.with_args(seq![NO_INIT@, EVAL@, raise_and_call(self.elisp@)]);
        match self.dir {
            Some(dir) => evaluated.in_dir(dir@),
            None => evaluated,
        }
    }

    fn modify(&self, cmd: &mut Command) {
        let mut expression = String::from_str(PROGN_OPEN);
        expression.append(self.elisp);
        expression.append(PROGN_CLOSE);
        cmd.arg(NO_INIT);
        cmd.arg(EVAL);
        cmd.arg(expression.as_str());
        assert(cmd@.args =~= old(cmd)@.args + seq![
            NO_INIT@,
            EVAL@,
            raise_and_call(self.elisp@),
        ]);
        if let Some(dir) = &self.dir {
            cmd.current_dir(dir.as_str());
        }
    }
}

impl CommandModifier for StandardOptions {
    /// With nothing to open, the client raises the editor's frame. With
    /// something to open, it gets the arguments as they are, behind the
    /// no-wait flag unless the caller waits.
    open spec fn modified(&self, cmd: CommandView) -> CommandView {
        if self.args.len() == 0 {
            cmd.with_args(seq![NO_INIT@, EVAL@, RAISE_FRAME@])
        } else if self.wait {
            cmd.with_args(self.args.deep_view())
        } else {
            cmd.with_args(seq![NO_WAIT@] + self.args.deep_view())
        }
    }

    fn modify(&self, cmd: &mut Command) {
        let args = &self.args;
        if args.len() == 0 {
            cmd.arg(NO_INIT);
            cmd.arg(EVAL);
            cmd.arg(RAISE_FRAME);
            assert(cmd@.args =~= old(cmd)@.args + seq![NO_INIT@, EVAL@, RAISE_FRAME@]);
        } else {
            if !self.wait {
                cmd.arg(NO_WAIT);
            }
            cmd.args(args.as_slice());
            assert(!self.wait ==> cmd@.args =~= old(cmd)@.args + (seq![NO_WAIT@]
                + self.args.deep_view()));
        }
    }
}

impl CommandModifier for Options {
    /// A request for help leaves the command as it is.
    open spec fn modified(&self, cmd: CommandView) -> CommandView {
        match self {
            Options::Standard(opts) => opts.modified(cmd),
            Options::Elisp(ec) => ec.modified(cmd),
            Options::Help => cmd,
        }
    }

    fn modify(&self, cmd: &mut Command) {
        match self {
            Options::Standard(opts) => opts.modify(cmd),
            Options::Elisp(ec) => ec.modify(cmd),
            Options::Help => {},
        }
    }
}

/// A command line that holds no help flag, no wait flag and no flag of a
/// named command asks to open all its arguments, in the order given, without
/// waiting.
pub proof fn lemma_plain_arguments_are_kept(args: Seq<Seq<char>>)
    requires
        forall|i: int|
            1 <= i < args.len() ==> !is_help_flag(#[trigger] args[i]) && !is_wait_flag(args[i])
                && elisp_of(args[i]) is None,
    ensures
        parsed(args) == OptionsView::Standard(
            StandardOptionsView { wait: false, args: tail(args) },
        ),
{
    let rest = tail(args);
    assert forall|i: int| 0 <= i < rest.len() implies !is_help_flag(#[trigger] rest[i])
        && !is_wait_flag(rest[i]) && elisp_of(rest[i]) is None by {
        assert(rest[i] == args[i + 1]);
    }
    lemma_first_command(rest, 0);
    if first_command(rest, 0) < rest.len() {
        assert(elisp_of(rest[first_command(rest, 0)]) is None);
    }
    lemma_all_forwarded(rest);
}

/// Where no argument is the wait flag, all are handed on.
proof fn lemma_all_forwarded(rest: Seq<Seq<char>>)
    requires
        forall|i: int| 0 <= i < rest.len() ==> !is_wait_flag(#[trigger] rest[i]),
    ensures
        rest.filter(is_forwarded()) == rest,
    decreases rest.len(),
{
    reveal(Seq::filter);
    if rest.len() > 0 {
        let shorter = rest.drop_last();
        assert forall|i: int| 0 <= i < shorter.len() implies !is_wait_flag(
            #[trigger] shorter[i],
        ) by {
            assert(shorter[i] == rest[i]);
        }
        lemma_all_forwarded(shorter);
        assert(!is_wait_flag(rest[rest.len() - 1]));
        assert(shorter.push(rest.last()) =~= rest);
    }
}

/// A help flag anywhere behind the program's name makes the request a
/// request for help, whatever else the command line holds.
pub proof fn lemma_help_wins(args: Seq<Seq<char>>, at: int)
    requires
        1 <= at < args.len(),
        is_help_flag(args[at]),
    ensures
        parsed(args) == OptionsView::Help,
{
    assert(is_help_flag(tail(args)[at - 1]));
}

/// Without a help flag, the first flag of a named command decides: the
/// request is that command, in the directory named behind the flag if any.
pub proof fn lemma_named_command_wins(args: Seq<Seq<char>>, at: int)
    requires
        1 <= at < args.len(),
        elisp_of(args[at]) is Some,
        forall|i: int| 1 <= i < at ==> elisp_of(#[trigger] args[i]) is None,
        forall|i: int| 1 <= i < args.len() ==> !is_help_flag(#[trigger] args[i]),
    ensures
        parsed(args) == OptionsView::Elisp(
            ElispCommandView {
                elisp: elisp_of(args[at])->0,
                dir: if at + 1 < args.len() {
                    Some(args[at + 1])
                } else {
                    None
                },
            },
        ),
{
    let rest = tail(args);
    assert forall|i: int| 0 <= i < rest.len() implies !is_help_flag(#[trigger] rest[i]) by {
        assert(rest[i] == args[i + 1]);
    }
    lemma_first_command(rest, 0);
    let first = first_command(rest, 0);
    assert(rest[at - 1] == args[at]);
    if first < at - 1 {
        assert(rest[first] == args[first + 1]);
    }
}

/// What a client is started with, besides what the command held before:
/// nothing but the frame-raising expression where there is nothing to open;
/// the arguments behind the no-wait flag where the caller does not wait;
/// the arguments alone where it does.
pub proof fn lemma_client_arguments(opts: StandardOptions, cmd: CommandView)
    ensures
        opts.args.len() == 0 ==> opts.modified(cmd).args == cmd.args + seq![
            NO_INIT@,
            EVAL@,
            RAISE_FRAME@,
        ],
        opts.args.len() > 0 && !opts.wait ==> opts.modified(cmd).args == cmd.args + seq![NO_WAIT@]
            + opts.args.deep_view(),
        opts.args.len() > 0 && opts.wait ==> opts.modified(cmd).args == cmd.args
            + opts.args.deep_view(),
        opts.modified(cmd).program == cmd.program,
        opts.modified(cmd).dir == cmd.dir,
        opts.modified(cmd).null_stdio == cmd.null_stdio,
{
    assert(cmd.args + (seq![NO_WAIT@] + opts.args.deep_view()) =~= cmd.args + seq![NO_WAIT@]
        + opts.args.deep_view());
}

impl OptionsView {
    /// Whether the request is to connect a client and wait for it.
    pub open spec fn waits(self) -> bool {
        self matches OptionsView::Standard(opts) && opts.wait
    }
}

} // verus!
