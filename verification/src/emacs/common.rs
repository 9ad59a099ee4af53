//! What both platforms share: how a process ended, whether a server was
//! found, and the command lines of server and client.

use crate::emacs::command::{Command, CommandView};
use crate::emacs::options::CommandModifier;
use crate::paths::{join, join_path, Style};
use crate::text::{i32_to_string, signed_decimal};
use vstd::prelude::*;
use vstd::string::*;

verus! {

/// The server's flag for "call the next argument as a function".
pub const FUNCALL: &'static str = "-f";

/// The function that makes the editor a server.
pub const SERVER_START: &'static str = "server-start";

/// What is said of a process that ended with a code other than zero, before
/// the code.
pub const EXITED_WITH_CODE: &'static str = ": process exited with code ";

/// What is said of a process that a signal ended.
pub const EXITED_BY_SIGNAL: &'static str = ": process exited by signal";

/// What is said when the server did not come up in time.
pub const TIMED_OUT: &'static str = "Timed out to wait for Emacs server";

/// A server that appears to be listening: the client that can reach it.
#[derive(Clone, Debug, PartialEq, Eq)]
pub struct ServerHandle {
    /// The client program: a path, or a name for the search path.
    pub client: String,
}

impl View for ServerHandle {
    type V = Seq<char>;

    open spec fn view(&self) -> Seq<char> {
        self.client@
    }
}

/// How starting a process, or waiting for one, ended.
#[derive(Clone, Debug, PartialEq, Eq)]
pub enum LaunchOutcome {
    /// The process ran and ended with code zero, or was started and left
    /// running.
    Success,
    /// The system did not start the process; its reason.
    ProcessSpawnFailed(String),
    /// The process ended with this code, which is not zero.
    ExitedWithCode(i32),
    /// A signal ended the process.
    KilledBySignal,
    /// What was waited for did not happen in time.
    Timeout,
}

/// A `LaunchOutcome` as plain text.
pub enum LaunchOutcomeView {
    Success,
    ProcessSpawnFailed(Seq<char>),
    ExitedWithCode(i32),
    KilledBySignal,
    Timeout,
}

impl View for LaunchOutcome {
    type V = LaunchOutcomeView;

    open spec fn view(&self) -> LaunchOutcomeView {
        match self {
            LaunchOutcome::Success => LaunchOutcomeView::Success,
            LaunchOutcome::ProcessSpawnFailed(reason) => LaunchOutcomeView::ProcessSpawnFailed(
                reason@,
            ),
            LaunchOutcome::ExitedWithCode(code) => LaunchOutcomeView::ExitedWithCode(*code),
            LaunchOutcome::KilledBySignal => LaunchOutcomeView::KilledBySignal,
            LaunchOutcome::Timeout => LaunchOutcomeView::Timeout,
        }
    }
}

/// How a process that was waited for ended, as the system reports it:
/// never started, for a reason; ended by a signal, so without a code; or
/// ended with a code.
pub open spec fn outcome_of(status: Result<Option<i32>, Seq<char>>) -> LaunchOutcomeView {
    match status {
        Err(reason) => LaunchOutcomeView::ProcessSpawnFailed(reason),
        Ok(None) => LaunchOutcomeView::KilledBySignal,
        Ok(Some(code)) => if code == 0 {
            LaunchOutcomeView::Success
        } else {
            LaunchOutcomeView::ExitedWithCode(code)
        },
    }
}

impl LaunchOutcomeView {
    /// What the user is told of this outcome for the program `path`;
    /// nothing of a success.
    pub open spec fn message(self, path: Seq<char>) -> Option<Seq<char>> {
        match self {
            LaunchOutcomeView::Success => None,
            LaunchOutcomeView::ProcessSpawnFailed(reason) => Some(reason),
            LaunchOutcomeView::ExitedWithCode(code) => Some(
                path + EXITED_WITH_CODE@ + signed_decimal(code as int),
            ),
            LaunchOutcomeView::KilledBySignal => Some(path + EXITED_BY_SIGNAL@),
            LaunchOutcomeView::Timeout => Some(TIMED_OUT@),
        }
    }
}

impl LaunchOutcome {
    /// Reads the end of a process that was waited for. `status` is the
    /// reason why it was not started, or else its exit code, which is
    /// missing where a signal ended it.
    pub fn of_status(status: Result<Option<i32>, String>) -> (outcome: LaunchOutcome)
        ensures
            outcome@ == outcome_of(
                match status {
                    Ok(code) => Ok(code),
                    Err(reason) => Err(reason@),
                },
            ),
    {
        match status {
            Err(reason) => LaunchOutcome::ProcessSpawnFailed(reason),
            Ok(None) => LaunchOutcome::KilledBySignal,
            Ok(Some(code)) => if code == 0 {
                LaunchOutcome::Success
            } else {
                LaunchOutcome::ExitedWithCode(code)
            },
        }
    }

    /// Whether this is a success.
    pub fn is_success(&self) -> (b: bool)
        ensures
            b == (self@ is Success),
    {
        match self {
            LaunchOutcome::Success => true,
            _ => false,
        }
    }

    /// What the user is told of this outcome for the program `path`.
    pub fn message(&self, path: &str) -> (text: Option<String>)
        ensures
            text.deep_view() == self@.message(path@),
    {
        match self {
            LaunchOutcome::Success => None,
            LaunchOutcome::ProcessSpawnFailed(reason) => Some(reason.clone()),
            LaunchOutcome::ExitedWithCode(code) => {
                let mut text = String::from_str(path);
                text.append(EXITED_WITH_CODE);
                let digits = i32_to_string(*code);
                text.append(digits.as_str());
                Some(text)
            },
            LaunchOutcome::KilledBySignal => {
                let mut text = String::from_str(path);
                text.append(EXITED_BY_SIGNAL);
                Some(text)
            },
            LaunchOutcome::Timeout => Some(String::from_str(TIMED_OUT)),
        }
    }
}

/// Why a marker file could not be read as one.
#[derive(Clone, Copy, Debug, PartialEq, Eq, Structural)]
pub enum DataFormatError {
    /// Its first line holds fewer than two words.
    NoPidPart,
    /// The second word of its first line is no process id.
    NotANumber,
}

/// What is said of a marker file without a second word.
pub const NO_PID_PART: &'static str = "No pid part";

/// What is said of a marker file whose second word is no number.
pub const NOT_A_NUMBER: &'static str = "Not a number";

/// What is said when the home directory is unknown.
pub const HOME_NOT_SET: &'static str = "HOME is not set";

/// What is said, before the process id, when a process may not be asked for
/// its program.
pub const CANNOT_QUERY: &'static str = "Permission denied to query process ";

/// Why a probe for the server could not be carried out.
#[derive(Clone, Debug, PartialEq, Eq)]
pub enum ProbeError {
    /// The marker file is malformed.
    DataFormat(DataFormatError),
    /// The system did not tell which program the process with this id runs.
    PermissionDenied(u32),
    /// The marker file is there but could not be read; the system's reason.
    Unreadable(String),
    /// The home directory, under which the marker lives, is unknown.
    HomeNotSet,
}

/// A `ProbeError` as plain text.
pub enum ProbeErrorView {
    DataFormat(DataFormatError),
    PermissionDenied(u32),
    Unreadable(Seq<char>),
    HomeNotSet,
}

impl View for ProbeError {
    type V = ProbeErrorView;

    open spec fn view(&self) -> ProbeErrorView {
        match self {
            ProbeError::DataFormat(e) => ProbeErrorView::DataFormat(*e),
            ProbeError::PermissionDenied(pid) => ProbeErrorView::PermissionDenied(*pid),
            ProbeError::Unreadable(reason) => ProbeErrorView::Unreadable(reason@),
            ProbeError::HomeNotSet => ProbeErrorView::HomeNotSet,
        }
    }
}

impl ProbeErrorView {
    /// What the user is told of this error.
    pub open spec fn message(self) -> Seq<char> {
        match self {
            ProbeErrorView::DataFormat(DataFormatError::NoPidPart) => NO_PID_PART@,
            ProbeErrorView::DataFormat(DataFormatError::NotANumber) => NOT_A_NUMBER@,
            ProbeErrorView::PermissionDenied(pid) => CANNOT_QUERY@ + signed_decimal(pid as int),
            ProbeErrorView::Unreadable(reason) => reason,
            ProbeErrorView::HomeNotSet => HOME_NOT_SET@,
        }
    }

    /// Whether the run goes on after this error, as if no server had been
    /// found, once the user has been told.
    pub open spec fn is_recoverable(self) -> bool {
        self is PermissionDenied
    }
}

impl ProbeError {
    /// What the user is told of this error.
    pub fn message(&self) -> (text: String)
        ensures
            text@ == self@.message(),
    {
        match self {
            ProbeError::DataFormat(DataFormatError::NoPidPart) => String::from_str(NO_PID_PART),
            ProbeError::DataFormat(DataFormatError::NotANumber) => String::from_str(NOT_A_NUMBER),
            ProbeError::PermissionDenied(pid) => {
                let mut text = String::from_str(CANNOT_QUERY);
                let digits = crate::text::u32_to_string(*pid);
                text.append(digits.as_str());
                text
            },
            ProbeError::Unreadable(reason) => reason.clone(),
            ProbeError::HomeNotSet => String::from_str(HOME_NOT_SET),
        }
    }

    /// Whether the run goes on after this error, as if no server had been
    /// found, once the user has been told.
    pub fn is_recoverable(&self) -> (b: bool)
        ensures
            b == self@.is_recoverable(),
    {
        match self {
            ProbeError::PermissionDenied(_) => true,
            _ => false,
        }
    }
}

/// What a probe for the server found.
#[derive(Clone, Debug, PartialEq, Eq)]
pub enum Probe {
    /// A server appears to be listening.
    Running(ServerHandle),
    /// No server is there.
    NotRunning,
    /// The probe could not be carried out.
    Failed(ProbeError),
}

/// A `Probe` as plain text.
pub enum ProbeView {
    Running(Seq<char>),
    NotRunning,
    Failed(ProbeErrorView),
}

impl View for Probe {
    type V = ProbeView;

    open spec fn view(&self) -> ProbeView {
        match self {
            Probe::Running(handle) => ProbeView::Running(handle@),
            Probe::NotRunning => ProbeView::NotRunning,
            Probe::Failed(e) => ProbeView::Failed(e@),
        }
    }
}

/// Where the program `name` is taken from: from the directory of the running
/// launcher, if that directory is known and holds a file of that name; from
/// the search path otherwise.
pub open spec fn located(
    style: Style,
    name: Seq<char>,
    exe_dir: Option<Seq<char>>,
    sibling_is_file: bool,
) -> Seq<char> {
    match exe_dir {
        Some(dir) => if sibling_is_file {
            join(style, dir, name)
        } else {
            name
        },
        None => name,
    }
}

/// Decides where the program `name` is taken from. `exe_dir` is the
/// directory of the running launcher, if known, and `sibling_is_file` tells
/// whether `name` in that directory is a file.
pub fn locate(style: Style, name: &str, exe_dir: Option<&str>, sibling_is_file: bool) -> (path:
    String)
    ensures
        path@ == located(
            style,
            name@,
            match exe_dir {
                Some(dir) => Some(dir@),
                None => None,
            },
            sibling_is_file,
        ),
{
    match exe_dir {
        Some(dir) => if sibling_is_file {
            join_path(style, dir, name)
        } else {
            String::from_str(name)
        },
        None => String::from_str(name),
    }
}

/// The command that starts the server at `path`: it is told to become a
/// server, gets `args` behind that, and runs in the home directory, if that
/// is known, where it has nothing to open.
pub open spec fn server_command(
    fresh: CommandView,
    args: Seq<Seq<char>>,
    home: Option<Seq<char>>,
) -> CommandView {
    let told = fresh.with_args(seq![FUNCALL@, SERVER_START@] + args);
    match home {
        Some(dir) => if args.len() == 0 {
            told.in_dir(dir)
        } else {
            told
        },
        None => told,
    }
}

/// The user's home directory, if the system knows one.
///
/// Calls `dirs::home_dir`. Nothing is claimed of what it returns: it depends
/// on the environment. A path that is not Unicode is handed on with
/// replacement characters.
#[verifier::external_body]
pub(crate) fn home_dir() -> (home: Option<String>) {
    dirs::home_dir().map(|p| p.to_string_lossy().into_owned())
}

/// One of the two platforms on which the editor runs.
pub trait Emacs {
    /// The name of the program that starts the server.
    spec fn server_name(&self) -> Seq<char>;

    /// How this platform writes paths.
    spec fn path_style(&self) -> Style;

    /// The command that this platform makes of a program before anything is
    /// added to it.
    spec fn fresh_command(path: Seq<char>) -> CommandView;

    /// The name of the program that starts the server.
    fn emacs_cmd(&self) -> (cmd: &'static str)
        ensures
            cmd@ == self.server_name(),
    ;

    /// How this platform writes paths.
    fn style(&self) -> (style: Style)
        ensures
            style == self.path_style(),
    ;

    /// A command that runs the program at `path`, set up as this platform
    /// needs it.
    fn new_command(path: &str) -> (cmd: Command)
        ensures
            cmd@ == Self::fresh_command(path@),
    ;

    /// Decides where the server program is taken from. `exe_dir` is the
    /// directory of the running launcher, if known, and `sibling_is_file`
    /// tells whether the server's name in that directory is a file.
    fn find_path(&self, exe_dir: Option<&str>, sibling_is_file: bool) -> (path: String)
        ensures
            path@ == located(
                self.path_style(),
                self.server_name(),
                match exe_dir {
                    Some(dir) => Some(dir@),
                    None => None,
                },
                sibling_is_file,
            ),
    {
        locate(self.style(), self.emacs_cmd(), exe_dir, sibling_is_file)
    }

    /// The command that runs the client at `path` for the request
    /// `modifier`.
    fn run_client<M: CommandModifier>(&self, path: &str, modifier: &M) -> (cmd: Command)
        ensures
            cmd@ == modifier.modified(Self::fresh_command(path@)),
    {
        let mut command = Self::new_command(path);
        modifier.modify(&mut command);
        command
    }

    /// The command that starts the server at `path` with `args`, given the
    /// home directory.
    fn server_cmd_in(path: &str, args: &[String], home: Option<&str>) -> (cmd: Command)
        ensures
            cmd@ == server_command(
                Self::fresh_command(path@),
                args.deep_view(),
                match home {
                    Some(dir) => Some(dir@),
                    None => None,
                },
            ),
    {
        let mut command = Self::new_command(path);
        command.arg(FUNCALL);
        command.arg(SERVER_START);
        command.args(args);
        assert(command@.args =~= Self::fresh_command(path@).args + (seq![FUNCALL@, SERVER_START@]
            + args.deep_view()));
        if args.len() == 0 {
            if let Some(dir) = home {
                command.current_dir(dir);
            }
        }
        command
    }

    /// The command that starts the server at `path` with `args`. Where there
    /// are no arguments the home directory is looked up; whatever it is, the
    /// command is the one that `server_command` gives for it.
    fn run_server_cmd(path: &str, args: &[String]) -> (cmd: Command)
        ensures
            exists|home: Option<Seq<char>>|
                cmd@ == #[trigger] server_command(
                    Self::fresh_command(path@),
                    args.deep_view(),
                    home,
                ),
            args.len() > 0 ==> cmd@ == server_command(
                Self::fresh_command(path@),
                args.deep_view(),
                None,
            ),
    {
        if args.len() > 0 {
            return Self::server_cmd_in(path, args, None);
        }
        let home = home_dir();
        match &home {
            Some(dir) => Self::server_cmd_in(path, args, Some(dir.as_str())),
            None => Self::server_cmd_in(path, args, None),
        }
    }
}

} // verus!
