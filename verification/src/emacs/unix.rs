//! The editor on Unix: a socket file marks the server, and a fork sets it
//! free from the caller's terminal.

use crate::emacs::command::{Command, CommandView};
use crate::emacs::common::{locate, located, Emacs, LaunchOutcome, LaunchOutcomeView, Probe, ProbeView, ServerHandle};
use crate::paths::{join, join_path, Style};
use crate::text::{decimal, u32_to_string};
use vstd::prelude::*;
use vstd::string::*;

verus! {

/// The program that starts the server.
pub const EMACS_CMD: &'static str = "emacs";

/// The program that talks to a running server.
pub const EMACSCLI_CMD: &'static str = "emacsclient";

/// The directory under which the server keeps its socket where no runtime
/// directory is used.
pub const TMP_DIR: &'static str = "/tmp";

/// The name of the server's directory; under the temporary directory the
/// user's numeric id follows it.
pub const SERVER_DIR: &'static str = "emacs";

/// The name of the server's socket.
pub const SERVER_FILE: &'static str = "server";

/// What stands before every message on standard error.
pub const MESSAGE_PREFIX: &'static str = "ew: ";

/// What is said when the process could not be forked.
pub const FORK_FAILED: &'static str = "fork failed";

/// The Unix flavour of the editor, for one user.
#[derive(Clone, Copy, Debug, PartialEq, Eq)]
pub struct UnixEmacs {
    /// The numeric id of the user.
    pub uid: u32,
    /// Whether the editor keeps its socket under the runtime directory, as
    /// it does from version 27 on.
    pub emacs27: bool,
}

/// The directory in which the server keeps its socket: `emacs` under the
/// runtime directory, where the editor uses one and one is set; else
/// `emacs` followed by the user's id, under the temporary directory.
pub open spec fn server_dir(emacs27: bool, runtime_dir: Option<Seq<char>>, uid: u32) -> Seq<char> {
    match runtime_dir {
        Some(dir) => if emacs27 {
            join(Style::Unix, dir, SERVER_DIR@)
        } else {
            join(Style::Unix, TMP_DIR@, SERVER_DIR@ + decimal(uid as nat))
        },
        None => join(Style::Unix, TMP_DIR@, SERVER_DIR@ + decimal(uid as nat)),
    }
}

/// The socket whose presence marks a running server.
pub open spec fn server_file(emacs27: bool, runtime_dir: Option<Seq<char>>, uid: u32) -> Seq<char> {
    join(Style::Unix, server_dir(emacs27, runtime_dir, uid), SERVER_FILE@)
}

/// What a probe concludes: with the socket present, a server is running,
/// and its client is taken from the launcher's directory or the search
/// path; without it, there is none.
pub open spec fn probed(
    marker_exists: bool,
    exe_dir: Option<Seq<char>>,
    sibling_is_file: bool,
) -> ProbeView {
    if marker_exists {
        ProbeView::Running(located(Style::Unix, EMACSCLI_CMD@, exe_dir, sibling_is_file))
    } else {
        ProbeView::NotRunning
    }
}

/// The user's runtime directory, if one is set.
///
/// Calls `dirs::runtime_dir`. Nothing is claimed of what it returns: it
/// depends on the environment. A path that is not Unicode is handed on with
/// replacement characters.
#[verifier::external_body]
pub(crate) fn runtime_dir() -> (dir: Option<String>) {
    dirs::runtime_dir().map(|p| p.to_string_lossy().into_owned())
}

/// What happened while the server was being set free.
#[derive(Debug, PartialEq, Eq)]
pub enum Detach {
    /// The fork returned this value.
    Forked(i32),
    /// In the child: the server was started, or was not, for this reason.
    Spawned(Result<(), String>),
}

/// What is to be done next while the server is being set free.
#[derive(Clone, Debug, PartialEq, Eq)]
pub enum DetachStep {
    /// Nothing more: this is how the launch ended for this process.
    Report(LaunchOutcome),
    /// In the child: open a new session, then start the server.
    SpawnInSession,
    /// In the child: leave with this code, at once.
    Exit(i32),
}

/// A `DetachStep` as plain text.
pub enum DetachStepView {
    Report(LaunchOutcomeView),
    SpawnInSession,
    Exit(i32),
}

impl View for DetachStep {
    type V = DetachStepView;

    open spec fn view(&self) -> DetachStepView {
        match self {
            DetachStep::Report(outcome) => DetachStepView::Report(outcome@),
            DetachStep::SpawnInSession => DetachStepView::SpawnInSession,
            DetachStep::Exit(code) => DetachStepView::Exit(*code),
        }
    }
}

/// The step that follows a fork returning `pid`: the parent is done and
/// reports success, a failed fork is reported, and the child goes on to
/// start the server.
pub open spec fn after_fork(pid: i32) -> DetachStepView {
    if pid > 0 {
        DetachStepView::Report(LaunchOutcomeView::Success)
    } else if pid < 0 {
        DetachStepView::Report(LaunchOutcomeView::ProcessSpawnFailed(FORK_FAILED@))
    } else {
        DetachStepView::SpawnInSession
    }
}

/// The step that follows the child's attempt to start the server: with the
/// server started it leaves with code zero, else it reports the failure.
pub open spec fn after_spawn(failure: Option<Seq<char>>) -> DetachStepView {
    match failure {
        None => DetachStepView::Exit(0),
        Some(reason) => DetachStepView::Report(LaunchOutcomeView::ProcessSpawnFailed(reason)),
    }
}

impl UnixEmacs {
    /// The editor of the user `uid`.
    pub fn new(uid: u32, emacs27: bool) -> (emacs: UnixEmacs)
        ensures
            emacs.uid == uid,
            emacs.emacs27 == emacs27,
    {
        UnixEmacs { uid, emacs27 }
    }

    /// The directory of the server's socket, given the runtime directory.
    pub fn server_dir_in(&self, runtime_dir: Option<&str>) -> (dir: String)
        ensures
            dir@ == server_dir(
                self.emacs27,
                match runtime_dir {
                    Some(dir) => Some(dir@),
                    None => None,
                },
                self.uid,
            ),
    {
        if self.emacs27 {
            if let Some(dir) = runtime_dir {
                return join_path(Style::Unix, dir, SERVER_DIR);
            }
        }
        let mut name = String::from_str(SERVER_DIR);
        let id = u32_to_string(self.uid);
        name.append(id.as_str());
        join_path(Style::Unix, TMP_DIR, name.as_str())
    }

    /// The directory of the server's socket. The runtime directory is looked
    /// up where the editor uses one; whatever it is, the result is what
    /// `server_dir` gives for it.
    pub fn emacs_server_dir(&self) -> (dir: String)
        ensures
            exists|runtime_dir: Option<Seq<char>>|
                dir@ == #[trigger] server_dir(self.emacs27, runtime_dir, self.uid),
            !self.emacs27 ==> dir@ == server_dir(false, None, self.uid),
    {
        if self.emacs27 {
            let found = runtime_dir();
            match &found {
                Some(dir) => self.server_dir_in(Some(dir.as_str())),
                None => self.server_dir_in(None),
            }
        } else {
            self.server_dir_in(None)
        }
    }

    /// The socket whose presence marks a running server, given the runtime
    /// directory.
    pub fn server_file_in(&self, runtime_dir: Option<&str>) -> (path: String)
        ensures
            path@ == server_file(
                self.emacs27,
                match runtime_dir {
                    Some(dir) => Some(dir@),
                    None => None,
                },
                self.uid,
            ),
    {
        let dir = self.server_dir_in(runtime_dir);
        join_path(Style::Unix, dir.as_str(), SERVER_FILE)
    }

    /// The socket whose presence marks a running server, with the runtime
    /// directory looked up.
    pub fn server_file(&self) -> (path: String)
        ensures
            exists|runtime_dir: Option<Seq<char>>|
                path@ == #[trigger] server_file(self.emacs27, runtime_dir, self.uid),
            !self.emacs27 ==> path@ == server_file(false, None, self.uid),
    {
        let dir = self.emacs_server_dir();
        let path = join_path(Style::Unix, dir.as_str(), SERVER_FILE);
        proof {
            let found = choose|runtime_dir: Option<Seq<char>>|
                dir@ == #[trigger] server_dir(self.emacs27, runtime_dir, self.uid);
            assert(path@ == server_file(self.emacs27, found, self.uid));
        }
        path
    }

    /// Concludes a probe. `marker_exists` tells whether the socket is there;
    /// its contents are never read. `exe_dir` is the directory of the running
    /// launcher, if known, and `sibling_is_file` tells whether the client's
    /// name in that directory is a file.
    pub fn is_server_running(
        &self,
        marker_exists: bool,
        exe_dir: Option<&str>,
        sibling_is_file: bool,
    ) -> (probe: Probe)
        ensures
            probe@ == probed(
                marker_exists,
                match exe_dir {
                    Some(dir) => Some(dir@),
                    None => None,
                },
                sibling_is_file,
            ),
            probe is Running <==> marker_exists,
            !marker_exists <==> probe is NotRunning,
    {
        if marker_exists {
            Probe::Running(
                ServerHandle { client: locate(Style::Unix, EMACSCLI_CMD, exe_dir, sibling_is_file) },
            )
        } else {
            Probe::NotRunning
        }
    }

    /// Decides the next step in setting the server free of the caller.
    ///
    /// The host forks first and hands in what the fork returned. The parent
    /// is then done; the child opens a new session, starts the server and
    /// hands in how that went.
    pub fn run_server_os(event: Detach) -> (step: DetachStep)
        ensures
            step@ == match event {
                Detach::Forked(pid) => after_fork(pid),
                Detach::Spawned(Ok(_)) => after_spawn(None),
                Detach::Spawned(Err(reason)) => after_spawn(Some(reason@)),
            },
    {
        match event {
            Detach::Forked(pid) => {
                if pid > 0 {
                    DetachStep::Report(LaunchOutcome::Success)
                } else if pid < 0 {
                    DetachStep::Report(
                        LaunchOutcome::ProcessSpawnFailed(String::from_str(FORK_FAILED)),
                    )
                } else {
                    DetachStep::SpawnInSession
                }
            },
            Detach::Spawned(Ok(_)) => DetachStep::Exit(0),
            Detach::Spawned(Err(reason)) => DetachStep::Report(
                LaunchOutcome::ProcessSpawnFailed(reason),
            ),
        }
    }

    /// The line that tells the user `msg` on standard error, without its
    /// line feed.
    pub fn show_message(msg: &str) -> (line: String)
        ensures
            line@ == MESSAGE_PREFIX@ + msg@,
    {
        let mut line = String::from_str(MESSAGE_PREFIX);
        line.append(msg);
        line
    }
}

impl Emacs for UnixEmacs {
    open spec fn server_name(&self) -> Seq<char> {
        EMACS_CMD@
    }

    open spec fn path_style(&self) -> Style {
        Style::Unix
    }

    open spec fn fresh_command(path: Seq<char>) -> CommandView {
        CommandView::bare(path)
    }

    fn emacs_cmd(&self) -> (cmd: &'static str) {
        EMACS_CMD
    }

    fn style(&self) -> (style: Style) {
        Style::Unix
    }

    fn new_command(path: &str) -> (cmd: Command) {
        Command::new(path)
    }
}

} // verus!
