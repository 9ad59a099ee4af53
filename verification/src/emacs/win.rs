//! The editor on Windows: a file in the user's profile names the server's
//! process, and the server sets itself free.

use crate::emacs::command::{Command, CommandView};
use crate::emacs::common::{
    home_dir, DataFormatError, Emacs, LaunchOutcome, LaunchOutcomeView, Probe, ProbeError,
    ProbeErrorView, ProbeView, ServerHandle,
};
use crate::paths::{directory, file_name, join, join_path, split_path, Style};
use crate::text::{first_line, first_line_of, nth_word, parse_u32, read_u32, words};
use vstd::prelude::*;
use vstd::string::*;

verus! {

/// The program that starts the server.
pub const EMACS_CMD: &'static str = "runemacs.exe";

/// The program that talks to a running server.
pub const EMACSCLI_CMD: &'static str = "emacsclientw.exe";

/// The program that a running server is a process of.
pub const SERVER_EXE: &'static str = "emacs.exe";

/// The editor's directory in the user's profile.
pub const EMACS_D: &'static str = ".emacs.d";

/// The name of the server's directory, and of the marker file in it.
pub const SERVER: &'static str = "server";

/// The title of the dialog that tells the user something.
pub const TITLE: &'static str = "ew";

/// The Windows flavour of the editor.
#[derive(Clone, Copy, Debug, PartialEq, Eq)]
pub struct WinEmacs {}

/// The marker file of a running server, under the home directory `home`.
pub open spec fn server_file(home: Seq<char>) -> Seq<char> {
    join(
        Style::Windows,
        join(Style::Windows, join(Style::Windows, home, EMACS_D@), SERVER@),
        SERVER@,
    )
}

/// The process id that a marker file names: the second word of its first
/// line, read as an unsigned number.
pub open spec fn pid_in(text: Seq<char>) -> Result<u32, DataFormatError> {
    let line = words(first_line(text));
    if line.len() < 2 {
        Err(DataFormatError::NoPidPart)
    } else {
        match parse_u32(line[1]) {
            Some(pid) => Ok(pid),
            None => Err(DataFormatError::NotANumber),
        }
    }
}

/// What the host found where the marker file should be.
#[derive(Debug, PartialEq, Eq)]
pub enum Marker {
    /// No file.
    Absent,
    /// A file that could not be read; the system's reason.
    Unreadable(String),
    /// A file; its contents, or at least its first line.
    Text(String),
}

/// What is to be done once the marker has been looked at.
#[derive(Debug, PartialEq, Eq)]
pub enum MarkerStep {
    /// Ask the system which program the process with this id runs.
    Query(u32),
    /// Nothing more: the probe is over.
    Done(Probe),
}

/// A `MarkerStep` as plain text.
pub enum MarkerStepView {
    Query(u32),
    Done(ProbeView),
}

impl View for MarkerStep {
    type V = MarkerStepView;

    open spec fn view(&self) -> MarkerStepView {
        match self {
            MarkerStep::Query(pid) => MarkerStepView::Query(*pid),
            MarkerStep::Done(probe) => MarkerStepView::Done(probe@),
        }
    }
}

/// What follows from a marker file that was read: the process it names is
/// looked at next; a malformed file ends the probe as a failure.
pub open spec fn after_marker(text: Seq<char>) -> MarkerStepView {
    match pid_in(text) {
        Ok(pid) => MarkerStepView::Query(pid),
        Err(e) => MarkerStepView::Done(ProbeView::Failed(ProbeErrorView::DataFormat(e))),
    }
}

/// What a probe concludes of the process `pid` that the marker names, given
/// the path of its program. Where the system did not tell the path, that is
/// a failure of its own. Where the program is the editor, a server runs, and
/// its client is the one in the same directory. Any other program means
/// that the marker is stale.
pub open spec fn probed(pid: u32, image: Option<Seq<char>>) -> ProbeView {
    match image {
        None => ProbeView::Failed(ProbeErrorView::PermissionDenied(pid)),
        Some(path) => if file_name(Style::Windows, path) == SERVER_EXE@ {
            ProbeView::Running(
                join(Style::Windows, directory(Style::Windows, path), EMACSCLI_CMD@),
            )
        } else {
            ProbeView::NotRunning
        },
    }
}

/// What happened while the server was being started.
#[derive(Debug, PartialEq, Eq)]
pub enum Launch {
    /// The server was started, or was not, for this reason.
    Spawned(Result<(), String>),
    /// The wait for the started process ended, or failed for this reason.
    Waited(Result<(), String>),
}

/// What is to be done next while the server is being started.
#[derive(Debug, PartialEq, Eq)]
pub enum LaunchStep {
    /// Wait until the started process ends: the server sets itself free and
    /// lets it end.
    Wait,
    /// Nothing more: this is how the launch ended, and what the user is to
    /// be told before the run goes on, if anything.
    Report { outcome: LaunchOutcome, notice: Option<String> },
}

/// A `LaunchStep` as plain text.
pub enum LaunchStepView {
    Wait,
    Report { outcome: LaunchOutcomeView, notice: Option<Seq<char>> },
}

impl View for LaunchStep {
    type V = LaunchStepView;

    open spec fn view(&self) -> LaunchStepView {
        match self {
            LaunchStep::Wait => LaunchStepView::Wait,
            LaunchStep::Report { outcome, notice } => LaunchStepView::Report {
                outcome: outcome@,
                notice: notice.deep_view(),
            },
        }
    }
}

/// The step that follows the attempt to start the server: a started server
/// is waited for, a failure is reported.
pub open spec fn after_spawn(failure: Option<Seq<char>>) -> LaunchStepView {
    match failure {
        None => LaunchStepView::Wait,
        Some(reason) => LaunchStepView::Report {
            outcome: LaunchOutcomeView::ProcessSpawnFailed(reason),
            notice: None,
        },
    }
}

/// The step that follows the wait: the launch has succeeded either way, and
/// a failed wait is told to the user.
pub open spec fn after_wait(failure: Option<Seq<char>>) -> LaunchStepView {
    LaunchStepView::Report { outcome: LaunchOutcomeView::Success, notice: failure }
}

/// One character in UTF-16: itself below U+10000, else a high and a low
/// surrogate that share the twenty bits of what lies above.
pub open spec fn utf16_of(c: char) -> Seq<u16> {
    let u = c as u32;
    if u < 0x10000 {
        seq![u as u16]
    } else {
        seq![(0xD800 + (u - 0x10000) / 0x400) as u16, (0xDC00 + (u - 0x10000) % 0x400) as u16]
    }
}

/// A text in UTF-16.
pub open spec fn utf16(s: Seq<char>) -> Seq<u16>
    decreases s.len(),
{
    if s.len() == 0 {
        Seq::empty()
    } else {
        utf16(s.drop_last()) + utf16_of(s.last())
    }
}

/// A text as a wide string that ends with a zero, as the system's calls
/// take it: its UTF-16 form, with a zero added unless it ends with one.
/// There is none where a zero stands before the last place.
pub open spec fn wide_c_string(s: Seq<char>) -> Option<Seq<u16>> {
    let units = utf16(s);
    if exists|i: int| 0 <= i < units.len() - 1 && #[trigger] units[i] == 0 {
        None
    } else if units.len() > 0 && units.last() == 0 {
        Some(units)
    } else {
        Some(units.push(0))
    }
}

/// A dialog that tells the user something.
#[derive(Clone, Debug, PartialEq, Eq)]
pub struct Dialog {
    /// What it says, as a wide string that ends with a zero.
    pub text: Vec<u16>,
    /// Its title, as a wide string that ends with a zero.
    pub title: Vec<u16>,
}

/// Encodes a text as a wide string that ends with a zero.
///
/// Calls `widestring::U16CString::from_str` and takes the units out with
/// `into_vec_with_nul`. The first encodes the text in UTF-16, refuses it
/// where a zero stands anywhere but in the last place, and adds a zero at
/// the end unless there is one; the contract says this and no more.
#[verifier::external_body]
fn str_to_widec(s: &str) -> (wide: Option<Vec<u16>>)
    ensures
        wide.deep_view() == wide_c_string(s@),
{
    widestring::U16CString::from_str(s).ok().map(|w| w.into_vec_with_nul())
}

impl WinEmacs {
    /// The dialog that tells the user `msg`; none where `msg` holds a zero
    /// character before its last place, which no dialog can show.
    pub fn show_message(msg: &str) -> (dialog: Option<Dialog>)
        ensures
            match dialog {
                Some(d) => wide_c_string(msg@) == Some(d.text@) && wide_c_string(TITLE@) == Some(
                    d.title@,
                ),
                None => wide_c_string(msg@) is None,
            },
    {
        let text = str_to_widec(msg);
        let title = str_to_widec(TITLE);
        proof {
            lemma_title_is_wide();
        }
        match (text, title) {
            (Some(text), Some(title)) => Some(Dialog { text, title }),
            _ => None,
        }
    }

    /// The editor on this platform.
    pub fn new() -> (emacs: WinEmacs) {
        WinEmacs {}
    }

    /// The marker file of a running server, under the home directory
    /// `home`.
    pub fn server_file_in(home: &str) -> (path: String)
        ensures
            path@ == server_file(home@),
    {
        let emacs_d = join_path(Style::Windows, home, EMACS_D);
        let dir = join_path(Style::Windows, emacs_d.as_str(), SERVER);
        join_path(Style::Windows, dir.as_str(), SERVER)
    }

    /// The marker file of a running server. The home directory is looked up:
    /// without one the probe fails; with one, whatever it is, the result is
    /// what `server_file` gives for it.
    pub fn server_file() -> (path: Result<String, ProbeError>)
        ensures
            match path {
                Ok(p) => exists|home: Seq<char>| p@ == #[trigger] server_file(home),
                Err(e) => e@ is HomeNotSet,
            },
    {
        match home_dir() {
            Some(home) => Ok(Self::server_file_in(home.as_str())),
            None => Err(ProbeError::HomeNotSet),
        }
    }

    /// Reads the server's process id from the contents of a marker file.
    /// Only the first line counts.
    pub fn read_pid(text: &str) -> (pid: Result<u32, DataFormatError>)
        ensures
            pid == pid_in(text@),
    {
        let line = first_line_of(text);
        match nth_word(&line, 1) {
            None => Err(DataFormatError::NoPidPart),
            Some((start, end)) => match read_u32(&line, start, end) {
                Some(pid) => Ok(pid),
                None => Err(DataFormatError::NotANumber),
            },
        }
    }

    /// Decides what follows from what the host found at the marker's place:
    /// without a file no server runs; a file that cannot be read, or that
    /// names no process, ends the probe as a failure; else the process is
    /// looked at.
    pub fn read_pid_from_server_file(marker: &Marker) -> (step: MarkerStep)
        ensures
            step@ == match marker {
                Marker::Absent => MarkerStepView::Done(ProbeView::NotRunning),
                Marker::Unreadable(reason) => MarkerStepView::Done(
                    ProbeView::Failed(ProbeErrorView::Unreadable(reason@)),
                ),
                Marker::Text(text) => after_marker(text@),
            },
    {
        match marker {
            Marker::Absent => MarkerStep::Done(Probe::NotRunning),
            Marker::Unreadable(reason) => MarkerStep::Done(
                Probe::Failed(ProbeError::Unreadable(reason.clone())),
            ),
            Marker::Text(text) => match Self::read_pid(text.as_str()) {
                Ok(pid) => MarkerStep::Query(pid),
                Err(e) => MarkerStep::Done(Probe::Failed(ProbeError::DataFormat(e))),
            },
        }
    }

    /// Concludes a probe. `pid` is the process that the marker names, and
    /// `image` the path of its program, or nothing where the system did not
    /// tell it.
    pub fn is_server_running(pid: u32, image: Option<&str>) -> (probe: Probe)
        ensures
            probe@ == probed(
                pid,
                match image {
                    Some(path) => Some(path@),
                    None => None,
                },
            ),
    {
        match image {
            None => Probe::Failed(ProbeError::PermissionDenied(pid)),
            Some(path) => {
                let (dir, name) = split_path(Style::Windows, path);
                let server = String::from_str(SERVER_EXE);
                if name == server {
                    Probe::Running(
                        ServerHandle {
                            client: join_path(Style::Windows, dir.as_str(), EMACSCLI_CMD),
                        },
                    )
                } else {
                    Probe::NotRunning
                }
            },
        }
    }

    /// Decides the next step in starting the server.
    ///
    /// The host starts the server with its standard streams tied to the null
    /// device and hands in how that went; it then waits for the process and
    /// hands in how the wait went.
    pub fn run_server_os(event: Launch) -> (step: LaunchStep)
        ensures
            step@ == match event {
                Launch::Spawned(Ok(_)) => after_spawn(None),
                Launch::Spawned(Err(reason)) => after_spawn(Some(reason@)),
                Launch::Waited(Ok(_)) => after_wait(None),
                Launch::Waited(Err(reason)) => after_wait(Some(reason@)),
            },
    {
        match event {
            Launch::Spawned(Ok(_)) => LaunchStep::Wait,
            Launch::Spawned(Err(reason)) => LaunchStep::Report {
                outcome: LaunchOutcome::ProcessSpawnFailed(reason),
                notice: None,
            },
            Launch::Waited(Ok(_)) => LaunchStep::Report {
                outcome: LaunchOutcome::Success,
                notice: None,
            },
            Launch::Waited(Err(reason)) => LaunchStep::Report {
                outcome: LaunchOutcome::Success,
                notice: Some(reason),
            },
        }
    }
}

/// The title of the dialog can be shown.
proof fn lemma_title_is_wide()
    ensures
        wide_c_string(TITLE@) is Some,
{
    reveal_strlit("ew");
    reveal_with_fuel(utf16, 3);
    let title = TITLE@;
    assert(title.drop_last().drop_last().len() == 0);
    let units = utf16(title);
    assert(units =~= seq![0x65u16, 0x77u16]);
}

impl Emacs for WinEmacs {
    open spec fn server_name(&self) -> Seq<char> {
        EMACS_CMD@
    }

    open spec fn path_style(&self) -> Style {
        Style::Windows
    }

    open spec fn fresh_command(path: Seq<char>) -> CommandView {
        CommandView::bare(path).silenced()
    }

    fn emacs_cmd(&self) -> (cmd: &'static str) {
        EMACS_CMD
    }

    fn style(&self) -> (style: Style) {
        Style::Windows
    }

    fn new_command(path: &str) -> (cmd: Command) {
        let mut command = Command::new(path);
        command.silence();
        command
    }
}

} // verus!
