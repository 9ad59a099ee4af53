//! A launcher that makes one editor behave like a daemon with thin clients.
//!
//! The crate holds the decisions only: what a command line means, where a
//! running server leaves its marker, which process to start next and how its
//! end is reported. Touching the machine is left to the host program, which
//! performs each step that the library asks for and hands the outcome back.

pub mod emacs;
pub mod paths;
pub mod text;

use crate::emacs::command::clone_strings;
use crate::emacs::common::{
    LaunchOutcome, LaunchOutcomeView, Probe, ProbeView, ServerHandle, TIMED_OUT,
};
use crate::emacs::options::{Options, OptionsView};
use vstd::prelude::*;
use vstd::string::*;

verus! {

/// How often the launcher looks for a server that it has just started.
pub const MAX_POLLS: u8 = 10;

/// How many seconds pass before each such look.
pub const POLL_INTERVAL: u64 = 1;

/// The exit code of a run that did what was asked.
pub const EXIT_SUCCESS: i32 = 0;

/// The exit code of a run that told the user of a failure.
pub const EXIT_FAILURE: i32 = 1;

/// How to use the program.
pub const USAGE: &'static str = "usage: ew [OPTION] [ARG ..]

  ew [emacs argument ..]
  ew -w [emacsclient argument ..]
  ew -m [DIR]
  ew (-h|--help)

options:
  -w           : Wait to finish editing.
  -h, --help   : Show this help.

elisp commands:
  -m [DIR]     : Run magit-status on directory DIR
";

/// Where a run stands. In every state but the last six the host is at work
/// on the one thing that the state waits for.
#[derive(Debug, PartialEq, Eq)]
pub enum State {
    /// The first look for a server is under way.
    Init,
    /// A client is running against a server; the path of the client.
    ClientPath(ServerHandle),
    /// No server was found: one is being started.
    NeedServer,
    /// A server was started and is being looked for; the number of this
    /// look, from one.
    PollingForServer(u8),
    /// The end: what was asked has been done.
    Finished,
    /// The end: usage has been shown.
    HelpShown,
    /// The end: the client failed.
    ClientFailed,
    /// The end: the server could not be started.
    SpawnFailed,
    /// The end: the started server did not show up in time.
    PollTimedOut,
    /// The end: a look for the server failed for good.
    ProbeFailed,
}

/// What the host is to do.
#[derive(Debug, PartialEq, Eq)]
pub enum Action {
    /// Look for a running server, and hand in what was found.
    Probe,
    /// Find the server's program and start it, set free of the caller, with
    /// these arguments; hand in the program and how that went.
    StartServer { args: Vec<String> },
    /// Let this many seconds pass, then look for a running server, and hand
    /// in what was found.
    PollAfter { seconds: u64 },
    /// Run this client for the request and wait for its end; hand in how it
    /// ended.
    RunClient { client: String },
    /// Print the usage, then leave with the code of a success.
    ShowHelp,
    /// Leave with this code.
    Exit { code: i32 },
}

/// One step of a run: the state it leads to, what the user is to be told
/// first, in this order, and what the host is to do then.
#[derive(Debug, PartialEq, Eq)]
pub struct Step {
    pub state: State,
    pub notices: Vec<String>,
    pub action: Action,
}

/// What the host hands in.
#[derive(Debug, PartialEq, Eq)]
pub enum Event {
    /// A look for the server ended.
    Probed(Probe),
    /// The server's program was found at `path`, and starting it ended so.
    ServerStarted { path: String, outcome: LaunchOutcome },
    /// The client ended so.
    ClientExited(LaunchOutcome),
}

/// A `State` as plain text.
pub enum StateView {
    Init,
    ClientPath(Seq<char>),
    NeedServer,
    PollingForServer(u8),
    Finished,
    HelpShown,
    ClientFailed,
    SpawnFailed,
    PollTimedOut,
    ProbeFailed,
}

/// An `Action` as plain text.
pub enum ActionView {
    Probe,
    StartServer { args: Seq<Seq<char>> },
    PollAfter { seconds: u64 },
    RunClient { client: Seq<char> },
    ShowHelp,
    Exit { code: i32 },
}

/// A `Step` as plain text.
pub struct StepView {
    pub state: StateView,
    pub notices: Seq<Seq<char>>,
    pub action: ActionView,
}

/// An `Event` as plain text.
pub enum EventView {
    Probed(ProbeView),
    ServerStarted { path: Seq<char>, outcome: LaunchOutcomeView },
    ClientExited(LaunchOutcomeView),
}

impl View for State {
    type V = StateView;

    open spec fn view(&self) -> StateView {
        match self {
            State::Init => StateView::Init,
            State::ClientPath(handle) => StateView::ClientPath(handle@),
            State::NeedServer => StateView::NeedServer,
            State::PollingForServer(n) => StateView::PollingForServer(*n),
            State::Finished => StateView::Finished,
            State::HelpShown => StateView::HelpShown,
            State::ClientFailed => StateView::ClientFailed,
            State::SpawnFailed => StateView::SpawnFailed,
            State::PollTimedOut => StateView::PollTimedOut,
            State::ProbeFailed => StateView::ProbeFailed,
        }
    }
}

impl View for Action {
    type V = ActionView;

    open spec fn view(&self) -> ActionView {
        match self {
            Action::Probe => ActionView::Probe,
            Action::StartServer { args } => ActionView::StartServer { args: args.deep_view() },
            Action::PollAfter { seconds } => ActionView::PollAfter { seconds: *seconds },
            Action::RunClient { client } => ActionView::RunClient { client: client@ },
            Action::ShowHelp => ActionView::ShowHelp,
            Action::Exit { code } => ActionView::Exit { code: *code },
        }
    }
}

impl View for Step {
    type V = StepView;

    open spec fn view(&self) -> StepView {
        StepView {
            state: self.state@,
            notices: self.notices.deep_view(),
            action: self.action@,
        }
    }
}

impl View for Event {
    type V = EventView;

    open spec fn view(&self) -> EventView {
        match self {
            Event::Probed(probe) => EventView::Probed(probe@),
            Event::ServerStarted { path, outcome } => EventView::ServerStarted {
                path: path@,
                outcome: outcome@,
            },
            Event::ClientExited(outcome) => EventView::ClientExited(outcome@),
        }
    }
}

impl StateView {
    /// Whether the run is over.
    pub open spec fn is_terminal(self) -> bool {
        self is Finished || self is HelpShown || self.is_failure()
    }

    /// Whether the run is over and has failed.
    pub open spec fn is_failure(self) -> bool {
        self is ClientFailed || self is SpawnFailed || self is PollTimedOut || self is ProbeFailed
    }

    /// Whether the state is one that a run can be in: the looks for a
    /// started server are numbered from one to `MAX_POLLS`.
    pub open spec fn is_valid(self) -> bool {
        self matches StateView::PollingForServer(n) ==> 1 <= n <= MAX_POLLS
    }

    /// Whether the state waits for `event`.
    pub open spec fn expects(self, event: EventView) -> bool {
        match self {
            StateView::Init => event is Probed,
            StateView::PollingForServer(_) => event is Probed,
            StateView::NeedServer => event is ServerStarted,
            StateView::ClientPath(_) => event is ClientExited,
            _ => false,
        }
    }

    /// An upper bound on the events that a run in this state still waits
    /// for.
    pub open spec fn steps_left(self) -> nat {
        match self {
            StateView::Init => (MAX_POLLS + 3) as nat,
            StateView::NeedServer => (MAX_POLLS + 2) as nat,
            StateView::PollingForServer(n) => if n <= MAX_POLLS {
                (MAX_POLLS + 2 - n) as nat
            } else {
                2
            },
            StateView::ClientPath(_) => 1,
            _ => 0,
        }
    }
}

/// The arguments that a server is started with: those of the request,
/// unless a client is to follow, which then gets them.
pub open spec fn server_args(opts: OptionsView) -> Seq<Seq<char>> {
    match opts {
        OptionsView::Standard(standard) => if standard.wait {
            Seq::empty()
        } else {
            standard.args
        },
        _ => Seq::empty(),
    }
}

/// What the host is to do in `state`.
pub open spec fn pending(opts: OptionsView, state: StateView) -> ActionView {
    match state {
        StateView::Init => ActionView::Probe,
        StateView::ClientPath(client) => ActionView::RunClient { client },
        StateView::NeedServer => ActionView::StartServer { args: server_args(opts) },
        StateView::PollingForServer(_) => ActionView::PollAfter { seconds: POLL_INTERVAL },
        StateView::Finished => ActionView::Exit { code: EXIT_SUCCESS },
        StateView::HelpShown => ActionView::ShowHelp,
        _ => ActionView::Exit { code: EXIT_FAILURE },
    }
}

/// The step into `state` that tells the user `notices` first.
pub open spec fn enter(opts: OptionsView, state: StateView, notices: Seq<Seq<char>>) -> StepView {
    StepView { state, notices, action: pending(opts, state) }
}

/// The first step of a run: a request for help is answered at once;
/// anything else begins with a look for the server.
pub open spec fn first_step(opts: OptionsView) -> StepView {
    if opts is Help {
        enter(opts, StateView::HelpShown, Seq::empty())
    } else {
        enter(opts, StateView::Init, Seq::empty())
    }
}

/// The step that follows when no server shows: at first one is started;
/// a started one is looked for again, until the looks are used up.
pub open spec fn after_absence(
    opts: OptionsView,
    state: StateView,
    notices: Seq<Seq<char>>,
) -> StepView {
    match state {
        StateView::PollingForServer(n) => if n < MAX_POLLS {
            enter(opts, StateView::PollingForServer((n + 1) as u8), notices)
        } else {
            enter(opts, StateView::PollTimedOut, notices.push(TIMED_OUT@))
        },
        _ => enter(opts, StateView::NeedServer, notices),
    }
}

/// The step that follows a look for the server. A server that shows gets a
/// client. A look that the system denied is told to the user and then
/// counts as one that found nothing. Any other failed look ends the run.
pub open spec fn after_probe(opts: OptionsView, state: StateView, probe: ProbeView) -> StepView {
    match probe {
        ProbeView::Running(client) => enter(opts, StateView::ClientPath(client), Seq::empty()),
        ProbeView::NotRunning => after_absence(opts, state, Seq::empty()),
        ProbeView::Failed(e) => if e.is_recoverable() {
            after_absence(opts, state, seq![e.message()])
        } else {
            enter(opts, StateView::ProbeFailed, seq![e.message()])
        },
    }
}

/// The step that follows the start of the server at `path`. A failed start
/// ends the run. After a start the run is over, unless the request is to
/// connect and wait: then the server is looked for.
pub open spec fn after_start(
    opts: OptionsView,
    path: Seq<char>,
    outcome: LaunchOutcomeView,
) -> StepView {
    match outcome.message(path) {
        Some(text) => enter(opts, StateView::SpawnFailed, seq![text]),
        None => if opts.waits() {
            enter(opts, StateView::PollingForServer(1), Seq::empty())
        } else {
            enter(opts, StateView::Finished, Seq::empty())
        },
    }
}

/// The step that follows the end of the client at `client`: the run ends
/// as the client did.
pub open spec fn after_client(
    opts: OptionsView,
    client: Seq<char>,
    outcome: LaunchOutcomeView,
) -> StepView {
    match outcome.message(client) {
        Some(text) => enter(opts, StateView::ClientFailed, seq![text]),
        None => enter(opts, StateView::Finished, Seq::empty()),
    }
}

/// The step that `event` leads to from `state`. An event that the state
/// does not wait for changes nothing, and what the host was to do is asked
/// of it again. A request for help is never orchestrated.
pub open spec fn next_step(opts: OptionsView, state: StateView, event: EventView) -> StepView {
    if opts is Help {
        first_step(opts)
    } else {
        match (state, event) {
            (StateView::Init, EventView::Probed(probe)) => after_probe(opts, state, probe),
            (StateView::PollingForServer(_), EventView::Probed(probe)) => after_probe(
                opts,
                state,
                probe,
            ),
            (StateView::NeedServer, EventView::ServerStarted { path, outcome }) => after_start(
                opts,
                path,
                outcome,
            ),
            (StateView::ClientPath(client), EventView::ClientExited(outcome)) => after_client(
                opts,
                client,
                outcome,
            ),
            _ => enter(opts, state, Seq::empty()),
        }
    }
}

/// The usage text.
pub fn help() -> (text: &'static str)
    ensures
        text@ == USAGE@,
{
    USAGE
}

/// What the host is to do in `state`.
pub fn action_for(opts: &Options, state: &State) -> (action: Action)
    ensures
        action@ == pending(opts@, state@),
{
    match state {
        State::Init => Action::Probe,
        State::ClientPath(handle) => Action::RunClient { client: handle.client.clone() },
        State::NeedServer => {
            let args = match opts {
                Options::Standard(standard) => if standard.wait {
                    Vec::new()
                } else {
                    clone_strings(standard.args.as_slice())
                },
                _ => Vec::new(),
            };
            assert(args.deep_view() =~= server_args(opts@));
            Action::StartServer { args }
        },
        State::PollingForServer(_) => Action::PollAfter { seconds: POLL_INTERVAL },
        State::Finished => Action::Exit { code: EXIT_SUCCESS },
        State::HelpShown => Action::ShowHelp,
        _ => Action::Exit { code: EXIT_FAILURE },
    }
}

/// The step into `state` that tells the user `notices` first.
fn enter_state(opts: &Options, state: State, notices: Vec<String>) -> (step: Step)
    ensures
        step@ == enter(opts@, state@, notices.deep_view()),
{
    let action = action_for(opts, &state);
    Step { state, notices, action }
}

/// No notices.
fn nothing() -> (notices: Vec<String>)
    ensures
        notices.deep_view() == Seq::<Seq<char>>::empty(),
{
    let notices: Vec<String> = Vec::new();
    assert(notices.deep_view() =~= Seq::<Seq<char>>::empty());
    notices
}

/// One notice.
fn only(text: String) -> (notices: Vec<String>)
    ensures
        notices.deep_view() == seq![text@],
{
    let mut notices: Vec<String> = Vec::new();
    notices.push(text);
    assert(notices.deep_view() =~= seq![text@]);
    notices
}

/// Begins a run: says what the host is to do first for the request `opts`.
pub fn run(opts: &Options) -> (step: Step)
    ensures
        step@ == first_step(opts@),
{
    match opts {
        Options::Help => enter_state(opts, State::HelpShown, nothing()),
        _ => enter_state(opts, State::Init, nothing()),
    }
}

/// The step that follows when no server shows.
fn step_after_absence(opts: &Options, state: State, notices: Vec<String>) -> (step: Step)
    ensures
        step@ == after_absence(opts@, state@, notices.deep_view()),
{
    match state {
        State::PollingForServer(n) => {
            if n < MAX_POLLS {
                enter_state(opts, State::PollingForServer(n + 1), notices)
            } else {
                let ghost before = notices.deep_view();
                let mut notices = notices;
                notices.push(String::from_str(TIMED_OUT));
                assert(notices.deep_view() =~= before.push(TIMED_OUT@));
                enter_state(opts, State::PollTimedOut, notices)
            }
        },
        _ => enter_state(opts, State::NeedServer, notices),
    }
}

/// Goes on with a run: says what the host is to do after `event`, which it
/// hands in while the run is in `state`.
pub fn resume(opts: &Options, state: State, event: Event) -> (step: Step)
    ensures
        step@ == next_step(opts@, state@, event@),
{
    if let Options::Help = opts {
        return run(opts);
    }
    match (state, event) {
        (State::Init, Event::Probed(probe)) => step_after_probe(opts, State::Init, probe),
        (State::PollingForServer(n), Event::Probed(probe)) => step_after_probe(
            opts,
            State::PollingForServer(n),
            probe,
        ),
        (State::NeedServer, Event::ServerStarted { path, outcome }) => {
            match outcome.message(path.as_str()) {
                Some(text) => enter_state(opts, State::SpawnFailed, only(text)),
                None => {
                    if opts.is_with_client() {
                        enter_state(opts, State::PollingForServer(1), nothing())
                    } else {
                        enter_state(opts, State::Finished, nothing())
                    }
                },
            }
        },
        (State::ClientPath(handle), Event::ClientExited(outcome)) => {
            match outcome.message(handle.client.as_str()) {
                Some(text) => enter_state(opts, State::ClientFailed, only(text)),
                None => enter_state(opts, State::Finished, nothing()),
            }
        },
        (state, _) => enter_state(opts, state, nothing()),
    }
}

/// The step that follows a look for the server.
fn step_after_probe(opts: &Options, state: State, probe: Probe) -> (step: Step)
    ensures
        step@ == after_probe(opts@, state@, probe@),
{
    match probe {
        Probe::Running(handle) => enter_state(opts, State::ClientPath(handle), nothing()),
        Probe::NotRunning => step_after_absence(opts, state, nothing()),
        Probe::Failed(e) => {
            let text = e.message();
            if e.is_recoverable() {
                step_after_absence(opts, state, only(text))
            } else {
                enter_state(opts, State::ProbeFailed, only(text))
            }
        },
    }
}

/// Every event that a state waits for brings the run nearer to its end,
/// and leads to a state that a run can be in. So a run takes no more than
/// `MAX_POLLS + 3` such events, whatever the host hands in.
pub proof fn lemma_run_is_bounded(opts: OptionsView, state: StateView, event: EventView)
    requires
        state.is_valid(),
        state.expects(event),
    ensures
        next_step(opts, state, event).state.is_valid(),
        next_step(opts, state, event).state.steps_left() < state.steps_left(),
        state.steps_left() <= MAX_POLLS + 3,
{
}

/// An event that the state does not wait for changes nothing: the state
/// stays, the user is told nothing, and the host is asked again for what
/// the state waits for.
pub proof fn lemma_unexpected_event_is_ignored(
    opts: OptionsView,
    state: StateView,
    event: EventView,
)
    requires
        !(opts is Help),
        !state.expects(event),
    ensures
        next_step(opts, state, event) == enter(opts, state, Seq::empty()),
{
}

/// A run that is over stays over, in the state it ended in.
pub proof fn lemma_end_is_final(opts: OptionsView, state: StateView, event: EventView)
    requires
        !(opts is Help),
        state.is_terminal(),
    ensures
        next_step(opts, state, event).state == state,
        next_step(opts, state, event).notices.len() == 0,
{
}

/// How a run ends is how the host leaves: with the code of a failure
/// exactly from a state of failure, and with the code of a success from
/// `Finished`. The step that ends a run in failure tells the user why.
pub proof fn lemma_failures_are_reported(opts: OptionsView, state: StateView, event: EventView)
    ensures
        ({
            let step = next_step(opts, state, event);
            &&& step.action == pending(opts, step.state)
            &&& step.state.is_failure() <==> step.action == (ActionView::Exit {
                code: EXIT_FAILURE,
            })
            &&& step.state is Finished <==> step.action == (ActionView::Exit {
                code: EXIT_SUCCESS,
            })
            &&& step.state.is_failure() && !state.is_failure() ==> step.notices.len() > 0
            &&& step.state is Finished ==> step.notices.len() == 0
        }),
{
}

/// A client is run only against a server that a look has just found, and
/// it is the client that the look came up with.
pub proof fn lemma_client_needs_server(opts: OptionsView, state: StateView, event: EventView)
    requires
        next_step(opts, state, event).state is ClientPath,
        !(state is ClientPath),
    ensures
        event == EventView::Probed(ProbeView::Running(next_step(opts, state, event).state->ClientPath_0)),
        state is Init || state is PollingForServer,
{
}

/// A request that does not ask to connect and wait is done once the server
/// has been started with the request's arguments: no look for that server
/// follows.
pub proof fn lemma_start_alone_serves(opts: OptionsView, path: Seq<char>)
    requires
        !(opts is Help),
        !opts.waits(),
    ensures
        pending(opts, StateView::NeedServer) == (ActionView::StartServer {
            args: match opts {
                OptionsView::Standard(standard) => standard.args,
                _ => Seq::empty(),
            },
        }),
        next_step(
            opts,
            StateView::NeedServer,
            EventView::ServerStarted { path, outcome: LaunchOutcomeView::Success },
        ) == enter(opts, StateView::Finished, Seq::empty()),
{
}

/// The state of a run that has started a server and then looked for it in
/// vain `looks` times.
pub open spec fn after_vain_looks(opts: OptionsView, looks: nat) -> StateView
    decreases looks,
{
    if looks == 0 {
        StateView::PollingForServer(1)
    } else {
        next_step(
            opts,
            after_vain_looks(opts, (looks - 1) as nat),
            EventView::Probed(ProbeView::NotRunning),
        ).state
    }
}

/// A started server is looked for `MAX_POLLS` times and no more: while
/// fewer looks were in vain the next one is under way, and once all were
/// the run has ended as timed out.
pub proof fn lemma_looks_are_counted(opts: OptionsView, looks: nat)
    requires
        !(opts is Help),
    ensures
        looks < MAX_POLLS ==> after_vain_looks(opts, looks) == StateView::PollingForServer(
            (looks + 1) as u8,
        ),
        looks >= MAX_POLLS ==> after_vain_looks(opts, looks) == StateView::PollTimedOut,
    decreases looks,
{
    if looks > 0 {
        lemma_looks_are_counted(opts, (looks - 1) as nat);
    }
}

/// The look that is the last one in vain ends the run: the user is told
/// that the wait timed out, and the host leaves with the code of a failure.
pub proof fn lemma_last_look_times_out(opts: OptionsView)
    requires
        !(opts is Help),
    ensures
        next_step(
            opts,
            StateView::PollingForServer(MAX_POLLS),
            EventView::Probed(ProbeView::NotRunning),
        ) == (StepView {
            state: StateView::PollTimedOut,
            notices: seq![TIMED_OUT@],
            action: ActionView::Exit { code: EXIT_FAILURE },
        }),
{
    assert(Seq::<Seq<char>>::empty().push(TIMED_OUT@) =~= seq![TIMED_OUT@]);
}

} // verus!
