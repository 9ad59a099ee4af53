use ewrs::emacs::common::{DataFormatError, LaunchOutcome, Probe, ProbeError, ServerHandle};
use ewrs::emacs::options::{ElispCommand, Options};
use ewrs::{action_for, help, resume, run, Action, Event, State, Step};

fn argv(args: &[&str]) -> Vec<String> {
    args.iter().map(|s| s.to_string()).collect()
}

fn running(client: &str) -> Probe {
    Probe::Running(ServerHandle { client: String::from(client) })
}

fn handle(client: &str) -> ServerHandle {
    ServerHandle { client: String::from(client) }
}

fn started(path: &str) -> Event {
    Event::ServerStarted { path: String::from(path), outcome: LaunchOutcome::Success }
}

fn quiet(state: State, action: Action) -> Step {
    Step { state, notices: vec![], action }
}

fn failure(state: State, notice: &str) -> Step {
    Step { state, notices: vec![String::from(notice)], action: Action::Exit { code: 1 } }
}

#[test]
fn help_is_answered_at_once() {
    assert_eq!(run(&Options::Help), quiet(State::HelpShown, Action::ShowHelp));
    assert_eq!(
        resume(&Options::Help, State::Init, Event::Probed(Probe::NotRunning)),
        quiet(State::HelpShown, Action::ShowHelp)
    );
    assert!(help().starts_with("usage: ew [OPTION] [ARG ..]\n\n  ew [emacs argument ..]\n"));
    assert!(help().ends_with("  -m [DIR]     : Run magit-status on directory DIR\n"));
    assert_eq!(help().lines().count(), 13);
}

#[test]
fn every_other_request_begins_with_a_probe() {
    for opts in [
        Options::explicit(false, vec![]),
        Options::explicit(true, argv(&["a"])),
        Options::Elisp(ElispCommand { elisp: "(magit-status)", dir: None }),
    ] {
        assert_eq!(run(&opts), quiet(State::Init, Action::Probe));
    }
}

#[test]
fn scenario_no_server_fire_and_forget() {
    let opts = Options::explicit(false, argv(&["file.txt"]));
    let step = run(&opts);
    assert_eq!(step, quiet(State::Init, Action::Probe));
    let step = resume(&opts, step.state, Event::Probed(Probe::NotRunning));
    assert_eq!(step, quiet(State::NeedServer, Action::StartServer { args: argv(&["file.txt"]) }));
    let step = resume(&opts, step.state, started("/usr/bin/emacs"));
    assert_eq!(step, quiet(State::Finished, Action::Exit { code: 0 }));
}

#[test]
fn scenario_no_server_connect_and_wait() {
    let opts = Options::explicit(true, argv(&["file.txt"]));
    let step = resume(&opts, run(&opts).state, Event::Probed(Probe::NotRunning));
    assert_eq!(step, quiet(State::NeedServer, Action::StartServer { args: vec![] }));
    let mut step = resume(&opts, step.state, started("emacs"));
    for attempt in 1..=3u8 {
        assert_eq!(step, quiet(State::PollingForServer(attempt), Action::PollAfter { seconds: 1 }));
        step = resume(&opts, step.state, Event::Probed(Probe::NotRunning));
    }
    assert_eq!(step, quiet(State::PollingForServer(4), Action::PollAfter { seconds: 1 }));
    let step = resume(&opts, step.state, Event::Probed(running("emacsclient")));
    assert_eq!(
        step,
        quiet(
            State::ClientPath(handle("emacsclient")),
            Action::RunClient { client: String::from("emacsclient") }
        )
    );
    let step = resume(&opts, step.state, Event::ClientExited(LaunchOutcome::ExitedWithCode(3)));
    assert_eq!(step, failure(State::ClientFailed, "emacsclient: process exited with code 3"));
}

#[test]
fn scenario_first_poll_finds_the_server() {
    let opts = Options::explicit(true, vec![]);
    let step = resume(&opts, State::NeedServer, started("emacs"));
    assert_eq!(step, quiet(State::PollingForServer(1), Action::PollAfter { seconds: 1 }));
    let step = resume(&opts, step.state, Event::Probed(running("/bin/emacsclient")));
    assert_eq!(
        step,
        quiet(
            State::ClientPath(handle("/bin/emacsclient")),
            Action::RunClient { client: String::from("/bin/emacsclient") }
        )
    );
    let step = resume(&opts, step.state, Event::ClientExited(LaunchOutcome::Success));
    assert_eq!(step, quiet(State::Finished, Action::Exit { code: 0 }));
}

#[test]
fn scenario_all_polls_fail() {
    let opts = Options::explicit(true, argv(&["file.txt"]));
    let mut step = resume(&opts, State::NeedServer, started("emacs"));
    let mut polls = 0;
    while let Action::PollAfter { seconds } = step.action {
        assert_eq!(seconds, 1);
        assert!(step.notices.is_empty());
        polls += 1;
        assert_eq!(step.state, State::PollingForServer(polls));
        step = resume(&opts, step.state, Event::Probed(Probe::NotRunning));
    }
    assert_eq!(polls, 10);
    assert_eq!(step, failure(State::PollTimedOut, "Timed out to wait for Emacs server"));
}

#[test]
fn scenario_server_present_named_command() {
    let opts = Options::Elisp(ElispCommand {
        elisp: "(magit-status)",
        dir: Some(String::from("/proj")),
    });
    let step = resume(&opts, run(&opts).state, Event::Probed(running("emacsclient")));
    assert_eq!(
        step,
        quiet(
            State::ClientPath(handle("emacsclient")),
            Action::RunClient { client: String::from("emacsclient") }
        )
    );
    let step = resume(&opts, step.state, Event::ClientExited(LaunchOutcome::Success));
    assert_eq!(step, quiet(State::Finished, Action::Exit { code: 0 }));
}

#[test]
fn named_command_without_a_server_only_starts_one() {
    let opts = Options::Elisp(ElispCommand { elisp: "(magit-status)", dir: Some(String::from("/p")) });
    let step = resume(&opts, State::Init, Event::Probed(Probe::NotRunning));
    assert_eq!(step, quiet(State::NeedServer, Action::StartServer { args: vec![] }));
    let step = resume(&opts, step.state, started("emacs"));
    assert_eq!(step, quiet(State::Finished, Action::Exit { code: 0 }));
}

#[test]
fn failed_start_ends_the_run() {
    for opts in [Options::explicit(true, vec![]), Options::explicit(false, argv(&["a"]))] {
        let step = resume(
            &opts,
            State::NeedServer,
            Event::ServerStarted {
                path: String::from("emacs"),
                outcome: LaunchOutcome::ProcessSpawnFailed(String::from("fork failed")),
            },
        );
        assert_eq!(step, failure(State::SpawnFailed, "fork failed"));
    }
}

#[test]
fn client_killed_by_a_signal() {
    let opts = Options::explicit(false, argv(&["a"]));
    let step = resume(
        &opts,
        State::ClientPath(handle("/bin/emacsclient")),
        Event::ClientExited(LaunchOutcome::KilledBySignal),
    );
    assert_eq!(step, failure(State::ClientFailed, "/bin/emacsclient: process exited by signal"));
    let step = resume(
        &opts,
        State::ClientPath(handle("emacsclient")),
        Event::ClientExited(LaunchOutcome::ProcessSpawnFailed(String::from("not found"))),
    );
    assert_eq!(step, failure(State::ClientFailed, "not found"));
}

#[test]
fn malformed_marker_ends_the_run() {
    let opts = Options::explicit(false, vec![]);
    for (error, text) in [
        (ProbeError::DataFormat(DataFormatError::NoPidPart), "No pid part"),
        (ProbeError::DataFormat(DataFormatError::NotANumber), "Not a number"),
        (ProbeError::Unreadable(String::from("locked")), "locked"),
        (ProbeError::HomeNotSet, "HOME is not set"),
    ] {
        let step = resume(&opts, State::Init, Event::Probed(Probe::Failed(error.clone())));
        assert_eq!(step, failure(State::ProbeFailed, text));
        let step = resume(&opts, State::PollingForServer(2), Event::Probed(Probe::Failed(error)));
        assert_eq!(step, failure(State::ProbeFailed, text));
    }
}

#[test]
fn denied_query_is_told_and_counts_as_no_server() {
    let opts = Options::explicit(true, argv(&["a"]));
    let denied = || Event::Probed(Probe::Failed(ProbeError::PermissionDenied(6764)));
    let notice = String::from("Permission denied to query process 6764");
    assert_eq!(
        resume(&opts, State::Init, denied()),
        Step {
            state: State::NeedServer,
            notices: vec![notice.clone()],
            action: Action::StartServer { args: vec![] },
        }
    );
    assert_eq!(
        resume(&opts, State::PollingForServer(9), denied()),
        Step {
            state: State::PollingForServer(10),
            notices: vec![notice.clone()],
            action: Action::PollAfter { seconds: 1 },
        }
    );
    assert_eq!(
        resume(&opts, State::PollingForServer(10), denied()),
        Step {
            state: State::PollTimedOut,
            notices: vec![notice, String::from("Timed out to wait for Emacs server")],
            action: Action::Exit { code: 1 },
        }
    );
}

#[test]
fn unexpected_events_change_nothing() {
    let opts = Options::explicit(false, argv(&["a", "b"]));
    assert_eq!(
        resume(&opts, State::Init, Event::ClientExited(LaunchOutcome::Success)),
        quiet(State::Init, Action::Probe)
    );
    assert_eq!(
        resume(&opts, State::NeedServer, Event::Probed(running("c"))),
        quiet(State::NeedServer, Action::StartServer { args: argv(&["a", "b"]) })
    );
    assert_eq!(
        resume(&opts, State::ClientPath(handle("c")), started("emacs")),
        quiet(State::ClientPath(handle("c")), Action::RunClient { client: String::from("c") })
    );
    assert_eq!(
        resume(&opts, State::PollingForServer(3), started("emacs")),
        quiet(State::PollingForServer(3), Action::PollAfter { seconds: 1 })
    );
    assert_eq!(
        resume(&opts, State::Finished, Event::Probed(Probe::NotRunning)),
        quiet(State::Finished, Action::Exit { code: 0 })
    );
    for state in [State::ClientFailed, State::SpawnFailed, State::PollTimedOut, State::ProbeFailed] {
        let step = resume(&opts, state, Event::Probed(running("c")));
        assert_eq!(step.action, Action::Exit { code: 1 });
        assert!(step.notices.is_empty());
    }
}

#[test]
fn polls_beyond_the_last_time_out() {
    let opts = Options::explicit(true, vec![]);
    for n in [10u8, 11, 255] {
        let step = resume(&opts, State::PollingForServer(n), Event::Probed(Probe::NotRunning));
        assert_eq!(step, failure(State::PollTimedOut, "Timed out to wait for Emacs server"));
    }
}

#[test]
fn action_of_each_state() {
    let opts = Options::explicit(false, argv(&["a"]));
    assert_eq!(action_for(&opts, &State::Init), Action::Probe);
    assert_eq!(action_for(&opts, &State::NeedServer), Action::StartServer { args: argv(&["a"]) });
    assert_eq!(
        action_for(&Options::explicit(true, argv(&["a"])), &State::NeedServer),
        Action::StartServer { args: vec![] }
    );
    assert_eq!(action_for(&opts, &State::PollingForServer(1)), Action::PollAfter { seconds: 1 });
    assert_eq!(
        action_for(&opts, &State::ClientPath(handle("c"))),
        Action::RunClient { client: String::from("c") }
    );
    assert_eq!(action_for(&opts, &State::Finished), Action::Exit { code: 0 });
    assert_eq!(action_for(&opts, &State::HelpShown), Action::ShowHelp);
    assert_eq!(action_for(&opts, &State::PollTimedOut), Action::Exit { code: 1 });
}
