use ewrs::emacs::command::Command;
use ewrs::emacs::options::{CommandModifier, ElispCommand, Options, StandardOptions};

fn argv(args: &[&str]) -> Vec<String> {
    args.iter().map(|s| s.to_string()).collect()
}

#[test]
fn test_parse_empty() {
    let args: Vec<String> = vec![];
    assert_eq!(
        Options::parse(&args),
        Options::Standard(StandardOptions {
            wait: false,
            args: vec![]
        })
    );
}

#[test]
fn test_parse_prog_only() {
    let args = argv(&["prog"]);
    assert_eq!(Options::parse(&args), Options::explicit(false, vec![]));
}

#[test]
fn test_parse_prog_and_args() {
    let args = argv(&["prog", "arg"]);
    assert_eq!(
        Options::parse(&args),
        Options::explicit(false, vec![String::from("arg")])
    );
}

#[test]
fn test_parse_wait_true() {
    let args = argv(&["prog", "-w"]);
    assert_eq!(Options::parse(&args), Options::explicit(true, vec![]));
}

#[test]
fn test_parse_wait_true_and_args() {
    let args = argv(&["prog", "-w", "arg1", "arg2"]);
    assert_eq!(
        Options::parse(&args),
        Options::explicit(true, vec![String::from("arg1"), String::from("arg2")])
    );
}

#[test]
fn test_parse_elisp_magit_without_dir() {
    let args = argv(&["prog", "-m"]);
    assert_eq!(
        Options::parse(&args),
        Options::Elisp(ElispCommand {
            elisp: "(magit-status)",
            dir: None,
        })
    )
}

#[test]
fn test_parse_elisp_magit_with_dir() {
    let args = argv(&["prog", "-m", "dir"]);
    assert_eq!(
        Options::parse(&args),
        Options::Elisp(ElispCommand {
            elisp: "(magit-status)",
            dir: Some(String::from("dir")),
        })
    )
}

#[test]
fn test_parse_short_help() {
    let args = argv(&["prog", "-h"]);
    assert_eq!(Options::parse(&args), Options::Help,)
}

#[test]
fn test_parse_long_help() {
    let args = argv(&["prog", "--help"]);
    assert_eq!(Options::parse(&args), Options::Help,)
}

#[test]
fn parse_keeps_plain_arguments_in_order() {
    let args = argv(&["ew", "b.txt", "a.txt", "+12", "b.txt", "--", "-x", "-W", "-M", "-H", ""]);
    assert_eq!(
        Options::parse(&args),
        Options::explicit(false, argv(&["b.txt", "a.txt", "+12", "b.txt", "--", "-x", "-W", "-M", "-H", ""]))
    );
}

#[test]
fn parse_takes_the_wait_flag_out_wherever_it_stands() {
    assert_eq!(
        Options::parse(&argv(&["ew", "a", "-w", "b", "-w"])),
        Options::explicit(true, argv(&["a", "b"]))
    );
    assert_eq!(
        Options::parse(&argv(&["ew", "-w", "a", "b"])),
        Options::explicit(true, argv(&["a", "b"]))
    );
}

#[test]
fn parse_magit_with_directory() {
    assert_eq!(
        Options::parse(&argv(&["ew", "-m", "/tmp/x"])),
        Options::Elisp(ElispCommand {
            elisp: "(magit-status)",
            dir: Some(String::from("/tmp/x")),
        })
    );
}

#[test]
fn parse_named_command_ends_the_reading() {
    // What stands before the flag is dropped, and only one argument behind it is read.
    assert_eq!(
        Options::parse(&argv(&["ew", "a", "-w", "-m", "dir", "more", "-m", "x"])),
        Options::Elisp(ElispCommand {
            elisp: "(magit-status)",
            dir: Some(String::from("dir")),
        })
    );
    // The argument behind the flag is its directory whatever it looks like.
    assert_eq!(
        Options::parse(&argv(&["ew", "-m", "-w"])),
        Options::Elisp(ElispCommand {
            elisp: "(magit-status)",
            dir: Some(String::from("-w")),
        })
    );
}

#[test]
fn parse_help_wins_over_everything() {
    assert_eq!(Options::parse(&argv(&["ew", "-m", "dir", "-h"])), Options::Help);
    assert_eq!(Options::parse(&argv(&["ew", "-w", "a", "--help", "b"])), Options::Help);
    assert_eq!(Options::parse(&argv(&["ew", "a", "-h", "--help"])), Options::Help);
}

#[test]
fn parse_passes_over_the_program_name() {
    assert_eq!(Options::parse(&argv(&["-h"])), Options::explicit(false, vec![]));
    assert_eq!(Options::parse(&argv(&["-w"])), Options::explicit(false, vec![]));
    assert_eq!(Options::parse(&argv(&["-m", "a"])), Options::explicit(false, argv(&["a"])));
}

#[test]
fn args_of_each_kind_of_request() {
    assert_eq!(Options::explicit(true, argv(&["a", "b"])).args(), &argv(&["a", "b"])[..]);
    assert!(Options::Help.args().is_empty());
    assert!(Options::Elisp(ElispCommand { elisp: "(magit-status)", dir: Some(String::from("d")) })
        .args()
        .is_empty());
}

#[test]
fn client_without_arguments_raises_the_frame() {
    for wait in [false, true] {
        let mut cmd = Command::new("emacsclient");
        Options::explicit(wait, vec![]).modify(&mut cmd);
        assert_eq!(
            cmd,
            Command {
                program: String::from("emacsclient"),
                args: argv(&["-u", "-e", "(select-frame-set-input-focus (selected-frame))"]),
                dir: None,
                null_stdio: false,
            }
        );
    }
}

#[test]
fn client_that_does_not_wait_gets_the_no_wait_flag() {
    let mut cmd = Command::new("emacsclient");
    Options::explicit(false, argv(&["file.txt", "-x"])).modify(&mut cmd);
    assert_eq!(cmd.args, argv(&["-n", "file.txt", "-x"]));
    assert_eq!(cmd.dir, None);
    assert_eq!(cmd.program, "emacsclient");
}

#[test]
fn client_that_waits_gets_the_arguments_alone() {
    let mut cmd = Command::new("emacsclient");
    StandardOptions { wait: true, args: argv(&["file.txt", "other"]) }.modify(&mut cmd);
    assert_eq!(cmd.args, argv(&["file.txt", "other"]));
}

#[test]
fn client_for_a_named_command() {
    let mut cmd = Command::new("emacsclient");
    ElispCommand { elisp: "(magit-status)", dir: Some(String::from("/proj")) }.modify(&mut cmd);
    assert_eq!(
        cmd,
        Command {
            program: String::from("emacsclient"),
            args: argv(&[
                "-u",
                "-e",
                "(progn (select-frame-set-input-focus (selected-frame)) (magit-status))"
            ]),
            dir: Some(String::from("/proj")),
            null_stdio: false,
        }
    );
    let mut bare = Command::new("c");
    Options::Elisp(ElispCommand { elisp: "(magit-status)", dir: None }).modify(&mut bare);
    assert_eq!(bare.dir, None);
    assert_eq!(bare.args.len(), 3);
}

#[test]
fn modify_adds_behind_what_is_there() {
    let mut cmd = Command::new("c");
    cmd.arg("first");
    cmd.current_dir("/keep");
    Options::explicit(false, argv(&["a"])).modify(&mut cmd);
    assert_eq!(cmd.args, argv(&["first", "-n", "a"]));
    assert_eq!(cmd.dir, Some(String::from("/keep")));
    let before = cmd.clone();
    Options::Help.modify(&mut cmd);
    assert_eq!(cmd, before);
}

#[test]
fn command_is_built_piece_by_piece() {
    let mut cmd = Command::new("prog");
    assert_eq!(cmd, Command { program: String::from("prog"), args: vec![], dir: None, null_stdio: false });
    cmd.arg("a");
    cmd.args(&argv(&["b", "c"]));
    cmd.args(&[]);
    cmd.current_dir("/d");
    cmd.silence();
    assert_eq!(
        cmd,
        Command {
            program: String::from("prog"),
            args: argv(&["a", "b", "c"]),
            dir: Some(String::from("/d")),
            null_stdio: true,
        }
    );
}

#[test]
fn only_a_waiting_request_is_with_client() {
    assert!(Options::explicit(true, vec![]).is_with_client());
    assert!(Options::explicit(true, argv(&["a"])).is_with_client());
    assert!(!Options::explicit(false, argv(&["a"])).is_with_client());
    assert!(!Options::Help.is_with_client());
    assert!(!Options::Elisp(ElispCommand { elisp: "(magit-status)", dir: None }).is_with_client());
}
