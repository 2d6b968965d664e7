use fluxer_desktop_dev::canary::kill;
use fluxer_desktop_dev::canary::kill_pids;
use fluxer_desktop_dev::canary::list_listeners;
use fluxer_desktop_dev::canary::pids_listening_on_tcp_port;
use fluxer_desktop_dev::canary::quit_by_id;
use fluxer_desktop_dev::canary::quit_by_name;
use fluxer_desktop_dev::canary::run_best_effort;
use fluxer_desktop_dev::canary::stop_running_canary_on_host;
use fluxer_desktop_dev::canary::terminate_by_name;
use fluxer_desktop_dev::canary::terminate_rpc_port_processes;
use fluxer_desktop_dev::canary::CANARY_RPC_PORT;
use fluxer_desktop_dev::error::DesktopError;
use fluxer_desktop_dev::replay::Effect;
use fluxer_desktop_dev::replay::ProcessOutput;
use fluxer_desktop_dev::replay::ProcessSpec;
use fluxer_desktop_dev::replay::Progress;
use fluxer_desktop_dev::replay::Reply;
use fluxer_desktop_dev::replay::Stream;

fn drive<T: std::fmt::Debug + PartialEq>(
    workflow: impl Fn(&[Reply]) -> Progress<T>,
    script: Vec<(Effect, Reply)>,
) -> Progress<T> {
    let mut log: Vec<Reply> = Vec::new();
    for (effect, reply) in script {
        assert_eq!(workflow(&log), Progress::Pending(effect));
        log.push(reply);
    }
    workflow(&log)
}

fn strings(items: &[&str]) -> Vec<String> {
    items.iter().map(|item| (*item).to_owned()).collect()
}

fn exited(success: bool, stdout: &[u8]) -> Reply {
    Reply::Exited(ProcessOutput { success, stdout: stdout.to_vec(), stderr: vec![] })
}

fn done(next: usize) -> Progress<()> {
    Progress::Ready { value: (), next }
}

fn list(reply: Reply) -> (Effect, Reply) {
    (Effect::Execute(list_listeners(CANARY_RPC_PORT)), reply)
}

fn signal(name: &str, pids: &[&str], reply: Reply) -> (Effect, Reply) {
    (Effect::Execute(kill(name, &strings(pids))), reply)
}

fn arm() -> (Effect, Reply) {
    (Effect::ArmDeadline { millis: 5000 }, Reply::Done)
}

fn ahead(yes: bool) -> (Effect, Reply) {
    (Effect::DeadlineAhead, Reply::Answer(yes))
}

fn sleep() -> (Effect, Reply) {
    (Effect::Sleep { millis: 250 }, Reply::Done)
}

fn terminate(script: Vec<(Effect, Reply)>) -> Progress<()> {
    drive(|log| terminate_rpc_port_processes(CANARY_RPC_PORT, log, 0), script)
}

fn silent(program: &str, args: &[&str]) -> ProcessSpec {
    ProcessSpec {
        program: program.to_owned(),
        args: strings(args),
        stdin: Stream::Null,
        stdout: Stream::Null,
        stderr: Stream::Null,
    }
}

fn quit_requests() -> [ProcessSpec; 6] {
    [
        silent("osascript", &["-e", "tell application id \"app.fluxer.canary.dev\" to quit"]),
        silent("osascript", &["-e", "tell application id \"app.fluxer.canary\" to quit"]),
        silent("osascript", &["-e", "tell application \"Fluxer Canary (Dev)\" to quit"]),
        silent("pkill", &["-TERM", "-x", "Fluxer Canary (Dev)"]),
        silent("osascript", &["-e", "tell application \"Fluxer Canary\" to quit"]),
        silent("pkill", &["-TERM", "-x", "Fluxer Canary"]),
    ]
}

#[test]
fn requests_to_quit_are_made_in_silence() {
    assert_eq!(
        quit_by_id("a.b"),
        silent("osascript", &["-e", "tell application id \"a.b\" to quit"])
    );
    assert_eq!(
        quit_by_name("A B"),
        silent("osascript", &["-e", "tell application \"A B\" to quit"])
    );
    assert_eq!(terminate_by_name("A B"), silent("pkill", &["-TERM", "-x", "A B"]));
}

#[test]
fn listeners_are_listed_by_port() {
    assert_eq!(CANARY_RPC_PORT, 21864);
    assert_eq!(
        list_listeners(21864),
        ProcessSpec {
            program: "lsof".to_owned(),
            args: strings(&["-ti", "tcp:21864"]),
            stdin: Stream::Null,
            stdout: Stream::Piped,
            stderr: Stream::Null,
        }
    );
    assert_eq!(list_listeners(0).args[1], "tcp:0");
    assert_eq!(list_listeners(65535).args[1], "tcp:65535");
}

#[test]
fn signals_go_to_all_processes_at_once() {
    assert_eq!(
        kill("-TERM", &strings(&["1", "22"])),
        ProcessSpec {
            program: "kill".to_owned(),
            args: strings(&["-TERM", "1", "22"]),
            stdin: Stream::Inherit,
            stdout: Stream::Inherit,
            stderr: Stream::Inherit,
        }
    );
}

#[test]
fn processes_are_read_off_the_output() {
    let pids = |reply| {
        drive(
            |log| pids_listening_on_tcp_port(80, log, 0),
            vec![(Effect::Execute(list_listeners(80)), reply)],
        )
    };
    assert_eq!(
        pids(exited(true, b" 12\n\n345 \r\n")),
        Progress::Ready { value: strings(&["12", "345"]), next: 1 }
    );
    assert_eq!(
        pids(exited(true, b"1\xff2\n")),
        Progress::Ready { value: strings(&["1\u{fffd}2"]), next: 1 }
    );
    assert_eq!(pids(exited(false, b"12\n")), Progress::Ready { value: vec![], next: 1 });
    assert_eq!(
        pids(Reply::Failed("no lsof".to_owned())),
        Progress::Failed(DesktopError::ListPids { cause: "no lsof".to_owned() })
    );
    assert_eq!(pids(Reply::Done), Progress::Failed(DesktopError::UnexpectedReply { at: 0 }));
}

#[test]
fn no_signal_goes_out_without_a_target() {
    assert_eq!(kill_pids("-TERM", vec![], &[], 0), done(0));
    assert_eq!(kill_pids("-KILL", vec![], &[Reply::Done], 1), done(1));
}

#[test]
fn a_rejected_signal_names_its_targets() {
    let send = |reply| {
        drive(
            |log| kill_pids("-KILL", strings(&["1", "22"]), log, 0),
            vec![signal("-KILL", &["1", "22"], reply)],
        )
    };
    assert_eq!(send(exited(true, b"")), done(1));
    assert_eq!(
        send(exited(false, b"")),
        Progress::Failed(DesktopError::KillRejected { pids: strings(&["1", "22"]) })
    );
    assert_eq!(
        send(Reply::Failed("no kill".to_owned())),
        Progress::Failed(DesktopError::StartKill { cause: "no kill".to_owned() })
    );
}

#[test]
fn the_outcome_of_a_best_effort_does_not_matter() {
    for reply in [exited(true, b""), exited(false, b""), Reply::Failed("gone".to_owned())] {
        assert_eq!(
            drive(
                |log| run_best_effort(quit_by_name("A"), log, 0),
                vec![(Effect::Execute(quit_by_name("A")), reply)],
            ),
            done(1)
        );
    }
    assert_eq!(
        run_best_effort(quit_by_name("A"), &[Reply::Done], 0),
        Progress::Failed(DesktopError::UnexpectedReply { at: 0 })
    );
}

#[test]
fn a_free_port_is_left_alone() {
    assert_eq!(terminate(vec![list(exited(true, b"\n"))]), done(1));
    assert_eq!(terminate(vec![list(exited(false, b"1\n"))]), done(1));
}

#[test]
fn processes_that_end_in_time_are_not_killed() {
    assert_eq!(
        terminate(vec![
            list(exited(true, b"1\n22\n")),
            signal("-TERM", &["1", "22"], exited(true, b"")),
            arm(),
            ahead(true),
            sleep(),
            list(exited(true, b"22\n")),
            ahead(true),
            sleep(),
            list(exited(false, b"")),
        ]),
        done(9)
    );
}

#[test]
fn what_still_listens_at_the_deadline_is_killed() {
    assert_eq!(
        terminate(vec![
            list(exited(true, b"1\n22\n")),
            signal("-TERM", &["1", "22"], exited(true, b"")),
            arm(),
            ahead(true),
            sleep(),
            list(exited(true, b"22\n333\n")),
            ahead(false),
            signal("-KILL", &["22", "333"], exited(true, b"")),
        ]),
        done(8)
    );
}

#[test]
fn a_deadline_that_is_past_at_once_kills_the_first_listeners() {
    assert_eq!(
        terminate(vec![
            list(exited(true, b"1\n")),
            signal("-TERM", &["1"], exited(true, b"")),
            arm(),
            ahead(false),
            signal("-KILL", &["1"], exited(false, b"")),
        ]),
        Progress::Failed(DesktopError::KillRejected { pids: strings(&["1"]) })
    );
}

#[test]
fn a_rejected_request_to_terminate_is_not_followed_by_force() {
    assert_eq!(
        terminate(vec![
            list(exited(true, b"1\n")),
            signal("-TERM", &["1"], exited(false, b"")),
        ]),
        Progress::Failed(DesktopError::KillRejected { pids: strings(&["1"]) })
    );
}

#[test]
fn losing_the_list_while_waiting_is_an_error() {
    assert_eq!(
        terminate(vec![
            list(exited(true, b"1\n")),
            signal("-TERM", &["1"], exited(true, b"")),
            arm(),
            ahead(true),
            sleep(),
            list(Reply::Failed("no lsof".to_owned())),
        ]),
        Progress::Failed(DesktopError::ListPids { cause: "no lsof".to_owned() })
    );
}

#[test]
fn waiting_takes_replies_that_fit_only() {
    let unexpected = |at| Progress::<()>::Failed(DesktopError::UnexpectedReply { at });
    let start = || {
        vec![
            list(exited(true, b"1\n")),
            signal("-TERM", &["1"], exited(true, b"")),
        ]
    };
    let mut script = start();
    script.push((Effect::ArmDeadline { millis: 5000 }, Reply::Answer(true)));
    assert_eq!(terminate(script), unexpected(2));
    let mut script = start();
    script.extend([arm(), (Effect::DeadlineAhead, Reply::Done)]);
    assert_eq!(terminate(script), unexpected(3));
    let mut script = start();
    script.extend([arm(), ahead(true), (Effect::Sleep { millis: 250 }, Reply::Answer(true))]);
    assert_eq!(terminate(script), unexpected(4));
}

#[test]
fn a_stop_asks_every_client_and_frees_the_port() {
    let mut script = vec![(
        Effect::Print(
            "Stopping any running Fluxer Canary or Fluxer Canary (Dev) instance...".to_owned(),
        ),
        Reply::Done,
    )];
    for (i, request) in quit_requests().into_iter().enumerate() {
        let reply = match i % 3 {
            0 => exited(true, b""),
            1 => exited(false, b""),
            _ => Reply::Failed("gone".to_owned()),
        };
        script.push((Effect::Execute(request), reply));
    }
    script.push(list(exited(true, b"")));
    assert_eq!(drive(|log| stop_running_canary_on_host(log, 0), script), done(8));
}

#[test]
fn later_replies_do_not_change_a_stop_that_is_over() {
    let log = [exited(true, b""), exited(true, b"9\n"), Reply::Done];
    assert_eq!(
        terminate_rpc_port_processes(1, &log[..1], 0),
        terminate_rpc_port_processes(1, &log, 0)
    );
}
