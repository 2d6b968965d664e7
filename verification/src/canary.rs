//! Stopping a canary client that is already running.

use crate::error::DesktopError;
use crate::error::DesktopErrorView;
use crate::plist::DEV_CANARY_APP_NAME;
use crate::plist::DEV_CANARY_BUNDLE_ID;
use crate::replay;
use crate::replay::Effect;
use crate::replay::EffectView;
use crate::replay::ProcessOutputView;
use crate::replay::ProcessSpec;
use crate::replay::ProcessView;
use crate::replay::Progress;
use crate::replay::ProgressView;
use crate::replay::Reply;
use crate::replay::ReplyView;
use crate::replay::Stream;
use crate::text;
use vstd::prelude::*;
use vstd::string::StringExecFns;

verus! {

/// The name under which the released canary client appears.
pub const CANARY_APP_NAME: &'static str = "Fluxer Canary";

/// The bundle identifier of the released canary client.
pub const CANARY_BUNDLE_ID: &'static str = "app.fluxer.canary";

/// The port on which a canary client answers remote calls.
pub const CANARY_RPC_PORT: u16 = 21864;

/// How long processes have to end by themselves.
pub const GRACE_MILLIS: u64 = 5000;

/// How long to wait before looking again.
pub const POLL_MILLIS: u64 = 250;

/// A tool that runs in silence.
pub open spec fn silent_view(program: Seq<char>, args: Seq<Seq<char>>) -> ProcessView {
    ProcessView {
        program,
        args,
        stdin: Stream::Null,
        stdout: Stream::Null,
        stderr: Stream::Null,
    }
}

fn silent(program: &str, args: Vec<String>) -> (res: ProcessSpec)
    ensures
        res.deep_view() == silent_view(program@, args.deep_view()),
{
    ProcessSpec {
        program: program.to_owned(),
        args,
        stdin: Stream::Null,
        stdout: Stream::Null,
        stderr: Stream::Null,
    }
}

/// The script that asks the application with this bundle identifier to quit.
pub open spec fn quit_by_id_view(bundle_id: Seq<char>) -> ProcessView {
    silent_view(
        "osascript"@,
        seq!["-e"@, "tell application id \""@ + bundle_id + "\" to quit"@],
    )
}

/// Asks the application with this bundle identifier to quit.
pub fn quit_by_id(bundle_id: &str) -> (res: ProcessSpec)
    ensures
        res.deep_view() == quit_by_id_view(bundle_id@),
{
    let mut script = "tell application id \"".to_owned();
    script.append(bundle_id);
    script.append("\" to quit");
    let mut args: Vec<String> = Vec::new();
    text::push_str(&mut args, "-e");
    text::push_str(&mut args, script.as_str());
    assert(args.deep_view() =~= quit_by_id_view(bundle_id@).args);
    silent("osascript", args)
}

/// The script that asks the application with this name to quit.
pub open spec fn quit_by_name_view(app_name: Seq<char>) -> ProcessView {
    silent_view("osascript"@, seq!["-e"@, "tell application \""@ + app_name + "\" to quit"@])
}

/// Asks the application with this name to quit.
pub fn quit_by_name(app_name: &str) -> (res: ProcessSpec)
    ensures
        res.deep_view() == quit_by_name_view(app_name@),
{
    let mut script = "tell application \"".to_owned();
    script.append(app_name);
    script.append("\" to quit");
    let mut args: Vec<String> = Vec::new();
    text::push_str(&mut args, "-e");
    text::push_str(&mut args, script.as_str());
    assert(args.deep_view() =~= quit_by_name_view(app_name@).args);
    silent("osascript", args)
}

/// The tool that terminates the processes with exactly this name.
pub open spec fn terminate_by_name_view(app_name: Seq<char>) -> ProcessView {
    silent_view("pkill"@, seq!["-TERM"@, "-x"@, app_name])
}

/// Terminates the processes with exactly this name.
pub fn terminate_by_name(app_name: &str) -> (res: ProcessSpec)
    ensures
        res.deep_view() == terminate_by_name_view(app_name@),
{
    let mut args: Vec<String> = Vec::new();
    text::push_str(&mut args, "-TERM");
    text::push_str(&mut args, "-x");
    text::push_str(&mut args, app_name);
    assert(args.deep_view() =~= terminate_by_name_view(app_name@).args);
    silent("pkill", args)
}

/// The requests to quit, in order: by identifier, then by name and with a signal. The development
/// client comes before the released one.
pub open spec fn quit_requests_view() -> Seq<ProcessView> {
    seq![
        quit_by_id_view(DEV_CANARY_BUNDLE_ID@),
        quit_by_id_view(CANARY_BUNDLE_ID@),
        quit_by_name_view(DEV_CANARY_APP_NAME@),
        terminate_by_name_view(DEV_CANARY_APP_NAME@),
        quit_by_name_view(CANARY_APP_NAME@),
        terminate_by_name_view(CANARY_APP_NAME@),
    ]
}

fn quit_request(i: usize) -> (res: ProcessSpec)
    requires
        i < quit_requests_view().len(),
    ensures
        res.deep_view() == quit_requests_view()[i as int],
{
    if i == 0 {
        quit_by_id(DEV_CANARY_BUNDLE_ID)
    } else if i == 1 {
        quit_by_id(CANARY_BUNDLE_ID)
    } else if i == 2 {
        quit_by_name(DEV_CANARY_APP_NAME)
    } else if i == 3 {
        terminate_by_name(DEV_CANARY_APP_NAME)
    } else if i == 4 {
        quit_by_name(CANARY_APP_NAME)
    } else {
        terminate_by_name(CANARY_APP_NAME)
    }
}

/// Running a tool whose outcome does not matter.
pub open spec fn best_effort_run(
    process: ProcessView,
    log: Seq<ReplyView>,
    at: int,
) -> ProgressView<()> {
    if at >= log.len() {
        ProgressView::Pending(EffectView::Execute(process))
    } else {
        match log[at] {
            ReplyView::Exited(_) => ProgressView::Ready { value: (), next: at + 1 },
            ReplyView::Failed(_) => ProgressView::Ready { value: (), next: at + 1 },
            _ => replay::unexpected(at),
        }
    }
}

/// Runs a tool whose outcome does not matter.
pub fn run_best_effort(process: ProcessSpec, log: &[Reply], at: usize) -> (res: Progress<()>)
    ensures
        res.deep_view() == best_effort_run(process.deep_view(), log.deep_view(), at as int),
{
    if at >= log.len() {
        return Progress::Pending(Effect::Execute(process));
    }
    match &log[at] {
        Reply::Exited(_) => Progress::Ready { value: (), next: at + 1 },
        Reply::Failed(_) => Progress::Ready { value: (), next: at + 1 },
        _ => Progress::Failed(DesktopError::UnexpectedReply { at }),
    }
}

/// The requests to quit from position `i` on.
pub open spec fn request_quit_run(i: int, log: Seq<ReplyView>, at: int) -> ProgressView<()>
    decreases quit_requests_view().len() - i,
{
    if i < 0 || i >= quit_requests_view().len() {
        ProgressView::Ready { value: (), next: at }
    } else {
        match best_effort_run(quit_requests_view()[i], log, at) {
            ProgressView::Ready { next, .. } => request_quit_run(i + 1, log, next),
            other => other,
        }
    }
}

fn request_quit(log: &[Reply], at: usize) -> (res: Progress<()>)
    ensures
        res.deep_view() == request_quit_run(0, log.deep_view(), at as int),
{
    let mut i: usize = 0;
    let mut here: usize = at;
    while i < 6
        invariant
            i <= quit_requests_view().len(),
            request_quit_run(0, log.deep_view(), at as int) == request_quit_run(
                i as int,
                log.deep_view(),
                here as int,
            ),
        decreases quit_requests_view().len() - i,
    {
        match run_best_effort(quit_request(i), log, here) {
            Progress::Ready { next, .. } => {
                here = next;
            },
            other => {
                return other;
            },
        }
        i = i + 1;
    }
    Progress::Ready { value: (), next: here }
}

/// The tool that lists the processes which listen on `port`.
pub open spec fn list_listeners_view(port: u16) -> ProcessView {
    ProcessView {
        program: "lsof"@,
        args: seq!["-ti"@, "tcp:"@ + text::decimal(port as nat)],
        stdin: Stream::Null,
        stdout: Stream::Piped,
        stderr: Stream::Null,
    }
}

/// Lists the processes which listen on `port`.
pub fn list_listeners(port: u16) -> (res: ProcessSpec)
    ensures
        res.deep_view() == list_listeners_view(port),
{
    let mut address = "tcp:".to_owned();
    address.append(text::decimal_text(port as u64).as_str());
    let mut args: Vec<String> = Vec::new();
    text::push_str(&mut args, "-ti");
    text::push_str(&mut args, address.as_str());
    assert(args.deep_view() =~= list_listeners_view(port).args);
    ProcessSpec {
        program: "lsof".to_owned(),
        args,
        stdin: Stream::Null,
        stdout: Stream::Piped,
        stderr: Stream::Null,
    }
}

/// The processes that were listed, when the tool ended with `success` and printed `printed`: none
/// where it failed, and one on each line that is not blank.
pub open spec fn listed_pids_view(success: bool, printed: Seq<char>) -> Seq<Seq<char>> {
    if success {
        text::trimmed_nonblank(text::lines_of(printed))
    } else {
        Seq::empty()
    }
}

/// Reads the processes off what the tool printed.
pub fn listed_pids(success: bool, printed: &str) -> (res: Vec<String>)
    ensures
        res.deep_view() == listed_pids_view(success, printed@),
{
    if success {
        text::nonblank_lines(printed)
    } else {
        let res: Vec<String> = Vec::new();
        assert(res.deep_view() =~= Seq::<Seq<char>>::empty());
        res
    }
}

/// Listing the processes which listen on `port`.
pub open spec fn pids_run(port: u16, log: Seq<ReplyView>, at: int) -> ProgressView<Seq<Seq<char>>> {
    if at >= log.len() {
        ProgressView::Pending(EffectView::Execute(list_listeners_view(port)))
    } else {
        match log[at] {
            ReplyView::Exited(output) => ProgressView::Ready {
                value: listed_pids_view(output.success, text::lossy_text(output.stdout)),
                next: at + 1,
            },
            ReplyView::Failed(cause) => ProgressView::Failed(DesktopErrorView::ListPids { cause }),
            _ => replay::unexpected(at),
        }
    }
}

/// Lists the processes which listen on `port`.
pub fn pids_listening_on_tcp_port(port: u16, log: &[Reply], at: usize) -> (res: Progress<
    Vec<String>,
>)
    ensures
        res.deep_view() == pids_run(port, log.deep_view(), at as int),
{
    if at >= log.len() {
        return Progress::Pending(Effect::Execute(list_listeners(port)));
    }
    match &log[at] {
        Reply::Exited(output) => Progress::Ready {
            value: listed_pids(
                output.success,
                text::from_utf8_lossy(output.stdout.as_slice()).as_str(),
            ),
            next: at + 1,
        },
        Reply::Failed(cause) => Progress::Failed(DesktopError::ListPids { cause: cause.clone() }),
        _ => Progress::Failed(DesktopError::UnexpectedReply { at }),
    }
}

/// The tool that sends `signal` to `pids`.
pub open spec fn kill_view(signal: Seq<char>, pids: Seq<Seq<char>>) -> ProcessView {
    ProcessView {
        program: "kill"@,
        args: seq![signal] + pids,
        stdin: Stream::Inherit,
        stdout: Stream::Inherit,
        stderr: Stream::Inherit,
    }
}

/// Sends `signal` to `pids`.
pub fn kill(signal: &str, pids: &[String]) -> (res: ProcessSpec)
    ensures
        res.deep_view() == kill_view(signal@, pids.deep_view()),
{
    let mut args: Vec<String> = Vec::new();
    text::push_str(&mut args, signal);
    text::push_all(&mut args, pids);
    assert(args.deep_view() =~= kill_view(signal@, pids.deep_view()).args);
    ProcessSpec {
        program: "kill".to_owned(),
        args,
        stdin: Stream::Inherit,
        stdout: Stream::Inherit,
        stderr: Stream::Inherit,
    }
}

/// Sending `signal` to `pids`: nothing to do where there are none.
pub open spec fn kill_run(
    signal: Seq<char>,
    pids: Seq<Seq<char>>,
    log: Seq<ReplyView>,
    at: int,
) -> ProgressView<()> {
    if pids.len() == 0 {
        ProgressView::Ready { value: (), next: at }
    } else if at >= log.len() {
        ProgressView::Pending(EffectView::Execute(kill_view(signal, pids)))
    } else {
        match log[at] {
            ReplyView::Exited(output) => if output.success {
                ProgressView::Ready { value: (), next: at + 1 }
            } else {
                ProgressView::Failed(DesktopErrorView::KillRejected { pids })
            },
            ReplyView::Failed(cause) => ProgressView::Failed(DesktopErrorView::StartKill { cause }),
            _ => replay::unexpected(at),
        }
    }
}

/// Sends `signal` to `pids`, if there are any.
pub fn kill_pids(signal: &str, pids: Vec<String>, log: &[Reply], at: usize) -> (res: Progress<()>)
    ensures
        res.deep_view() == kill_run(signal@, pids.deep_view(), log.deep_view(), at as int),
{
    if pids.len() == 0 {
        return Progress::Ready { value: (), next: at };
    }
    if at >= log.len() {
        return Progress::Pending(Effect::Execute(kill(signal, pids.as_slice())));
    }
    match &log[at] {
        Reply::Exited(output) => if output.success {
            Progress::Ready { value: (), next: at + 1 }
        } else {
            Progress::Failed(DesktopError::KillRejected { pids })
        },
        Reply::Failed(cause) => Progress::Failed(DesktopError::StartKill { cause: cause.clone() }),
        _ => Progress::Failed(DesktopError::UnexpectedReply { at }),
    }
}

/// Waiting until nothing listens on `port` any more, and killing what still does at the deadline.
/// At the last look it was `pids`.
pub open spec fn wait_run(
    port: u16,
    pids: Seq<Seq<char>>,
    log: Seq<ReplyView>,
    at: int,
) -> ProgressView<()>
    decreases log.len() - at,
{
    if at >= log.len() {
        ProgressView::Pending(EffectView::DeadlineAhead)
    } else {
        match log[at] {
            ReplyView::Answer(true) => if at + 1 >= log.len() {
                ProgressView::Pending(EffectView::Sleep { millis: POLL_MILLIS })
            } else {
                match log[at + 1] {
                    ReplyView::Done => match pids_run(port, log, at + 2) {
                        ProgressView::Ready { value: pids, next } => if pids.len() == 0 {
                            ProgressView::Ready { value: (), next }
                        } else {
                            wait_run(port, pids, log, next)
                        },
                        ProgressView::Pending(effect) => ProgressView::Pending(effect),
                        ProgressView::Failed(error) => ProgressView::Failed(error),
                    },
                    _ => replay::unexpected(at + 1),
                }
            },
            ReplyView::Answer(false) => kill_run("-KILL"@, pids, log, at + 1),
            _ => replay::unexpected(at),
        }
    }
}

fn wait(port: u16, pids: Vec<String>, log: &[Reply], at: usize) -> (res: Progress<()>)
    ensures
        res.deep_view() == wait_run(port, pids.deep_view(), log.deep_view(), at as int),
    decreases log.len() - at,
{
    if at >= log.len() {
        return Progress::Pending(Effect::DeadlineAhead);
    }
    match &log[at] {
        Reply::Answer(true) => {
            let then_at: usize = at + 1;
            if then_at >= log.len() {
                return Progress::Pending(Effect::Sleep { millis: POLL_MILLIS });
            }
            match &log[then_at] {
                Reply::Done => match pids_listening_on_tcp_port(port, log, then_at + 1) {
                    Progress::Ready { value: pids, next } => if pids.len() == 0 {
                        Progress::Ready { value: (), next }
                    } else {
                        wait(port, pids, log, next)
                    },
                    Progress::Pending(effect) => Progress::Pending(effect),
                    Progress::Failed(error) => Progress::Failed(error),
                },
                _ => Progress::Failed(DesktopError::UnexpectedReply { at: then_at }),
            }
        },
        Reply::Answer(false) => kill_pids("-KILL", pids, log, at + 1),
        _ => Progress::Failed(DesktopError::UnexpectedReply { at }),
    }
}

/// Ending the processes which listen on `port`: by request first, by force after the deadline.
pub open spec fn terminate_run(port: u16, log: Seq<ReplyView>, at: int) -> ProgressView<()> {
    match pids_run(port, log, at) {
        ProgressView::Ready { value: pids, next } => if pids.len() == 0 {
            ProgressView::Ready { value: (), next }
        } else {
            match kill_run("-TERM"@, pids, log, next) {
                ProgressView::Ready { next, .. } => if next >= log.len() {
                    ProgressView::Pending(EffectView::ArmDeadline { millis: GRACE_MILLIS })
                } else {
                    match log[next] {
                        ReplyView::Done => wait_run(port, pids, log, next + 1),
                        _ => replay::unexpected(next),
                    }
                },
                other => other,
            }
        },
        ProgressView::Pending(effect) => ProgressView::Pending(effect),
        ProgressView::Failed(error) => ProgressView::Failed(error),
    }
}

/// Ends the processes which listen on `port`.
///
/// They are asked to terminate and get some time for it. What still listens then is killed.
pub fn terminate_rpc_port_processes(port: u16, log: &[Reply], at: usize) -> (res: Progress<()>)
    ensures
        res.deep_view() == terminate_run(port, log.deep_view(), at as int),
{
    match pids_listening_on_tcp_port(port, log, at) {
        Progress::Ready { value: pids, next } => {
            if pids.len() == 0 {
                return Progress::Ready { value: (), next };
            }
            let mut targets: Vec<String> = Vec::new();
            text::push_all(&mut targets, pids.as_slice());
            assert(targets.deep_view() =~= pids.deep_view());
            match kill_pids("-TERM", targets, log, next) {
                Progress::Ready { next, .. } => {
                    if next >= log.len() {
                        return Progress::Pending(Effect::ArmDeadline { millis: GRACE_MILLIS });
                    }
                    match &log[next] {
                        Reply::Done => wait(port, pids, log, next + 1),
                        _ => Progress::Failed(DesktopError::UnexpectedReply { at: next }),
                    }
                },
                other => other,
            }
        },
        Progress::Pending(effect) => Progress::Pending(effect),
        Progress::Failed(error) => Progress::Failed(error),
    }
}

/// The line that announces the stop.
pub open spec fn stop_line_view() -> Seq<char> {
    "Stopping any running "@ + CANARY_APP_NAME@ + " or "@ + DEV_CANARY_APP_NAME@
        + " instance..."@
}

/// Asking every canary client to quit, and ending what still listens on the port.
pub open spec fn quit_and_terminate_run(log: Seq<ReplyView>, at: int) -> ProgressView<()> {
    match request_quit_run(0, log, at) {
        ProgressView::Ready { next, .. } => terminate_run(CANARY_RPC_PORT, log, next),
        other => other,
    }
}

/// Stopping every canary client on the host.
pub open spec fn stop_run(log: Seq<ReplyView>, at: int) -> ProgressView<()> {
    match replay::print_run(stop_line_view(), log, at) {
        ProgressView::Ready { next, .. } => quit_and_terminate_run(log, next),
        other => other,
    }
}

/// Stops every canary client on the host: by request, and by its port where that does not help.
pub fn stop_running_canary_on_host(log: &[Reply], at: usize) -> (res: Progress<()>)
    ensures
        res.deep_view() == stop_run(log.deep_view(), at as int),
{
    let mut line = "Stopping any running ".to_owned();
    line.append(CANARY_APP_NAME);
    line.append(" or ");
    line.append(DEV_CANARY_APP_NAME);
    line.append(" instance...");
    match replay::print_line(line, log, at) {
        Progress::Ready { next, .. } => match request_quit(log, next) {
            Progress::Ready { next, .. } => terminate_rpc_port_processes(
                CANARY_RPC_PORT,
                log,
                next,
            ),
            other => other,
        },
        other => other,
    }
}

/// Once all requests to quit are out, more replies do not change that.
pub proof fn law_request_quit_settles(i: int, log: Seq<ReplyView>, longer: Seq<ReplyView>, at: int)
    requires
        replay::extends(log, longer),
        0 <= at <= log.len(),
    ensures
        replay::settles(
            request_quit_run(i, log, at),
            request_quit_run(i, longer, at),
            at,
            log.len(),
        ),
    decreases quit_requests_view().len() - i,
{
    if 0 <= i < quit_requests_view().len() {
        if at < log.len() {
            law_request_quit_settles(i + 1, log, longer, at + 1);
        }
        if at < longer.len() {
            law_request_quit_settles(i + 1, longer, longer, at + 1);
        }
    }
}

proof fn lemma_wait_moves_on(port: u16, pids: Seq<Seq<char>>, log: Seq<ReplyView>, at: int)
    requires
        0 <= at <= log.len(),
    ensures
        wait_run(port, pids, log, at) matches ProgressView::Ready { next, .. } ==> at < next
            <= log.len(),
    decreases log.len() - at,
{
    if at + 2 < log.len() {
        if let ProgressView::Ready { value: pids, next } = pids_run(port, log, at + 2) {
            lemma_wait_moves_on(port, pids, log, next);
        }
    }
}

/// Once the wait is over, more replies do not change how it ended.
pub proof fn law_wait_settles(
    port: u16,
    pids: Seq<Seq<char>>,
    log: Seq<ReplyView>,
    longer: Seq<ReplyView>,
    at: int,
)
    requires
        replay::extends(log, longer),
        0 <= at <= log.len(),
    ensures
        replay::settles(
            wait_run(port, pids, log, at),
            wait_run(port, pids, longer, at),
            at,
            log.len(),
        ),
    decreases log.len() - at,
{
    if at + 2 < log.len() {
        if let ProgressView::Ready { value: pids, next } = pids_run(port, log, at + 2) {
            law_wait_settles(port, pids, log, longer, next);
        }
    } else if at + 2 < longer.len() {
        if let ProgressView::Ready { value: pids, next } = pids_run(port, longer, at + 2) {
            lemma_wait_moves_on(port, pids, longer, next);
        }
    }
}

/// Once the port is freed, or that failed, more replies do not change it.
pub proof fn law_terminate_settles(port: u16, log: Seq<ReplyView>, longer: Seq<ReplyView>, at: int)
    requires
        replay::extends(log, longer),
        0 <= at <= log.len(),
    ensures
        replay::settles(
            terminate_run(port, log, at),
            terminate_run(port, longer, at),
            at,
            log.len(),
        ),
{
    if at + 2 < log.len() {
        if let ProgressView::Ready { value: pids, next } = pids_run(port, log, at) {
            law_wait_settles(port, pids, log, longer, at + 3);
        }
    } else if at + 2 < longer.len() {
        if let ProgressView::Ready { value: pids, next } = pids_run(port, longer, at) {
            lemma_wait_moves_on(port, pids, longer, at + 3);
        }
    }
}

/// Once clients are asked to quit and the port is freed, more replies do not change it.
pub proof fn law_quit_and_terminate_settle(
    log: Seq<ReplyView>,
    longer: Seq<ReplyView>,
    at: int,
)
    requires
        replay::extends(log, longer),
        0 <= at <= log.len(),
    ensures
        replay::settles(
            quit_and_terminate_run(log, at),
            quit_and_terminate_run(longer, at),
            at,
            log.len(),
        ),
{
    law_request_quit_settles(0, log, longer, at);
    law_request_quit_settles(0, longer, longer, at);
    if let ProgressView::Ready { next, .. } = request_quit_run(0, log, at) {
        law_terminate_settles(CANARY_RPC_PORT, log, longer, next);
    }
    if let ProgressView::Ready { next, .. } = request_quit_run(0, longer, at) {
        law_terminate_settles(CANARY_RPC_PORT, longer, longer, next);
    }
}

/// Once running clients are stopped, or that failed, more replies do not change it.
pub proof fn law_stop_settles(log: Seq<ReplyView>, longer: Seq<ReplyView>, at: int)
    requires
        replay::extends(log, longer),
        0 <= at <= log.len(),
    ensures
        replay::settles(stop_run(log, at), stop_run(longer, at), at, log.len()),
{
    if at < log.len() {
        law_quit_and_terminate_settle(log, longer, at + 1);
    }
    if at < longer.len() {
        law_quit_and_terminate_settle(longer, longer, at + 1);
    }
}

/// Where nothing listens, no signal is sent.
pub proof fn law_no_listener_no_signal(
    port: u16,
    output: ProcessOutputView,
    log: Seq<ReplyView>,
    at: int,
)
    requires
        0 <= at < log.len(),
        log[at] == ReplyView::Exited(output),
        listed_pids_view(output.success, text::lossy_text(output.stdout)).len() == 0,
    ensures
        terminate_run(port, log, at) == (ProgressView::Ready { value: (), next: at + 1 }),
{
}

/// No signal goes out without a process to send it to.
pub proof fn law_signals_have_targets(
    signal: Seq<char>,
    pids: Seq<Seq<char>>,
    log: Seq<ReplyView>,
    at: int,
)
    requires
        pids.len() == 0,
    ensures
        kill_run(signal, pids, log, at) == (ProgressView::Ready { value: (), next: at }),
{
}

/// Every process that is listed has a name that is not blank and not padded.
pub proof fn law_listed_pids_are_trimmed(success: bool, printed: Seq<char>, i: int)
    requires
        0 <= i < listed_pids_view(success, printed).len(),
    ensures
        listed_pids_view(success, printed)[i].len() > 0,
        !text::white_space(listed_pids_view(success, printed)[i].first()),
        !text::white_space(listed_pids_view(success, printed)[i].last()),
{
    let lines = text::lines_of(printed);
    text::law_kept_lines_are_trimmed(lines, i);
    let j = choose|j: int|
        0 <= j < lines.len() && text::trimmed_nonblank(lines)[i] == text::trimmed(
            #[trigger] lines[j],
        );
    text::law_trimming_drops_outer_white_space(lines[j]);
}

/// Asking a client to quit never stands in the way of what comes after: a tool that fails or does
/// not start is passed over.
pub proof fn law_quit_requests_are_best_effort(i: int, log: Seq<ReplyView>, at: int)
    requires
        0 <= i <= quit_requests_view().len(),
        0 <= at,
        at + quit_requests_view().len() - i <= log.len(),
        forall|k: int|
            at <= k < at + quit_requests_view().len() - i ==> #[trigger] log[k] is Exited
                || log[k] is Failed,
    ensures
        request_quit_run(i, log, at) == (ProgressView::Ready {
            value: (),
            next: at + quit_requests_view().len() - i,
        }),
    decreases quit_requests_view().len() - i,
{
    if i < quit_requests_view().len() {
        assert(log[at] is Exited || log[at] is Failed);
        law_quit_requests_are_best_effort(i + 1, log, at + 1);
    }
}

/// Whether `process` kills.
pub open spec fn is_forced_kill(process: ProcessView) -> bool {
    process.program == "kill"@ && process.args.len() > 0 && process.args[0] == "-KILL"@
}

proof fn lemma_wait_kills_after_the_deadline(
    port: u16,
    pids: Seq<Seq<char>>,
    process: ProcessView,
    log: Seq<ReplyView>,
    at: int,
)
    requires
        0 <= at,
        wait_run(port, pids, log, at) == ProgressView::<()>::Pending(EffectView::Execute(process)),
        is_forced_kill(process),
    ensures
        at < log.len(),
        log.last() == ReplyView::Answer(false),
    decreases log.len() - at,
{
    reveal_strlit("kill");
    reveal_strlit("lsof");
    assert("kill"@[0] == 'k' && "lsof"@[0] == 'l');
    if at + 2 < log.len() {
        if let ProgressView::Ready { value: pids, next } = pids_run(port, log, at + 2) {
            if pids.len() > 0 && log[at] == ReplyView::Answer(true) {
                lemma_wait_kills_after_the_deadline(port, pids, process, log, next);
            }
        }
    }
}

/// Force comes last: before a process is killed, the listeners were asked to terminate, that went
/// out without an error, and the deadline passed.
pub proof fn law_force_comes_last(
    port: u16,
    process: ProcessView,
    log: Seq<ReplyView>,
    at: int,
)
    requires
        0 <= at,
        terminate_run(port, log, at) == ProgressView::<()>::Pending(EffectView::Execute(process)),
        is_forced_kill(process),
    ensures
        at + 3 < log.len(),
        log[at] matches ReplyView::Exited(output) && terminate_run(port, log.take(at + 1), at)
            == ProgressView::<()>::Pending(
            EffectView::Execute(
                kill_view(
                    "-TERM"@,
                    listed_pids_view(output.success, text::lossy_text(output.stdout)),
                ),
            ),
        ),
        log[at + 1] matches ReplyView::Exited(output) && output.success,
        log.last() == ReplyView::Answer(false),
{
    reveal_strlit("kill");
    reveal_strlit("lsof");
    reveal_strlit("-TERM");
    reveal_strlit("-KILL");
    assert("kill"@[0] == 'k' && "lsof"@[0] == 'l');
    assert("-TERM"@[1] == 'T' && "-KILL"@[1] == 'K');
    if let ProgressView::Ready { value: pids, .. } = pids_run(port, log, at) {
        assert(kill_view("-TERM"@, pids).args[0] == "-TERM"@);
        if at + 2 < log.len() {
            lemma_wait_kills_after_the_deadline(port, pids, process, log, at + 3);
        }
    }
}

/// The wait goes on only as long as the deadline is ahead: the first no ends it.
pub proof fn law_deadline_ends_the_wait(
    port: u16,
    pids: Seq<Seq<char>>,
    log: Seq<ReplyView>,
    at: int,
)
    requires
        0 <= at,
        at + 1 < log.len(),
        log[at] == ReplyView::Answer(false),
    ensures
        !(wait_run(port, pids, log, at) is Pending),
{
}

/// Whether the reply `last`, to the question that `before` asked, shows that the port was freed:
/// nothing was listed any more, or those that were left were killed.
pub open spec fn freed(port: u16, before: ProgressView<()>, last: ReplyView) -> bool {
    match (before, last) {
        (
            ProgressView::Pending(EffectView::Execute(process)),
            ReplyView::Exited(output),
        ) => {
            ||| process == list_listeners_view(port) && listed_pids_view(
                output.success,
                text::lossy_text(output.stdout),
            ).len() == 0
            ||| is_forced_kill(process) && output.success
        },
        _ => false,
    }
}

proof fn lemma_wait_frees_the_port(
    port: u16,
    pids: Seq<Seq<char>>,
    log: Seq<ReplyView>,
    at: int,
    next: int,
)
    requires
        0 <= at,
        pids.len() > 0,
        wait_run(port, pids, log, at) == (ProgressView::Ready { value: (), next }),
    ensures
        at < next <= log.len(),
        freed(port, wait_run(port, pids, log.take(next - 1), at), log[next - 1]),
    decreases log.len() - at,
{
    if log[at] == ReplyView::Answer(false) {
        assert(kill_view("-KILL"@, pids).args[0] == "-KILL"@);
    } else if let ProgressView::Ready { value: left, next: on } = pids_run(port, log, at + 2) {
        if left.len() > 0 {
            lemma_wait_frees_the_port(port, left, log, on, next);
        }
    }
}

/// Success means that the port was freed: at the end nothing listened any more, or those that were
/// left were killed.
pub proof fn law_success_means_the_port_was_freed(
    port: u16,
    log: Seq<ReplyView>,
    at: int,
    next: int,
)
    requires
        0 <= at,
        terminate_run(port, log, at) == (ProgressView::Ready { value: (), next }),
    ensures
        at < next <= log.len(),
        freed(port, terminate_run(port, log.take(next - 1), at), log[next - 1]),
{
    if let ProgressView::Ready { value: pids, .. } = pids_run(port, log, at) {
        if pids.len() > 0 {
            lemma_wait_frees_the_port(port, pids, log, at + 3, next);
        }
    }
}

/// A signal goes to exactly the processes that it is meant for: its arguments are the signal and
/// each of them, in order.
pub proof fn law_signals_name_every_process(signal: Seq<char>, pids: Seq<Seq<char>>, k: int)
    ensures
        kill_view(signal, pids).program == "kill"@,
        kill_view(signal, pids).args.len() == pids.len() + 1,
        kill_view(signal, pids).args[0] == signal,
        0 <= k < pids.len() ==> kill_view(signal, pids).args[k + 1] == pids[k],
        kill_view(signal, pids).stdin == Stream::Inherit,
        kill_view(signal, pids).stdout == Stream::Inherit,
        kill_view(signal, pids).stderr == Stream::Inherit,
{
}

/// A signal is sent once to all processes that there are. Where the tool refuses, all of them are
/// named, and where it does not start that is the error.
pub proof fn law_sending_a_signal(
    signal: Seq<char>,
    pids: Seq<Seq<char>>,
    log: Seq<ReplyView>,
    at: int,
)
    requires
        pids.len() > 0,
    ensures
        at >= log.len() ==> (kill_run(signal, pids, log, at) matches ProgressView::Pending(
            EffectView::Execute(process),
        ) && process.program == "kill"@ && process.args.len() == pids.len() + 1 && process.args[0]
            == signal && process.args.skip(1) == pids && process.stdin == Stream::Inherit
            && process.stdout == Stream::Inherit && process.stderr == Stream::Inherit),
        at < log.len() ==> (log[at] matches ReplyView::Exited(output) ==> {
            &&& output.success ==> kill_run(signal, pids, log, at) == (ProgressView::Ready {
                value: (),
                next: at + 1,
            })
            &&& !output.success ==> kill_run(signal, pids, log, at) == ProgressView::<()>::Failed(
                DesktopErrorView::KillRejected { pids },
            )
        }),
        at < log.len() ==> (log[at] matches ReplyView::Failed(cause) ==> kill_run(
            signal,
            pids,
            log,
            at,
        ) == ProgressView::<()>::Failed(DesktopErrorView::StartKill { cause })),
        at < log.len() && !(log[at] is Exited) && !(log[at] is Failed) ==> kill_run(
            signal,
            pids,
            log,
            at,
        ) == ProgressView::<()>::Failed(DesktopErrorView::UnexpectedReply { at: at as usize }),
{
    assert(kill_view(signal, pids).args.skip(1) =~= pids);
}

/// Listeners are listed by their port, with the errors of the tool out of sight.
pub proof fn law_listing_command(port: u16)
    ensures
        list_listeners_view(port) == (ProcessView {
            program: "lsof"@,
            args: seq!["-ti"@, "tcp:"@ + text::decimal(port as nat)],
            stdin: Stream::Null,
            stdout: Stream::Piped,
            stderr: Stream::Null,
        }),
{
}

/// Every process that is printed on a line of its own is listed, in order and none left out; where
/// the tool failed there is none, and neither where it printed nothing.
pub proof fn law_printed_processes_are_listed(pids: Seq<Seq<char>>, printed: Seq<char>)
    requires
        forall|i: int| 0 <= i < pids.len() ==> (#[trigger] pids[i]).len() > 0,
        forall|i: int, k: int|
            0 <= i < pids.len() && 0 <= k < pids[i].len() ==> !text::white_space(
                #[trigger] pids[i][k],
            ),
    ensures
        pids.len() > 0 ==> listed_pids_view(true, text::joined(pids, seq!['\n']).push('\n'))
            == pids,
        listed_pids_view(true, printed) == text::trimmed_nonblank(text::lines_of(printed)),
        listed_pids_view(true, Seq::empty()).len() == 0,
        listed_pids_view(false, printed).len() == 0,
{
    text::law_printed_words_are_kept(pids);
    let none = Seq::<char>::empty();
    text::law_lines_are_kept_one_by_one(Seq::empty(), Seq::empty(), none);
    assert(text::trimmed(none).len() == 0);
    assert(text::lines_of(none) =~= seq![none]);
}

/// Listing is one call of the tool. What it printed is the list, and it is an error where it did
/// not start.
pub proof fn law_listing_processes(port: u16, log: Seq<ReplyView>, at: int)
    ensures
        at >= log.len() ==> pids_run(port, log, at) == ProgressView::<Seq<Seq<char>>>::Pending(
            EffectView::Execute(list_listeners_view(port)),
        ),
        at < log.len() ==> (log[at] matches ReplyView::Exited(output) ==> pids_run(port, log, at)
            == (ProgressView::Ready {
            value: listed_pids_view(output.success, text::lossy_text(output.stdout)),
            next: at + 1,
        })),
        at < log.len() ==> (log[at] matches ReplyView::Failed(cause) ==> pids_run(port, log, at)
            == ProgressView::<Seq<Seq<char>>>::Failed(DesktopErrorView::ListPids { cause })),
        at < log.len() && !(log[at] is Exited) && !(log[at] is Failed) ==> pids_run(port, log, at)
            == ProgressView::<Seq<Seq<char>>>::Failed(
            DesktopErrorView::UnexpectedReply { at: at as usize },
        ),
{
}

/// As long as the deadline is ahead, the wait goes on for a quarter of a second at a time: it ends
/// where nothing listens any more, and goes on with the new list where something does.
pub proof fn law_waiting(
    port: u16,
    pids: Seq<Seq<char>>,
    log: Seq<ReplyView>,
    at: int,
)
    requires
        0 <= at,
    ensures
        at >= log.len() ==> wait_run(port, pids, log, at) == ProgressView::<()>::Pending(
            EffectView::DeadlineAhead,
        ),
        at < log.len() && !(log[at] is Answer) ==> wait_run(port, pids, log, at)
            == ProgressView::<()>::Failed(DesktopErrorView::UnexpectedReply { at: at as usize }),
        at + 1 == log.len() && log[at] == ReplyView::Answer(true) ==> wait_run(port, pids, log, at)
            == ProgressView::<()>::Pending(EffectView::Sleep { millis: 250 }),
        at + 1 < log.len() && log[at] == ReplyView::Answer(true) ==> {
            &&& !(log[at + 1] is Done) ==> wait_run(port, pids, log, at)
                == ProgressView::<()>::Failed(
                DesktopErrorView::UnexpectedReply { at: (at + 1) as usize },
            )
            &&& log[at + 1] is Done ==> {
                let left = pids_run(port, log, at + 2);
                &&& replay::leads(left, wait_run(port, pids, log, at))
                &&& left matches ProgressView::Ready { value, next } ==> {
                    &&& value.len() == 0 ==> wait_run(port, pids, log, at) == (
                    ProgressView::Ready { value: (), next })
                    &&& value.len() > 0 ==> wait_run(port, pids, log, at) == wait_run(
                        port,
                        value,
                        log,
                        next,
                    )
                }
            }
        },
        at < log.len() && log[at] == ReplyView::Answer(false) ==> wait_run(port, pids, log, at)
            == kill_run("-KILL"@, pids, log, at + 1),
{
}

/// What listens on the port is asked to terminate, all of it, and then has five seconds.
pub proof fn law_termination_is_asked_for_first(port: u16, log: Seq<ReplyView>, at: int)
    requires
        0 <= at,
    ensures
        replay::leads(pids_run(port, log, at), terminate_run(port, log, at)),
        pids_run(port, log, at) matches ProgressView::Ready { value: pids, next } ==> {
            &&& pids.len() == 0 ==> terminate_run(port, log, at) == (ProgressView::Ready {
                value: (),
                next,
            })
            &&& pids.len() > 0 ==> {
                let asked = kill_run("-TERM"@, pids, log, next);
                &&& replay::leads(asked, terminate_run(port, log, at))
                &&& asked matches ProgressView::Ready { next, .. } ==> {
                    &&& next >= log.len() ==> terminate_run(port, log, at)
                        == ProgressView::<()>::Pending(EffectView::ArmDeadline { millis: 5000 })
                    &&& next < log.len() && log[next] is Done ==> terminate_run(port, log, at)
                        == wait_run(port, pids, log, next + 1)
                    &&& next < log.len() && !(log[next] is Done) ==> terminate_run(port, log, at)
                        == ProgressView::<()>::Failed(
                        DesktopErrorView::UnexpectedReply { at: next as usize },
                    )
                }
            }
        },
{
}

proof fn lemma_wait_kills_the_last_listing(
    port: u16,
    pids: Seq<Seq<char>>,
    process: ProcessView,
    log: Seq<ReplyView>,
    at: int,
)
    requires
        0 <= at,
        wait_run(port, pids, log, at) == ProgressView::<()>::Pending(EffectView::Execute(process)),
        process.program == "kill"@,
    ensures
        at < log.len(),
        log.len() == at + 1 ==> process.args == seq!["-KILL"@] + pids,
        log.len() != at + 1 ==> log.len() >= at + 4 && (log[log.len() - 2] matches
            ReplyView::Exited(output) && process.args == seq!["-KILL"@] + listed_pids_view(
            output.success,
            text::lossy_text(output.stdout),
        )),
    decreases log.len() - at,
{
    reveal_strlit("kill");
    reveal_strlit("lsof");
    assert("kill"@[0] == 'k' && "lsof"@[0] == 'l');
    if at + 2 < log.len() {
        if let ProgressView::Ready { value: left, next } = pids_run(port, log, at + 2) {
            if left.len() > 0 && log[at] == ReplyView::Answer(true) {
                lemma_wait_kills_the_last_listing(port, left, process, log, next);
            }
        }
    }
}

/// A forced kill goes to every process of the last listing, and to no other: that of the last look
/// before the deadline, or the first one where there was no other look.
pub proof fn law_force_hits_the_last_listing(
    port: u16,
    process: ProcessView,
    log: Seq<ReplyView>,
    at: int,
)
    requires
        0 <= at,
        terminate_run(port, log, at) == ProgressView::<()>::Pending(EffectView::Execute(process)),
        process.program == "kill"@,
        process.args.len() > 0,
        process.args[0] == "-KILL"@,
    ensures
        log.len() >= at + 4,
        ({
            let look = if log.len() == at + 4 {
                at
            } else {
                log.len() - 2
            };
            log[look] matches ReplyView::Exited(output) && process.args == seq!["-KILL"@]
                + listed_pids_view(output.success, text::lossy_text(output.stdout))
        }),
{
    law_force_comes_last(port, process, log, at);
    if let ProgressView::Ready { value: pids, .. } = pids_run(port, log, at) {
        lemma_wait_kills_the_last_listing(port, pids, process, log, at + 3);
    }
}

/// The clients are asked to quit in silence: by their identifiers, and then, the development client
/// first, by name and with a signal.
pub proof fn law_quit_requests(bundle_id: Seq<char>, app_name: Seq<char>)
    ensures
        quit_by_id_view(bundle_id) == (ProcessView {
            program: "osascript"@,
            args: seq!["-e"@, "tell application id \""@ + bundle_id + "\" to quit"@],
            stdin: Stream::Null,
            stdout: Stream::Null,
            stderr: Stream::Null,
        }),
        quit_by_name_view(app_name) == (ProcessView {
            program: "osascript"@,
            args: seq!["-e"@, "tell application \""@ + app_name + "\" to quit"@],
            stdin: Stream::Null,
            stdout: Stream::Null,
            stderr: Stream::Null,
        }),
        terminate_by_name_view(app_name) == (ProcessView {
            program: "pkill"@,
            args: seq!["-TERM"@, "-x"@, app_name],
            stdin: Stream::Null,
            stdout: Stream::Null,
            stderr: Stream::Null,
        }),
        quit_requests_view() == seq![
            quit_by_id_view("app.fluxer.canary.dev"@),
            quit_by_id_view("app.fluxer.canary"@),
            quit_by_name_view("Fluxer Canary (Dev)"@),
            terminate_by_name_view("Fluxer Canary (Dev)"@),
            quit_by_name_view("Fluxer Canary"@),
            terminate_by_name_view("Fluxer Canary"@),
        ],
{
}

/// A tool whose outcome does not matter is run once, and whatever came of it lets the workflow go
/// on.
pub proof fn law_best_effort(process: ProcessView, log: Seq<ReplyView>, at: int)
    ensures
        at >= log.len() ==> best_effort_run(process, log, at) == ProgressView::<()>::Pending(
            EffectView::Execute(process),
        ),
        at < log.len() && (log[at] is Exited || log[at] is Failed) ==> best_effort_run(
            process,
            log,
            at,
        ) == (ProgressView::Ready { value: (), next: at + 1 }),
        at < log.len() && !(log[at] is Exited) && !(log[at] is Failed) ==> best_effort_run(
            process,
            log,
            at,
        ) == ProgressView::<()>::Failed(DesktopErrorView::UnexpectedReply { at: at as usize }),
{
}

/// The requests to quit are made one after the other, all six of them.
pub proof fn law_quit_requests_follow_each_other(i: int, log: Seq<ReplyView>, at: int)
    requires
        0 <= i <= 6,
    ensures
        quit_requests_view().len() == 6,
        i == 6 ==> request_quit_run(i, log, at) == (ProgressView::Ready { value: (), next: at }),
        i < 6 ==> replay::leads(
            best_effort_run(quit_requests_view()[i], log, at),
            request_quit_run(i, log, at),
        ),
        i < 6 ==> (best_effort_run(quit_requests_view()[i], log, at) matches ProgressView::Ready {
            next,
            ..
        } ==> request_quit_run(i, log, at) == request_quit_run(i + 1, log, next)),
{
}

/// A stop is announced; then every client is asked to quit; then what still listens on the port for
/// remote calls is ended.
pub proof fn law_stop_asks_before_it_ends(log: Seq<ReplyView>, at: int)
    ensures
        stop_line_view()
            == "Stopping any running Fluxer Canary or Fluxer Canary (Dev) instance..."@,
        replay::leads(
            replay::print_run(
                "Stopping any running Fluxer Canary or Fluxer Canary (Dev) instance..."@,
                log,
                at,
            ),
            stop_run(log, at),
        ),
        at < log.len() && log[at] is Done ==> {
            let asked = request_quit_run(0, log, at + 1);
            &&& stop_run(log, at) == quit_and_terminate_run(log, at + 1)
            &&& replay::leads(asked, stop_run(log, at))
            &&& asked matches ProgressView::Ready { next, .. } ==> stop_run(log, at)
                == terminate_run(21864, log, next)
        },
{
    reveal_strlit("Stopping any running ");
    reveal_strlit("Fluxer Canary");
    reveal_strlit(" or ");
    reveal_strlit("Fluxer Canary (Dev)");
    reveal_strlit(" instance...");
    reveal_strlit("Stopping any running Fluxer Canary or Fluxer Canary (Dev) instance...");
    assert(stop_line_view()
        =~= "Stopping any running Fluxer Canary or Fluxer Canary (Dev) instance..."@);
}

} // verus!
