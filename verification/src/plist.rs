//! The identity and the permissions of the development bundle: the strings of its property list,
//! and its signature.

use crate::bundle;
use crate::error::DesktopError;
use crate::error::DesktopErrorView;
use crate::paths;
use crate::replay;
use crate::replay::BundleFacts;
use crate::replay::Effect;
use crate::replay::EffectView;
use crate::replay::HostFacts;
use crate::replay::ProcessOutputView;
use crate::replay::ProcessSpec;
use crate::replay::ProcessView;
use crate::replay::Progress;
use crate::replay::ProgressView;
use crate::replay::Reply;
use crate::replay::ReplyView;
use crate::replay::Stream;
use crate::text;
use crate::workspace::Workspace;
use crate::workspace::WorkspaceView;
use vstd::prelude::*;
use vstd::string::StringExecFns;

verus! {

/// The name under which the development client appears.
pub const DEV_CANARY_APP_NAME: &'static str = "Fluxer Canary (Dev)";

/// The bundle identifier of the development client.
pub const DEV_CANARY_BUNDLE_ID: &'static str = "app.fluxer.canary.dev";

/// The tool that reads and changes property lists.
pub const PLIST_BUDDY: &'static str = "/usr/libexec/PlistBuddy";

/// The keys that the property list of the development bundle has to have, with their values.
pub open spec fn plist_strings_view() -> Seq<(Seq<char>, Seq<char>)> {
    seq![
        ("CFBundleName"@, DEV_CANARY_APP_NAME@),
        ("CFBundleDisplayName"@, DEV_CANARY_APP_NAME@),
        ("CFBundleIdentifier"@, DEV_CANARY_BUNDLE_ID@),
        (
            "NSMicrophoneUsageDescription"@,
            "Fluxer needs access to your microphone to enable voice chat features."@,
        ),
        (
            "NSCameraUsageDescription"@,
            "Fluxer needs access to your camera to enable video chat features."@,
        ),
        (
            "NSAppleEventsUsageDescription"@,
            "Fluxer needs access to Apple Events for automation features."@,
        ),
        (
            "NSAudioCaptureUsageDescription"@,
            "Fluxer captures audio from the screen or window you choose to share."@,
        ),
        (
            "NSScreenCaptureUsageDescription"@,
            "Fluxer captures the screen or window you choose to share."@,
        ),
    ]
}

fn push_pair(pairs: &mut Vec<(String, String)>, key: &str, value: &str)
    ensures
        final(pairs).deep_view() == old(pairs).deep_view().push((key@, value@)),
{
    pairs.push((key.to_owned(), value.to_owned()));
    assert(pairs.deep_view() =~= old(pairs).deep_view().push((key@, value@)));
}

/// Lists the keys that the property list of the development bundle has to have, with their values.
pub fn macos_dev_electron_plist_strings() -> (res: Vec<(String, String)>)
    ensures
        res.deep_view() == plist_strings_view(),
{
    let mut res: Vec<(String, String)> = Vec::new();
    push_pair(&mut res, "CFBundleName", DEV_CANARY_APP_NAME);
    push_pair(&mut res, "CFBundleDisplayName", DEV_CANARY_APP_NAME);
    push_pair(&mut res, "CFBundleIdentifier", DEV_CANARY_BUNDLE_ID);
    push_pair(
        &mut res,
        "NSMicrophoneUsageDescription",
        "Fluxer needs access to your microphone to enable voice chat features.",
    );
    push_pair(
        &mut res,
        "NSCameraUsageDescription",
        "Fluxer needs access to your camera to enable video chat features.",
    );
    push_pair(
        &mut res,
        "NSAppleEventsUsageDescription",
        "Fluxer needs access to Apple Events for automation features.",
    );
    push_pair(
        &mut res,
        "NSAudioCaptureUsageDescription",
        "Fluxer captures audio from the screen or window you choose to share.",
    );
    push_pair(
        &mut res,
        "NSScreenCaptureUsageDescription",
        "Fluxer captures the screen or window you choose to share.",
    );
    assert(res.deep_view() =~= plist_strings_view());
    res
}

/// The property list tool, told to carry out `command` on `plist`.
pub open spec fn plist_buddy_view(plist: Seq<char>, command: Seq<char>) -> ProcessView {
    ProcessView {
        program: PLIST_BUDDY@,
        args: seq!["-c"@, command, plist],
        stdin: Stream::Null,
        stdout: Stream::Piped,
        stderr: Stream::Piped,
    }
}

/// Tells the property list tool to carry out `command` on `plist`.
pub fn plist_buddy(plist: &str, command: &str) -> (res: ProcessSpec)
    ensures
        res.deep_view() == plist_buddy_view(plist@, command@),
{
    let mut args: Vec<String> = Vec::new();
    text::push_str(&mut args, "-c");
    text::push_str(&mut args, command);
    text::push_str(&mut args, plist);
    assert(args.deep_view() =~= seq!["-c"@, command@, plist@]);
    ProcessSpec {
        program: PLIST_BUDDY.to_owned(),
        args,
        stdin: Stream::Null,
        stdout: Stream::Piped,
        stderr: Stream::Piped,
    }
}

/// The value of a key, when the tool that prints it ended with `success` and printed `printed`.
pub open spec fn plist_value_view(success: bool, printed: Seq<char>) -> Option<Seq<char>> {
    if success {
        Some(text::trimmed_end(printed))
    } else {
        None
    }
}

/// Reads the value of a key off what the tool printed: there is none where the tool failed.
pub fn plist_value(success: bool, printed: &str) -> (res: Option<String>)
    ensures
        res.deep_view() == plist_value_view(success, printed@),
{
    if success {
        Some(text::trim_end(printed).to_owned())
    } else {
        None
    }
}

/// The command that prints the string at `key`.
pub open spec fn print_command_view(key: Seq<char>) -> Seq<char> {
    "Print :"@ + key
}

/// Reading the string at `key`.
pub open spec fn read_string_run(
    plist: Seq<char>,
    key: Seq<char>,
    log: Seq<ReplyView>,
    at: int,
) -> ProgressView<Option<Seq<char>>> {
    if at >= log.len() {
        ProgressView::Pending(
            EffectView::Execute(plist_buddy_view(plist, print_command_view(key))),
        )
    } else {
        match log[at] {
            ReplyView::Exited(output) => ProgressView::Ready {
                value: plist_value_view(output.success, text::lossy_text(output.stdout)),
                next: at + 1,
            },
            ReplyView::Failed(cause) => ProgressView::Failed(
                DesktopErrorView::ReadPlist { key, path: plist, cause },
            ),
            _ => replay::unexpected(at),
        }
    }
}

/// Reads the string at `key`, if there is one.
pub fn read_plist_string(plist: &str, key: &str, log: &[Reply], at: usize) -> (res: Progress<
    Option<String>,
>)
    ensures
        res.deep_view() == read_string_run(plist@, key@, log.deep_view(), at as int),
{
    if at >= log.len() {
        let mut command = "Print :".to_owned();
        command.append(key);
        return Progress::Pending(Effect::Execute(plist_buddy(plist, command.as_str())));
    }
    match &log[at] {
        Reply::Exited(output) => Progress::Ready {
            value: plist_value(
                output.success,
                text::from_utf8_lossy(output.stdout.as_slice()).as_str(),
            ),
            next: at + 1,
        },
        Reply::Failed(cause) => Progress::Failed(
            DesktopError::ReadPlist {
                key: key.to_owned(),
                path: plist.to_owned(),
                cause: cause.clone(),
            },
        ),
        _ => Progress::Failed(DesktopError::UnexpectedReply { at }),
    }
}

/// Telling whether there is a string at `key`.
pub open spec fn key_exists_run(
    plist: Seq<char>,
    key: Seq<char>,
    log: Seq<ReplyView>,
    at: int,
) -> ProgressView<bool> {
    match read_string_run(plist, key, log, at) {
        ProgressView::Ready { value, next } => ProgressView::Ready { value: value is Some, next },
        ProgressView::Pending(effect) => ProgressView::Pending(effect),
        ProgressView::Failed(error) => ProgressView::Failed(error),
    }
}

/// Tells whether there is a string at `key`.
pub fn plist_key_exists(plist: &str, key: &str, log: &[Reply], at: usize) -> (res: Progress<bool>)
    ensures
        res.deep_view() == key_exists_run(plist@, key@, log.deep_view(), at as int),
{
    match read_plist_string(plist, key, log, at) {
        Progress::Ready { value, next } => Progress::Ready { value: value.is_some(), next },
        Progress::Pending(effect) => Progress::Pending(effect),
        Progress::Failed(error) => Progress::Failed(error),
    }
}

/// Having the property list tool carry out `command`, which changes `plist`.
pub open spec fn update_run(
    plist: Seq<char>,
    command: Seq<char>,
    log: Seq<ReplyView>,
    at: int,
) -> ProgressView<()> {
    if at >= log.len() {
        ProgressView::Pending(EffectView::Execute(plist_buddy_view(plist, command)))
    } else {
        match log[at] {
            ReplyView::Exited(output) => if output.success {
                ProgressView::Ready { value: (), next: at + 1 }
            } else {
                ProgressView::Failed(
                    DesktopErrorView::PlistRejected {
                        path: plist,
                        stderr: text::output_text_view(output.stderr),
                    },
                )
            },
            ReplyView::Failed(cause) => ProgressView::Failed(
                DesktopErrorView::UpdatePlist { path: plist, cause },
            ),
            _ => replay::unexpected(at),
        }
    }
}

/// Has the property list tool carry out `command`, which changes `plist`.
pub fn run_plist_buddy(plist: &str, command: &str, log: &[Reply], at: usize) -> (res: Progress<()>)
    ensures
        res.deep_view() == update_run(plist@, command@, log.deep_view(), at as int),
{
    if at >= log.len() {
        return Progress::Pending(Effect::Execute(plist_buddy(plist, command)));
    }
    match &log[at] {
        Reply::Exited(output) => if output.success {
            Progress::Ready { value: (), next: at + 1 }
        } else {
            Progress::Failed(
                DesktopError::PlistRejected {
                    path: plist.to_owned(),
                    stderr: text::output_text(output.stderr.as_slice()),
                },
            )
        },
        Reply::Failed(cause) => Progress::Failed(
            DesktopError::UpdatePlist { path: plist.to_owned(), cause: cause.clone() },
        ),
        _ => Progress::Failed(DesktopError::UnexpectedReply { at }),
    }
}

/// The command that puts `value` at `key`: it differs by whether there is a string already.
pub open spec fn put_command_view(key: Seq<char>, value: Seq<char>, exists: bool) -> Seq<char> {
    if exists {
        "Set :"@ + key + " "@ + value
    } else {
        "Add :"@ + key + " string "@ + value
    }
}

/// Makes the command that puts `value` at `key`.
pub fn put_command(key: &str, value: &str, exists: bool) -> (res: String)
    ensures
        res@ == put_command_view(key@, value@, exists),
{
    let mut res = (if exists {
        "Set :"
    } else {
        "Add :"
    }).to_owned();
    res.append(key);
    res.append(
        if exists {
            " "
        } else {
            " string "
        },
    );
    res.append(value);
    res
}

/// Seeing to it that `value` stands at `key`, and telling whether that took a change.
pub open spec fn set_or_add_run(
    plist: Seq<char>,
    key: Seq<char>,
    value: Seq<char>,
    log: Seq<ReplyView>,
    at: int,
) -> ProgressView<bool> {
    match read_string_run(plist, key, log, at) {
        ProgressView::Ready { value: current, next } => if current == Some(value) {
            ProgressView::Ready { value: false, next }
        } else {
            match key_exists_run(plist, key, log, next) {
                ProgressView::Ready { value: exists, next } => match update_run(
                    plist,
                    put_command_view(key, value, exists),
                    log,
                    next,
                ) {
                    ProgressView::Ready { next, .. } => ProgressView::Ready { value: true, next },
                    ProgressView::Pending(effect) => ProgressView::Pending(effect),
                    ProgressView::Failed(error) => ProgressView::Failed(error),
                },
                ProgressView::Pending(effect) => ProgressView::Pending(effect),
                ProgressView::Failed(error) => ProgressView::Failed(error),
            }
        },
        ProgressView::Pending(effect) => ProgressView::Pending(effect),
        ProgressView::Failed(error) => ProgressView::Failed(error),
    }
}

/// Sees to it that `value` stands at `key`, and tells whether that took a change.
pub fn set_or_add_plist_string(
    plist: &str,
    key: &str,
    value: &str,
    log: &[Reply],
    at: usize,
) -> (res: Progress<bool>)
    ensures
        res.deep_view() == set_or_add_run(plist@, key@, value@, log.deep_view(), at as int),
{
    match read_plist_string(plist, key, log, at) {
        Progress::Ready { value: current, next } => {
            if let Some(current) = &current {
                if text::same_text(current.as_str(), value) {
                    return Progress::Ready { value: false, next };
                }
            }
            match plist_key_exists(plist, key, log, next) {
                Progress::Ready { value: exists, next } => match run_plist_buddy(
                    plist,
                    put_command(key, value, exists).as_str(),
                    log,
                    next,
                ) {
                    Progress::Ready { next, .. } => Progress::Ready { value: true, next },
                    Progress::Pending(effect) => Progress::Pending(effect),
                    Progress::Failed(error) => Progress::Failed(error),
                },
                Progress::Pending(effect) => Progress::Pending(effect),
                Progress::Failed(error) => Progress::Failed(error),
            }
        },
        Progress::Pending(effect) => Progress::Pending(effect),
        Progress::Failed(error) => Progress::Failed(error),
    }
}

/// Seeing to the strings from position `i` on, and telling whether one of them or, by `changed`,
/// an earlier one took a change.
pub open spec fn set_all_run(
    plist: Seq<char>,
    i: int,
    changed: bool,
    log: Seq<ReplyView>,
    at: int,
) -> ProgressView<bool>
    decreases plist_strings_view().len() - i,
{
    if i < 0 || i >= plist_strings_view().len() {
        ProgressView::Ready { value: changed, next: at }
    } else {
        let (key, value) = plist_strings_view()[i];
        match set_or_add_run(plist, key, value, log, at) {
            ProgressView::Ready { value, next } => set_all_run(
                plist,
                i + 1,
                changed || value,
                log,
                next,
            ),
            other => other,
        }
    }
}

fn set_all(plist: &str, log: &[Reply], at: usize) -> (res: Progress<bool>)
    ensures
        res.deep_view() == set_all_run(plist@, 0, false, log.deep_view(), at as int),
{
    let strings = macos_dev_electron_plist_strings();
    let mut i: usize = 0;
    let mut changed = false;
    let mut here: usize = at;
    while i < strings.len()
        invariant
            i <= strings.len(),
            strings.deep_view() == plist_strings_view(),
            set_all_run(plist@, 0, false, log.deep_view(), at as int) == set_all_run(
                plist@,
                i as int,
                changed,
                log.deep_view(),
                here as int,
            ),
        decreases strings.len() - i,
    {
        let (key, value) = &strings[i];
        assert((key@, value@) == strings.deep_view()[i as int]);
        match set_or_add_plist_string(plist, key.as_str(), value.as_str(), log, here) {
            Progress::Ready { value, next } => {
                changed = changed || value;
                here = next;
            },
            other => {
                return other;
            },
        }
        i = i + 1;
    }
    assert(strings.deep_view().len() == strings.len());
    Progress::Ready { value: changed, next: here }
}

/// The signing tool, told to check the bundle's signature in silence.
pub open spec fn verify_signature_view(app_bundle: Seq<char>) -> ProcessView {
    ProcessView {
        program: "codesign"@,
        args: seq!["--verify"@, "--deep"@, "--strict"@, app_bundle],
        stdin: Stream::Null,
        stdout: Stream::Null,
        stderr: Stream::Null,
    }
}

/// Tells the signing tool to check the bundle's signature in silence.
pub fn verify_signature(app_bundle: &str) -> (res: ProcessSpec)
    ensures
        res.deep_view() == verify_signature_view(app_bundle@),
{
    let mut args: Vec<String> = Vec::new();
    text::push_str(&mut args, "--verify");
    text::push_str(&mut args, "--deep");
    text::push_str(&mut args, "--strict");
    text::push_str(&mut args, app_bundle);
    assert(args.deep_view() =~= verify_signature_view(app_bundle@).args);
    ProcessSpec {
        program: "codesign".to_owned(),
        args,
        stdin: Stream::Null,
        stdout: Stream::Null,
        stderr: Stream::Null,
    }
}

/// The signing tool, told to sign the bundle ad hoc.
pub open spec fn sign_ad_hoc_view(app_bundle: Seq<char>) -> ProcessView {
    ProcessView {
        program: "codesign"@,
        args: seq!["--force"@, "--deep"@, "--sign"@, "-"@, app_bundle],
        stdin: Stream::Null,
        stdout: Stream::Piped,
        stderr: Stream::Piped,
    }
}

/// Tells the signing tool to sign the bundle ad hoc.
pub fn sign_ad_hoc(app_bundle: &str) -> (res: ProcessSpec)
    ensures
        res.deep_view() == sign_ad_hoc_view(app_bundle@),
{
    let mut args: Vec<String> = Vec::new();
    text::push_str(&mut args, "--force");
    text::push_str(&mut args, "--deep");
    text::push_str(&mut args, "--sign");
    text::push_str(&mut args, "-");
    text::push_str(&mut args, app_bundle);
    assert(args.deep_view() =~= sign_ad_hoc_view(app_bundle@).args);
    ProcessSpec {
        program: "codesign".to_owned(),
        args,
        stdin: Stream::Null,
        stdout: Stream::Piped,
        stderr: Stream::Piped,
    }
}

/// Telling whether the bundle's signature holds. A tool that does not start counts as a no.
pub open spec fn codesign_verify_run(
    app_bundle: Seq<char>,
    log: Seq<ReplyView>,
    at: int,
) -> ProgressView<bool> {
    if at >= log.len() {
        ProgressView::Pending(EffectView::Execute(verify_signature_view(app_bundle)))
    } else {
        match log[at] {
            ReplyView::Exited(output) => ProgressView::Ready {
                value: output.success,
                next: at + 1,
            },
            ReplyView::Failed(_) => ProgressView::Ready { value: false, next: at + 1 },
            _ => replay::unexpected(at),
        }
    }
}

/// Tells whether the bundle's signature holds.
pub fn codesign_verify(app_bundle: &str, log: &[Reply], at: usize) -> (res: Progress<bool>)
    ensures
        res.deep_view() == codesign_verify_run(app_bundle@, log.deep_view(), at as int),
{
    if at >= log.len() {
        return Progress::Pending(Effect::Execute(verify_signature(app_bundle)));
    }
    match &log[at] {
        Reply::Exited(output) => Progress::Ready { value: output.success, next: at + 1 },
        Reply::Failed(_) => Progress::Ready { value: false, next: at + 1 },
        _ => Progress::Failed(DesktopError::UnexpectedReply { at }),
    }
}

/// The line that announces a new signature.
pub open spec fn resign_line() -> Seq<char> {
    "Re-signing dev Electron.app after macOS permission plist patch..."@
}

/// Signing the bundle ad hoc.
pub open spec fn codesign_ad_hoc_run(
    app_bundle: Seq<char>,
    log: Seq<ReplyView>,
    at: int,
) -> ProgressView<()> {
    match replay::print_run(resign_line(), log, at) {
        ProgressView::Ready { next, .. } => if next >= log.len() {
            ProgressView::Pending(EffectView::Execute(sign_ad_hoc_view(app_bundle)))
        } else {
            match log[next] {
                ReplyView::Exited(output) => if output.success {
                    ProgressView::Ready { value: (), next: next + 1 }
                } else {
                    ProgressView::Failed(
                        DesktopErrorView::ResignRejected {
                            path: app_bundle,
                            stderr: text::output_text_view(output.stderr),
                        },
                    )
                },
                ReplyView::Failed(cause) => ProgressView::Failed(
                    DesktopErrorView::Resign { path: app_bundle, cause },
                ),
                _ => replay::unexpected(next),
            }
        },
        other => other,
    }
}

/// Signs the bundle ad hoc.
pub fn codesign_ad_hoc(app_bundle: &str, log: &[Reply], at: usize) -> (res: Progress<()>)
    ensures
        res.deep_view() == codesign_ad_hoc_run(app_bundle@, log.deep_view(), at as int),
{
    match replay::print_line(
        "Re-signing dev Electron.app after macOS permission plist patch...".to_owned(),
        log,
        at,
    ) {
        Progress::Ready { next, .. } => {
            if next >= log.len() {
                return Progress::Pending(Effect::Execute(sign_ad_hoc(app_bundle)));
            }
            match &log[next] {
                Reply::Exited(output) => if output.success {
                    Progress::Ready { value: (), next: next + 1 }
                } else {
                    Progress::Failed(
                        DesktopError::ResignRejected {
                            path: app_bundle.to_owned(),
                            stderr: text::output_text(output.stderr.as_slice()),
                        },
                    )
                },
                Reply::Failed(cause) => Progress::Failed(
                    DesktopError::Resign { path: app_bundle.to_owned(), cause: cause.clone() },
                ),
                _ => Progress::Failed(DesktopError::UnexpectedReply { at: next }),
            }
        },
        other => other,
    }
}

/// Seeing to it that the bundle is signed: a change calls for a new signature, and so does one
/// that does not hold.
pub open spec fn sign_run(
    app_bundle: Seq<char>,
    changed: bool,
    log: Seq<ReplyView>,
    at: int,
) -> ProgressView<()> {
    if changed {
        codesign_ad_hoc_run(app_bundle, log, at)
    } else {
        match codesign_verify_run(app_bundle, log, at) {
            ProgressView::Ready { value: true, next } => ProgressView::Ready { value: (), next },
            ProgressView::Ready { value: false, next } => codesign_ad_hoc_run(
                app_bundle,
                log,
                next,
            ),
            ProgressView::Pending(effect) => ProgressView::Pending(effect),
            ProgressView::Failed(error) => ProgressView::Failed(error),
        }
    }
}

fn sign(app_bundle: &str, changed: bool, log: &[Reply], at: usize) -> (res: Progress<()>)
    ensures
        res.deep_view() == sign_run(app_bundle@, changed, log.deep_view(), at as int),
{
    if changed {
        return codesign_ad_hoc(app_bundle, log, at);
    }
    match codesign_verify(app_bundle, log, at) {
        Progress::Ready { value: true, next } => Progress::Ready { value: (), next },
        Progress::Ready { value: false, next } => codesign_ad_hoc(app_bundle, log, next),
        Progress::Pending(effect) => Progress::Pending(effect),
        Progress::Failed(error) => Progress::Failed(error),
    }
}

/// The line that reports a changed property list.
pub open spec fn patched_line_view(plist: Seq<char>) -> Seq<char> {
    "Patched dev Electron Info.plist for macOS dev identity and capture permissions: "@ + plist
}

/// Reporting a change, if there was one.
pub open spec fn report_run(
    plist: Seq<char>,
    changed: bool,
    log: Seq<ReplyView>,
    at: int,
) -> ProgressView<()> {
    if changed {
        replay::print_run(patched_line_view(plist), log, at)
    } else {
        ProgressView::Ready { value: (), next: at }
    }
}

fn report(plist: &str, changed: bool, log: &[Reply], at: usize) -> (res: Progress<()>)
    ensures
        res.deep_view() == report_run(plist@, changed, log.deep_view(), at as int),
{
    if changed {
        let mut line =
            "Patched dev Electron Info.plist for macOS dev identity and capture permissions: "
            .to_owned();
        line.append(plist);
        replay::print_line(line, log, at)
    } else {
        Progress::Ready { value: (), next: at }
    }
}

/// Reporting a change, if there was one, and seeing to the signature.
pub open spec fn report_and_sign_run(
    plist: Seq<char>,
    app_bundle: Seq<char>,
    changed: bool,
    log: Seq<ReplyView>,
    at: int,
) -> ProgressView<()> {
    match report_run(plist, changed, log, at) {
        ProgressView::Ready { next, .. } => sign_run(app_bundle, changed, log, next),
        other => other,
    }
}

/// Putting every string in place and seeing to the signature.
pub open spec fn strings_and_signature_run(
    plist: Seq<char>,
    app_bundle: Seq<char>,
    log: Seq<ReplyView>,
    at: int,
) -> ProgressView<()> {
    match set_all_run(plist, 0, false, log, at) {
        ProgressView::Ready { value: changed, next } => report_and_sign_run(
            plist,
            app_bundle,
            changed,
            log,
            next,
        ),
        ProgressView::Pending(effect) => ProgressView::Pending(effect),
        ProgressView::Failed(error) => ProgressView::Failed(error),
    }
}

/// Patching the bundle of a macOS host: a valid bundle, every string in place, a signature.
pub open spec fn patch_bundle_run(
    workspace: WorkspaceView,
    log: Seq<ReplyView>,
    at: int,
) -> ProgressView<()> {
    match bundle::ensure_bundle_run(workspace, log, at) {
        ProgressView::Ready { next, .. } => strings_and_signature_run(
            paths::dev_electron_info_plist_view(workspace.root),
            paths::dev_electron_app_bundle_view(workspace.root),
            log,
            next,
        ),
        other => other,
    }
}

/// Patching the bundle: nothing to do anywhere but on a macOS host.
pub open spec fn patch_run(
    workspace: WorkspaceView,
    log: Seq<ReplyView>,
    at: int,
) -> ProgressView<()> {
    if at >= log.len() {
        ProgressView::Pending(EffectView::InspectHost)
    } else {
        match log[at] {
            ReplyView::Host(facts) => if facts.is_macos_host() {
                patch_bundle_run(workspace, log, at + 1)
            } else {
                ProgressView::Ready { value: (), next: at + 1 }
            },
            _ => replay::unexpected(at),
        }
    }
}

/// Gives the development bundle its identity, its usage descriptions and a signature.
///
/// The bundle is made valid first. It is signed again when a string changed or the signature does
/// not hold. Anywhere but on a macOS host there is nothing to do.
pub fn patch_macos_dev_electron_info_plist(workspace: &Workspace, log: &[Reply], at: usize) -> (res:
    Progress<()>)
    ensures
        res.deep_view() == patch_run(workspace.deep_view(), log.deep_view(), at as int),
{
    if at >= log.len() {
        return Progress::Pending(Effect::InspectHost);
    }
    match &log[at] {
        Reply::Host(facts) => {
            if !facts.macos_host() {
                return Progress::Ready { value: (), next: at + 1 };
            }
        },
        _ => {
            return Progress::Failed(DesktopError::UnexpectedReply { at });
        },
    }
    let app_bundle = paths::dev_electron_app_bundle_path(workspace.root.as_str());
    let plist = paths::dev_electron_info_plist_path(workspace.root.as_str());
    match bundle::ensure_macos_dev_electron_bundle(workspace, log, at + 1) {
        Progress::Ready { next, .. } => match set_all(plist.as_str(), log, next) {
            Progress::Ready { value: changed, next } => match report(
                plist.as_str(),
                changed,
                log,
                next,
            ) {
                Progress::Ready { next, .. } => sign(app_bundle.as_str(), changed, log, next),
                other => other,
            },
            Progress::Pending(effect) => Progress::Pending(effect),
            Progress::Failed(error) => Progress::Failed(error),
        },
        other => other,
    }
}

/// Once a string is seen to, or that failed, more replies do not change it.
pub proof fn law_set_or_add_settles(
    plist: Seq<char>,
    key: Seq<char>,
    value: Seq<char>,
    log: Seq<ReplyView>,
    longer: Seq<ReplyView>,
    at: int,
)
    requires
        replay::extends(log, longer),
        0 <= at <= log.len(),
    ensures
        replay::settles(
            set_or_add_run(plist, key, value, log, at),
            set_or_add_run(plist, key, value, longer, at),
            at,
            log.len(),
        ),
{
}

/// Once all strings are seen to, or that failed, more replies do not change it.
pub proof fn law_set_all_settles(
    plist: Seq<char>,
    i: int,
    changed: bool,
    log: Seq<ReplyView>,
    longer: Seq<ReplyView>,
    at: int,
)
    requires
        replay::extends(log, longer),
        0 <= at <= log.len(),
    ensures
        replay::settles(
            set_all_run(plist, i, changed, log, at),
            set_all_run(plist, i, changed, longer, at),
            at,
            log.len(),
        ),
    decreases plist_strings_view().len() - i,
{
    if 0 <= i < plist_strings_view().len() {
        let (key, value) = plist_strings_view()[i];
        law_set_or_add_settles(plist, key, value, log, longer, at);
        law_set_or_add_settles(plist, key, value, longer, longer, at);
        if let ProgressView::Ready { value, next } = set_or_add_run(plist, key, value, log, at) {
            law_set_all_settles(plist, i + 1, changed || value, log, longer, next);
        }
        if let ProgressView::Ready { value, next } = set_or_add_run(plist, key, value, longer, at) {
            law_set_all_settles(plist, i + 1, changed || value, longer, longer, next);
        }
    }
}

/// Once the signature is seen to, or that failed, more replies do not change it.
pub proof fn law_report_and_sign_settle(
    plist: Seq<char>,
    app_bundle: Seq<char>,
    changed: bool,
    log: Seq<ReplyView>,
    longer: Seq<ReplyView>,
    at: int,
)
    requires
        replay::extends(log, longer),
        0 <= at <= log.len(),
    ensures
        replay::settles(
            report_and_sign_run(plist, app_bundle, changed, log, at),
            report_and_sign_run(plist, app_bundle, changed, longer, at),
            at,
            log.len(),
        ),
{
}

/// Once strings and signature are seen to, or that failed, more replies do not change it.
pub proof fn law_strings_and_signature_settle(
    plist: Seq<char>,
    app_bundle: Seq<char>,
    log: Seq<ReplyView>,
    longer: Seq<ReplyView>,
    at: int,
)
    requires
        replay::extends(log, longer),
        0 <= at <= log.len(),
    ensures
        replay::settles(
            strings_and_signature_run(plist, app_bundle, log, at),
            strings_and_signature_run(plist, app_bundle, longer, at),
            at,
            log.len(),
        ),
{
    law_set_all_settles(plist, 0, false, log, longer, at);
    law_set_all_settles(plist, 0, false, longer, longer, at);
    if let ProgressView::Ready { value: changed, next } = set_all_run(plist, 0, false, log, at) {
        law_report_and_sign_settle(plist, app_bundle, changed, log, longer, next);
    }
    if let ProgressView::Ready { value: changed, next } = set_all_run(plist, 0, false, longer, at) {
        law_report_and_sign_settle(plist, app_bundle, changed, longer, longer, next);
    }
}

/// Once the bundle is patched, or that failed, more replies do not change it.
pub proof fn law_patch_settles(
    workspace: WorkspaceView,
    log: Seq<ReplyView>,
    longer: Seq<ReplyView>,
    at: int,
)
    requires
        replay::extends(log, longer),
        0 <= at <= log.len(),
    ensures
        replay::settles(
            patch_run(workspace, log, at),
            patch_run(workspace, longer, at),
            at,
            log.len(),
        ),
{
    let app_bundle = paths::dev_electron_app_bundle_view(workspace.root);
    let plist = paths::dev_electron_info_plist_view(workspace.root);
    if at < log.len() {
        bundle::law_ensure_bundle_settles(workspace, log, longer, at + 1);
        if let ProgressView::Ready { next, .. } = bundle::ensure_bundle_run(
            workspace,
            log,
            at + 1,
        ) {
            law_strings_and_signature_settle(plist, app_bundle, log, longer, next);
        }
    }
    if at < longer.len() {
        bundle::law_ensure_bundle_settles(workspace, longer, longer, at + 1);
        if let ProgressView::Ready { next, .. } = bundle::ensure_bundle_run(
            workspace,
            longer,
            at + 1,
        ) {
            law_strings_and_signature_settle(plist, app_bundle, longer, longer, next);
        }
    }
}

/// Whether a reply to the question for a string says that it is `value`.
pub open spec fn in_place(value: Seq<char>, reply: ReplyView) -> bool {
    reply matches ReplyView::Exited(output) && output.success && text::output_text_view(
        output.stdout,
    ) == value
}

/// A string that is in place is not written.
pub proof fn law_string_in_place_is_not_written(
    plist: Seq<char>,
    key: Seq<char>,
    value: Seq<char>,
    log: Seq<ReplyView>,
    at: int,
)
    requires
        0 <= at < log.len(),
        in_place(value, log[at]),
    ensures
        set_or_add_run(plist, key, value, log, at) == (ProgressView::Ready {
            value: false,
            next: at + 1,
        }),
{
}

/// A string that is not in place is written: set where the key has a string, added where not.
pub proof fn law_other_string_is_set_or_added(
    plist: Seq<char>,
    key: Seq<char>,
    value: Seq<char>,
    first: ProcessOutputView,
    second: ProcessOutputView,
    log: Seq<ReplyView>,
    at: int,
)
    requires
        0 <= at,
        log.len() == at + 2,
        log[at] == ReplyView::Exited(first),
        log[at + 1] == ReplyView::Exited(second),
        !in_place(value, log[at]),
    ensures
        set_or_add_run(plist, key, value, log, at) == ProgressView::<bool>::Pending(
            EffectView::Execute(
                plist_buddy_view(plist, put_command_view(key, value, second.success)),
            ),
        ),
{
}

/// A change is reported only after a string that was not in place was written.
pub proof fn law_reported_change_was_written(
    plist: Seq<char>,
    key: Seq<char>,
    value: Seq<char>,
    log: Seq<ReplyView>,
    at: int,
    next: int,
)
    requires
        0 <= at,
        set_or_add_run(plist, key, value, log, at) == (ProgressView::Ready { value: true, next }),
    ensures
        next == at + 3 <= log.len(),
        !in_place(value, log[at]),
        log[at + 2] matches ReplyView::Exited(output) && output.success,
{
}

/// When all strings from position `i` on are seen to, so is each of them.
pub proof fn law_every_string_is_seen_to(
    plist: Seq<char>,
    i: int,
    changed: bool,
    log: Seq<ReplyView>,
    at: int,
    j: int,
)
    requires
        0 <= i <= j < plist_strings_view().len(),
        0 <= at <= log.len(),
        set_all_run(plist, i, changed, log, at) is Ready,
    ensures
        exists|from: int|
            at <= from <= log.len() && #[trigger] set_or_add_run(
                plist,
                plist_strings_view()[j].0,
                plist_strings_view()[j].1,
                log,
                from,
            ) is Ready,
    decreases plist_strings_view().len() - i,
{
    let (key, value) = plist_strings_view()[i];
    law_set_or_add_settles(plist, key, value, log, log, at);
    if i < j {
        if let ProgressView::Ready { value, next } = set_or_add_run(plist, key, value, log, at) {
            law_every_string_is_seen_to(plist, i + 1, changed || value, log, next, j);
        }
    }
}

/// When the strings from position `i` on are in place, they are read and nothing else is done.
pub proof fn law_strings_in_place_are_only_read(
    plist: Seq<char>,
    i: int,
    changed: bool,
    log: Seq<ReplyView>,
    at: int,
)
    requires
        0 <= i <= plist_strings_view().len(),
        0 <= at,
        at + plist_strings_view().len() - i <= log.len(),
        forall|j: int|
            i <= j < plist_strings_view().len() ==> in_place(
                (#[trigger] plist_strings_view()[j]).1,
                log[at + j - i],
            ),
    ensures
        set_all_run(plist, i, changed, log, at) == (ProgressView::Ready {
            value: changed,
            next: at + plist_strings_view().len() - i,
        }),
    decreases plist_strings_view().len() - i,
{
    if i < plist_strings_view().len() {
        assert(in_place(plist_strings_view()[i].1, log[at]));
        assert forall|j: int| i + 1 <= j < plist_strings_view().len() implies in_place(
            (#[trigger] plist_strings_view()[j]).1,
            log[at + 1 + j - (i + 1)],
        ) by {
            assert(in_place(plist_strings_view()[j].1, log[at + j - i]));
        }
        law_strings_in_place_are_only_read(plist, i + 1, changed, log, at + 1);
    }
}

/// A patched bundle is left alone: when it is valid, its strings are in place and its signature
/// holds, patching it again only looks, and neither writes nor signs.
pub proof fn law_patched_bundle_is_left_alone(
    workspace: WorkspaceView,
    host: HostFacts,
    facts: BundleFacts,
    check: ProcessOutputView,
    log: Seq<ReplyView>,
    at: int,
)
    requires
        0 <= at,
        at + 4 + plist_strings_view().len() <= log.len(),
        host.is_macos_host(),
        log[at] == ReplyView::Host(host),
        log[at + 1] == ReplyView::Host(host),
        log[at + 2] == ReplyView::Bundle(facts),
        bundle::is_valid(facts),
        forall|j: int|
            0 <= j < plist_strings_view().len() ==> in_place(
                (#[trigger] plist_strings_view()[j]).1,
                log[at + 3 + j],
            ),
        log[at + 3 + plist_strings_view().len()] == ReplyView::Exited(check),
        check.success,
    ensures
        patch_run(workspace, log, at) == (ProgressView::Ready {
            value: (),
            next: at + 4 + plist_strings_view().len(),
        }),
{
    let plist = paths::dev_electron_info_plist_view(workspace.root);
    bundle::law_valid_bundle_is_left_alone(workspace, host, facts, log, at + 1);
    assert forall|j: int| 0 <= j < plist_strings_view().len() implies in_place(
        (#[trigger] plist_strings_view()[j]).1,
        log[at + 3 + j - 0],
    ) by {
        assert(in_place(plist_strings_view()[j].1, log[at + 3 + j]));
    }
    law_strings_in_place_are_only_read(plist, 0, false, log, at + 3);
}

/// Anywhere but on a macOS host there is nothing to patch.
pub proof fn law_other_hosts_are_not_patched(
    workspace: WorkspaceView,
    facts: HostFacts,
    log: Seq<ReplyView>,
    at: int,
)
    requires
        0 <= at < log.len(),
        log[at] == ReplyView::Host(facts),
        !facts.is_macos_host(),
    ensures
        patch_run(workspace, log, at) == (ProgressView::Ready { value: (), next: at + 1 }),
{
}

/// A changed bundle is always signed again, whatever its signature was.
pub proof fn law_change_calls_for_a_signature(
    app_bundle: Seq<char>,
    log: Seq<ReplyView>,
    at: int,
)
    ensures
        sign_run(app_bundle, true, log, at) == codesign_ad_hoc_run(app_bundle, log, at),
{
}

/// An unchanged bundle is signed again only when its signature does not hold.
pub proof fn law_signature_that_holds_is_kept(
    app_bundle: Seq<char>,
    log: Seq<ReplyView>,
    at: int,
)
    requires
        0 <= at < log.len(),
    ensures
        (log[at] matches ReplyView::Exited(output) && output.success) ==> sign_run(
            app_bundle,
            false,
            log,
            at,
        ) == (ProgressView::Ready { value: (), next: at + 1 }),
        (log[at] matches ReplyView::Exited(output) && !output.success) ==> sign_run(
            app_bundle,
            false,
            log,
            at,
        ) == codesign_ad_hoc_run(app_bundle, log, at + 1),
        log[at] is Failed ==> sign_run(app_bundle, false, log, at) == codesign_ad_hoc_run(
            app_bundle,
            log,
            at + 1,
        ),
{
}

/// Patching succeeds on a macOS host only when, at the end, the signing tool succeeded: it found
/// that the signature holds, or it made a new one.
pub proof fn law_patched_bundle_is_signed(
    workspace: WorkspaceView,
    host: HostFacts,
    log: Seq<ReplyView>,
    at: int,
    next: int,
)
    requires
        0 <= at < log.len(),
        log[at] == ReplyView::Host(host),
        host.is_macos_host(),
        patch_run(workspace, log, at) == (ProgressView::Ready { value: (), next }),
    ensures
        at < next <= log.len(),
        log[next - 1] matches ReplyView::Exited(output) && output.success,
{
    let plist = paths::dev_electron_info_plist_view(workspace.root);
    bundle::law_ensure_bundle_settles(workspace, log, log, at + 1);
    if let ProgressView::Ready { next, .. } = bundle::ensure_bundle_run(workspace, log, at + 1) {
        law_set_all_settles(plist, 0, false, log, log, next);
    }
    law_patch_settles(workspace, log, log, at);
}

/// Whether, from position `from` on, the string at `key` was read and found to be `value`, or the
/// tool was told to put `value` there and succeeded.
pub open spec fn put_in_place(
    plist: Seq<char>,
    key: Seq<char>,
    value: Seq<char>,
    log: Seq<ReplyView>,
    from: int,
) -> bool {
    ||| {
        &&& 0 <= from < log.len()
        &&& set_or_add_run(plist, key, value, log.take(from), from)
            == ProgressView::<bool>::Pending(
            EffectView::Execute(plist_buddy_view(plist, print_command_view(key))),
        )
        &&& in_place(value, log[from])
    }
    ||| {
        &&& 0 <= from
        &&& from + 2 < log.len()
        &&& log[from + 1] matches ReplyView::Exited(found) && set_or_add_run(
            plist,
            key,
            value,
            log.take(from + 2),
            from,
        ) == ProgressView::<bool>::Pending(
            EffectView::Execute(
                plist_buddy_view(plist, put_command_view(key, value, found.success)),
            ),
        )
        &&& log[from + 2] matches ReplyView::Exited(output) && output.success
    }
}

/// Patching succeeds on a macOS host only when every listed string was read in place, or was
/// written to success.
pub proof fn law_patched_bundle_has_every_string(
    workspace: WorkspaceView,
    host: HostFacts,
    log: Seq<ReplyView>,
    at: int,
    j: int,
)
    requires
        0 <= at < log.len(),
        log[at] == ReplyView::Host(host),
        host.is_macos_host(),
        patch_run(workspace, log, at) is Ready,
        0 <= j < plist_strings_view().len(),
    ensures
        exists|from: int|
            at < from && #[trigger] put_in_place(
                paths::dev_electron_info_plist_view(workspace.root),
                plist_strings_view()[j].0,
                plist_strings_view()[j].1,
                log,
                from,
            ),
{
    let plist = paths::dev_electron_info_plist_view(workspace.root);
    let (key, value) = plist_strings_view()[j];
    bundle::law_ensure_bundle_settles(workspace, log, log, at + 1);
    if let ProgressView::Ready { next, .. } = bundle::ensure_bundle_run(workspace, log, at + 1) {
        law_every_string_is_seen_to(plist, 0, false, log, next, j);
        let from = choose|from: int|
            next <= from <= log.len() && #[trigger] set_or_add_run(plist, key, value, log, from)
                is Ready;
        assert(put_in_place(plist, key, value, log, from));
    }
}

/// Seeing to the strings from position `i` on takes at most three replies for each.
pub proof fn law_set_all_ends(
    plist: Seq<char>,
    i: int,
    changed: bool,
    log: Seq<ReplyView>,
    at: int,
)
    requires
        0 <= i <= plist_strings_view().len(),
        0 <= at,
        at + 3 * (plist_strings_view().len() - i) <= log.len(),
    ensures
        !(set_all_run(plist, i, changed, log, at) is Pending),
        set_all_run(plist, i, changed, log, at) matches ProgressView::Ready { next, .. } ==> at
            <= next <= at + 3 * (plist_strings_view().len() - i),
    decreases plist_strings_view().len() - i,
{
    if i < plist_strings_view().len() {
        let (key, value) = plist_strings_view()[i];
        if let ProgressView::Ready { value, next } = set_or_add_run(plist, key, value, log, at) {
            law_set_all_ends(plist, i + 1, changed || value, log, next);
        }
    }
}

/// Patching takes a bounded number of replies: one for the host, thirteen for the bundle, three for
/// each string, and four to report, to check and to sign.
pub proof fn law_patch_ends(workspace: WorkspaceView, log: Seq<ReplyView>, at: int)
    requires
        0 <= at,
        at + 18 + 3 * plist_strings_view().len() <= log.len(),
    ensures
        !(patch_run(workspace, log, at) is Pending),
        patch_run(workspace, log, at) matches ProgressView::Ready { next, .. } ==> at < next <= at
            + 18 + 3 * plist_strings_view().len(),
{
    let plist = paths::dev_electron_info_plist_view(workspace.root);
    bundle::law_ensure_bundle_ends(workspace, log, at + 1);
    if let ProgressView::Ready { next, .. } = bundle::ensure_bundle_run(workspace, log, at + 1) {
        law_set_all_ends(plist, 0, false, log, next);
    }
}

/// No key is listed twice, so that putting one string in place never undoes another.
pub proof fn law_keys_are_distinct(i: int, j: int)
    requires
        0 <= i < j < plist_strings_view().len(),
    ensures
        plist_strings_view()[i].0 != plist_strings_view()[j].0,
{
    reveal_strlit("CFBundleName");
    reveal_strlit("CFBundleDisplayName");
    reveal_strlit("CFBundleIdentifier");
    reveal_strlit("NSMicrophoneUsageDescription");
    reveal_strlit("NSCameraUsageDescription");
    reveal_strlit("NSAppleEventsUsageDescription");
    reveal_strlit("NSAudioCaptureUsageDescription");
    reveal_strlit("NSScreenCaptureUsageDescription");
    assert(plist_strings_view()[0].0.len() == 12);
    assert(plist_strings_view()[1].0.len() == 19);
    assert(plist_strings_view()[2].0.len() == 18);
    assert(plist_strings_view()[3].0.len() == 28);
    assert(plist_strings_view()[4].0.len() == 24);
    assert(plist_strings_view()[5].0.len() == 29);
    assert(plist_strings_view()[6].0.len() == 30);
    assert(plist_strings_view()[7].0.len() == 31);
}

/// Every listed value reads back as itself: what is dropped from the tool's output is no part of
/// it.
pub proof fn law_listed_values_read_back(i: int)
    requires
        0 <= i < plist_strings_view().len(),
    ensures
        text::trimmed_end(plist_strings_view()[i].1) == plist_strings_view()[i].1,
        text::trimmed_end(plist_strings_view()[i].1.push('\n')) == plist_strings_view()[i].1,
{
    reveal_strlit("Fluxer Canary (Dev)");
    reveal_strlit("app.fluxer.canary.dev");
    reveal_strlit("Fluxer needs access to your microphone to enable voice chat features.");
    reveal_strlit("Fluxer needs access to your camera to enable video chat features.");
    reveal_strlit("Fluxer needs access to Apple Events for automation features.");
    reveal_strlit("Fluxer captures audio from the screen or window you choose to share.");
    reveal_strlit("Fluxer captures the screen or window you choose to share.");
    let value = plist_strings_view()[i].1;
    assert(value.push('\n').drop_last() =~= value);
}

/// The property list tool is given one command and the list, and its output is read. A string is
/// printed by its key; it is set where the key has one and added where not.
pub proof fn law_property_list_commands(
    plist: Seq<char>,
    command: Seq<char>,
    key: Seq<char>,
    value: Seq<char>,
)
    ensures
        plist_buddy_view(plist, command) == (ProcessView {
            program: "/usr/libexec/PlistBuddy"@,
            args: seq!["-c"@, command, plist],
            stdin: Stream::Null,
            stdout: Stream::Piped,
            stderr: Stream::Piped,
        }),
        print_command_view(key) == "Print :"@ + key,
        put_command_view(key, value, true) == "Set :"@ + key + " "@ + value,
        put_command_view(key, value, false) == "Add :"@ + key + " string "@ + value,
{
}

/// The value of a key is what the tool printed, without white space at its end, where the tool
/// succeeded; where it failed there is none.
pub proof fn law_printed_value(printed: Seq<char>)
    ensures
        plist_value_view(true, printed) matches Some(value) && value.is_prefix_of(printed) && (
        value.len() > 0 ==> !text::white_space(value.last())) && (forall|k: int|
            value.len() <= k < printed.len() ==> text::white_space(#[trigger] printed[k])),
        plist_value_view(false, printed) is None,
{
    text::law_trimming_the_end_drops_white_space(printed);
}

/// A string is read with the tool: it is what the tool printed, there is none where the tool
/// failed, and it is an error where the tool did not start.
pub proof fn law_reading_a_string(
    plist: Seq<char>,
    key: Seq<char>,
    log: Seq<ReplyView>,
    at: int,
)
    ensures
        at >= log.len() ==> read_string_run(plist, key, log, at) == ProgressView::<
            Option<Seq<char>>,
        >::Pending(EffectView::Execute(plist_buddy_view(plist, "Print :"@ + key))),
        at < log.len() ==> (log[at] matches ReplyView::Exited(output) ==> {
            &&& output.success ==> read_string_run(plist, key, log, at) == (ProgressView::Ready {
                value: Some(text::output_text_view(output.stdout)),
                next: at + 1,
            })
            &&& !output.success ==> read_string_run(plist, key, log, at) == (ProgressView::Ready {
                value: None::<Seq<char>>,
                next: at + 1,
            })
        }),
        at < log.len() ==> (log[at] matches ReplyView::Failed(cause) ==> read_string_run(
            plist,
            key,
            log,
            at,
        ) == ProgressView::<Option<Seq<char>>>::Failed(
            DesktopErrorView::ReadPlist { key, path: plist, cause },
        )),
        at < log.len() && !(log[at] is Exited) && !(log[at] is Failed) ==> read_string_run(
            plist,
            key,
            log,
            at,
        ) == ProgressView::<Option<Seq<char>>>::Failed(
            DesktopErrorView::UnexpectedReply { at: at as usize },
        ),
{
}

/// A key exists exactly where its string can be read.
pub proof fn law_existence_is_reading(
    plist: Seq<char>,
    key: Seq<char>,
    log: Seq<ReplyView>,
    at: int,
)
    ensures
        replay::leads(read_string_run(plist, key, log, at), key_exists_run(plist, key, log, at)),
        read_string_run(plist, key, log, at) matches ProgressView::Ready { value, next }
            ==> key_exists_run(plist, key, log, at) == (ProgressView::Ready {
            value: value is Some,
            next,
        }),
{
}

/// A change is made with the tool. Where the tool fails the change was rejected, with what it wrote
/// about it, and where it did not start that is the error.
pub proof fn law_changing_the_list(
    plist: Seq<char>,
    command: Seq<char>,
    log: Seq<ReplyView>,
    at: int,
)
    ensures
        at >= log.len() ==> update_run(plist, command, log, at) == ProgressView::<()>::Pending(
            EffectView::Execute(plist_buddy_view(plist, command)),
        ),
        at < log.len() ==> (log[at] matches ReplyView::Exited(output) ==> {
            &&& output.success ==> update_run(plist, command, log, at) == (ProgressView::Ready {
                value: (),
                next: at + 1,
            })
            &&& !output.success ==> update_run(plist, command, log, at)
                == ProgressView::<()>::Failed(
                DesktopErrorView::PlistRejected {
                    path: plist,
                    stderr: text::output_text_view(output.stderr),
                },
            )
        }),
        at < log.len() ==> (log[at] matches ReplyView::Failed(cause) ==> update_run(
            plist,
            command,
            log,
            at,
        ) == ProgressView::<()>::Failed(DesktopErrorView::UpdatePlist { path: plist, cause })),
        at < log.len() && !(log[at] is Exited) && !(log[at] is Failed) ==> update_run(
            plist,
            command,
            log,
            at,
        ) == ProgressView::<()>::Failed(DesktopErrorView::UnexpectedReply { at: at as usize }),
{
}

/// A string that reads as wished is not written. Any other is: it is read again to tell whether the
/// key exists, then set or added, and that is a change.
pub proof fn law_string_is_put_in_place(
    plist: Seq<char>,
    key: Seq<char>,
    value: Seq<char>,
    log: Seq<ReplyView>,
    at: int,
)
    ensures
        ({
            let whole = set_or_add_run(plist, key, value, log, at);
            &&& replay::leads(read_string_run(plist, key, log, at), whole)
            &&& read_string_run(plist, key, log, at) matches ProgressView::Ready {
                value: current,
                next,
            } ==> {
                &&& current == Some(value) ==> whole == (ProgressView::Ready { value: false, next })
                &&& current != Some(value) ==> {
                    let found = key_exists_run(plist, key, log, next);
                    &&& replay::leads(found, whole)
                    &&& found matches ProgressView::Ready { value: exists, next } ==> {
                        let put = update_run(
                            plist,
                            if exists {
                                "Set :"@ + key + " "@ + value
                            } else {
                                "Add :"@ + key + " string "@ + value
                            },
                            log,
                            next,
                        );
                        &&& replay::leads(put, whole)
                        &&& put matches ProgressView::Ready { next, .. } ==> whole == (
                        ProgressView::Ready { value: true, next })
                    }
                }
            }
        }),
{
}

/// The strings are put in place one after the other, and one that took a change is enough for a
/// change of all.
pub proof fn law_strings_are_put_in_place_in_order(
    plist: Seq<char>,
    i: int,
    changed: bool,
    log: Seq<ReplyView>,
    at: int,
)
    requires
        0 <= i <= 8,
    ensures
        plist_strings_view().len() == 8,
        i == 8 ==> set_all_run(plist, i, changed, log, at) == (ProgressView::Ready {
            value: changed,
            next: at,
        }),
        i < 8 ==> {
            let one = set_or_add_run(
                plist,
                plist_strings_view()[i].0,
                plist_strings_view()[i].1,
                log,
                at,
            );
            &&& replay::leads(one, set_all_run(plist, i, changed, log, at))
            &&& one matches ProgressView::Ready { value, next } ==> set_all_run(
                plist,
                i,
                changed,
                log,
                at,
            ) == set_all_run(plist, i + 1, changed || value, log, next)
        },
{
}

/// The signature is checked in depth, strictly and in silence, and made ad hoc, by force and in
/// depth, with its output read.
pub proof fn law_signing_commands(app_bundle: Seq<char>)
    ensures
        verify_signature_view(app_bundle) == (ProcessView {
            program: "codesign"@,
            args: seq!["--verify"@, "--deep"@, "--strict"@, app_bundle],
            stdin: Stream::Null,
            stdout: Stream::Null,
            stderr: Stream::Null,
        }),
        sign_ad_hoc_view(app_bundle) == (ProcessView {
            program: "codesign"@,
            args: seq!["--force"@, "--deep"@, "--sign"@, "-"@, app_bundle],
            stdin: Stream::Null,
            stdout: Stream::Piped,
            stderr: Stream::Piped,
        }),
{
}

/// A signature holds exactly where the tool ran and succeeded.
pub proof fn law_checking_the_signature(app_bundle: Seq<char>, log: Seq<ReplyView>, at: int)
    ensures
        at >= log.len() ==> codesign_verify_run(app_bundle, log, at)
            == ProgressView::<bool>::Pending(
            EffectView::Execute(verify_signature_view(app_bundle)),
        ),
        at < log.len() ==> (log[at] matches ReplyView::Exited(output) ==> codesign_verify_run(
            app_bundle,
            log,
            at,
        ) == (ProgressView::Ready { value: output.success, next: at + 1 })),
        at < log.len() && log[at] is Failed ==> codesign_verify_run(app_bundle, log, at) == (
        ProgressView::Ready { value: false, next: at + 1 }),
        at < log.len() && !(log[at] is Exited) && !(log[at] is Failed) ==> codesign_verify_run(
            app_bundle,
            log,
            at,
        ) == ProgressView::<bool>::Failed(DesktopErrorView::UnexpectedReply { at: at as usize }),
{
}

/// A new signature is announced and made with the tool. Where the tool fails that is the error,
/// with what it wrote, and so it is where it did not start.
pub proof fn law_making_the_signature(app_bundle: Seq<char>, log: Seq<ReplyView>, at: int)
    requires
        0 <= at,
    ensures
        replay::leads(
            replay::print_run(
                "Re-signing dev Electron.app after macOS permission plist patch..."@,
                log,
                at,
            ),
            codesign_ad_hoc_run(app_bundle, log, at),
        ),
        at < log.len() && log[at] is Done ==> {
            let whole = codesign_ad_hoc_run(app_bundle, log, at);
            &&& at + 1 == log.len() ==> whole == ProgressView::<()>::Pending(
                EffectView::Execute(sign_ad_hoc_view(app_bundle)),
            )
            &&& at + 1 < log.len() ==> {
                &&& log[at + 1] matches ReplyView::Exited(output) ==> {
                    &&& output.success ==> whole == (ProgressView::Ready {
                        value: (),
                        next: at + 2,
                    })
                    &&& !output.success ==> whole == ProgressView::<()>::Failed(
                        DesktopErrorView::ResignRejected {
                            path: app_bundle,
                            stderr: text::output_text_view(output.stderr),
                        },
                    )
                }
                &&& log[at + 1] matches ReplyView::Failed(cause) ==> whole
                    == ProgressView::<()>::Failed(
                    DesktopErrorView::Resign { path: app_bundle, cause },
                )
                &&& !(log[at + 1] is Exited) && !(log[at + 1] is Failed) ==> whole
                    == ProgressView::<()>::Failed(
                    DesktopErrorView::UnexpectedReply { at: (at + 1) as usize },
                )
            }
        },
{
}

/// A changed bundle is signed at once. An unchanged one is checked, left alone where its signature
/// holds and signed where it does not.
pub proof fn law_signing_or_checking(app_bundle: Seq<char>, log: Seq<ReplyView>, at: int)
    ensures
        sign_run(app_bundle, true, log, at) == codesign_ad_hoc_run(app_bundle, log, at),
        replay::leads(
            codesign_verify_run(app_bundle, log, at),
            sign_run(app_bundle, false, log, at),
        ),
        codesign_verify_run(app_bundle, log, at) matches ProgressView::Ready { value: true, next }
            ==> sign_run(app_bundle, false, log, at) == (ProgressView::Ready { value: (), next }),
        codesign_verify_run(app_bundle, log, at) matches ProgressView::Ready { value: false, next }
            ==> sign_run(app_bundle, false, log, at) == codesign_ad_hoc_run(app_bundle, log, next),
{
}

/// A change, and only a change, is reported, with the path of the list, before the signature is
/// seen to.
pub proof fn law_changes_are_reported(
    plist: Seq<char>,
    app_bundle: Seq<char>,
    log: Seq<ReplyView>,
    at: int,
)
    ensures
        report_run(plist, false, log, at) == (ProgressView::Ready { value: (), next: at }),
        report_run(plist, true, log, at) == replay::print_run(
            "Patched dev Electron Info.plist for macOS dev identity and capture permissions: "@
                + plist,
            log,
            at,
        ),
        report_and_sign_run(plist, app_bundle, false, log, at) == sign_run(
            app_bundle,
            false,
            log,
            at,
        ),
        replay::leads(
            report_run(plist, true, log, at),
            report_and_sign_run(plist, app_bundle, true, log, at),
        ),
        report_run(plist, true, log, at) is Ready ==> report_and_sign_run(
            plist,
            app_bundle,
            true,
            log,
            at,
        ) == sign_run(app_bundle, true, log, at + 1),
{
}

/// The strings come before the report and the signature, which depend on whether one of them took a
/// change.
pub proof fn law_strings_come_before_the_signature(
    plist: Seq<char>,
    app_bundle: Seq<char>,
    log: Seq<ReplyView>,
    at: int,
)
    ensures
        replay::leads(
            set_all_run(plist, 0, false, log, at),
            strings_and_signature_run(plist, app_bundle, log, at),
        ),
        set_all_run(plist, 0, false, log, at) matches ProgressView::Ready { value: changed, next }
            ==> strings_and_signature_run(plist, app_bundle, log, at) == report_and_sign_run(
            plist,
            app_bundle,
            changed,
            log,
            next,
        ),
{
}

/// On a macOS host the bundle is made valid first, and then its own list and its own signature are
/// seen to. Anywhere else nothing is done.
pub proof fn law_valid_bundle_comes_before_the_strings(
    workspace: WorkspaceView,
    host: HostFacts,
    log: Seq<ReplyView>,
    at: int,
)
    requires
        0 <= at,
    ensures
        at >= log.len() ==> patch_run(workspace, log, at) == ProgressView::<()>::Pending(
            EffectView::InspectHost,
        ),
        at < log.len() && !(log[at] is Host) ==> patch_run(workspace, log, at)
            == ProgressView::<()>::Failed(DesktopErrorView::UnexpectedReply { at: at as usize }),
        at < log.len() && log[at] == ReplyView::Host(host) && (!(host.os is Macos)
            || host.in_container) ==> patch_run(workspace, log, at) == (ProgressView::Ready {
            value: (),
            next: at + 1,
        }),
        at < log.len() && log[at] == ReplyView::Host(host) && host.os is Macos
            && !host.in_container ==> {
            let made = bundle::ensure_bundle_run(workspace, log, at + 1);
            &&& replay::leads(made, patch_run(workspace, log, at))
            &&& made matches ProgressView::Ready { next, .. } ==> patch_run(workspace, log, at)
                == strings_and_signature_run(
                paths::dev_electron_info_plist_view(workspace.root),
                paths::dev_electron_app_bundle_view(workspace.root),
                log,
                next,
            )
        },
{
}

} // verus!
