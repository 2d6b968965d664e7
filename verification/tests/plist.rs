use fluxer_desktop_dev::bundle::bundle_paths;
use fluxer_desktop_dev::error::DesktopError;
use fluxer_desktop_dev::paths::dev_electron_app_bundle_path;
use fluxer_desktop_dev::paths::dev_electron_info_plist_path;
use fluxer_desktop_dev::plist::codesign_ad_hoc;
use fluxer_desktop_dev::plist::codesign_verify;
use fluxer_desktop_dev::plist::macos_dev_electron_plist_strings;
use fluxer_desktop_dev::plist::patch_macos_dev_electron_info_plist;
use fluxer_desktop_dev::plist::plist_buddy;
use fluxer_desktop_dev::plist::plist_key_exists;
use fluxer_desktop_dev::plist::put_command;
use fluxer_desktop_dev::plist::read_plist_string;
use fluxer_desktop_dev::plist::run_plist_buddy;
use fluxer_desktop_dev::plist::set_or_add_plist_string;
use fluxer_desktop_dev::plist::sign_ad_hoc;
use fluxer_desktop_dev::plist::verify_signature;
use fluxer_desktop_dev::replay::BundleFacts;
use fluxer_desktop_dev::replay::Effect;
use fluxer_desktop_dev::replay::HostFacts;
use fluxer_desktop_dev::replay::Os;
use fluxer_desktop_dev::replay::ProcessOutput;
use fluxer_desktop_dev::replay::ProcessSpec;
use fluxer_desktop_dev::replay::Progress;
use fluxer_desktop_dev::replay::Reply;
use fluxer_desktop_dev::replay::Stream;
use fluxer_desktop_dev::workspace::Workspace;
use std::collections::BTreeSet;

const ROOT: &str = "/work/fluxer";
const RESIGNING: &str = "Re-signing dev Electron.app after macOS permission plist patch...";

fn drive<T: std::fmt::Debug + PartialEq>(
    workflow: impl Fn(&[Reply]) -> Progress<T>,
    script: Vec<(Effect, Reply)>,
) -> Progress<T> {
    let mut log: Vec<Reply> = Vec::new();
    for (effect, reply) in script {
        assert_eq!(workflow(&log), Progress::Pending(effect));
        log.push(reply);
    }
    workflow(&log)
}

fn workspace() -> Workspace {
    Workspace { root: ROOT.to_owned(), pnpm_install_env: vec![] }
}

fn exited(success: bool, stdout: &[u8], stderr: &[u8]) -> Reply {
    Reply::Exited(ProcessOutput { success, stdout: stdout.to_vec(), stderr: stderr.to_vec() })
}

fn failed(cause: &str) -> Reply {
    Reply::Failed(cause.to_owned())
}

fn buddy(plist: &str, command: &str) -> Effect {
    Effect::Execute(plist_buddy(plist, command))
}

fn whole() -> BundleFacts {
    BundleFacts {
        info_plist_is_file: true,
        binary_is_file: true,
        versions_is_link: true,
        framework_is_link: true,
        helpers_is_link: true,
        libraries_is_link: true,
        resources_is_link: true,
    }
}

fn valid_bundle() -> Vec<(Effect, Reply)> {
    let macos = || Reply::Host(HostFacts { os: Os::Macos, in_container: false });
    vec![
        (Effect::InspectHost, macos()),
        (Effect::InspectHost, macos()),
        (Effect::InspectBundle(bundle_paths(ROOT)), Reply::Bundle(whole())),
    ]
}

fn strings_in_place() -> Vec<(Effect, Reply)> {
    let plist = dev_electron_info_plist_path(ROOT);
    macos_dev_electron_plist_strings()
        .into_iter()
        .map(|(key, value)| {
            (
                buddy(&plist, &format!("Print :{key}")),
                exited(true, format!("{value}\n").as_bytes(), b""),
            )
        })
        .collect()
}

fn patch(script: Vec<(Effect, Reply)>) -> Progress<()> {
    drive(|log| patch_macos_dev_electron_info_plist(&workspace(), log, 0), script)
}

#[test]
fn the_property_list_tool_is_given_the_command_and_the_list() {
    assert_eq!(
        plist_buddy("/p", "Print :K"),
        ProcessSpec {
            program: "/usr/libexec/PlistBuddy".to_owned(),
            args: vec!["-c".to_owned(), "Print :K".to_owned(), "/p".to_owned()],
            stdin: Stream::Null,
            stdout: Stream::Piped,
            stderr: Stream::Piped,
        }
    );
}

#[test]
fn the_signing_tool_checks_in_silence_and_signs_ad_hoc() {
    assert_eq!(
        verify_signature("/a"),
        ProcessSpec {
            program: "codesign".to_owned(),
            args: vec![
                "--verify".to_owned(),
                "--deep".to_owned(),
                "--strict".to_owned(),
                "/a".to_owned()
            ],
            stdin: Stream::Null,
            stdout: Stream::Null,
            stderr: Stream::Null,
        }
    );
    assert_eq!(
        sign_ad_hoc("/a"),
        ProcessSpec {
            program: "codesign".to_owned(),
            args: vec![
                "--force".to_owned(),
                "--deep".to_owned(),
                "--sign".to_owned(),
                "-".to_owned(),
                "/a".to_owned()
            ],
            stdin: Stream::Null,
            stdout: Stream::Piped,
            stderr: Stream::Piped,
        }
    );
}

#[test]
fn a_string_is_read_without_the_white_space_behind_it() {
    let read = |reply| {
        drive(|log| read_plist_string("/p", "K", log, 0), vec![(buddy("/p", "Print :K"), reply)])
    };
    assert_eq!(
        read(exited(true, b" Fluxer Canary \n", b"")),
        Progress::Ready { value: Some(" Fluxer Canary".to_owned()), next: 1 }
    );
    assert_eq!(
        read(exited(true, b"\xffluxer\n", b"")),
        Progress::Ready { value: Some("\u{fffd}luxer".to_owned()), next: 1 }
    );
    assert_eq!(
        read(exited(false, b"Fluxer\n", b"Does Not Exist")),
        Progress::Ready { value: None, next: 1 }
    );
    assert_eq!(
        read(failed("not found")),
        Progress::Failed(DesktopError::ReadPlist {
            key: "K".to_owned(),
            path: "/p".to_owned(),
            cause: "not found".to_owned(),
        })
    );
    assert_eq!(read(Reply::Done), Progress::Failed(DesktopError::UnexpectedReply { at: 0 }));
}

#[test]
fn a_key_exists_when_it_can_be_printed() {
    for (success, value) in [(true, true), (false, false)] {
        assert_eq!(
            drive(
                |log| plist_key_exists("/p", "K", log, 0),
                vec![(buddy("/p", "Print :K"), exited(success, b"", b""))],
            ),
            Progress::Ready { value, next: 1 }
        );
    }
}

#[test]
fn a_rejected_change_is_reported_with_what_the_tool_said() {
    let update = |reply| {
        drive(
            |log| run_plist_buddy("/p", "Set :K v", log, 0),
            vec![(buddy("/p", "Set :K v"), reply)],
        )
    };
    assert_eq!(update(exited(true, b"", b"")), Progress::Ready { value: (), next: 1 });
    assert_eq!(
        update(exited(false, b"out", b" Parse \xff Error \n")),
        Progress::Failed(DesktopError::PlistRejected {
            path: "/p".to_owned(),
            stderr: " Parse \u{fffd} Error".to_owned(),
        })
    );
    assert_eq!(
        update(failed("denied")),
        Progress::Failed(DesktopError::UpdatePlist {
            path: "/p".to_owned(),
            cause: "denied".to_owned(),
        })
    );
}

#[test]
fn strings_are_set_or_added() {
    assert_eq!(put_command("K", "a b", true), "Set :K a b");
    assert_eq!(put_command("K", "a b", false), "Add :K string a b");
}

#[test]
fn a_string_in_place_is_not_written() {
    assert_eq!(
        drive(
            |log| set_or_add_plist_string("/p", "K", "v", log, 0),
            vec![(buddy("/p", "Print :K"), exited(true, b"v\n", b""))],
        ),
        Progress::Ready { value: false, next: 1 }
    );
}

#[test]
fn another_string_is_set_and_a_missing_one_is_added() {
    assert_eq!(
        drive(
            |log| set_or_add_plist_string("/p", "K", "v", log, 0),
            vec![
                (buddy("/p", "Print :K"), exited(true, b"w\n", b"")),
                (buddy("/p", "Print :K"), exited(true, b"w\n", b"")),
                (buddy("/p", "Set :K v"), exited(true, b"", b"")),
            ],
        ),
        Progress::Ready { value: true, next: 3 }
    );
    assert_eq!(
        drive(
            |log| set_or_add_plist_string("/p", "K", "v", log, 0),
            vec![
                (buddy("/p", "Print :K"), exited(false, b"", b"")),
                (buddy("/p", "Print :K"), exited(false, b"", b"")),
                (buddy("/p", "Add :K string v"), exited(true, b"", b"")),
            ],
        ),
        Progress::Ready { value: true, next: 3 }
    );
}

#[test]
fn a_signature_holds_only_when_the_tool_says_so() {
    for (reply, value) in [
        (exited(true, b"", b""), true),
        (exited(false, b"", b""), false),
        (failed("not found"), false),
    ] {
        assert_eq!(
            drive(
                |log| codesign_verify("/a", log, 0),
                vec![(Effect::Execute(verify_signature("/a")), reply)],
            ),
            Progress::Ready { value, next: 1 }
        );
    }
}

#[test]
fn signing_is_announced_and_can_fail() {
    let sign = |reply| {
        drive(
            |log| codesign_ad_hoc("/a", log, 0),
            vec![
                (Effect::Print(RESIGNING.to_owned()), Reply::Done),
                (Effect::Execute(sign_ad_hoc("/a")), reply),
            ],
        )
    };
    assert_eq!(sign(exited(true, b"", b"")), Progress::Ready { value: (), next: 2 });
    assert_eq!(
        sign(exited(false, b"", b"bad\xf0\n\n")),
        Progress::Failed(DesktopError::ResignRejected {
            path: "/a".to_owned(),
            stderr: "bad\u{fffd}".to_owned(),
        })
    );
    assert_eq!(
        sign(failed("denied")),
        Progress::Failed(DesktopError::Resign {
            path: "/a".to_owned(),
            cause: "denied".to_owned(),
        })
    );
    assert_eq!(sign(Reply::Done), Progress::Failed(DesktopError::UnexpectedReply { at: 1 }));
}

#[test]
fn only_a_macos_host_is_patched() {
    for (os, in_container) in [(Os::Linux, false), (Os::Macos, true), (Os::Other, false)] {
        assert_eq!(
            patch(vec![(
                Effect::InspectHost,
                Reply::Host(HostFacts { os, in_container })
            )]),
            Progress::Ready { value: (), next: 1 }
        );
    }
}

#[test]
fn a_patched_bundle_is_only_looked_at() {
    let mut script = valid_bundle();
    script.extend(strings_in_place());
    script.push((
        Effect::Execute(verify_signature(&dev_electron_app_bundle_path(ROOT))),
        exited(true, b"", b""),
    ));
    let next = script.len();
    assert_eq!(next, 12);
    assert_eq!(patch(script), Progress::Ready { value: (), next });
}

#[test]
fn a_signature_that_does_not_hold_is_made_again() {
    let app = dev_electron_app_bundle_path(ROOT);
    let mut script = valid_bundle();
    script.extend(strings_in_place());
    script.push((Effect::Execute(verify_signature(&app)), exited(false, b"", b"")));
    script.push((Effect::Print(RESIGNING.to_owned()), Reply::Done));
    script.push((Effect::Execute(sign_ad_hoc(&app)), exited(true, b"", b"")));
    let next = script.len();
    assert_eq!(patch(script), Progress::Ready { value: (), next });
}

#[test]
fn a_change_is_reported_and_signed_without_a_check() {
    let app = dev_electron_app_bundle_path(ROOT);
    let plist = dev_electron_info_plist_path(ROOT);
    let mut script = valid_bundle();
    for (i, (key, value)) in macos_dev_electron_plist_strings().into_iter().enumerate() {
        let print = format!("Print :{key}");
        let old = if i % 2 == 0 { "Electron" } else { "" };
        script.push((buddy(&plist, &print), exited(i % 2 == 0, old.as_bytes(), b"")));
        script.push((buddy(&plist, &print), exited(i % 2 == 0, old.as_bytes(), b"")));
        let put = if i % 2 == 0 {
            format!("Set :{key} {value}")
        } else {
            format!("Add :{key} string {value}")
        };
        script.push((buddy(&plist, &put), exited(true, b"", b"")));
    }
    script.push((
        Effect::Print(format!(
            "Patched dev Electron Info.plist for macOS dev identity and capture permissions: {plist}"
        )),
        Reply::Done,
    ));
    script.push((Effect::Print(RESIGNING.to_owned()), Reply::Done));
    script.push((Effect::Execute(sign_ad_hoc(&app)), exited(true, b"", b"")));
    let next = script.len();
    assert_eq!(next, 30);
    assert_eq!(patch(script), Progress::Ready { value: (), next });
}

#[test]
fn one_change_among_many_is_enough_to_sign() {
    let app = dev_electron_app_bundle_path(ROOT);
    let plist = dev_electron_info_plist_path(ROOT);
    let mut script = valid_bundle();
    script.extend(strings_in_place());
    let (key, value) = macos_dev_electron_plist_strings().swap_remove(0);
    script[3] = (buddy(&plist, &format!("Print :{key}")), exited(true, b"Electron\n", b""));
    script.insert(
        4,
        (buddy(&plist, &format!("Print :{key}")), exited(true, b"Electron\n", b"")),
    );
    script.insert(
        5,
        (buddy(&plist, &format!("Set :{key} {value}")), exited(true, b"", b"")),
    );
    script.push((
        Effect::Print(format!(
            "Patched dev Electron Info.plist for macOS dev identity and capture permissions: {plist}"
        )),
        Reply::Done,
    ));
    script.push((Effect::Print(RESIGNING.to_owned()), Reply::Done));
    script.push((Effect::Execute(sign_ad_hoc(&app)), exited(true, b"", b"")));
    let next = script.len();
    assert_eq!(patch(script), Progress::Ready { value: (), next });
}

#[test]
fn a_rejected_string_ends_the_patch() {
    let plist = dev_electron_info_plist_path(ROOT);
    let mut script = valid_bundle();
    script.push((buddy(&plist, "Print :CFBundleName"), exited(true, b"Electron\n", b"")));
    script.push((buddy(&plist, "Print :CFBundleName"), exited(true, b"Electron\n", b"")));
    script.push((
        buddy(&plist, "Set :CFBundleName Fluxer Canary (Dev)"),
        exited(false, b"", b"read-only\n"),
    ));
    assert_eq!(
        patch(script),
        Progress::Failed(DesktopError::PlistRejected {
            path: plist,
            stderr: "read-only".to_owned(),
        })
    );
}

#[test]
fn the_strings_are_these_in_this_order() {
    let strings = macos_dev_electron_plist_strings();
    let want = [
        ("CFBundleName", "Fluxer Canary (Dev)"),
        ("CFBundleDisplayName", "Fluxer Canary (Dev)"),
        ("CFBundleIdentifier", "app.fluxer.canary.dev"),
        (
            "NSMicrophoneUsageDescription",
            "Fluxer needs access to your microphone to enable voice chat features.",
        ),
        (
            "NSCameraUsageDescription",
            "Fluxer needs access to your camera to enable video chat features.",
        ),
        (
            "NSAppleEventsUsageDescription",
            "Fluxer needs access to Apple Events for automation features.",
        ),
        (
            "NSAudioCaptureUsageDescription",
            "Fluxer captures audio from the screen or window you choose to share.",
        ),
        (
            "NSScreenCaptureUsageDescription",
            "Fluxer captures the screen or window you choose to share.",
        ),
    ];
    let have: Vec<(&str, &str)> =
        strings.iter().map(|(key, value)| (key.as_str(), value.as_str())).collect();
    assert_eq!(have, want);
    let keys: BTreeSet<&str> = have.iter().map(|(key, _)| *key).collect();
    assert_eq!(keys.len(), have.len());
    for (_, value) in have {
        assert_eq!(value.trim_end(), value);
    }
}
