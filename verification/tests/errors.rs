use fluxer_desktop_dev::error::DesktopError;

fn path() -> String {
    "/dist".to_owned()
}

fn cause() -> String {
    "no such file".to_owned()
}

#[test]
fn messages_name_what_went_wrong() {
    let cases = [
        (
            DesktopError::HostNotMacos,
            "`desktop canary` is a host macOS workflow. Run it on the Mac host, not inside the devcontainer.",
        ),
        (
            DesktopError::InvalidAppUrl { raw: " x ".to_owned(), cause: cause() },
            "invalid desktop app URL:  x ",
        ),
        (
            DesktopError::UnsupportedScheme { scheme: "wss".to_owned() },
            "desktop app URL must use http or https, got wss",
        ),
        (
            DesktopError::MissingInstallScript { path: "/i.js".to_owned() },
            "missing Electron install script at /i.js; run `pnpm dev:desktop:install` first",
        ),
        (
            DesktopError::BundleNotCreated {
                info_plist: "/p".to_owned(),
                binary: "/b".to_owned(),
                versions: "/v".to_owned(),
            },
            "Electron install completed without creating a valid macOS app bundle; expected /p, /b, and /v",
        ),
        (
            DesktopError::InspectDist { path: path(), cause: cause() },
            "failed to inspect /dist",
        ),
        (
            DesktopError::RemoveDist { path: path(), cause: cause() },
            "failed to remove incomplete /dist",
        ),
        (
            DesktopError::ReadPlist { key: "CFBundleName".to_owned(), path: path(), cause: cause() },
            "failed to read CFBundleName from /dist",
        ),
        (
            DesktopError::UpdatePlist { path: path(), cause: cause() },
            "failed to update /dist",
        ),
        (
            DesktopError::PlistRejected { path: path(), stderr: "Parse Error".to_owned() },
            "failed to update /dist: Parse Error",
        ),
        (
            DesktopError::Resign { path: path(), cause: cause() },
            "failed to re-sign /dist",
        ),
        (
            DesktopError::ResignRejected { path: path(), stderr: "no identity".to_owned() },
            "failed to re-sign /dist: no identity",
        ),
        (
            DesktopError::ListPids { cause: cause() },
            "failed to run lsof while stopping Fluxer Canary",
        ),
        (
            DesktopError::StartKill { cause: cause() },
            "failed to run kill while stopping Fluxer Canary",
        ),
        (
            DesktopError::KillRejected { pids: vec!["12".to_owned(), "345".to_owned()] },
            "failed to stop Fluxer Canary process(es): 12, 345",
        ),
        (DesktopError::Command { cause: cause() }, "no such file"),
        (
            DesktopError::UnexpectedReply { at: 120 },
            "the reply at position 120 does not answer the question",
        ),
    ];
    for (error, message) in cases {
        assert_eq!(error.message(), message);
    }
}

#[test]
fn causes_stand_beside_the_message() {
    let with_cause = [
        DesktopError::InvalidAppUrl { raw: path(), cause: cause() },
        DesktopError::InspectDist { path: path(), cause: cause() },
        DesktopError::RemoveDist { path: path(), cause: cause() },
        DesktopError::ReadPlist { key: path(), path: path(), cause: cause() },
        DesktopError::UpdatePlist { path: path(), cause: cause() },
        DesktopError::Resign { path: path(), cause: cause() },
        DesktopError::ListPids { cause: cause() },
        DesktopError::StartKill { cause: cause() },
    ];
    for error in with_cause {
        assert_eq!(error.cause(), Some(cause()));
    }
    let without_cause = [
        DesktopError::HostNotMacos,
        DesktopError::UnsupportedScheme { scheme: path() },
        DesktopError::MissingInstallScript { path: path() },
        DesktopError::BundleNotCreated { info_plist: path(), binary: path(), versions: path() },
        DesktopError::PlistRejected { path: path(), stderr: cause() },
        DesktopError::ResignRejected { path: path(), stderr: cause() },
        DesktopError::KillRejected { pids: vec![] },
        DesktopError::Command { cause: cause() },
        DesktopError::UnexpectedReply { at: 0 },
    ];
    for error in without_cause {
        assert_eq!(error.cause(), None);
    }
}
