use fluxer_desktop_dev::app_url::normalize_desktop_app_url;
use fluxer_desktop_dev::app_url::LOCAL_APP_URL;
use fluxer_desktop_dev::electron::disclaimed_electron_command;
use fluxer_desktop_dev::electron::electron_args;
use fluxer_desktop_dev::paths::dev_electron_binary_path;
use fluxer_desktop_dev::paths::dev_electron_dist_path;
use fluxer_desktop_dev::paths::dev_electron_framework_versions_path;
use fluxer_desktop_dev::paths::dev_electron_info_plist_path;
use fluxer_desktop_dev::paths::dev_electron_install_script_path;
use fluxer_desktop_dev::plist::macos_dev_electron_plist_strings;
use fluxer_desktop_dev::plist::DEV_CANARY_APP_NAME;
use fluxer_desktop_dev::plist::DEV_CANARY_BUNDLE_ID;
use fluxer_desktop_dev::replay::HostFacts;
use fluxer_desktop_dev::replay::LaunchSite;
use fluxer_desktop_dev::replay::Os;
use std::path::Path;

const ROOT: &str = "/work/fluxer";

fn pair(key: &str, value: &str) -> (String, String) {
    (key.to_owned(), value.to_owned())
}

#[test]
fn strips_no_sandbox_only_by_container_policy() {
    for os in [Os::Linux, Os::Macos, Os::Other] {
        for in_container in [false, true] {
            for no_sandbox in [None, Some("0"), Some("1"), Some("")] {
                let site = LaunchSite {
                    host: HostFacts { os, in_container },
                    no_sandbox: no_sandbox.map(str::to_owned),
                    has_display: false,
                    has_xvfb: false,
                    has_dev_binary: false,
                    launcher: None,
                };
                let args = electron_args(&["--flag".to_owned()], &site);
                if os == Os::Linux && in_container && no_sandbox != Some("0") {
                    assert_eq!(args[0], "--no-sandbox");
                    assert_eq!(args.len(), 2);
                } else {
                    assert_eq!(args.len(), 1);
                }
                assert!(args.contains(&"--flag".to_owned()));
            }
        }
    }
}

#[test]
fn normalizes_desktop_app_urls() {
    assert_eq!(
        normalize_desktop_app_url("https://dev.example.test/").unwrap(),
        "https://dev.example.test"
    );
    assert_eq!(
        normalize_desktop_app_url("http://localhost:8088").unwrap(),
        LOCAL_APP_URL
    );
    assert!(normalize_desktop_app_url("wss://dev.example.test").is_err());
}

#[test]
fn disclaimed_electron_command_re_execs_through_the_launcher() {
    let command = disclaimed_electron_command(
        "/tmp/fluxer-dev",
        "/tmp/Electron.app/Contents/MacOS/Electron",
    );
    assert_eq!(
        command,
        vec![
            "/tmp/fluxer-dev",
            "desktop",
            "exec-disclaimed",
            "/tmp/Electron.app/Contents/MacOS/Electron",
            "."
        ]
    );
}

#[test]
fn dev_electron_binary_path_points_inside_the_dev_bundle() {
    assert!(Path::new(&dev_electron_binary_path(ROOT)).ends_with(
        "fluxer_desktop/node_modules/electron/dist/Electron.app/Contents/MacOS/Electron"
    ));
}

#[test]
fn dev_electron_plist_path_points_to_fluxer_desktop_electron_app() {
    assert!(Path::new(&dev_electron_info_plist_path(ROOT)).ends_with(
        "fluxer_desktop/node_modules/electron/dist/Electron.app/Contents/Info.plist"
    ));
}

#[test]
fn dev_electron_install_script_path_points_to_electron_package() {
    assert!(Path::new(&dev_electron_install_script_path(ROOT))
        .ends_with("fluxer_desktop/node_modules/electron/install.js"));
}

#[test]
fn dev_electron_dist_path_points_to_electron_package_dist() {
    assert!(Path::new(&dev_electron_dist_path(ROOT))
        .ends_with("fluxer_desktop/node_modules/electron/dist"));
}

#[test]
fn dev_electron_framework_versions_path_points_inside_electron_framework() {
    assert!(Path::new(&dev_electron_framework_versions_path(ROOT)).ends_with(
        "fluxer_desktop/node_modules/electron/dist/Electron.app/Contents/Frameworks/Electron Framework.framework/Versions/Current"
    ));
}

#[test]
fn macos_dev_electron_plist_strings_include_dev_identity() {
    let strings = macos_dev_electron_plist_strings();
    assert!(strings.contains(&pair("CFBundleName", DEV_CANARY_APP_NAME)));
    assert!(strings.contains(&pair("CFBundleDisplayName", DEV_CANARY_APP_NAME)));
    assert!(strings.contains(&pair("CFBundleIdentifier", DEV_CANARY_BUNDLE_ID)));
}

#[test]
fn dev_electron_usage_descriptions_include_audio_capture() {
    assert!(macos_dev_electron_plist_strings()
        .iter()
        .any(|(key, _)| *key == "NSAudioCaptureUsageDescription"));
}
