use fluxer_desktop_dev::electron::base_electron_command;
use fluxer_desktop_dev::electron::electron_args;
use fluxer_desktop_dev::electron::electron_command;
use fluxer_desktop_dev::replay::HostFacts;
use fluxer_desktop_dev::replay::LaunchSite;
use fluxer_desktop_dev::replay::Os;

const ROOT: &str = "/work/fluxer";
const BINARY: &str =
    "/work/fluxer/fluxer_desktop/node_modules/electron/dist/Electron.app/Contents/MacOS/Electron";

fn site(os: Os, in_container: bool) -> LaunchSite {
    LaunchSite {
        host: HostFacts { os, in_container },
        no_sandbox: None,
        has_display: false,
        has_xvfb: true,
        has_dev_binary: true,
        launcher: Some("/bin/fluxer-dev".to_owned()),
    }
}

fn strings(items: &[&str]) -> Vec<String> {
    items.iter().map(|item| (*item).to_owned()).collect()
}

#[test]
fn a_macos_host_starts_its_own_bundle_through_the_launcher() {
    let args = strings(&["--x"]);
    for headless in [false, true] {
        assert_eq!(
            electron_command(ROOT, &args, headless, &site(Os::Macos, false)),
            strings(&["/bin/fluxer-dev", "desktop", "exec-disclaimed", BINARY, ".", "--x"])
        );
    }
}

#[test]
fn every_other_site_starts_the_package_launcher() {
    let plain = strings(&["pnpm", "exec", "electron", "."]);
    let mut no_binary = site(Os::Macos, false);
    no_binary.has_dev_binary = false;
    let mut no_launcher = site(Os::Macos, false);
    no_launcher.launcher = None;
    assert_eq!(base_electron_command(ROOT, &no_binary), plain);
    assert_eq!(base_electron_command(ROOT, &no_launcher), plain);
    assert_eq!(base_electron_command(ROOT, &site(Os::Macos, true)), plain);
    assert_eq!(base_electron_command(ROOT, &site(Os::Linux, false)), plain);
    assert_eq!(base_electron_command(ROOT, &site(Os::Other, false)), plain);
}

#[test]
fn a_virtual_display_is_used_only_where_it_is_needed_and_there() {
    let args = strings(&["--x"]);
    let wrapped = strings(&["xvfb-run", "-a", "pnpm", "exec", "electron", ".", "--x"]);
    let plain = strings(&["pnpm", "exec", "electron", ".", "--x"]);
    let mut with_display = site(Os::Linux, false);
    with_display.has_display = true;
    let mut without_xvfb = site(Os::Linux, false);
    without_xvfb.has_xvfb = false;
    assert_eq!(electron_command(ROOT, &args, true, &site(Os::Linux, false)), wrapped);
    assert_eq!(electron_command(ROOT, &args, false, &site(Os::Linux, false)), plain);
    assert_eq!(electron_command(ROOT, &args, true, &with_display), plain);
    assert_eq!(electron_command(ROOT, &args, true, &without_xvfb), plain);
    assert_eq!(electron_command(ROOT, &args, true, &site(Os::Other, false)), plain);
}

#[test]
fn a_linux_container_gets_both_wrappings() {
    assert_eq!(
        electron_command(ROOT, &strings(&["--x", "--y"]), true, &site(Os::Linux, true)),
        strings(&[
            "xvfb-run",
            "-a",
            "pnpm",
            "exec",
            "electron",
            ".",
            "--no-sandbox",
            "--x",
            "--y"
        ])
    );
}

#[test]
fn the_sandbox_variable_is_compared_exactly() {
    for (value, dropped) in [("0", false), ("00", true), (" 0", true), ("", true), ("false", true)] {
        let mut here = site(Os::Linux, true);
        here.no_sandbox = Some(value.to_owned());
        let args = electron_args(&[], &here);
        assert_eq!(args == strings(&["--no-sandbox"]), dropped);
        assert_eq!(args.is_empty(), !dropped);
    }
}

#[test]
fn given_arguments_come_last_and_in_order() {
    let args = strings(&["--b", "--a", "--b"]);
    for os in [Os::Linux, Os::Macos, Os::Other] {
        for in_container in [false, true] {
            for headless in [false, true] {
                let command = electron_command(ROOT, &args, headless, &site(os, in_container));
                assert!(command.ends_with(&args));
            }
        }
    }
}
