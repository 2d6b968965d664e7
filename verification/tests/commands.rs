use fluxer_desktop_dev::bundle::unpack_command;
use fluxer_desktop_dev::commands::app_url_argument;
use fluxer_desktop_dev::commands::build_command;
use fluxer_desktop_dev::commands::client_command;
use fluxer_desktop_dev::commands::install_command;
use fluxer_desktop_dev::commands::package_command;
use fluxer_desktop_dev::commands::smoke_command;
use fluxer_desktop_dev::commands::typecheck_command;
use fluxer_desktop_dev::replay::BuildLabels;
use fluxer_desktop_dev::replay::CommandSpec;
use fluxer_desktop_dev::replay::HostFacts;
use fluxer_desktop_dev::replay::LaunchSite;
use fluxer_desktop_dev::replay::Os;
use fluxer_desktop_dev::workspace::push_var;
use fluxer_desktop_dev::workspace::Workspace;

const ROOT: &str = "/work/fluxer";
const DESKTOP_DIR: &str = "/work/fluxer/fluxer_desktop";

fn strings(items: &[&str]) -> Vec<String> {
    items.iter().map(|item| (*item).to_owned()).collect()
}

fn environment(items: &[(&str, Option<&str>)]) -> Vec<(String, Option<String>)> {
    items
        .iter()
        .map(|(name, value)| ((*name).to_owned(), value.map(str::to_owned)))
        .collect()
}

fn command(argv: &[&str], cwd: &str, env: &[(&str, Option<&str>)]) -> CommandSpec {
    CommandSpec { argv: strings(argv), cwd: cwd.to_owned(), env: environment(env) }
}

fn workspace() -> Workspace {
    Workspace {
        root: ROOT.to_owned(),
        pnpm_install_env: vec![
            ("CI".to_owned(), "true".to_owned()),
            ("npm_config_yes".to_owned(), "1".to_owned()),
        ],
    }
}

fn site(os: Os) -> LaunchSite {
    LaunchSite {
        host: HostFacts { os, in_container: false },
        no_sandbox: None,
        has_display: false,
        has_xvfb: true,
        has_dev_binary: false,
        launcher: None,
    }
}

fn labels(channel: Option<&str>, version: Option<&str>, release: Option<&str>) -> BuildLabels {
    BuildLabels {
        build_channel: channel.map(str::to_owned),
        build_version: version.map(str::to_owned),
        release_channel: release.map(str::to_owned),
    }
}

#[test]
fn the_install_command_keeps_the_lockfile() {
    assert_eq!(
        install_command(&workspace()),
        command(
            &["pnpm", "install", "--frozen-lockfile"],
            ROOT,
            &[("CI", Some("true")), ("npm_config_yes", Some("1"))],
        )
    );
}

#[test]
fn the_build_command_has_defaults_for_labels_that_are_not_set() {
    assert_eq!(
        build_command(ROOT, false, &labels(None, None, None)),
        command(
            &["pnpm", "build"],
            DESKTOP_DIR,
            &[
                ("BUILD_CHANNEL", Some("canary")),
                ("FLUXER_SKIP_NATIVE", None),
                ("PUBLIC_BUILD_VERSION", Some("dev")),
                ("PUBLIC_RELEASE_CHANNEL", Some("canary")),
            ],
        )
    );
}

#[test]
fn the_build_command_keeps_labels_that_are_set() {
    assert_eq!(
        build_command(ROOT, true, &labels(Some("stable"), Some("1.2.3"), Some(""))),
        command(
            &["pnpm", "build"],
            DESKTOP_DIR,
            &[
                ("BUILD_CHANNEL", Some("stable")),
                ("FLUXER_SKIP_NATIVE", Some("true")),
                ("PUBLIC_BUILD_VERSION", Some("1.2.3")),
                ("PUBLIC_RELEASE_CHANNEL", Some("")),
            ],
        )
    );
}

#[test]
fn the_typecheck_command_leaves_the_environment_alone() {
    assert_eq!(typecheck_command(ROOT), command(&["pnpm", "typecheck"], DESKTOP_DIR, &[]));
}

#[test]
fn the_package_command_ends_with_the_given_arguments() {
    assert_eq!(
        package_command(ROOT, &strings(&["--mac", "--arm64"])),
        command(
            &[
                "pnpm",
                "exec",
                "electron-builder",
                "--dir",
                "--config",
                "electron-builder.config.cjs",
                "--mac",
                "--arm64",
            ],
            DESKTOP_DIR,
            &[],
        )
    );
}

#[test]
fn the_smoke_command_asks_for_debug_information_without_a_window() {
    assert_eq!(
        smoke_command(ROOT, &site(Os::Linux)),
        command(
            &[
                "xvfb-run",
                "-a",
                "pnpm",
                "exec",
                "electron",
                ".",
                "--fluxer-debug-info",
                "--fluxer-app-url=http://localhost:8088",
            ],
            DESKTOP_DIR,
            &[("FLUXER_SKIP_NATIVE", Some("true"))],
        )
    );
}

#[test]
fn the_client_command_runs_as_canary() {
    for channel in [None, Some("stable")] {
        assert_eq!(
            client_command(
                ROOT,
                "https://h",
                &strings(&["--z", "--a"]),
                &site(Os::Linux),
                &labels(channel, Some("1.2.3"), None),
            ),
            command(
                &[
                    "pnpm",
                    "exec",
                    "electron",
                    ".",
                    "--fluxer-app-url=https://h",
                    "--fluxer-log-renderer-console",
                    "--z",
                    "--a",
                ],
                DESKTOP_DIR,
                &[
                    ("BUILD_CHANNEL", Some("canary")),
                    ("PUBLIC_BUILD_VERSION", Some("1.2.3")),
                    ("PUBLIC_RELEASE_CHANNEL", Some("canary")),
                ],
            )
        );
    }
}

#[test]
fn the_app_url_argument_holds_the_url_as_it_is() {
    assert_eq!(app_url_argument("http://h/a?b=c"), "--fluxer-app-url=http://h/a?b=c");
    assert_eq!(app_url_argument(""), "--fluxer-app-url=");
}

#[test]
fn the_tries_to_unpack_differ_in_the_cache() {
    for (force_no_cache, value) in [(false, None), (true, Some("true"))] {
        assert_eq!(
            unpack_command(&workspace(), force_no_cache),
            command(
                &["node", "node_modules/electron/install.js"],
                DESKTOP_DIR,
                &[
                    ("CI", Some("true")),
                    ("npm_config_yes", Some("1")),
                    ("ELECTRON_OVERRIDE_DIST_PATH", None),
                    ("ELECTRON_SKIP_BINARY_DOWNLOAD", None),
                    ("npm_config_arch", None),
                    ("npm_config_platform", None),
                    ("force_no_cache", value),
                ],
            )
        );
    }
}

#[test]
fn variables_are_set_or_removed() {
    let mut env = environment(&[("A", Some("1"))]);
    push_var(&mut env, "B", Some("2"));
    push_var(&mut env, "C", None);
    assert_eq!(env, environment(&[("A", Some("1")), ("B", Some("2")), ("C", None)]));
    assert_eq!(
        workspace().install_env(),
        environment(&[("CI", Some("true")), ("npm_config_yes", Some("1"))])
    );
}
