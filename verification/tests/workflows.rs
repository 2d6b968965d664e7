use fluxer_desktop_dev::bundle::bundle_paths;
use fluxer_desktop_dev::canary::list_listeners;
use fluxer_desktop_dev::canary::quit_by_id;
use fluxer_desktop_dev::canary::quit_by_name;
use fluxer_desktop_dev::canary::terminate_by_name;
use fluxer_desktop_dev::commands::build_command;
use fluxer_desktop_dev::commands::client_command;
use fluxer_desktop_dev::commands::install_command;
use fluxer_desktop_dev::commands::package_command;
use fluxer_desktop_dev::commands::smoke_command;
use fluxer_desktop_dev::commands::typecheck_command;
use fluxer_desktop_dev::desktop::build_desktop;
use fluxer_desktop_dev::desktop::ensure_host_macos;
use fluxer_desktop_dev::desktop::install_desktop;
use fluxer_desktop_dev::desktop::package_desktop;
use fluxer_desktop_dev::desktop::run_desktop;
use fluxer_desktop_dev::desktop::run_desktop_canary;
use fluxer_desktop_dev::desktop::run_desktop_canary_against;
use fluxer_desktop_dev::desktop::run_desktop_process;
use fluxer_desktop_dev::desktop::smoke_build_desktop;
use fluxer_desktop_dev::desktop::typecheck_desktop;
use fluxer_desktop_dev::error::DesktopError;
use fluxer_desktop_dev::paths::dev_electron_app_bundle_path;
use fluxer_desktop_dev::paths::dev_electron_binary_path;
use fluxer_desktop_dev::paths::dev_electron_info_plist_path;
use fluxer_desktop_dev::plist::macos_dev_electron_plist_strings;
use fluxer_desktop_dev::plist::plist_buddy;
use fluxer_desktop_dev::plist::verify_signature;
use fluxer_desktop_dev::replay::print_line;
use fluxer_desktop_dev::replay::run_command;
use fluxer_desktop_dev::replay::BuildLabels;
use fluxer_desktop_dev::replay::BundleFacts;
use fluxer_desktop_dev::replay::CommandSpec;
use fluxer_desktop_dev::replay::Effect;
use fluxer_desktop_dev::replay::HostFacts;
use fluxer_desktop_dev::replay::LaunchSite;
use fluxer_desktop_dev::replay::Os;
use fluxer_desktop_dev::replay::ProcessOutput;
use fluxer_desktop_dev::replay::Progress;
use fluxer_desktop_dev::replay::Reply;
use fluxer_desktop_dev::workspace::Workspace;

const ROOT: &str = "/work/fluxer";

fn drive<T: std::fmt::Debug + PartialEq>(
    workflow: impl Fn(&[Reply]) -> Progress<T>,
    script: Vec<(Effect, Reply)>,
) -> Progress<T> {
    let mut log: Vec<Reply> = Vec::new();
    for (effect, reply) in script {
        assert_eq!(workflow(&log), Progress::Pending(effect));
        log.push(reply);
    }
    workflow(&log)
}

fn workspace() -> Workspace {
    Workspace {
        root: ROOT.to_owned(),
        pnpm_install_env: vec![("CI".to_owned(), "true".to_owned())],
    }
}

fn labels() -> BuildLabels {
    BuildLabels {
        build_channel: Some("stable".to_owned()),
        build_version: None,
        release_channel: Some("beta".to_owned()),
    }
}

fn site(os: Os) -> LaunchSite {
    LaunchSite {
        host: HostFacts { os, in_container: false },
        no_sandbox: None,
        has_display: false,
        has_xvfb: true,
        has_dev_binary: true,
        launcher: Some("/bin/fluxer-dev".to_owned()),
    }
}

fn done(next: usize) -> Progress<()> {
    Progress::Ready { value: (), next }
}

fn unexpected(at: usize) -> Progress<()> {
    Progress::Failed(DesktopError::UnexpectedReply { at })
}

fn command_failed(cause: &str) -> Progress<()> {
    Progress::Failed(DesktopError::Command { cause: cause.to_owned() })
}

fn exited(success: bool, stdout: &str) -> Reply {
    Reply::Exited(ProcessOutput { success, stdout: stdout.as_bytes().to_vec(), stderr: vec![] })
}

fn run(command: CommandSpec) -> (Effect, Reply) {
    (Effect::RunCommand(command), Reply::Done)
}

fn host(os: Os) -> (Effect, Reply) {
    (
        Effect::InspectHost,
        Reply::Host(HostFacts { os, in_container: false }),
    )
}

fn read_labels() -> (Effect, Reply) {
    (Effect::ReadBuildLabels, Reply::Labels(labels()))
}

fn survey(os: Os) -> (Effect, Reply) {
    (
        Effect::SurveyLaunch { dev_binary: dev_electron_binary_path(ROOT) },
        Reply::Launch(site(os)),
    )
}

fn install(os: Os) -> Vec<(Effect, Reply)> {
    let mut script = vec![run(install_command(&workspace()))];
    script.extend(patch(os));
    script
}

fn patch(os: Os) -> Vec<(Effect, Reply)> {
    let mut script = vec![host(os)];
    if os != Os::Macos {
        return script;
    }
    script.push(host(os));
    script.push((
        Effect::InspectBundle(bundle_paths(ROOT)),
        Reply::Bundle(BundleFacts {
            info_plist_is_file: true,
            binary_is_file: true,
            versions_is_link: true,
            framework_is_link: true,
            helpers_is_link: true,
            libraries_is_link: true,
            resources_is_link: true,
        }),
    ));
    for (key, value) in macos_dev_electron_plist_strings() {
        script.push((
            Effect::Execute(plist_buddy(
                &dev_electron_info_plist_path(ROOT),
                &format!("Print :{key}"),
            )),
            exited(true, &value),
        ));
    }
    script.push((
        Effect::Execute(verify_signature(&dev_electron_app_bundle_path(ROOT))),
        exited(true, ""),
    ));
    script
}

fn build(skip_native: bool) -> Vec<(Effect, Reply)> {
    vec![read_labels(), run(build_command(ROOT, skip_native, &labels()))]
}

fn client(os: Os, url: &str, extra: &[String]) -> Vec<(Effect, Reply)> {
    vec![
        survey(os),
        read_labels(),
        run(client_command(ROOT, url, extra, &site(os), &labels())),
    ]
}

fn stop() -> Vec<(Effect, Reply)> {
    let mut script = vec![(
        Effect::Print(
            "Stopping any running Fluxer Canary or Fluxer Canary (Dev) instance...".to_owned(),
        ),
        Reply::Done,
    )];
    for id in ["app.fluxer.canary.dev", "app.fluxer.canary"] {
        script.push((Effect::Execute(quit_by_id(id)), exited(false, "")));
    }
    for name in ["Fluxer Canary (Dev)", "Fluxer Canary"] {
        script.push((Effect::Execute(quit_by_name(name)), exited(false, "")));
        script.push((Effect::Execute(terminate_by_name(name)), exited(false, "")));
    }
    script.push((Effect::Execute(list_listeners(21864)), exited(false, "")));
    script
}

fn extra() -> Vec<String> {
    vec!["--inspect".to_owned(), "--trace".to_owned()]
}

fn concat(parts: Vec<Vec<(Effect, Reply)>>) -> Vec<(Effect, Reply)> {
    parts.into_iter().flatten().collect()
}

#[test]
fn a_line_is_printed_once() {
    let print = |log: &[Reply]| print_line("hello".to_owned(), log, 0);
    assert_eq!(
        drive(print, vec![(Effect::Print("hello".to_owned()), Reply::Done)]),
        done(1)
    );
    assert_eq!(print(&[Reply::Answer(true)]), unexpected(0));
}

#[test]
fn a_command_ends_its_workflow_where_it_fails() {
    let go = |log: &[Reply]| run_command(typecheck_command(ROOT), log, 0);
    assert_eq!(drive(go, vec![run(typecheck_command(ROOT))]), done(1));
    assert_eq!(go(&[Reply::Failed("exit 2".to_owned())]), command_failed("exit 2"));
    assert_eq!(go(&[Reply::Answer(true)]), unexpected(0));
    assert_eq!(go(&[Reply::Done, Reply::Failed("late".to_owned())]), done(1));
}

#[test]
fn an_installation_patches_the_bundle_of_a_macos_host() {
    for (os, next) in [(Os::Linux, 2), (Os::Other, 2), (Os::Macos, 13)] {
        assert_eq!(
            drive(|log| install_desktop(&workspace(), log, 0), install(os)),
            done(next)
        );
    }
    assert_eq!(
        install_desktop(&workspace(), &[Reply::Failed("offline".to_owned())], 0),
        command_failed("offline")
    );
}

#[test]
fn a_build_is_labelled_with_what_is_set() {
    for skip_native in [false, true] {
        assert_eq!(
            drive(
                |log| build_desktop(&workspace(), skip_native, log, 0),
                build(skip_native),
            ),
            done(2)
        );
    }
    assert_eq!(build_desktop(&workspace(), false, &[Reply::Done], 0), unexpected(0));
    assert_eq!(
        build_desktop(
            &workspace(),
            false,
            &[Reply::Labels(labels()), Reply::Failed("exit 1".to_owned())],
            0
        ),
        command_failed("exit 1")
    );
}

#[test]
fn types_are_checked_with_one_command() {
    assert_eq!(
        drive(
            |log| typecheck_desktop(&workspace(), log, 0),
            vec![run(typecheck_command(ROOT))],
        ),
        done(1)
    );
    assert_eq!(
        typecheck_desktop(&workspace(), &[Reply::Failed("exit 2".to_owned())], 0),
        command_failed("exit 2")
    );
}

#[test]
fn the_smoke_test_installs_builds_and_starts() {
    let script = concat(vec![
        install(Os::Linux),
        build(true),
        vec![survey(Os::Linux), run(smoke_command(ROOT, &site(Os::Linux)))],
    ]);
    assert_eq!(drive(|log| smoke_build_desktop(&workspace(), log, 0), script), done(6));
}

#[test]
fn the_smoke_test_stops_at_the_first_failure() {
    assert_eq!(
        smoke_build_desktop(&workspace(), &[Reply::Failed("offline".to_owned())], 0),
        command_failed("offline")
    );
    let mut script = concat(vec![install(Os::Linux), build(true)]);
    script[3].1 = Reply::Failed("exit 1".to_owned());
    assert_eq!(
        drive(|log| smoke_build_desktop(&workspace(), log, 0), script),
        command_failed("exit 1")
    );
    let mut script = concat(vec![install(Os::Linux), build(true), vec![survey(Os::Linux)]]);
    script[4].1 = Reply::Done;
    assert_eq!(drive(|log| smoke_build_desktop(&workspace(), log, 0), script), unexpected(4));
}

#[test]
fn packaging_comes_after_a_full_build() {
    let script = concat(vec![build(false), vec![run(package_command(ROOT, &extra()))]]);
    assert_eq!(
        drive(|log| package_desktop(&workspace(), &extra(), log, 0), script),
        done(3)
    );
    let mut script = build(false);
    script[1].1 = Reply::Failed("exit 1".to_owned());
    assert_eq!(
        drive(|log| package_desktop(&workspace(), &extra(), log, 0), script),
        command_failed("exit 1")
    );
}

#[test]
fn the_client_runs_on_a_patched_bundle() {
    for (os, next) in [(Os::Linux, 4), (Os::Macos, 15)] {
        let script = concat(vec![patch(os), client(os, "https://h", &extra())]);
        assert_eq!(
            drive(
                |log| run_desktop_process(&workspace(), "https://h", &extra(), log, 0),
                script,
            ),
            done(next)
        );
    }
}

#[test]
fn the_client_needs_a_site_and_labels() {
    let go = |log: &[Reply]| run_desktop_process(&workspace(), "https://h", &extra(), log, 0);
    assert_eq!(drive(go, vec![host(Os::Linux), (survey(Os::Linux).0, Reply::Done)]), unexpected(1));
    assert_eq!(
        drive(
            go,
            vec![host(Os::Linux), survey(Os::Linux), (Effect::ReadBuildLabels, Reply::Done)],
        ),
        unexpected(2)
    );
}

#[test]
fn a_run_builds_only_when_told_to() {
    let with_build = concat(vec![
        install(Os::Linux),
        build(false),
        patch(Os::Linux),
        client(Os::Linux, "https://h", &extra()),
    ]);
    assert_eq!(
        drive(
            |log| run_desktop(&workspace(), "https://h", &extra(), true, log, 0),
            with_build,
        ),
        done(8)
    );
    let without_build = concat(vec![
        install(Os::Linux),
        patch(Os::Linux),
        client(Os::Linux, "https://h", &extra()),
    ]);
    assert_eq!(
        drive(
            |log| run_desktop(&workspace(), "https://h", &extra(), false, log, 0),
            without_build,
        ),
        done(6)
    );
}

#[test]
fn a_failed_installation_ends_a_run() {
    for build in [false, true] {
        assert_eq!(
            run_desktop(
                &workspace(),
                "https://h",
                &[],
                build,
                &[Reply::Failed("offline".to_owned())],
                0
            ),
            command_failed("offline")
        );
    }
}

#[test]
fn the_canary_workflow_belongs_on_a_macos_host() {
    for (os, in_container, allowed) in [
        (Os::Macos, false, true),
        (Os::Macos, true, false),
        (Os::Linux, false, false),
        (Os::Linux, true, false),
        (Os::Other, false, false),
    ] {
        let log = [Reply::Host(HostFacts { os, in_container })];
        let refused = Progress::Failed(DesktopError::HostNotMacos);
        assert_eq!(ensure_host_macos(&log, 0), if allowed { done(1) } else { refused });
        if !allowed {
            assert_eq!(
                run_desktop_canary(&workspace(), Some("https://h"), &[], true, &log, 0),
                Progress::Failed(DesktopError::HostNotMacos)
            );
        }
    }
    assert_eq!(ensure_host_macos(&[Reply::Done], 0), unexpected(0));
    assert_eq!(ensure_host_macos(&[], 0), Progress::Pending(Effect::InspectHost));
}

#[test]
fn a_refused_url_stops_nothing() {
    assert_eq!(
        drive(
            |log| run_desktop_canary(&workspace(), Some("wss://h"), &[], true, log, 0),
            vec![host(Os::Macos)],
        ),
        Progress::Failed(DesktopError::UnsupportedScheme { scheme: "wss".to_owned() })
    );
}

#[test]
fn the_canary_workflow_settles_stops_prepares_and_starts() {
    let starting = (
        Effect::Print("Starting Fluxer Canary (Dev) against https://h".to_owned()),
        Reply::Done,
    );
    let script = concat(vec![
        vec![host(Os::Macos)],
        stop(),
        install(Os::Macos),
        build(false),
        vec![starting],
        patch(Os::Macos),
        client(Os::Macos, "https://h", &extra()),
    ]);
    let next = script.len();
    assert_eq!(
        drive(
            |log| run_desktop_canary(&workspace(), Some(" https://H/ "), &extra(), true, log, 0),
            script,
        ),
        done(next)
    );
}

#[test]
fn the_canary_workflow_runs_against_the_url_that_it_finds() {
    let variable = |name: &str, value: Option<&str>| {
        (
            Effect::ReadVariable(name.to_owned()),
            Reply::Text(value.map(str::to_owned)),
        )
    };
    let starting = (
        Effect::Print("Starting Fluxer Canary (Dev) against https://two.test".to_owned()),
        Reply::Done,
    );
    let script = concat(vec![
        vec![
            host(Os::Macos),
            variable("FLUXER_DESKTOP_CANARY_APP_URL", None),
            variable("FLUXER_DESKTOP_APP_URL", Some("https://two.test/")),
            (
                Effect::Fetch {
                    url: "https://two.test/gateway/_health".to_owned(),
                    timeout_secs: 3,
                },
                Reply::Status(Some(200)),
            ),
        ],
        stop(),
        install(Os::Macos),
        vec![starting],
        patch(Os::Macos),
        client(Os::Macos, "https://two.test", &[]),
    ]);
    let next = script.len();
    assert_eq!(
        drive(
            |log| run_desktop_canary(&workspace(), None, &[], false, log, 0),
            script,
        ),
        done(next)
    );
}

#[test]
fn a_client_that_cannot_be_stopped_is_not_restarted() {
    let mut script = stop();
    let last = script.len() - 1;
    script[last].1 = Reply::Failed("no lsof".to_owned());
    assert_eq!(
        drive(
            |log| run_desktop_canary_against(&workspace(), "https://h", &[], true, log, 0),
            script,
        ),
        Progress::Failed(DesktopError::ListPids { cause: "no lsof".to_owned() })
    );
}

#[test]
fn a_client_that_fails_ends_the_canary_workflow_with_its_reason() {
    let mut script = concat(vec![
        vec![host(Os::Macos)],
        stop(),
        install(Os::Macos),
        vec![(
            Effect::Print("Starting Fluxer Canary (Dev) against https://h".to_owned()),
            Reply::Done,
        )],
        patch(Os::Macos),
        client(Os::Macos, "https://h", &[]),
    ]);
    let last = script.len() - 1;
    script[last].1 = Reply::Failed("crashed".to_owned());
    assert_eq!(
        drive(
            |log| run_desktop_canary(&workspace(), Some("https://h"), &[], false, log, 0),
            script,
        ),
        command_failed("crashed")
    );
}

#[test]
fn later_replies_do_not_change_a_workflow_that_is_over() {
    let log = [
        Reply::Done,
        Reply::Host(HostFacts { os: Os::Linux, in_container: true }),
        Reply::Failed("late".to_owned()),
    ];
    assert_eq!(install_desktop(&workspace(), &log[..2], 0), done(2));
    assert_eq!(install_desktop(&workspace(), &log, 0), done(2));
    assert_eq!(install_desktop(&workspace(), &log, 1), unexpected(1));
}
