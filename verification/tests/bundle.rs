use fluxer_desktop_dev::bundle::bundle_paths;
use fluxer_desktop_dev::bundle::dev_electron_bundle_is_complete;
use fluxer_desktop_dev::bundle::dev_electron_bundle_is_valid;
use fluxer_desktop_dev::bundle::ensure_macos_dev_electron_bundle;
use fluxer_desktop_dev::bundle::install_macos_dev_electron_bundle;
use fluxer_desktop_dev::bundle::reset_incomplete_dev_electron_dist;
use fluxer_desktop_dev::bundle::unpack_command;
use fluxer_desktop_dev::error::DesktopError;
use fluxer_desktop_dev::paths::dev_electron_binary_path;
use fluxer_desktop_dev::paths::dev_electron_framework_versions_path;
use fluxer_desktop_dev::paths::dev_electron_info_plist_path;
use fluxer_desktop_dev::replay::BundleFacts;
use fluxer_desktop_dev::replay::Effect;
use fluxer_desktop_dev::replay::HostFacts;
use fluxer_desktop_dev::replay::Os;
use fluxer_desktop_dev::replay::PathKind;
use fluxer_desktop_dev::replay::Progress;
use fluxer_desktop_dev::replay::Reply;
use fluxer_desktop_dev::workspace::Workspace;

const ROOT: &str = "/work/fluxer";
const DIST: &str = "/work/fluxer/fluxer_desktop/node_modules/electron/dist";
const SCRIPT: &str = "/work/fluxer/fluxer_desktop/node_modules/electron/install.js";

fn drive<T: std::fmt::Debug + PartialEq>(
    workflow: impl Fn(&[Reply]) -> Progress<T>,
    script: Vec<(Effect, Reply)>,
) -> Progress<T> {
    let mut log: Vec<Reply> = Vec::new();
    for (effect, reply) in script {
        assert_eq!(workflow(&log), Progress::Pending(effect));
        log.push(reply);
    }
    workflow(&log)
}

fn workspace() -> Workspace {
    Workspace {
        root: ROOT.to_owned(),
        pnpm_install_env: vec![("CI".to_owned(), "true".to_owned())],
    }
}

fn done(next: usize) -> Progress<()> {
    Progress::Ready { value: (), next }
}

fn whole() -> BundleFacts {
    BundleFacts {
        info_plist_is_file: true,
        binary_is_file: true,
        versions_is_link: true,
        framework_is_link: true,
        helpers_is_link: true,
        libraries_is_link: true,
        resources_is_link: true,
    }
}

fn broken() -> BundleFacts {
    BundleFacts { helpers_is_link: false, ..whole() }
}

fn host(os: Os, in_container: bool) -> (Effect, Reply) {
    (Effect::InspectHost, Reply::Host(HostFacts { os, in_container }))
}

fn look(facts: BundleFacts) -> (Effect, Reply) {
    (Effect::InspectBundle(bundle_paths(ROOT)), Reply::Bundle(facts))
}

fn script_exists(exists: bool) -> (Effect, Reply) {
    (Effect::IsFile(SCRIPT.to_owned()), Reply::Answer(exists))
}

fn print(line: &str) -> (Effect, Reply) {
    (Effect::Print(line.to_owned()), Reply::Done)
}

fn inspect(reply: Reply) -> (Effect, Reply) {
    (Effect::InspectPath(DIST.to_owned()), reply)
}

fn unpack(force_no_cache: bool, reply: Reply) -> (Effect, Reply) {
    (Effect::RunCommand(unpack_command(&workspace(), force_no_cache)), reply)
}

const FIRST: &str = "Installing dev Electron.app for macOS...";
const SECOND: &str = "Retrying dev Electron.app install without Electron download cache...";

fn ensure(script: Vec<(Effect, Reply)>) -> Progress<()> {
    drive(|log| ensure_macos_dev_electron_bundle(&workspace(), log, 0), script)
}

#[test]
fn a_bundle_is_complete_with_its_list_and_executable() {
    assert!(dev_electron_bundle_is_complete(&whole()));
    assert!(dev_electron_bundle_is_complete(&broken()));
    assert!(!dev_electron_bundle_is_complete(&BundleFacts { info_plist_is_file: false, ..whole() }));
    assert!(!dev_electron_bundle_is_complete(&BundleFacts { binary_is_file: false, ..whole() }));
}

#[test]
fn a_bundle_is_valid_only_with_all_its_links() {
    assert!(dev_electron_bundle_is_valid(&whole()));
    for facts in [
        BundleFacts { info_plist_is_file: false, ..whole() },
        BundleFacts { binary_is_file: false, ..whole() },
        BundleFacts { versions_is_link: false, ..whole() },
        BundleFacts { framework_is_link: false, ..whole() },
        BundleFacts { helpers_is_link: false, ..whole() },
        BundleFacts { libraries_is_link: false, ..whole() },
        BundleFacts { resources_is_link: false, ..whole() },
    ] {
        assert!(!dev_electron_bundle_is_valid(&facts));
    }
}

#[test]
fn nothing_is_removed_where_nothing_stands() {
    assert_eq!(
        drive(
            |log| reset_incomplete_dev_electron_dist(ROOT, log, 0),
            vec![inspect(Reply::Kind(PathKind::Missing))],
        ),
        done(1)
    );
}

#[test]
fn a_directory_is_removed_as_one_and_anything_else_as_a_file() {
    for (kind, effect) in [
        (PathKind::Directory, Effect::RemoveDirectory(DIST.to_owned())),
        (PathKind::Other, Effect::RemoveFile(DIST.to_owned())),
    ] {
        assert_eq!(
            drive(
                |log| reset_incomplete_dev_electron_dist(ROOT, log, 0),
                vec![inspect(Reply::Kind(kind)), (effect, Reply::Done)],
            ),
            done(2)
        );
    }
}

#[test]
fn failing_to_look_at_the_distribution_or_to_remove_it_is_an_error() {
    assert_eq!(
        drive(
            |log| reset_incomplete_dev_electron_dist(ROOT, log, 0),
            vec![inspect(Reply::Failed("denied".to_owned()))],
        ),
        Progress::Failed(DesktopError::InspectDist {
            path: DIST.to_owned(),
            cause: "denied".to_owned(),
        })
    );
    for (kind, effect) in [
        (PathKind::Directory, Effect::RemoveDirectory(DIST.to_owned())),
        (PathKind::Other, Effect::RemoveFile(DIST.to_owned())),
    ] {
        assert_eq!(
            drive(
                |log| reset_incomplete_dev_electron_dist(ROOT, log, 0),
                vec![
                    inspect(Reply::Kind(kind)),
                    (effect, Reply::Failed("busy".to_owned())),
                ],
            ),
            Progress::Failed(DesktopError::RemoveDist {
                path: DIST.to_owned(),
                cause: "busy".to_owned(),
            })
        );
    }
}

#[test]
fn unpacking_comes_after_the_removal() {
    assert_eq!(
        drive(
            |log| install_macos_dev_electron_bundle(&workspace(), true, log, 0),
            vec![
                inspect(Reply::Kind(PathKind::Directory)),
                (Effect::RemoveDirectory(DIST.to_owned()), Reply::Done),
                unpack(true, Reply::Done),
            ],
        ),
        done(3)
    );
    assert_eq!(
        drive(
            |log| install_macos_dev_electron_bundle(&workspace(), false, log, 0),
            vec![
                inspect(Reply::Kind(PathKind::Missing)),
                unpack(false, Reply::Failed("exit 1".to_owned())),
            ],
        ),
        Progress::Failed(DesktopError::Command { cause: "exit 1".to_owned() })
    );
}

#[test]
fn other_hosts_have_no_bundle() {
    for (os, in_container) in [
        (Os::Linux, false),
        (Os::Linux, true),
        (Os::Macos, true),
        (Os::Other, false),
    ] {
        assert_eq!(ensure(vec![host(os, in_container)]), done(1));
    }
}

#[test]
fn a_valid_bundle_is_left_alone() {
    assert_eq!(ensure(vec![host(Os::Macos, false), look(whole())]), done(2));
}

#[test]
fn a_missing_install_script_is_named() {
    assert_eq!(
        ensure(vec![host(Os::Macos, false), look(broken()), script_exists(false)]),
        Progress::Failed(DesktopError::MissingInstallScript { path: SCRIPT.to_owned() })
    );
}

#[test]
fn one_try_is_enough_where_it_works() {
    assert_eq!(
        ensure(vec![
            host(Os::Macos, false),
            look(broken()),
            script_exists(true),
            print(FIRST),
            inspect(Reply::Kind(PathKind::Missing)),
            unpack(false, Reply::Done),
            look(whole()),
        ]),
        done(7)
    );
}

#[test]
fn the_second_try_passes_over_the_cache() {
    assert_eq!(
        ensure(vec![
            host(Os::Macos, false),
            look(broken()),
            script_exists(true),
            print(FIRST),
            inspect(Reply::Kind(PathKind::Directory)),
            (Effect::RemoveDirectory(DIST.to_owned()), Reply::Done),
            unpack(false, Reply::Done),
            look(broken()),
            print(SECOND),
            inspect(Reply::Kind(PathKind::Directory)),
            (Effect::RemoveDirectory(DIST.to_owned()), Reply::Done),
            unpack(true, Reply::Done),
            look(whole()),
        ]),
        done(13)
    );
}

#[test]
fn the_bundle_is_given_up_on_after_two_tries() {
    assert_eq!(
        ensure(vec![
            host(Os::Macos, false),
            look(broken()),
            script_exists(true),
            print(FIRST),
            inspect(Reply::Kind(PathKind::Missing)),
            unpack(false, Reply::Done),
            look(broken()),
            print(SECOND),
            inspect(Reply::Kind(PathKind::Other)),
            (Effect::RemoveFile(DIST.to_owned()), Reply::Done),
            unpack(true, Reply::Done),
            look(broken()),
        ]),
        Progress::Failed(DesktopError::BundleNotCreated {
            info_plist: dev_electron_info_plist_path(ROOT),
            binary: dev_electron_binary_path(ROOT),
            versions: dev_electron_framework_versions_path(ROOT),
        })
    );
}

#[test]
fn a_failed_try_is_not_repeated() {
    assert_eq!(
        ensure(vec![
            host(Os::Macos, false),
            look(broken()),
            script_exists(true),
            print(FIRST),
            inspect(Reply::Kind(PathKind::Missing)),
            unpack(false, Reply::Failed("offline".to_owned())),
        ]),
        Progress::Failed(DesktopError::Command { cause: "offline".to_owned() })
    );
}

#[test]
fn replies_that_do_not_fit_are_reported_by_position() {
    let unexpected = |at| Progress::<()>::Failed(DesktopError::UnexpectedReply { at });
    assert_eq!(ensure(vec![(Effect::InspectHost, Reply::Done)]), unexpected(0));
    assert_eq!(
        ensure(vec![
            host(Os::Macos, false),
            (Effect::InspectBundle(bundle_paths(ROOT)), Reply::Answer(true)),
        ]),
        unexpected(1)
    );
    assert_eq!(
        ensure(vec![
            host(Os::Macos, false),
            look(broken()),
            (Effect::IsFile(SCRIPT.to_owned()), Reply::Kind(PathKind::Other)),
        ]),
        unexpected(2)
    );
}
