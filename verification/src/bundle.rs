//! The development Electron for macOS: whether it is complete, and how it is installed.

use crate::error::DesktopError;
use crate::error::DesktopErrorView;
use crate::paths;
use crate::replay;
use crate::replay::BundleFacts;
use crate::replay::BundlePaths;
use crate::replay::BundlePathsView;
use crate::replay::CommandSpec;
use crate::replay::CommandView;
use crate::replay::Effect;
use crate::replay::EffectView;
use crate::replay::HostFacts;
use crate::replay::PathKind;
use crate::replay::Progress;
use crate::replay::ProgressView;
use crate::replay::Reply;
use crate::replay::ReplyView;
use crate::text;
use crate::workspace;
use crate::workspace::Workspace;
use crate::workspace::WorkspaceView;
use vstd::prelude::*;

verus! {

/// Whether the property list and the executable are there.
pub open spec fn is_complete(facts: BundleFacts) -> bool {
    facts.info_plist_is_file && facts.binary_is_file
}

/// Whether the bundle is complete and the framework's links are still links.
pub open spec fn is_valid(facts: BundleFacts) -> bool {
    &&& is_complete(facts)
    &&& facts.versions_is_link
    &&& facts.framework_is_link
    &&& facts.helpers_is_link
    &&& facts.libraries_is_link
    &&& facts.resources_is_link
}

/// Tells whether the property list and the executable are there.
pub fn dev_electron_bundle_is_complete(facts: &BundleFacts) -> (res: bool)
    ensures
        res == is_complete(*facts),
{
    facts.info_plist_is_file && facts.binary_is_file
}

/// Tells whether the bundle is complete and the framework's links are still links.
pub fn dev_electron_bundle_is_valid(facts: &BundleFacts) -> (res: bool)
    ensures
        res == is_valid(*facts),
{
    dev_electron_bundle_is_complete(facts) && facts.versions_is_link && facts.framework_is_link
        && facts.helpers_is_link && facts.libraries_is_link && facts.resources_is_link
}

/// Where the development bundle has to have files and links.
pub open spec fn bundle_paths_view(root: Seq<char>) -> BundlePathsView {
    BundlePathsView {
        info_plist: paths::dev_electron_info_plist_view(root),
        binary: paths::dev_electron_binary_view(root),
        versions: paths::dev_electron_framework_versions_view(root),
        framework: paths::dev_electron_framework_link_view(root, "Electron Framework"@),
        helpers: paths::dev_electron_framework_link_view(root, "Helpers"@),
        libraries: paths::dev_electron_framework_link_view(root, "Libraries"@),
        resources: paths::dev_electron_framework_link_view(root, "Resources"@),
    }
}

/// Tells where the development bundle has to have files and links.
pub fn bundle_paths(root: &str) -> (res: BundlePaths)
    ensures
        res.deep_view() == bundle_paths_view(root@),
{
    BundlePaths {
        info_plist: paths::dev_electron_info_plist_path(root),
        binary: paths::dev_electron_binary_path(root),
        versions: paths::dev_electron_framework_versions_path(root),
        framework: paths::dev_electron_framework_link_path(root, "Electron Framework"),
        helpers: paths::dev_electron_framework_link_path(root, "Helpers"),
        libraries: paths::dev_electron_framework_link_path(root, "Libraries"),
        resources: paths::dev_electron_framework_link_path(root, "Resources"),
    }
}

/// Removing what stands at `path` by means of `effect`.
pub open spec fn removal_run(
    effect: EffectView,
    path: Seq<char>,
    log: Seq<ReplyView>,
    at: int,
) -> ProgressView<()> {
    if at >= log.len() {
        ProgressView::Pending(effect)
    } else {
        match log[at] {
            ReplyView::Done => ProgressView::Ready { value: (), next: at + 1 },
            ReplyView::Failed(cause) => ProgressView::Failed(
                DesktopErrorView::RemoveDist { path, cause },
            ),
            _ => replay::unexpected(at),
        }
    }
}

fn removal(effect: Effect, path: String, log: &[Reply], at: usize) -> (res: Progress<()>)
    ensures
        res.deep_view() == removal_run(effect.deep_view(), path@, log.deep_view(), at as int),
{
    if at >= log.len() {
        return Progress::Pending(effect);
    }
    match &log[at] {
        Reply::Done => Progress::Ready { value: (), next: at + 1 },
        Reply::Failed(cause) => Progress::Failed(
            DesktopError::RemoveDist { path, cause: cause.clone() },
        ),
        _ => Progress::Failed(DesktopError::UnexpectedReply { at }),
    }
}

/// Clearing the distribution's path: nothing to do where nothing stands there.
pub open spec fn reset_dist_run(root: Seq<char>, log: Seq<ReplyView>, at: int) -> ProgressView<()> {
    let dist = paths::dev_electron_dist_view(root);
    if at >= log.len() {
        ProgressView::Pending(EffectView::InspectPath(dist))
    } else {
        match log[at] {
            ReplyView::Kind(PathKind::Missing) => ProgressView::Ready { value: (), next: at + 1 },
            ReplyView::Kind(PathKind::Directory) => removal_run(
                EffectView::RemoveDirectory(dist),
                dist,
                log,
                at + 1,
            ),
            ReplyView::Kind(PathKind::Other) => removal_run(
                EffectView::RemoveFile(dist),
                dist,
                log,
                at + 1,
            ),
            ReplyView::Failed(cause) => ProgressView::Failed(
                DesktopErrorView::InspectDist { path: dist, cause },
            ),
            _ => replay::unexpected(at),
        }
    }
}

/// Removes an incomplete distribution, whatever it is.
pub fn reset_incomplete_dev_electron_dist(root: &str, log: &[Reply], at: usize) -> (res: Progress<
    (),
>)
    ensures
        res.deep_view() == reset_dist_run(root@, log.deep_view(), at as int),
{
    let dist = paths::dev_electron_dist_path(root);
    if at >= log.len() {
        return Progress::Pending(Effect::InspectPath(dist));
    }
    match &log[at] {
        Reply::Kind(PathKind::Missing) => Progress::Ready { value: (), next: at + 1 },
        Reply::Kind(PathKind::Directory) => removal(
            Effect::RemoveDirectory(dist.clone()),
            dist,
            log,
            at + 1,
        ),
        Reply::Kind(PathKind::Other) => removal(
            Effect::RemoveFile(dist.clone()),
            dist,
            log,
            at + 1,
        ),
        Reply::Failed(cause) => Progress::Failed(
            DesktopError::InspectDist { path: dist, cause: cause.clone() },
        ),
        _ => Progress::Failed(DesktopError::UnexpectedReply { at }),
    }
}

/// The command that unpacks the distribution: the package's install script, with every variable
/// removed that could redirect or skip the download.
pub open spec fn unpack_command_view(
    workspace: WorkspaceView,
    force_no_cache: bool,
) -> CommandView {
    CommandView {
        argv: seq!["node"@, "node_modules/electron/install.js"@],
        cwd: paths::desktop_dir_view(workspace.root),
        env: workspace.install_env_view() + seq![
            ("ELECTRON_OVERRIDE_DIST_PATH"@, None::<Seq<char>>),
            ("ELECTRON_SKIP_BINARY_DOWNLOAD"@, None),
            ("npm_config_arch"@, None),
            ("npm_config_platform"@, None),
            ("force_no_cache"@, if force_no_cache {
                Some("true"@)
            } else {
                None
            }),
        ],
    }
}

/// Makes the command that unpacks the distribution.
pub fn unpack_command(workspace: &Workspace, force_no_cache: bool) -> (res: CommandSpec)
    ensures
        res.deep_view() == unpack_command_view(workspace.deep_view(), force_no_cache),
{
    let mut argv: Vec<String> = Vec::new();
    text::push_str(&mut argv, "node");
    text::push_str(&mut argv, "node_modules/electron/install.js");
    let mut env = workspace.install_env();
    workspace::push_var(&mut env, "ELECTRON_OVERRIDE_DIST_PATH", None);
    workspace::push_var(&mut env, "ELECTRON_SKIP_BINARY_DOWNLOAD", None);
    workspace::push_var(&mut env, "npm_config_arch", None);
    workspace::push_var(&mut env, "npm_config_platform", None);
    workspace::push_var(
        &mut env,
        "force_no_cache",
        if force_no_cache {
            Some("true")
        } else {
            None
        },
    );
    let cwd = paths::desktop_dir(workspace.root.as_str());
    let res = CommandSpec { argv, cwd, env };
    proof {
        let want = unpack_command_view(workspace.deep_view(), force_no_cache);
        assert(res.argv.deep_view() =~= want.argv);
        assert(res.env.deep_view() =~= want.env);
    }
    res
}

/// Clearing the distribution's path and unpacking the distribution there.
pub open spec fn install_bundle_run(
    workspace: WorkspaceView,
    force_no_cache: bool,
    log: Seq<ReplyView>,
    at: int,
) -> ProgressView<()> {
    match reset_dist_run(workspace.root, log, at) {
        ProgressView::Ready { next, .. } => replay::command_run(
            unpack_command_view(workspace, force_no_cache),
            log,
            next,
        ),
        other => other,
    }
}

/// Clears the distribution's path and unpacks the distribution there.
pub fn install_macos_dev_electron_bundle(
    workspace: &Workspace,
    force_no_cache: bool,
    log: &[Reply],
    at: usize,
) -> (res: Progress<()>)
    ensures
        res.deep_view() == install_bundle_run(
            workspace.deep_view(),
            force_no_cache,
            log.deep_view(),
            at as int,
        ),
{
    match reset_incomplete_dev_electron_dist(workspace.root.as_str(), log, at) {
        Progress::Ready { next, .. } => replay::run_command(
            unpack_command(workspace, force_no_cache),
            log,
            next,
        ),
        other => other,
    }
}

/// Asking whether the bundle is valid.
pub open spec fn validity_run(root: Seq<char>, log: Seq<ReplyView>, at: int) -> ProgressView<bool> {
    if at >= log.len() {
        ProgressView::Pending(EffectView::InspectBundle(bundle_paths_view(root)))
    } else {
        match log[at] {
            ReplyView::Bundle(facts) => ProgressView::Ready {
                value: is_valid(facts),
                next: at + 1,
            },
            _ => replay::unexpected(at),
        }
    }
}

fn validity(root: &str, log: &[Reply], at: usize) -> (res: Progress<bool>)
    ensures
        res.deep_view() == validity_run(root@, log.deep_view(), at as int),
{
    if at >= log.len() {
        return Progress::Pending(Effect::InspectBundle(bundle_paths(root)));
    }
    match &log[at] {
        Reply::Bundle(facts) => Progress::Ready {
            value: dev_electron_bundle_is_valid(facts),
            next: at + 1,
        },
        _ => Progress::Failed(DesktopError::UnexpectedReply { at }),
    }
}

/// One try: announcing it with `line`, installing, and telling whether the bundle is valid now.
pub open spec fn try_install_run(
    workspace: WorkspaceView,
    line: Seq<char>,
    force_no_cache: bool,
    log: Seq<ReplyView>,
    at: int,
) -> ProgressView<bool> {
    match replay::print_run(line, log, at) {
        ProgressView::Ready { next, .. } => match install_bundle_run(
            workspace,
            force_no_cache,
            log,
            next,
        ) {
            ProgressView::Ready { next, .. } => validity_run(workspace.root, log, next),
            ProgressView::Pending(effect) => ProgressView::Pending(effect),
            ProgressView::Failed(error) => ProgressView::Failed(error),
        },
        ProgressView::Pending(effect) => ProgressView::Pending(effect),
        ProgressView::Failed(error) => ProgressView::Failed(error),
    }
}

fn try_install(
    workspace: &Workspace,
    line: &str,
    force_no_cache: bool,
    log: &[Reply],
    at: usize,
) -> (res: Progress<bool>)
    ensures
        res.deep_view() == try_install_run(
            workspace.deep_view(),
            line@,
            force_no_cache,
            log.deep_view(),
            at as int,
        ),
{
    match replay::print_line(line.to_owned(), log, at) {
        Progress::Ready { next, .. } => match install_macos_dev_electron_bundle(
            workspace,
            force_no_cache,
            log,
            next,
        ) {
            Progress::Ready { next, .. } => validity(workspace.root.as_str(), log, next),
            Progress::Pending(effect) => Progress::Pending(effect),
            Progress::Failed(error) => Progress::Failed(error),
        },
        Progress::Pending(effect) => Progress::Pending(effect),
        Progress::Failed(error) => Progress::Failed(error),
    }
}

/// The line that announces the first try.
pub open spec fn first_try_line() -> Seq<char> {
    "Installing dev Electron.app for macOS..."@
}

/// The line that announces the second try.
pub open spec fn second_try_line() -> Seq<char> {
    "Retrying dev Electron.app install without Electron download cache..."@
}

/// The error for a bundle that is not valid after both tries.
pub open spec fn not_created(root: Seq<char>) -> DesktopErrorView {
    DesktopErrorView::BundleNotCreated {
        info_plist: paths::dev_electron_info_plist_view(root),
        binary: paths::dev_electron_binary_view(root),
        versions: paths::dev_electron_framework_versions_view(root),
    }
}

/// Both tries, the second one without the download cache.
pub open spec fn both_tries_run(
    workspace: WorkspaceView,
    log: Seq<ReplyView>,
    at: int,
) -> ProgressView<()> {
    match try_install_run(workspace, first_try_line(), false, log, at) {
        ProgressView::Ready { value: true, next } => ProgressView::Ready { value: (), next },
        ProgressView::Ready { value: false, next } => match try_install_run(
            workspace,
            second_try_line(),
            true,
            log,
            next,
        ) {
            ProgressView::Ready { value: true, next } => ProgressView::Ready { value: (), next },
            ProgressView::Ready { value: false, .. } => ProgressView::Failed(
                not_created(workspace.root),
            ),
            ProgressView::Pending(effect) => ProgressView::Pending(effect),
            ProgressView::Failed(error) => ProgressView::Failed(error),
        },
        ProgressView::Pending(effect) => ProgressView::Pending(effect),
        ProgressView::Failed(error) => ProgressView::Failed(error),
    }
}

fn both_tries(workspace: &Workspace, log: &[Reply], at: usize) -> (res: Progress<()>)
    ensures
        res.deep_view() == both_tries_run(workspace.deep_view(), log.deep_view(), at as int),
{
    let root = workspace.root.as_str();
    match try_install(
        workspace,
        "Installing dev Electron.app for macOS...",
        false,
        log,
        at,
    ) {
        Progress::Ready { value: true, next } => Progress::Ready { value: (), next },
        Progress::Ready { value: false, next } => match try_install(
            workspace,
            "Retrying dev Electron.app install without Electron download cache...",
            true,
            log,
            next,
        ) {
            Progress::Ready { value: true, next } => Progress::Ready { value: (), next },
            Progress::Ready { value: false, .. } => Progress::Failed(
                DesktopError::BundleNotCreated {
                    info_plist: paths::dev_electron_info_plist_path(root),
                    binary: paths::dev_electron_binary_path(root),
                    versions: paths::dev_electron_framework_versions_path(root),
                },
            ),
            Progress::Pending(effect) => Progress::Pending(effect),
            Progress::Failed(error) => Progress::Failed(error),
        },
        Progress::Pending(effect) => Progress::Pending(effect),
        Progress::Failed(error) => Progress::Failed(error),
    }
}

/// Seeing to it that the bundle is valid, on a macOS host.
pub open spec fn repair_bundle_run(
    workspace: WorkspaceView,
    log: Seq<ReplyView>,
    at: int,
) -> ProgressView<()> {
    let script = paths::dev_electron_install_script_view(workspace.root);
    match validity_run(workspace.root, log, at) {
        ProgressView::Ready { value: true, next } => ProgressView::Ready { value: (), next },
        ProgressView::Ready { value: false, next } => if next >= log.len() {
            ProgressView::Pending(EffectView::IsFile(script))
        } else {
            match log[next] {
                ReplyView::Answer(true) => both_tries_run(workspace, log, next + 1),
                ReplyView::Answer(false) => ProgressView::Failed(
                    DesktopErrorView::MissingInstallScript { path: script },
                ),
                _ => replay::unexpected(next),
            }
        },
        ProgressView::Pending(effect) => ProgressView::Pending(effect),
        ProgressView::Failed(error) => ProgressView::Failed(error),
    }
}

/// Seeing to it that the bundle is valid: nothing to do anywhere but on a macOS host.
pub open spec fn ensure_bundle_run(
    workspace: WorkspaceView,
    log: Seq<ReplyView>,
    at: int,
) -> ProgressView<()> {
    if at >= log.len() {
        ProgressView::Pending(EffectView::InspectHost)
    } else {
        match log[at] {
            ReplyView::Host(facts) => if facts.is_macos_host() {
                repair_bundle_run(workspace, log, at + 1)
            } else {
                ProgressView::Ready { value: (), next: at + 1 }
            },
            _ => replay::unexpected(at),
        }
    }
}

/// Sees to it that the development bundle is valid.
///
/// A bundle that is not valid is installed; where that does not make it valid, once more without
/// the download cache. Anywhere but on a macOS host there is nothing to do.
pub fn ensure_macos_dev_electron_bundle(workspace: &Workspace, log: &[Reply], at: usize) -> (res:
    Progress<()>)
    ensures
        res.deep_view() == ensure_bundle_run(workspace.deep_view(), log.deep_view(), at as int),
{
    if at >= log.len() {
        return Progress::Pending(Effect::InspectHost);
    }
    match &log[at] {
        Reply::Host(facts) => {
            if !facts.macos_host() {
                return Progress::Ready { value: (), next: at + 1 };
            }
        },
        _ => {
            return Progress::Failed(DesktopError::UnexpectedReply { at });
        },
    }
    let script = paths::dev_electron_install_script_path(workspace.root.as_str());
    match validity(workspace.root.as_str(), log, at + 1) {
        Progress::Ready { value: true, next } => Progress::Ready { value: (), next },
        Progress::Ready { value: false, next } => {
            if next >= log.len() {
                return Progress::Pending(Effect::IsFile(script));
            }
            match &log[next] {
                Reply::Answer(true) => both_tries(workspace, log, next + 1),
                Reply::Answer(false) => Progress::Failed(
                    DesktopError::MissingInstallScript { path: script },
                ),
                _ => Progress::Failed(DesktopError::UnexpectedReply { at: next }),
            }
        },
        Progress::Pending(effect) => Progress::Pending(effect),
        Progress::Failed(error) => Progress::Failed(error),
    }
}

/// Once the distribution's path is clear, or that failed, more replies do not change it.
pub proof fn law_reset_settles(
    root: Seq<char>,
    log: Seq<ReplyView>,
    longer: Seq<ReplyView>,
    at: int,
)
    requires
        replay::extends(log, longer),
        0 <= at <= log.len(),
    ensures
        replay::settles(
            reset_dist_run(root, log, at),
            reset_dist_run(root, longer, at),
            at,
            log.len(),
        ),
{
}

/// Once the distribution is unpacked, or that failed, more replies do not change it.
pub proof fn law_install_bundle_settles(
    workspace: WorkspaceView,
    force_no_cache: bool,
    log: Seq<ReplyView>,
    longer: Seq<ReplyView>,
    at: int,
)
    requires
        replay::extends(log, longer),
        0 <= at <= log.len(),
    ensures
        replay::settles(
            install_bundle_run(workspace, force_no_cache, log, at),
            install_bundle_run(workspace, force_no_cache, longer, at),
            at,
            log.len(),
        ),
{
    law_reset_settles(workspace.root, log, longer, at);
}

/// Once a try is over, more replies do not change how it ended.
pub proof fn law_try_settles(
    workspace: WorkspaceView,
    line: Seq<char>,
    force_no_cache: bool,
    log: Seq<ReplyView>,
    longer: Seq<ReplyView>,
    at: int,
)
    requires
        replay::extends(log, longer),
        0 <= at <= log.len(),
    ensures
        replay::settles(
            try_install_run(workspace, line, force_no_cache, log, at),
            try_install_run(workspace, line, force_no_cache, longer, at),
            at,
            log.len(),
        ),
{
    if at < log.len() {
        law_install_bundle_settles(workspace, force_no_cache, log, longer, at + 1);
    }
}

/// Once both tries are over, more replies do not change how they ended.
pub proof fn law_both_tries_settle(
    workspace: WorkspaceView,
    log: Seq<ReplyView>,
    longer: Seq<ReplyView>,
    at: int,
)
    requires
        replay::extends(log, longer),
        0 <= at <= log.len(),
    ensures
        replay::settles(
            both_tries_run(workspace, log, at),
            both_tries_run(workspace, longer, at),
            at,
            log.len(),
        ),
{
    law_try_settles(workspace, first_try_line(), false, log, longer, at);
    if let ProgressView::Ready { next, .. } = try_install_run(
        workspace,
        first_try_line(),
        false,
        log,
        at,
    ) {
        law_try_settles(workspace, second_try_line(), true, log, longer, next);
    }
}

/// Once the bundle is seen to, or that failed, more replies do not change it.
pub proof fn law_ensure_bundle_settles(
    workspace: WorkspaceView,
    log: Seq<ReplyView>,
    longer: Seq<ReplyView>,
    at: int,
)
    requires
        replay::extends(log, longer),
        0 <= at <= log.len(),
    ensures
        replay::settles(
            ensure_bundle_run(workspace, log, at),
            ensure_bundle_run(workspace, longer, at),
            at,
            log.len(),
        ),
{
    if at + 2 < log.len() {
        law_both_tries_settle(workspace, log, longer, at + 3);
    }
}

/// Anywhere but on a macOS host the bundle is left alone.
pub proof fn law_other_hosts_have_no_bundle(
    workspace: WorkspaceView,
    facts: HostFacts,
    log: Seq<ReplyView>,
    at: int,
)
    requires
        0 <= at < log.len(),
        log[at] == ReplyView::Host(facts),
        !facts.is_macos_host(),
    ensures
        ensure_bundle_run(workspace, log, at) == (ProgressView::Ready { value: (), next: at + 1 }),
{
}

/// A bundle that is valid is left alone.
pub proof fn law_valid_bundle_is_left_alone(
    workspace: WorkspaceView,
    host: HostFacts,
    facts: BundleFacts,
    log: Seq<ReplyView>,
    at: int,
)
    requires
        0 <= at,
        at + 1 < log.len(),
        log[at] == ReplyView::Host(host),
        log[at + 1] == ReplyView::Bundle(facts),
        is_valid(facts),
        host.is_macos_host(),
    ensures
        ensure_bundle_run(workspace, log, at) == (ProgressView::Ready { value: (), next: at + 2 }),
{
}

/// On a macOS host success means that the bundle was found valid at the last look.
pub proof fn law_success_means_a_valid_bundle(
    workspace: WorkspaceView,
    host: HostFacts,
    log: Seq<ReplyView>,
    at: int,
    next: int,
)
    requires
        0 <= at < log.len(),
        log[at] == ReplyView::Host(host),
        host.is_macos_host(),
        ensure_bundle_run(workspace, log, at) == (ProgressView::Ready { value: (), next }),
    ensures
        at + 2 <= next <= log.len(),
        log[next - 1] matches ReplyView::Bundle(facts) && is_valid(facts),
{
    law_ensure_bundle_settles(workspace, log, log, at);
    if at + 2 < log.len() {
        law_try_settles(workspace, first_try_line(), false, log, log, at + 3);
    }
}

/// The two tries differ: only the second one is told to pass over the download cache.
pub proof fn law_tries_differ_in_the_cache(workspace: WorkspaceView)
    ensures
        unpack_command_view(workspace, true) != unpack_command_view(workspace, false),
        unpack_command_view(workspace, true).env.last() == ("force_no_cache"@, Some("true"@)),
        unpack_command_view(workspace, false).env.last() == ("force_no_cache"@, None::<Seq<char>>),
        unpack_command_view(workspace, true).env.drop_last() == unpack_command_view(
            workspace,
            false,
        ).env.drop_last(),
{
    assert(unpack_command_view(workspace, true).env.drop_last() =~= unpack_command_view(
        workspace,
        false,
    ).env.drop_last());
    assert(unpack_command_view(workspace, true).env.last() != unpack_command_view(
        workspace,
        false,
    ).env.last());
}

/// The only commands that are run are the two tries, and the second one is run only when the bundle
/// was still not valid after the first.
pub proof fn law_cache_is_passed_over_on_retry_only(
    workspace: WorkspaceView,
    command: CommandView,
    log: Seq<ReplyView>,
    at: int,
)
    requires
        ensure_bundle_run(workspace, log, at) == ProgressView::<()>::Pending(
            EffectView::RunCommand(command),
        ),
    ensures
        command == unpack_command_view(workspace, false) || command == unpack_command_view(
            workspace,
            true,
        ),
        command == unpack_command_view(workspace, true) <==> try_install_run(
            workspace,
            first_try_line(),
            false,
            log,
            at + 3,
        ) is Ready,
        command == unpack_command_view(workspace, true) ==> try_install_run(
            workspace,
            first_try_line(),
            false,
            log,
            at + 3,
        ) matches ProgressView::Ready { value: false, .. },
{
    law_tries_differ_in_the_cache(workspace);
}

/// The bundle is given up on only when both tries went through and left it not valid.
pub proof fn law_two_tries_before_giving_up(
    workspace: WorkspaceView,
    log: Seq<ReplyView>,
    at: int,
)
    requires
        ensure_bundle_run(workspace, log, at) == ProgressView::<()>::Failed(
            not_created(workspace.root),
        ),
    ensures
        try_install_run(workspace, first_try_line(), false, log, at + 3) matches
            ProgressView::Ready { value: false, next } && try_install_run(
            workspace,
            second_try_line(),
            true,
            log,
            next,
        ) matches ProgressView::Ready { value: false, .. },
{
}

/// Seeing to the bundle takes at most thirteen replies.
pub proof fn law_ensure_bundle_ends(workspace: WorkspaceView, log: Seq<ReplyView>, at: int)
    requires
        0 <= at,
        at + 13 <= log.len(),
    ensures
        !(ensure_bundle_run(workspace, log, at) is Pending),
        ensure_bundle_run(workspace, log, at) matches ProgressView::Ready { next, .. } ==> at
            < next <= at + 13,
{
}

/// A bundle is valid exactly where the property list and the executable are regular files and each
/// of the five paths in the framework is a link.
pub proof fn law_valid_means_every_file_and_link(facts: BundleFacts)
    ensures
        is_valid(facts) ==> facts.info_plist_is_file,
        is_valid(facts) ==> facts.binary_is_file,
        is_valid(facts) ==> facts.versions_is_link,
        is_valid(facts) ==> facts.framework_is_link,
        is_valid(facts) ==> facts.helpers_is_link,
        is_valid(facts) ==> facts.libraries_is_link,
        is_valid(facts) ==> facts.resources_is_link,
        facts.info_plist_is_file && facts.binary_is_file && facts.versions_is_link
            && facts.framework_is_link && facts.helpers_is_link && facts.libraries_is_link
            && facts.resources_is_link ==> is_valid(facts),
        is_complete(facts) <==> facts.info_plist_is_file && facts.binary_is_file,
{
}

/// On a macOS host success means that the last look found both files and all five links.
pub proof fn law_success_means_every_file_and_link(
    workspace: WorkspaceView,
    host: HostFacts,
    log: Seq<ReplyView>,
    at: int,
    next: int,
)
    requires
        0 <= at < log.len(),
        log[at] == ReplyView::Host(host),
        host.os is Macos,
        !host.in_container,
        ensure_bundle_run(workspace, log, at) == (ProgressView::Ready { value: (), next }),
    ensures
        at + 2 <= next <= log.len(),
        log[next - 1] matches ReplyView::Bundle(facts) && facts.info_plist_is_file
            && facts.binary_is_file && facts.versions_is_link && facts.framework_is_link
            && facts.helpers_is_link && facts.libraries_is_link && facts.resources_is_link,
{
    law_success_means_a_valid_bundle(workspace, host, log, at, next);
}

/// The bundle is looked at where its property list, its executable and the links of its framework
/// have to be.
pub proof fn law_bundle_is_looked_at_in_its_places(root: Seq<char>, log: Seq<ReplyView>, at: int)
    ensures
        bundle_paths_view(root).info_plist == paths::dev_electron_info_plist_view(root),
        bundle_paths_view(root).binary == paths::dev_electron_binary_view(root),
        bundle_paths_view(root).versions == paths::dev_electron_framework_versions_view(root),
        bundle_paths_view(root).framework == paths::dev_electron_framework_link_view(
            root,
            "Electron Framework"@,
        ),
        bundle_paths_view(root).helpers == paths::dev_electron_framework_link_view(
            root,
            "Helpers"@,
        ),
        bundle_paths_view(root).libraries == paths::dev_electron_framework_link_view(
            root,
            "Libraries"@,
        ),
        bundle_paths_view(root).resources == paths::dev_electron_framework_link_view(
            root,
            "Resources"@,
        ),
        at >= log.len() ==> validity_run(root, log, at) == ProgressView::<bool>::Pending(
            EffectView::InspectBundle(bundle_paths_view(root)),
        ),
        at < log.len() ==> (log[at] matches ReplyView::Bundle(facts) ==> validity_run(root, log, at)
            == (ProgressView::Ready { value: is_valid(facts), next: at + 1 })),
        at < log.len() && !(log[at] is Bundle) ==> validity_run(root, log, at)
            == ProgressView::<bool>::Failed(DesktopErrorView::UnexpectedReply { at: at as usize }),
{
}

/// What stands at the distribution's path is removed: a directory as one, anything else as a file,
/// and nothing where nothing stands there.
pub proof fn law_distribution_is_removed(root: Seq<char>, log: Seq<ReplyView>, at: int)
    requires
        0 <= at,
    ensures
        at >= log.len() ==> reset_dist_run(root, log, at) == ProgressView::<()>::Pending(
            EffectView::InspectPath(paths::dev_electron_dist_view(root)),
        ),
        at < log.len() && log[at] == ReplyView::Kind(PathKind::Missing) ==> reset_dist_run(
            root,
            log,
            at,
        ) == (ProgressView::Ready { value: (), next: at + 1 }),
        at + 1 == log.len() && log[at] == ReplyView::Kind(PathKind::Directory) ==> reset_dist_run(
            root,
            log,
            at,
        ) == ProgressView::<()>::Pending(
            EffectView::RemoveDirectory(paths::dev_electron_dist_view(root)),
        ),
        at + 1 == log.len() && log[at] == ReplyView::Kind(PathKind::Other) ==> reset_dist_run(
            root,
            log,
            at,
        ) == ProgressView::<()>::Pending(
            EffectView::RemoveFile(paths::dev_electron_dist_view(root)),
        ),
        at + 1 < log.len() && (log[at] matches ReplyView::Kind(kind) && !(kind is Missing)) ==> {
            &&& log[at + 1] is Done ==> reset_dist_run(root, log, at) == (ProgressView::Ready {
                value: (),
                next: at + 2,
            })
            &&& log[at + 1] matches ReplyView::Failed(cause) ==> reset_dist_run(root, log, at)
                == ProgressView::<()>::Failed(
                DesktopErrorView::RemoveDist { path: paths::dev_electron_dist_view(root), cause },
            )
            &&& !(log[at + 1] is Done) && !(log[at + 1] is Failed) ==> reset_dist_run(root, log, at)
                == ProgressView::<()>::Failed(
                DesktopErrorView::UnexpectedReply { at: (at + 1) as usize },
            )
        },
        at < log.len() ==> (log[at] matches ReplyView::Failed(cause) ==> reset_dist_run(
            root,
            log,
            at,
        ) == ProgressView::<()>::Failed(
            DesktopErrorView::InspectDist { path: paths::dev_electron_dist_view(root), cause },
        )),
        at < log.len() && !(log[at] is Kind) && !(log[at] is Failed) ==> reset_dist_run(
            root,
            log,
            at,
        ) == ProgressView::<()>::Failed(DesktopErrorView::UnexpectedReply { at: at as usize }),
{
}

/// The distribution is unpacked by the package's own script, with the workspace's variables and
/// without those that could redirect or skip the download. Whether the cache is passed over is the
/// last word.
pub proof fn law_unpack_command(workspace: WorkspaceView, force_no_cache: bool, i: int)
    ensures
        ({
            let command = unpack_command_view(workspace, force_no_cache);
            let own = workspace.pnpm_install_env.len() as int;
            &&& command.argv == seq!["node"@, "node_modules/electron/install.js"@]
            &&& command.cwd == paths::desktop_dir_view(workspace.root)
            &&& command.env.len() == own + 5
            &&& 0 <= i < own ==> command.env[i] == (
                workspace.pnpm_install_env[i].0,
                Some(workspace.pnpm_install_env[i].1),
            )
            &&& command.env[own] == ("ELECTRON_OVERRIDE_DIST_PATH"@, None::<Seq<char>>)
            &&& command.env[own + 1] == ("ELECTRON_SKIP_BINARY_DOWNLOAD"@, None::<Seq<char>>)
            &&& command.env[own + 2] == ("npm_config_arch"@, None::<Seq<char>>)
            &&& command.env[own + 3] == ("npm_config_platform"@, None::<Seq<char>>)
            &&& force_no_cache ==> command.env[own + 4] == ("force_no_cache"@, Some("true"@))
            &&& !force_no_cache ==> command.env[own + 4] == ("force_no_cache"@, None::<Seq<char>>)
        }),
{
}

/// Unpacking comes when the path is clear, and not before.
pub proof fn law_unpacking_comes_after_the_removal(
    workspace: WorkspaceView,
    force_no_cache: bool,
    log: Seq<ReplyView>,
    at: int,
)
    ensures
        replay::leads(
            reset_dist_run(workspace.root, log, at),
            install_bundle_run(workspace, force_no_cache, log, at),
        ),
        reset_dist_run(workspace.root, log, at) matches ProgressView::Ready { next, .. }
            ==> install_bundle_run(workspace, force_no_cache, log, at) == replay::command_run(
            unpack_command_view(workspace, force_no_cache),
            log,
            next,
        ),
{
}

/// A try is announced, then carried out, then judged by a new look at the bundle.
pub proof fn law_a_try_is_announced_and_judged(
    workspace: WorkspaceView,
    line: Seq<char>,
    force_no_cache: bool,
    log: Seq<ReplyView>,
    at: int,
)
    ensures
        replay::leads(
            replay::print_run(line, log, at),
            try_install_run(workspace, line, force_no_cache, log, at),
        ),
        replay::print_run(line, log, at) is Ready ==> replay::leads(
            install_bundle_run(workspace, force_no_cache, log, at + 1),
            try_install_run(workspace, line, force_no_cache, log, at),
        ),
        replay::print_run(line, log, at) is Ready ==> (install_bundle_run(
            workspace,
            force_no_cache,
            log,
            at + 1,
        ) matches ProgressView::Ready { next, .. } ==> try_install_run(
            workspace,
            line,
            force_no_cache,
            log,
            at,
        ) == validity_run(workspace.root, log, next)),
{
}

/// The first try uses the cache. Where it leaves the bundle not valid, and only there, a second one
/// passes over the cache; where that does not help either, the places are named in which something
/// is missing.
pub proof fn law_tries_follow_each_other(workspace: WorkspaceView, log: Seq<ReplyView>, at: int)
    ensures
        ({
            let first = try_install_run(
                workspace,
                "Installing dev Electron.app for macOS..."@,
                false,
                log,
                at,
            );
            &&& replay::leads(first, both_tries_run(workspace, log, at))
            &&& first matches ProgressView::Ready { value: true, next } ==> both_tries_run(
                workspace,
                log,
                at,
            ) == (ProgressView::Ready { value: (), next })
            &&& first matches ProgressView::Ready { value: false, next } ==> {
                let second = try_install_run(
                    workspace,
                    "Retrying dev Electron.app install without Electron download cache..."@,
                    true,
                    log,
                    next,
                );
                &&& replay::leads(second, both_tries_run(workspace, log, at))
                &&& second matches ProgressView::Ready { value: true, next } ==> both_tries_run(
                    workspace,
                    log,
                    at,
                ) == (ProgressView::Ready { value: (), next })
                &&& second matches ProgressView::Ready { value: false, .. } ==> both_tries_run(
                    workspace,
                    log,
                    at,
                ) == ProgressView::<()>::Failed(
                    DesktopErrorView::BundleNotCreated {
                        info_plist: paths::dev_electron_info_plist_view(workspace.root),
                        binary: paths::dev_electron_binary_view(workspace.root),
                        versions: paths::dev_electron_framework_versions_view(workspace.root),
                    },
                )
            }
        }),
{
}

/// On a macOS host the bundle is looked at first. One with a file or a link missing is never taken
/// for valid: the install script is looked for, its absence is an error, and its presence starts
/// the tries.
pub proof fn law_broken_bundle_is_installed(
    workspace: WorkspaceView,
    host: HostFacts,
    facts: BundleFacts,
    log: Seq<ReplyView>,
    at: int,
)
    requires
        0 <= at,
        at + 1 < log.len(),
        log[at] == ReplyView::Host(host),
        host.os is Macos,
        !host.in_container,
        log[at + 1] == ReplyView::Bundle(facts),
        !facts.info_plist_is_file || !facts.binary_is_file || !facts.versions_is_link
            || !facts.framework_is_link || !facts.helpers_is_link || !facts.libraries_is_link
            || !facts.resources_is_link,
    ensures
        log.len() == at + 2 ==> ensure_bundle_run(workspace, log, at)
            == ProgressView::<()>::Pending(
            EffectView::IsFile(paths::dev_electron_install_script_view(workspace.root)),
        ),
        log.len() > at + 2 ==> {
            &&& log[at + 2] == ReplyView::Answer(false) ==> ensure_bundle_run(workspace, log, at)
                == ProgressView::<()>::Failed(
                DesktopErrorView::MissingInstallScript {
                    path: paths::dev_electron_install_script_view(workspace.root),
                },
            )
            &&& log[at + 2] == ReplyView::Answer(true) ==> ensure_bundle_run(workspace, log, at)
                == both_tries_run(workspace, log, at + 3)
            &&& !(log[at + 2] is Answer) ==> ensure_bundle_run(workspace, log, at)
                == ProgressView::<()>::Failed(
                DesktopErrorView::UnexpectedReply { at: (at + 2) as usize },
            )
        },
{
}

/// A bundle with both files and all links is left alone on a macOS host, which is asked for first;
/// on any other host the bundle is not even looked at.
pub proof fn law_whole_bundle_and_other_hosts_are_left_alone(
    workspace: WorkspaceView,
    host: HostFacts,
    facts: BundleFacts,
    log: Seq<ReplyView>,
    at: int,
)
    requires
        0 <= at,
    ensures
        at >= log.len() ==> ensure_bundle_run(workspace, log, at) == ProgressView::<()>::Pending(
            EffectView::InspectHost,
        ),
        at < log.len() && !(log[at] is Host) ==> ensure_bundle_run(workspace, log, at)
            == ProgressView::<()>::Failed(DesktopErrorView::UnexpectedReply { at: at as usize }),
        at < log.len() && log[at] == ReplyView::Host(host) && (!(host.os is Macos)
            || host.in_container) ==> ensure_bundle_run(workspace, log, at) == (
        ProgressView::Ready { value: (), next: at + 1 }),
        at < log.len() && log[at] == ReplyView::Host(host) && host.os is Macos
            && !host.in_container ==> {
            &&& at + 1 == log.len() ==> ensure_bundle_run(workspace, log, at)
                == ProgressView::<()>::Pending(
                EffectView::InspectBundle(bundle_paths_view(workspace.root)),
            )
            &&& at + 1 < log.len() && !(log[at + 1] is Bundle) ==> ensure_bundle_run(
                workspace,
                log,
                at,
            ) == ProgressView::<()>::Failed(
                DesktopErrorView::UnexpectedReply { at: (at + 1) as usize },
            )
            &&& at + 1 < log.len() && log[at + 1] == ReplyView::Bundle(facts)
                && facts.info_plist_is_file && facts.binary_is_file && facts.versions_is_link
                && facts.framework_is_link && facts.helpers_is_link && facts.libraries_is_link
                && facts.resources_is_link ==> ensure_bundle_run(workspace, log, at) == (
            ProgressView::Ready { value: (), next: at + 2 })
        },
{
}

} // verus!
