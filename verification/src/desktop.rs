//! The workflows: installing, building, checking, packaging and running the desktop client.

use crate::app_url;
use crate::canary;
use crate::commands;
use crate::error::DesktopError;
use crate::error::DesktopErrorView;
use crate::paths;
use crate::plist;
use crate::plist::DEV_CANARY_APP_NAME;
use crate::replay;
use crate::replay::CommandView;
use crate::replay::Effect;
use crate::replay::EffectView;
use crate::replay::HostFacts;
use crate::replay::Progress;
use crate::replay::ProgressView;
use crate::replay::Reply;
use crate::replay::ReplyView;
use crate::workspace;
use crate::workspace::Workspace;
use crate::workspace::WorkspaceView;
use vstd::prelude::*;
use vstd::string::StringExecFns;

verus! {

/// Installing: the packages first, then the development bundle.
pub open spec fn install_run(
    workspace: WorkspaceView,
    log: Seq<ReplyView>,
    at: int,
) -> ProgressView<()> {
    match replay::command_run(commands::install_command_view(workspace), log, at) {
        ProgressView::Ready { next, .. } => plist::patch_run(workspace, log, next),
        other => other,
    }
}

/// Installs the packages of the checkout and patches the development bundle.
pub fn install_desktop(workspace: &Workspace, log: &[Reply], at: usize) -> (res: Progress<()>)
    ensures
        res.deep_view() == install_run(workspace.deep_view(), log.deep_view(), at as int),
{
    match replay::run_command(commands::install_command(workspace), log, at) {
        Progress::Ready { next, .. } => plist::patch_macos_dev_electron_info_plist(
            workspace,
            log,
            next,
        ),
        other => other,
    }
}

/// Building with the labels that are set at that moment.
pub open spec fn build_run(
    root: Seq<char>,
    skip_native: bool,
    log: Seq<ReplyView>,
    at: int,
) -> ProgressView<()> {
    if at >= log.len() {
        ProgressView::Pending(EffectView::ReadBuildLabels)
    } else {
        match log[at] {
            ReplyView::Labels(labels) => replay::command_run(
                commands::build_command_view(root, skip_native, labels),
                log,
                at + 1,
            ),
            _ => replay::unexpected(at),
        }
    }
}

/// Builds the client, without its native modules if so wished.
pub fn build_desktop(workspace: &Workspace, skip_native: bool, log: &[Reply], at: usize) -> (res:
    Progress<()>)
    ensures
        res.deep_view() == build_run(
            workspace.deep_view().root,
            skip_native,
            log.deep_view(),
            at as int,
        ),
{
    if at >= log.len() {
        return Progress::Pending(Effect::ReadBuildLabels);
    }
    match &log[at] {
        Reply::Labels(labels) => replay::run_command(
            commands::build_command(workspace.root.as_str(), skip_native, labels),
            log,
            at + 1,
        ),
        _ => Progress::Failed(DesktopError::UnexpectedReply { at }),
    }
}

/// Checks the types of the desktop package.
pub fn typecheck_desktop(workspace: &Workspace, log: &[Reply], at: usize) -> (res: Progress<()>)
    ensures
        res.deep_view() == replay::command_run(
            commands::typecheck_command_view(workspace.deep_view().root),
            log.deep_view(),
            at as int,
        ),
{
    replay::run_command(commands::typecheck_command(workspace.root.as_str()), log, at)
}

/// Starting the client of the smoke test, on what is found at that moment.
pub open spec fn smoke_start_run(root: Seq<char>, log: Seq<ReplyView>, at: int) -> ProgressView<
    (),
> {
    if at >= log.len() {
        ProgressView::Pending(
            EffectView::SurveyLaunch { dev_binary: paths::dev_electron_binary_view(root) },
        )
    } else {
        match log[at] {
            ReplyView::Launch(site) => replay::command_run(
                commands::smoke_command_view(root, site),
                log,
                at + 1,
            ),
            _ => replay::unexpected(at),
        }
    }
}

fn smoke_start(root: &str, log: &[Reply], at: usize) -> (res: Progress<()>)
    ensures
        res.deep_view() == smoke_start_run(root@, log.deep_view(), at as int),
{
    if at >= log.len() {
        return Progress::Pending(
            Effect::SurveyLaunch { dev_binary: paths::dev_electron_binary_path(root) },
        );
    }
    match &log[at] {
        Reply::Launch(site) => {
            replay::run_command(commands::smoke_command(root, site), log, at + 1)
        },
        _ => Progress::Failed(DesktopError::UnexpectedReply { at }),
    }
}

/// Building without native modules and starting the client of the smoke test.
pub open spec fn build_and_smoke_run(root: Seq<char>, log: Seq<ReplyView>, at: int) -> ProgressView<
    (),
> {
    match build_run(root, true, log, at) {
        ProgressView::Ready { next, .. } => smoke_start_run(root, log, next),
        other => other,
    }
}

/// The smoke test: install, build without native modules, start.
pub open spec fn smoke_run(
    workspace: WorkspaceView,
    log: Seq<ReplyView>,
    at: int,
) -> ProgressView<()> {
    match install_run(workspace, log, at) {
        ProgressView::Ready { next, .. } => build_and_smoke_run(workspace.root, log, next),
        other => other,
    }
}

/// Installs, builds without native modules, and starts the client once to report about itself.
pub fn smoke_build_desktop(workspace: &Workspace, log: &[Reply], at: usize) -> (res: Progress<()>)
    ensures
        res.deep_view() == smoke_run(workspace.deep_view(), log.deep_view(), at as int),
{
    match install_desktop(workspace, log, at) {
        Progress::Ready { next, .. } => match build_desktop(workspace, true, log, next) {
            Progress::Ready { next, .. } => smoke_start(workspace.root.as_str(), log, next),
            other => other,
        },
        other => other,
    }
}

/// Packaging: build with everything, then package.
pub open spec fn package_run(
    root: Seq<char>,
    args: Seq<Seq<char>>,
    log: Seq<ReplyView>,
    at: int,
) -> ProgressView<()> {
    match build_run(root, false, log, at) {
        ProgressView::Ready { next, .. } => replay::command_run(
            commands::package_command_view(root, args),
            log,
            next,
        ),
        other => other,
    }
}

/// Builds the client and packages it into a directory, with `args` for the packager.
pub fn package_desktop(workspace: &Workspace, args: &[String], log: &[Reply], at: usize) -> (res:
    Progress<()>)
    ensures
        res.deep_view() == package_run(
            workspace.deep_view().root,
            args.deep_view(),
            log.deep_view(),
            at as int,
        ),
{
    match build_desktop(workspace, false, log, at) {
        Progress::Ready { next, .. } => replay::run_command(
            commands::package_command(workspace.root.as_str(), args),
            log,
            next,
        ),
        other => other,
    }
}

/// Starting the client on what is found, and with the labels that are set, at that moment.
pub open spec fn client_start_run(
    root: Seq<char>,
    app_url: Seq<char>,
    extra_args: Seq<Seq<char>>,
    log: Seq<ReplyView>,
    at: int,
) -> ProgressView<()> {
    if at >= log.len() {
        ProgressView::Pending(
            EffectView::SurveyLaunch { dev_binary: paths::dev_electron_binary_view(root) },
        )
    } else {
        match log[at] {
            ReplyView::Launch(site) => if at + 1 >= log.len() {
                ProgressView::Pending(EffectView::ReadBuildLabels)
            } else {
                match log[at + 1] {
                    ReplyView::Labels(labels) => replay::command_run(
                        commands::client_command_view(root, app_url, extra_args, site, labels),
                        log,
                        at + 2,
                    ),
                    _ => replay::unexpected(at + 1),
                }
            },
            _ => replay::unexpected(at),
        }
    }
}

fn client_start(
    root: &str,
    app_url: &str,
    extra_args: &[String],
    log: &[Reply],
    at: usize,
) -> (res: Progress<()>)
    ensures
        res.deep_view() == client_start_run(
            root@,
            app_url@,
            extra_args.deep_view(),
            log.deep_view(),
            at as int,
        ),
{
    if at >= log.len() {
        return Progress::Pending(
            Effect::SurveyLaunch { dev_binary: paths::dev_electron_binary_path(root) },
        );
    }
    let next: usize = at + 1;
    match &log[at] {
        Reply::Launch(site) => {
            if next >= log.len() {
                return Progress::Pending(Effect::ReadBuildLabels);
            }
            match &log[next] {
                Reply::Labels(labels) => replay::run_command(
                    commands::client_command(root, app_url, extra_args, site, labels),
                    log,
                    next + 1,
                ),
                _ => Progress::Failed(DesktopError::UnexpectedReply { at: next }),
            }
        },
        _ => Progress::Failed(DesktopError::UnexpectedReply { at }),
    }
}

/// Running the client: the development bundle is patched first.
pub open spec fn process_run(
    workspace: WorkspaceView,
    app_url: Seq<char>,
    extra_args: Seq<Seq<char>>,
    log: Seq<ReplyView>,
    at: int,
) -> ProgressView<()> {
    match plist::patch_run(workspace, log, at) {
        ProgressView::Ready { next, .. } => client_start_run(
            workspace.root,
            app_url,
            extra_args,
            log,
            next,
        ),
        other => other,
    }
}

/// Patches the development bundle and runs the client against `app_url`.
pub fn run_desktop_process(
    workspace: &Workspace,
    app_url: &str,
    extra_args: &[String],
    log: &[Reply],
    at: usize,
) -> (res: Progress<()>)
    ensures
        res.deep_view() == process_run(
            workspace.deep_view(),
            app_url@,
            extra_args.deep_view(),
            log.deep_view(),
            at as int,
        ),
{
    match plist::patch_macos_dev_electron_info_plist(workspace, log, at) {
        Progress::Ready { next, .. } => client_start(
            workspace.root.as_str(),
            app_url,
            extra_args,
            log,
            next,
        ),
        other => other,
    }
}

/// Installing, and building with everything if `build`.
pub open spec fn prepare_run(
    workspace: WorkspaceView,
    build: bool,
    log: Seq<ReplyView>,
    at: int,
) -> ProgressView<()> {
    match install_run(workspace, log, at) {
        ProgressView::Ready { next, .. } => if build {
            build_run(workspace.root, false, log, next)
        } else {
            ProgressView::Ready { value: (), next }
        },
        other => other,
    }
}

fn prepare(workspace: &Workspace, build: bool, log: &[Reply], at: usize) -> (res: Progress<()>)
    ensures
        res.deep_view() == prepare_run(workspace.deep_view(), build, log.deep_view(), at as int),
{
    match install_desktop(workspace, log, at) {
        Progress::Ready { next, .. } => if build {
            build_desktop(workspace, false, log, next)
        } else {
            Progress::Ready { value: (), next }
        },
        other => other,
    }
}

/// Installing, building if `build`, and running.
pub open spec fn run_run(
    workspace: WorkspaceView,
    app_url: Seq<char>,
    extra_args: Seq<Seq<char>>,
    build: bool,
    log: Seq<ReplyView>,
    at: int,
) -> ProgressView<()> {
    match prepare_run(workspace, build, log, at) {
        ProgressView::Ready { next, .. } => process_run(workspace, app_url, extra_args, log, next),
        other => other,
    }
}

/// Installs, builds if `build`, and runs the client against `app_url`.
pub fn run_desktop(
    workspace: &Workspace,
    app_url: &str,
    extra_args: &[String],
    build: bool,
    log: &[Reply],
    at: usize,
) -> (res: Progress<()>)
    ensures
        res.deep_view() == run_run(
            workspace.deep_view(),
            app_url@,
            extra_args.deep_view(),
            build,
            log.deep_view(),
            at as int,
        ),
{
    match prepare(workspace, build, log, at) {
        Progress::Ready { next, .. } => run_desktop_process(
            workspace,
            app_url,
            extra_args,
            log,
            next,
        ),
        other => other,
    }
}

/// Refusing to go on anywhere but on a macOS host.
pub open spec fn host_macos_run(log: Seq<ReplyView>, at: int) -> ProgressView<()> {
    if at >= log.len() {
        ProgressView::Pending(EffectView::InspectHost)
    } else {
        match log[at] {
            ReplyView::Host(facts) => if facts.is_macos_host() {
                ProgressView::Ready { value: (), next: at + 1 }
            } else {
                ProgressView::Failed(DesktopErrorView::HostNotMacos)
            },
            _ => replay::unexpected(at),
        }
    }
}

/// Refuses to go on anywhere but on a macOS host.
pub fn ensure_host_macos(log: &[Reply], at: usize) -> (res: Progress<()>)
    ensures
        res.deep_view() == host_macos_run(log.deep_view(), at as int),
{
    if at >= log.len() {
        return Progress::Pending(Effect::InspectHost);
    }
    match &log[at] {
        Reply::Host(facts) => if facts.macos_host() {
            Progress::Ready { value: (), next: at + 1 }
        } else {
            Progress::Failed(DesktopError::HostNotMacos)
        },
        _ => Progress::Failed(DesktopError::UnexpectedReply { at }),
    }
}

/// The line that announces which app the canary client is started against.
pub open spec fn starting_line_view(app_url: Seq<char>) -> Seq<char> {
    "Starting "@ + DEV_CANARY_APP_NAME@ + " against "@ + app_url
}

/// Announcing and running the canary client.
pub open spec fn canary_start_run(
    workspace: WorkspaceView,
    app_url: Seq<char>,
    extra_args: Seq<Seq<char>>,
    log: Seq<ReplyView>,
    at: int,
) -> ProgressView<()> {
    match replay::print_run(starting_line_view(app_url), log, at) {
        ProgressView::Ready { next, .. } => process_run(workspace, app_url, extra_args, log, next),
        other => other,
    }
}

fn canary_start(
    workspace: &Workspace,
    app_url: &str,
    extra_args: &[String],
    log: &[Reply],
    at: usize,
) -> (res: Progress<()>)
    ensures
        res.deep_view() == canary_start_run(
            workspace.deep_view(),
            app_url@,
            extra_args.deep_view(),
            log.deep_view(),
            at as int,
        ),
{
    let mut line = "Starting ".to_owned();
    line.append(DEV_CANARY_APP_NAME);
    line.append(" against ");
    line.append(app_url);
    match replay::print_line(line, log, at) {
        Progress::Ready { next, .. } => run_desktop_process(
            workspace,
            app_url,
            extra_args,
            log,
            next,
        ),
        other => other,
    }
}

/// Installing, building if `build`, and announcing and running the canary client.
pub open spec fn prepare_and_start_run(
    workspace: WorkspaceView,
    app_url: Seq<char>,
    extra_args: Seq<Seq<char>>,
    build: bool,
    log: Seq<ReplyView>,
    at: int,
) -> ProgressView<()> {
    match prepare_run(workspace, build, log, at) {
        ProgressView::Ready { next, .. } => canary_start_run(
            workspace,
            app_url,
            extra_args,
            log,
            next,
        ),
        other => other,
    }
}

/// The canary workflow once the app URL is settled: stop, install, build if `build`, run.
pub open spec fn canary_against_run(
    workspace: WorkspaceView,
    app_url: Seq<char>,
    extra_args: Seq<Seq<char>>,
    build: bool,
    log: Seq<ReplyView>,
    at: int,
) -> ProgressView<()> {
    match canary::stop_run(log, at) {
        ProgressView::Ready { next, .. } => prepare_and_start_run(
            workspace,
            app_url,
            extra_args,
            build,
            log,
            next,
        ),
        other => other,
    }
}

/// Restarts the canary client against `app_url`, a URL in normal form.
pub fn run_desktop_canary_against(
    workspace: &Workspace,
    app_url: &str,
    extra_args: &[String],
    build: bool,
    log: &[Reply],
    at: usize,
) -> (res: Progress<()>)
    ensures
        res.deep_view() == canary_against_run(
            workspace.deep_view(),
            app_url@,
            extra_args.deep_view(),
            build,
            log.deep_view(),
            at as int,
        ),
{
    match canary::stop_running_canary_on_host(log, at) {
        Progress::Ready { next, .. } => match prepare(workspace, build, log, next) {
            Progress::Ready { next, .. } => canary_start(
                workspace,
                app_url,
                extra_args,
                log,
                next,
            ),
            other => other,
        },
        other => other,
    }
}

/// The canary workflow: on a macOS host only, against the app URL that is settled on.
pub open spec fn canary_run(
    workspace: WorkspaceView,
    given_url: Option<Seq<char>>,
    extra_args: Seq<Seq<char>>,
    build: bool,
    log: Seq<ReplyView>,
    at: int,
) -> ProgressView<()> {
    match host_macos_run(log, at) {
        ProgressView::Ready { next, .. } => match app_url::resolve_run(given_url, log, next) {
            ProgressView::Ready { value: url, next } => canary_against_run(
                workspace,
                url,
                extra_args,
                build,
                log,
                next,
            ),
            ProgressView::Pending(effect) => ProgressView::Pending(effect),
            ProgressView::Failed(error) => ProgressView::Failed(error),
        },
        other => other,
    }
}

/// Settles on an app URL and restarts the canary client against it.
///
/// It refuses to work anywhere but on a macOS host.
pub fn run_desktop_canary(
    workspace: &Workspace,
    app_url: Option<&str>,
    extra_args: &[String],
    build: bool,
    log: &[Reply],
    at: usize,
) -> (res: Progress<()>)
    ensures
        res.deep_view() == canary_run(
            workspace.deep_view(),
            app_url.deep_view(),
            extra_args.deep_view(),
            build,
            log.deep_view(),
            at as int,
        ),
{
    match ensure_host_macos(log, at) {
        Progress::Ready { next, .. } => match app_url::resolve_desktop_canary_app_url(
            app_url,
            log,
            next,
        ) {
            Progress::Ready { value: url, next } => run_desktop_canary_against(
                workspace,
                url.as_str(),
                extra_args,
                build,
                log,
                next,
            ),
            Progress::Pending(effect) => Progress::Pending(effect),
            Progress::Failed(error) => Progress::Failed(error),
        },
        other => other,
    }
}

/// Once the installation is over, more replies do not change how it ended.
pub proof fn law_install_settles(
    workspace: WorkspaceView,
    log: Seq<ReplyView>,
    longer: Seq<ReplyView>,
    at: int,
)
    requires
        replay::extends(log, longer),
        0 <= at <= log.len(),
    ensures
        replay::settles(
            install_run(workspace, log, at),
            install_run(workspace, longer, at),
            at,
            log.len(),
        ),
{
    if at < log.len() {
        plist::law_patch_settles(workspace, log, longer, at + 1);
    }
    if at < longer.len() {
        plist::law_patch_settles(workspace, longer, longer, at + 1);
    }
}

/// Once the build is over, more replies do not change how it ended.
pub proof fn law_build_settles(
    root: Seq<char>,
    skip_native: bool,
    log: Seq<ReplyView>,
    longer: Seq<ReplyView>,
    at: int,
)
    requires
        replay::extends(log, longer),
        0 <= at <= log.len(),
    ensures
        replay::settles(
            build_run(root, skip_native, log, at),
            build_run(root, skip_native, longer, at),
            at,
            log.len(),
        ),
{
}

/// Once the smoke test's client is over, more replies do not change how it ended.
pub proof fn law_smoke_start_settles(
    root: Seq<char>,
    log: Seq<ReplyView>,
    longer: Seq<ReplyView>,
    at: int,
)
    requires
        replay::extends(log, longer),
        0 <= at <= log.len(),
    ensures
        replay::settles(
            smoke_start_run(root, log, at),
            smoke_start_run(root, longer, at),
            at,
            log.len(),
        ),
{
}

/// Once the smoke test's build and client are over, more replies do not change how they ended.
pub proof fn law_build_and_smoke_settle(
    root: Seq<char>,
    log: Seq<ReplyView>,
    longer: Seq<ReplyView>,
    at: int,
)
    requires
        replay::extends(log, longer),
        0 <= at <= log.len(),
    ensures
        replay::settles(
            build_and_smoke_run(root, log, at),
            build_and_smoke_run(root, longer, at),
            at,
            log.len(),
        ),
{
    law_build_settles(root, true, log, longer, at);
    law_build_settles(root, true, longer, longer, at);
    if let ProgressView::Ready { next, .. } = build_run(root, true, log, at) {
        law_smoke_start_settles(root, log, longer, next);
    }
    if let ProgressView::Ready { next, .. } = build_run(root, true, longer, at) {
        law_smoke_start_settles(root, longer, longer, next);
    }
}

/// Once the smoke test is over, more replies do not change how it ended.
pub proof fn law_smoke_build_settles(
    workspace: WorkspaceView,
    log: Seq<ReplyView>,
    longer: Seq<ReplyView>,
    at: int,
)
    requires
        replay::extends(log, longer),
        0 <= at <= log.len(),
    ensures
        replay::settles(
            smoke_run(workspace, log, at),
            smoke_run(workspace, longer, at),
            at,
            log.len(),
        ),
{
    law_install_settles(workspace, log, longer, at);
    law_install_settles(workspace, longer, longer, at);
    if let ProgressView::Ready { next, .. } = install_run(workspace, log, at) {
        law_build_and_smoke_settle(workspace.root, log, longer, next);
    }
    if let ProgressView::Ready { next, .. } = install_run(workspace, longer, at) {
        law_build_and_smoke_settle(workspace.root, longer, longer, next);
    }
}

/// Once packaging is over, more replies do not change how it ended.
pub proof fn law_package_settles(
    root: Seq<char>,
    args: Seq<Seq<char>>,
    log: Seq<ReplyView>,
    longer: Seq<ReplyView>,
    at: int,
)
    requires
        replay::extends(log, longer),
        0 <= at <= log.len(),
    ensures
        replay::settles(
            package_run(root, args, log, at),
            package_run(root, args, longer, at),
            at,
            log.len(),
        ),
{
    law_build_settles(root, false, log, longer, at);
    law_build_settles(root, false, longer, longer, at);
}

/// Once the client is over, more replies do not change how it ended.
pub proof fn law_client_start_settles(
    root: Seq<char>,
    app_url: Seq<char>,
    extra_args: Seq<Seq<char>>,
    log: Seq<ReplyView>,
    longer: Seq<ReplyView>,
    at: int,
)
    requires
        replay::extends(log, longer),
        0 <= at <= log.len(),
    ensures
        replay::settles(
            client_start_run(root, app_url, extra_args, log, at),
            client_start_run(root, app_url, extra_args, longer, at),
            at,
            log.len(),
        ),
{
}

/// Once the client on its patched bundle is over, more replies do not change how it ended.
pub proof fn law_process_settles(
    workspace: WorkspaceView,
    app_url: Seq<char>,
    extra_args: Seq<Seq<char>>,
    log: Seq<ReplyView>,
    longer: Seq<ReplyView>,
    at: int,
)
    requires
        replay::extends(log, longer),
        0 <= at <= log.len(),
    ensures
        replay::settles(
            process_run(workspace, app_url, extra_args, log, at),
            process_run(workspace, app_url, extra_args, longer, at),
            at,
            log.len(),
        ),
{
    plist::law_patch_settles(workspace, log, longer, at);
    plist::law_patch_settles(workspace, longer, longer, at);
    if let ProgressView::Ready { next, .. } = plist::patch_run(workspace, log, at) {
        law_client_start_settles(workspace.root, app_url, extra_args, log, longer, next);
    }
    if let ProgressView::Ready { next, .. } = plist::patch_run(workspace, longer, at) {
        law_client_start_settles(workspace.root, app_url, extra_args, longer, longer, next);
    }
}

/// Once the preparation is over, more replies do not change how it ended.
pub proof fn law_prepare_settles(
    workspace: WorkspaceView,
    build: bool,
    log: Seq<ReplyView>,
    longer: Seq<ReplyView>,
    at: int,
)
    requires
        replay::extends(log, longer),
        0 <= at <= log.len(),
    ensures
        replay::settles(
            prepare_run(workspace, build, log, at),
            prepare_run(workspace, build, longer, at),
            at,
            log.len(),
        ),
{
    law_install_settles(workspace, log, longer, at);
    law_install_settles(workspace, longer, longer, at);
    if let ProgressView::Ready { next, .. } = install_run(workspace, log, at) {
        law_build_settles(workspace.root, false, log, longer, next);
    }
    if let ProgressView::Ready { next, .. } = install_run(workspace, longer, at) {
        law_build_settles(workspace.root, false, longer, longer, next);
    }
}

/// Once a run is over, more replies do not change how it ended.
pub proof fn law_run_settles(
    workspace: WorkspaceView,
    app_url: Seq<char>,
    extra_args: Seq<Seq<char>>,
    build: bool,
    log: Seq<ReplyView>,
    longer: Seq<ReplyView>,
    at: int,
)
    requires
        replay::extends(log, longer),
        0 <= at <= log.len(),
    ensures
        replay::settles(
            run_run(workspace, app_url, extra_args, build, log, at),
            run_run(workspace, app_url, extra_args, build, longer, at),
            at,
            log.len(),
        ),
{
    law_prepare_settles(workspace, build, log, longer, at);
    law_prepare_settles(workspace, build, longer, longer, at);
    if let ProgressView::Ready { next, .. } = prepare_run(workspace, build, log, at) {
        law_process_settles(workspace, app_url, extra_args, log, longer, next);
    }
    if let ProgressView::Ready { next, .. } = prepare_run(workspace, build, longer, at) {
        law_process_settles(workspace, app_url, extra_args, longer, longer, next);
    }
}

/// Once the announced client is over, more replies do not change how it ended.
pub proof fn law_canary_start_settles(
    workspace: WorkspaceView,
    app_url: Seq<char>,
    extra_args: Seq<Seq<char>>,
    log: Seq<ReplyView>,
    longer: Seq<ReplyView>,
    at: int,
)
    requires
        replay::extends(log, longer),
        0 <= at <= log.len(),
    ensures
        replay::settles(
            canary_start_run(workspace, app_url, extra_args, log, at),
            canary_start_run(workspace, app_url, extra_args, longer, at),
            at,
            log.len(),
        ),
{
    if at < log.len() {
        law_process_settles(workspace, app_url, extra_args, log, longer, at + 1);
    }
    if at < longer.len() {
        law_process_settles(workspace, app_url, extra_args, longer, longer, at + 1);
    }
}

/// Once the prepared and announced client is over, more replies do not change how it ended.
pub proof fn law_prepare_and_start_settle(
    workspace: WorkspaceView,
    app_url: Seq<char>,
    extra_args: Seq<Seq<char>>,
    build: bool,
    log: Seq<ReplyView>,
    longer: Seq<ReplyView>,
    at: int,
)
    requires
        replay::extends(log, longer),
        0 <= at <= log.len(),
    ensures
        replay::settles(
            prepare_and_start_run(workspace, app_url, extra_args, build, log, at),
            prepare_and_start_run(workspace, app_url, extra_args, build, longer, at),
            at,
            log.len(),
        ),
{
    law_prepare_settles(workspace, build, log, longer, at);
    law_prepare_settles(workspace, build, longer, longer, at);
    if let ProgressView::Ready { next, .. } = prepare_run(workspace, build, log, at) {
        law_canary_start_settles(workspace, app_url, extra_args, log, longer, next);
    }
    if let ProgressView::Ready { next, .. } = prepare_run(workspace, build, longer, at) {
        law_canary_start_settles(workspace, app_url, extra_args, longer, longer, next);
    }
}

/// Once the restarted client is over, more replies do not change how it ended.
pub proof fn law_canary_against_settles(
    workspace: WorkspaceView,
    app_url: Seq<char>,
    extra_args: Seq<Seq<char>>,
    build: bool,
    log: Seq<ReplyView>,
    longer: Seq<ReplyView>,
    at: int,
)
    requires
        replay::extends(log, longer),
        0 <= at <= log.len(),
    ensures
        replay::settles(
            canary_against_run(workspace, app_url, extra_args, build, log, at),
            canary_against_run(workspace, app_url, extra_args, build, longer, at),
            at,
            log.len(),
        ),
{
    canary::law_stop_settles(log, longer, at);
    canary::law_stop_settles(longer, longer, at);
    if let ProgressView::Ready { next, .. } = canary::stop_run(log, at) {
        law_prepare_and_start_settle(workspace, app_url, extra_args, build, log, longer, next);
    }
    if let ProgressView::Ready { next, .. } = canary::stop_run(longer, at) {
        law_prepare_and_start_settle(workspace, app_url, extra_args, build, longer, longer, next);
    }
}

/// Once the canary workflow is over, more replies do not change how it ended.
pub proof fn law_canary_settles(
    workspace: WorkspaceView,
    given_url: Option<Seq<char>>,
    extra_args: Seq<Seq<char>>,
    build: bool,
    log: Seq<ReplyView>,
    longer: Seq<ReplyView>,
    at: int,
)
    requires
        replay::extends(log, longer),
        0 <= at <= log.len(),
    ensures
        replay::settles(
            canary_run(workspace, given_url, extra_args, build, log, at),
            canary_run(workspace, given_url, extra_args, build, longer, at),
            at,
            log.len(),
        ),
{
    if at < log.len() {
        app_url::law_resolution_settles(given_url, log, longer, at + 1);
        if let ProgressView::Ready { value: url, next } = app_url::resolve_run(
            given_url,
            log,
            at + 1,
        ) {
            law_canary_against_settles(workspace, url, extra_args, build, log, longer, next);
        }
    }
    if at < longer.len() {
        app_url::law_resolution_settles(given_url, longer, longer, at + 1);
        if let ProgressView::Ready { value: url, next } = app_url::resolve_run(
            given_url,
            longer,
            at + 1,
        ) {
            law_canary_against_settles(workspace, url, extra_args, build, longer, longer, next);
        }
    }
}

/// An installation whose command fails ends every workflow that begins with it, with the reason
/// that the command gave.
pub proof fn law_failed_install_ends_every_run(
    workspace: WorkspaceView,
    app_url: Seq<char>,
    extra_args: Seq<Seq<char>>,
    build: bool,
    cause: Seq<char>,
    log: Seq<ReplyView>,
    at: int,
)
    requires
        0 <= at < log.len(),
        log[at] == ReplyView::Failed(cause),
    ensures
        install_run(workspace, log, at) == ProgressView::<()>::Failed(
            DesktopErrorView::Command { cause },
        ),
        smoke_run(workspace, log, at) == ProgressView::<()>::Failed(
            DesktopErrorView::Command { cause },
        ),
        run_run(workspace, app_url, extra_args, build, log, at) == ProgressView::<()>::Failed(
            DesktopErrorView::Command { cause },
        ),
{
}

/// As long as a workflow that comes first is not through, the whole one asks what that one asks,
/// and fails as that one fails.
pub open spec fn comes_first<T>(first: ProgressView<T>, whole: ProgressView<()>) -> bool {
    match first {
        ProgressView::Pending(effect) => whole == ProgressView::<()>::Pending(effect),
        ProgressView::Failed(error) => whole == ProgressView::<()>::Failed(error),
        ProgressView::Ready { .. } => true,
    }
}

/// Nothing is built or started before the installation is through.
pub proof fn law_installation_comes_first(
    workspace: WorkspaceView,
    app_url: Seq<char>,
    extra_args: Seq<Seq<char>>,
    build: bool,
    log: Seq<ReplyView>,
    at: int,
)
    ensures
        comes_first(install_run(workspace, log, at), smoke_run(workspace, log, at)),
        comes_first(
            install_run(workspace, log, at),
            run_run(workspace, app_url, extra_args, build, log, at),
        ),
{
}

/// Nothing is packaged before the build, native modules included, is through.
pub proof fn law_build_comes_before_packaging(
    root: Seq<char>,
    args: Seq<Seq<char>>,
    log: Seq<ReplyView>,
    at: int,
)
    ensures
        comes_first(build_run(root, false, log, at), package_run(root, args, log, at)),
{
}

/// A run builds when it is told to, native modules included, and goes straight on when not.
pub proof fn law_run_builds_when_told(
    workspace: WorkspaceView,
    app_url: Seq<char>,
    extra_args: Seq<Seq<char>>,
    log: Seq<ReplyView>,
    at: int,
    next: int,
)
    requires
        install_run(workspace, log, at) == (ProgressView::Ready { value: (), next }),
    ensures
        comes_first(
            build_run(workspace.root, false, log, next),
            run_run(workspace, app_url, extra_args, true, log, at),
        ),
        run_run(workspace, app_url, extra_args, false, log, at) == process_run(
            workspace,
            app_url,
            extra_args,
            log,
            next,
        ),
{
}

/// Anywhere but on a macOS host the canary workflow is refused: no URL is looked for, nothing is
/// stopped, installed or started.
pub proof fn law_canary_is_refused_elsewhere(
    workspace: WorkspaceView,
    given_url: Option<Seq<char>>,
    extra_args: Seq<Seq<char>>,
    build: bool,
    facts: HostFacts,
    log: Seq<ReplyView>,
    at: int,
)
    requires
        0 <= at < log.len(),
        log[at] == ReplyView::Host(facts),
        !facts.is_macos_host(),
    ensures
        canary_run(workspace, given_url, extra_args, build, log, at)
            == ProgressView::<()>::Failed(DesktopErrorView::HostNotMacos),
{
}

/// The canary workflow stops nothing before the app URL is settled on, and installs and starts
/// nothing before running clients are stopped.
pub proof fn law_canary_order(
    workspace: WorkspaceView,
    given_url: Option<Seq<char>>,
    extra_args: Seq<Seq<char>>,
    build: bool,
    facts: HostFacts,
    log: Seq<ReplyView>,
    at: int,
)
    requires
        0 <= at < log.len(),
        log[at] == ReplyView::Host(facts),
        facts.is_macos_host(),
    ensures
        comes_first(
            app_url::resolve_run(given_url, log, at + 1),
            canary_run(workspace, given_url, extra_args, build, log, at),
        ),
        app_url::resolve_run(given_url, log, at + 1) matches ProgressView::Ready { next, .. }
            ==> comes_first(
            canary::stop_run(log, next),
            canary_run(workspace, given_url, extra_args, build, log, at),
        ),
{
}

/// A given URL that is refused ends the canary workflow before anything is stopped.
pub proof fn law_refused_url_stops_nothing(
    workspace: WorkspaceView,
    raw: Seq<char>,
    error: DesktopErrorView,
    extra_args: Seq<Seq<char>>,
    build: bool,
    facts: HostFacts,
    log: Seq<ReplyView>,
    at: int,
)
    requires
        0 <= at < log.len(),
        log[at] == ReplyView::Host(facts),
        facts.is_macos_host(),
        app_url::normalized_view(raw) == Err::<Seq<char>, DesktopErrorView>(error),
    ensures
        canary_run(workspace, Some(raw), extra_args, build, log, at)
            == ProgressView::<()>::Failed(error),
{
}

/// The smoke test builds without native modules, after the installation.
pub proof fn law_smoke_test_skips_native_modules(
    workspace: WorkspaceView,
    log: Seq<ReplyView>,
    at: int,
    next: int,
)
    requires
        install_run(workspace, log, at) == (ProgressView::Ready { value: (), next }),
    ensures
        comes_first(
            build_run(workspace.root, true, log, next),
            smoke_run(workspace, log, at),
        ),
{
}

/// Whether the last three replies before `next` are the site, the labels and the success of the
/// client, when the question before that success was `before`.
pub open spec fn ran_client(
    root: Seq<char>,
    app_url: Seq<char>,
    extra_args: Seq<Seq<char>>,
    before: ProgressView<()>,
    log: Seq<ReplyView>,
    next: int,
) -> bool {
    &&& 3 <= next <= log.len()
    &&& log[next - 1] is Done
    &&& log[next - 3] matches ReplyView::Launch(site) && log[next - 2] matches ReplyView::Labels(
        labels,
    ) && before == ProgressView::<()>::Pending(
        EffectView::RunCommand(
            commands::client_command_view(root, app_url, extra_args, site, labels),
        ),
    )
}

/// When the client on its patched bundle is through, the last thing that was done, and to success,
/// was to run the client command for the site and the labels that were found just before.
pub proof fn law_process_ends_with_the_client(
    workspace: WorkspaceView,
    app_url: Seq<char>,
    extra_args: Seq<Seq<char>>,
    log: Seq<ReplyView>,
    at: int,
    next: int,
)
    requires
        0 <= at <= log.len(),
        process_run(workspace, app_url, extra_args, log, at) == (ProgressView::Ready {
            value: (),
            next,
        }),
    ensures
        at + 3 <= next,
        ran_client(
            workspace.root,
            app_url,
            extra_args,
            process_run(workspace, app_url, extra_args, log.take(next - 1), at),
            log,
            next,
        ),
{
    plist::law_patch_settles(workspace, log, log, at);
    plist::law_patch_settles(workspace, log.take(next - 1), log, at);
}

/// When a run is through, the last thing that was done, and to success, was to run the client
/// against the given URL and with the given arguments.
pub proof fn law_run_ends_with_the_client(
    workspace: WorkspaceView,
    app_url: Seq<char>,
    extra_args: Seq<Seq<char>>,
    build: bool,
    log: Seq<ReplyView>,
    at: int,
    next: int,
)
    requires
        0 <= at <= log.len(),
        run_run(workspace, app_url, extra_args, build, log, at) == (ProgressView::Ready {
            value: (),
            next,
        }),
    ensures
        at + 3 <= next,
        ran_client(
            workspace.root,
            app_url,
            extra_args,
            run_run(workspace, app_url, extra_args, build, log.take(next - 1), at),
            log,
            next,
        ),
{
    law_prepare_settles(workspace, build, log, log, at);
    if let ProgressView::Ready { next: prepared, .. } = prepare_run(workspace, build, log, at) {
        law_process_ends_with_the_client(workspace, app_url, extra_args, log, prepared, next);
        law_prepare_settles(workspace, build, log.take(next - 1), log, at);
    }
}

/// When the restarted client is through, the last thing that was done, and to success, was to run
/// it against the given URL and with the given arguments.
pub proof fn law_restart_ends_with_the_client(
    workspace: WorkspaceView,
    app_url: Seq<char>,
    extra_args: Seq<Seq<char>>,
    build: bool,
    log: Seq<ReplyView>,
    at: int,
    next: int,
)
    requires
        0 <= at <= log.len(),
        canary_against_run(workspace, app_url, extra_args, build, log, at)
            == (ProgressView::Ready { value: (), next }),
    ensures
        at + 4 <= next,
        ran_client(
            workspace.root,
            app_url,
            extra_args,
            canary_against_run(workspace, app_url, extra_args, build, log.take(next - 1), at),
            log,
            next,
        ),
{
    canary::law_stop_settles(log, log, at);
    if let ProgressView::Ready { next: stopped, .. } = canary::stop_run(log, at) {
        law_prepare_settles(workspace, build, log, log, stopped);
        if let ProgressView::Ready { next: prepared, .. } = prepare_run(
            workspace,
            build,
            log,
            stopped,
        ) {
            law_process_ends_with_the_client(
                workspace,
                app_url,
                extra_args,
                log,
                prepared + 1,
                next,
            );
            canary::law_stop_settles(log.take(next - 1), log, at);
            law_prepare_settles(workspace, build, log.take(next - 1), log, stopped);
        }
    }
}

/// When the canary workflow is through, the last thing that was done, and to success, was to run
/// the client against the URL that was settled on.
pub proof fn law_canary_ends_with_the_client(
    workspace: WorkspaceView,
    given_url: Option<Seq<char>>,
    extra_args: Seq<Seq<char>>,
    build: bool,
    log: Seq<ReplyView>,
    at: int,
    next: int,
)
    requires
        0 <= at <= log.len(),
        canary_run(workspace, given_url, extra_args, build, log, at) == (ProgressView::Ready {
            value: (),
            next,
        }),
    ensures
        app_url::resolve_run(given_url, log, at + 1) matches ProgressView::Ready { value: url, .. }
            && ran_client(
            workspace.root,
            url,
            extra_args,
            canary_run(workspace, given_url, extra_args, build, log.take(next - 1), at),
            log,
            next,
        ),
{
    app_url::law_resolution_settles(given_url, log, log, at + 1);
    if let ProgressView::Ready { value: url, next: settled } = app_url::resolve_run(
        given_url,
        log,
        at + 1,
    ) {
        law_restart_ends_with_the_client(workspace, url, extra_args, build, log, settled, next);
        app_url::law_resolution_settles(given_url, log.take(next - 1), log, at + 1);
    }
}

/// Once the packages are installed, the bundle is patched, on every installation.
pub proof fn law_installation_patches_the_bundle(
    workspace: WorkspaceView,
    log: Seq<ReplyView>,
    at: int,
)
    ensures
        ({
            let packages = replay::command_run(commands::install_command_view(workspace), log, at);
            &&& replay::leads(packages, install_run(workspace, log, at))
            &&& packages is Ready ==> install_run(workspace, log, at) == plist::patch_run(
                workspace,
                log,
                at + 1,
            )
        }),
{
}

/// A build reads its labels and then runs one command with exactly those, leaving out the native
/// modules exactly where that is wished.
pub proof fn law_build_uses_its_labels(
    root: Seq<char>,
    skip_native: bool,
    log: Seq<ReplyView>,
    at: int,
)
    requires
        0 <= at,
    ensures
        at >= log.len() ==> build_run(root, skip_native, log, at) == ProgressView::<()>::Pending(
            EffectView::ReadBuildLabels,
        ),
        at < log.len() ==> (log[at] matches ReplyView::Labels(labels) ==> build_run(
            root,
            skip_native,
            log,
            at,
        ) == replay::command_run(
            commands::build_command_view(root, skip_native, labels),
            log,
            at + 1,
        )),
        at < log.len() && !(log[at] is Labels) ==> build_run(root, skip_native, log, at)
            == ProgressView::<()>::Failed(DesktopErrorView::UnexpectedReply { at: at as usize }),
{
}

/// The command of a build tells the build to leave out the native modules exactly where that is
/// wished, whatever the labels are.
pub proof fn law_build_leaves_out_native_modules_when_told(
    root: Seq<char>,
    skip_native: bool,
    command: CommandView,
    log: Seq<ReplyView>,
    at: int,
)
    requires
        0 <= at,
        build_run(root, skip_native, log, at) == ProgressView::<()>::Pending(
            EffectView::RunCommand(command),
        ),
    ensures
        command.argv == seq!["pnpm"@, "build"@],
        skip_native ==> command.env.contains(("FLUXER_SKIP_NATIVE"@, Some("true"@))),
        !skip_native ==> command.env.contains(("FLUXER_SKIP_NATIVE"@, None::<Seq<char>>)),
{
    if let ReplyView::Labels(labels) = log[at] {
        commands::law_build_command(root, skip_native, labels);
        assert(command.env.contains(command.env[1]));
    }
}

/// The smoke test installs, builds without native modules, looks where it is, and starts the client
/// for that place.
pub proof fn law_smoke_test_order(workspace: WorkspaceView, log: Seq<ReplyView>, at: int)
    ensures
        replay::leads(install_run(workspace, log, at), smoke_run(workspace, log, at)),
        install_run(workspace, log, at) matches ProgressView::Ready { next, .. } ==> {
            let built = build_run(workspace.root, true, log, next);
            &&& smoke_run(workspace, log, at) == build_and_smoke_run(workspace.root, log, next)
            &&& replay::leads(built, smoke_run(workspace, log, at))
            &&& built matches ProgressView::Ready { next, .. } ==> smoke_run(workspace, log, at)
                == smoke_start_run(workspace.root, log, next)
        },
{
}

/// The client of the smoke test is started for the place that was found.
pub proof fn law_smoke_test_starts_for_its_place(root: Seq<char>, log: Seq<ReplyView>, at: int)
    requires
        0 <= at,
    ensures
        at >= log.len() ==> smoke_start_run(root, log, at) == ProgressView::<()>::Pending(
            EffectView::SurveyLaunch { dev_binary: paths::dev_electron_binary_view(root) },
        ),
        at < log.len() ==> (log[at] matches ReplyView::Launch(site) ==> smoke_start_run(
            root,
            log,
            at,
        ) == replay::command_run(commands::smoke_command_view(root, site), log, at + 1)),
        at < log.len() && !(log[at] is Launch) ==> smoke_start_run(root, log, at)
            == ProgressView::<()>::Failed(DesktopErrorView::UnexpectedReply { at: at as usize }),
{
}

/// Packaging follows a full build and gets the given arguments.
pub proof fn law_packaging_follows_the_build(
    root: Seq<char>,
    args: Seq<Seq<char>>,
    log: Seq<ReplyView>,
    at: int,
)
    ensures
        replay::leads(build_run(root, false, log, at), package_run(root, args, log, at)),
        build_run(root, false, log, at) matches ProgressView::Ready { next, .. } ==> package_run(
            root,
            args,
            log,
            at,
        ) == replay::command_run(commands::package_command_view(root, args), log, next),
{
}

/// The client is started for the place and with the labels that were found, against the given URL
/// and with the given arguments.
pub proof fn law_client_starts_as_told(
    root: Seq<char>,
    app_url: Seq<char>,
    extra_args: Seq<Seq<char>>,
    log: Seq<ReplyView>,
    at: int,
)
    requires
        0 <= at,
    ensures
        ({
            let whole = client_start_run(root, app_url, extra_args, log, at);
            &&& at >= log.len() ==> whole == ProgressView::<()>::Pending(
                EffectView::SurveyLaunch { dev_binary: paths::dev_electron_binary_view(root) },
            )
            &&& at < log.len() && !(log[at] is Launch) ==> whole == ProgressView::<()>::Failed(
                DesktopErrorView::UnexpectedReply { at: at as usize },
            )
            &&& at + 1 == log.len() && log[at] is Launch ==> whole == ProgressView::<()>::Pending(
                EffectView::ReadBuildLabels,
            )
            &&& at + 1 < log.len() && log[at] is Launch && !(log[at + 1] is Labels) ==> whole
                == ProgressView::<()>::Failed(
                DesktopErrorView::UnexpectedReply { at: (at + 1) as usize },
            )
            &&& at + 1 < log.len() ==> (log[at] matches ReplyView::Launch(site) ==> (
            log[at + 1] matches ReplyView::Labels(labels) ==> whole == replay::command_run(
                commands::client_command_view(root, app_url, extra_args, site, labels),
                log,
                at + 2,
            )))
        }),
{
}

/// The client is started on a bundle that was patched right before.
pub proof fn law_client_starts_on_a_patched_bundle(
    workspace: WorkspaceView,
    app_url: Seq<char>,
    extra_args: Seq<Seq<char>>,
    log: Seq<ReplyView>,
    at: int,
)
    ensures
        replay::leads(
            plist::patch_run(workspace, log, at),
            process_run(workspace, app_url, extra_args, log, at),
        ),
        plist::patch_run(workspace, log, at) matches ProgressView::Ready { next, .. }
            ==> process_run(workspace, app_url, extra_args, log, at) == client_start_run(
            workspace.root,
            app_url,
            extra_args,
            log,
            next,
        ),
{
}

/// Preparing is installing, and a full build behind it exactly where that is wished.
pub proof fn law_preparation(
    workspace: WorkspaceView,
    build: bool,
    log: Seq<ReplyView>,
    at: int,
)
    ensures
        replay::leads(install_run(workspace, log, at), prepare_run(workspace, build, log, at)),
        install_run(workspace, log, at) matches ProgressView::Ready { next, .. } ==> {
            &&& build ==> prepare_run(workspace, build, log, at) == build_run(
                workspace.root,
                false,
                log,
                next,
            )
            &&& !build ==> prepare_run(workspace, build, log, at) == (ProgressView::Ready {
                value: (),
                next,
            })
        },
{
}

/// A run is the preparation and then the client, against the given URL and with the given
/// arguments.
pub proof fn law_run_prepares_and_starts(
    workspace: WorkspaceView,
    app_url: Seq<char>,
    extra_args: Seq<Seq<char>>,
    build: bool,
    log: Seq<ReplyView>,
    at: int,
)
    ensures
        replay::leads(
            prepare_run(workspace, build, log, at),
            run_run(workspace, app_url, extra_args, build, log, at),
        ),
        prepare_run(workspace, build, log, at) matches ProgressView::Ready { next, .. } ==> run_run(
            workspace,
            app_url,
            extra_args,
            build,
            log,
            at,
        ) == process_run(workspace, app_url, extra_args, log, next),
{
}

/// Only macOS outside a container lets the canary workflow go on, and it is asked for.
pub proof fn law_host_is_asked_for(host: HostFacts, log: Seq<ReplyView>, at: int)
    ensures
        at >= log.len() ==> host_macos_run(log, at) == ProgressView::<()>::Pending(
            EffectView::InspectHost,
        ),
        at < log.len() && log[at] == ReplyView::Host(host) && host.os is Macos
            && !host.in_container ==> host_macos_run(log, at) == (ProgressView::Ready {
            value: (),
            next: at + 1,
        }),
        at < log.len() && log[at] == ReplyView::Host(host) && (!(host.os is Macos)
            || host.in_container) ==> host_macos_run(log, at) == ProgressView::<()>::Failed(
            DesktopErrorView::HostNotMacos,
        ),
        at < log.len() && !(log[at] is Host) ==> host_macos_run(log, at)
            == ProgressView::<()>::Failed(DesktopErrorView::UnexpectedReply { at: at as usize }),
{
}

/// The canary client is announced with the URL that it is then started against.
pub proof fn law_canary_is_announced_with_its_url(
    workspace: WorkspaceView,
    app_url: Seq<char>,
    extra_args: Seq<Seq<char>>,
    log: Seq<ReplyView>,
    at: int,
)
    ensures
        starting_line_view(app_url) == "Starting Fluxer Canary (Dev) against "@ + app_url,
        replay::leads(
            replay::print_run("Starting Fluxer Canary (Dev) against "@ + app_url, log, at),
            canary_start_run(workspace, app_url, extra_args, log, at),
        ),
        at < log.len() && log[at] is Done ==> canary_start_run(
            workspace,
            app_url,
            extra_args,
            log,
            at,
        ) == process_run(workspace, app_url, extra_args, log, at + 1),
{
    reveal_strlit("Starting ");
    reveal_strlit("Fluxer Canary (Dev)");
    reveal_strlit(" against ");
    reveal_strlit("Starting Fluxer Canary (Dev) against ");
    assert(starting_line_view(app_url) =~= "Starting Fluxer Canary (Dev) against "@ + app_url);
}

/// A restart stops what runs, prepares, and announces and starts the client against the given URL.
pub proof fn law_restart_order(
    workspace: WorkspaceView,
    app_url: Seq<char>,
    extra_args: Seq<Seq<char>>,
    build: bool,
    log: Seq<ReplyView>,
    at: int,
)
    ensures
        ({
            let whole = canary_against_run(workspace, app_url, extra_args, build, log, at);
            &&& replay::leads(canary::stop_run(log, at), whole)
            &&& canary::stop_run(log, at) matches ProgressView::Ready { next, .. } ==> {
                let prepared = prepare_run(workspace, build, log, next);
                &&& whole == prepare_and_start_run(
                    workspace,
                    app_url,
                    extra_args,
                    build,
                    log,
                    next,
                )
                &&& replay::leads(prepared, whole)
                &&& prepared matches ProgressView::Ready { next, .. } ==> whole
                    == canary_start_run(workspace, app_url, extra_args, log, next)
            }
        }),
{
}

/// The canary workflow asks for the host, settles on a URL, and restarts the client against exactly
/// that URL.
pub proof fn law_canary_restarts_against_the_settled_url(
    workspace: WorkspaceView,
    given_url: Option<Seq<char>>,
    extra_args: Seq<Seq<char>>,
    build: bool,
    log: Seq<ReplyView>,
    at: int,
)
    ensures
        ({
            let whole = canary_run(workspace, given_url, extra_args, build, log, at);
            &&& replay::leads(host_macos_run(log, at), whole)
            &&& host_macos_run(log, at) is Ready ==> {
                let settled = app_url::resolve_run(given_url, log, at + 1);
                &&& replay::leads(settled, whole)
                &&& settled matches ProgressView::Ready { value: url, next } ==> whole
                    == canary_against_run(workspace, url, extra_args, build, log, next)
            }
        }),
{
}

/// When the canary workflow is through, the command that ran last told the client to open the URL
/// that was settled on, and handed it the extra arguments.
pub proof fn law_canary_client_opens_the_settled_url(
    workspace: WorkspaceView,
    given_url: Option<Seq<char>>,
    extra_args: Seq<Seq<char>>,
    build: bool,
    log: Seq<ReplyView>,
    at: int,
    next: int,
)
    requires
        0 <= at <= log.len(),
        canary_run(workspace, given_url, extra_args, build, log, at) == (ProgressView::Ready {
            value: (),
            next,
        }),
    ensures
        0 < next <= log.len(),
        log[next - 1] is Done,
        app_url::resolve_run(given_url, log, at + 1) matches ProgressView::Ready { value: url, .. }
            && canary_run(workspace, given_url, extra_args, build, log.take(next - 1), at) matches
            ProgressView::Pending(EffectView::RunCommand(command)) && command.argv.len()
            >= extra_args.len() + 2 && command.argv[command.argv.len() - extra_args.len() - 2]
            == "--fluxer-app-url="@ + url && extra_args.is_suffix_of(command.argv),
{
    law_canary_ends_with_the_client(workspace, given_url, extra_args, build, log, at, next);
    if let ProgressView::Ready { value: url, .. } = app_url::resolve_run(given_url, log, at + 1) {
        if let ReplyView::Launch(site) = log[next - 3] {
            if let ReplyView::Labels(labels) = log[next - 2] {
                commands::law_client_opens_the_given_url(
                    workspace.root,
                    url,
                    extra_args,
                    site,
                    labels,
                    0,
                );
                commands::law_extra_arguments_come_last(
                    workspace.root,
                    url,
                    extra_args,
                    site,
                    labels,
                );
            }
        }
    }
}

} // verus!
