//! The toolchain commands: installing, building, checking, packaging and starting.

use crate::app_url::LOCAL_APP_URL;
use crate::electron;
use crate::paths;
use crate::replay::BuildLabels;
use crate::replay::BuildLabelsView;
use crate::replay::CommandSpec;
use crate::replay::CommandView;
use crate::replay::LaunchSite;
use crate::replay::LaunchSiteView;
use crate::replay::BUILD_CHANNEL_VARIABLE;
use crate::replay::BUILD_VERSION_VARIABLE;
use crate::replay::RELEASE_CHANNEL_VARIABLE;
use crate::text;
use crate::workspace;
use crate::workspace::Workspace;
use crate::workspace::WorkspaceView;
use vstd::prelude::*;
use vstd::string::StringExecFns;

verus! {

/// The channel that is built where none is chosen.
pub const DEFAULT_CHANNEL: &'static str = "canary";

/// The version that is shown where none is chosen.
pub const DEFAULT_VERSION: &'static str = "dev";

/// The variable that leaves the native modules out of a build.
pub const SKIP_NATIVE_VARIABLE: &'static str = "FLUXER_SKIP_NATIVE";

/// `choice`, or `default` where there is none.
pub open spec fn or_default(choice: Option<Seq<char>>, default: Seq<char>) -> Seq<char> {
    match choice {
        Some(value) => value,
        None => default,
    }
}

fn chosen<'a>(choice: &'a Option<String>, default: &'a str) -> (res: &'a str)
    ensures
        res@ == or_default(choice.deep_view(), default@),
{
    match choice {
        Some(value) => value.as_str(),
        None => default,
    }
}

/// The command that installs the packages of the checkout, exactly as locked.
pub open spec fn install_command_view(workspace: WorkspaceView) -> CommandView {
    CommandView {
        argv: seq!["pnpm"@, "install"@, "--frozen-lockfile"@],
        cwd: workspace.root,
        env: workspace.install_env_view(),
    }
}

/// Makes the command that installs the packages of the checkout, exactly as locked.
pub fn install_command(workspace: &Workspace) -> (res: CommandSpec)
    ensures
        res.deep_view() == install_command_view(workspace.deep_view()),
{
    let mut argv: Vec<String> = Vec::new();
    text::push_str(&mut argv, "pnpm");
    text::push_str(&mut argv, "install");
    text::push_str(&mut argv, "--frozen-lockfile");
    assert(argv.deep_view() =~= install_command_view(workspace.deep_view()).argv);
    CommandSpec { argv, cwd: workspace.root.clone(), env: workspace.install_env() }
}

/// The command that builds the client, with its labels and defaults for those that are not set.
pub open spec fn build_command_view(
    root: Seq<char>,
    skip_native: bool,
    labels: BuildLabelsView,
) -> CommandView {
    CommandView {
        argv: seq!["pnpm"@, "build"@],
        cwd: paths::desktop_dir_view(root),
        env: seq![
            (
                BUILD_CHANNEL_VARIABLE@,
                Some(or_default(labels.build_channel, DEFAULT_CHANNEL@)),
            ),
            (SKIP_NATIVE_VARIABLE@, if skip_native {
                Some("true"@)
            } else {
                None
            }),
            (
                BUILD_VERSION_VARIABLE@,
                Some(or_default(labels.build_version, DEFAULT_VERSION@)),
            ),
            (
                RELEASE_CHANNEL_VARIABLE@,
                Some(or_default(labels.release_channel, DEFAULT_CHANNEL@)),
            ),
        ],
    }
}

/// Makes the command that builds the client.
pub fn build_command(root: &str, skip_native: bool, labels: &BuildLabels) -> (res: CommandSpec)
    ensures
        res.deep_view() == build_command_view(root@, skip_native, labels.deep_view()),
{
    let mut argv: Vec<String> = Vec::new();
    text::push_str(&mut argv, "pnpm");
    text::push_str(&mut argv, "build");
    let mut env: Vec<(String, Option<String>)> = Vec::new();
    workspace::push_var(
        &mut env,
        BUILD_CHANNEL_VARIABLE,
        Some(chosen(&labels.build_channel, DEFAULT_CHANNEL)),
    );
    workspace::push_var(
        &mut env,
        SKIP_NATIVE_VARIABLE,
        if skip_native {
            Some("true")
        } else {
            None
        },
    );
    workspace::push_var(
        &mut env,
        BUILD_VERSION_VARIABLE,
        Some(chosen(&labels.build_version, DEFAULT_VERSION)),
    );
    workspace::push_var(
        &mut env,
        RELEASE_CHANNEL_VARIABLE,
        Some(chosen(&labels.release_channel, DEFAULT_CHANNEL)),
    );
    let res = CommandSpec { argv, cwd: paths::desktop_dir(root), env };
    proof {
        let want = build_command_view(root@, skip_native, labels.deep_view());
        assert(res.argv.deep_view() =~= want.argv);
        assert(res.env.deep_view() =~= want.env);
    }
    res
}

/// A command in the desktop package, in an environment that is left as it is.
pub open spec fn plain_command_view(root: Seq<char>, argv: Seq<Seq<char>>) -> CommandView {
    CommandView { argv, cwd: paths::desktop_dir_view(root), env: Seq::empty() }
}

fn plain_command(root: &str, argv: Vec<String>) -> (res: CommandSpec)
    ensures
        res.deep_view() == plain_command_view(root@, argv.deep_view()),
{
    let env: Vec<(String, Option<String>)> = Vec::new();
    assert(env.deep_view() =~= Seq::<(Seq<char>, Option<Seq<char>>)>::empty());
    CommandSpec { argv, cwd: paths::desktop_dir(root), env }
}

/// The command that checks the types of the desktop package.
pub open spec fn typecheck_command_view(root: Seq<char>) -> CommandView {
    plain_command_view(root, seq!["pnpm"@, "typecheck"@])
}

/// Makes the command that checks the types of the desktop package.
pub fn typecheck_command(root: &str) -> (res: CommandSpec)
    ensures
        res.deep_view() == typecheck_command_view(root@),
{
    let mut argv: Vec<String> = Vec::new();
    text::push_str(&mut argv, "pnpm");
    text::push_str(&mut argv, "typecheck");
    assert(argv.deep_view() =~= seq!["pnpm"@, "typecheck"@]);
    plain_command(root, argv)
}

/// The command that packages the client into a directory, with `args` for the packager.
pub open spec fn package_command_view(root: Seq<char>, args: Seq<Seq<char>>) -> CommandView {
    plain_command_view(
        root,
        seq![
            "pnpm"@,
            "exec"@,
            "electron-builder"@,
            "--dir"@,
            "--config"@,
            "electron-builder.config.cjs"@,
        ] + args,
    )
}

/// Makes the command that packages the client into a directory.
pub fn package_command(root: &str, args: &[String]) -> (res: CommandSpec)
    ensures
        res.deep_view() == package_command_view(root@, args.deep_view()),
{
    let mut argv: Vec<String> = Vec::new();
    text::push_str(&mut argv, "pnpm");
    text::push_str(&mut argv, "exec");
    text::push_str(&mut argv, "electron-builder");
    text::push_str(&mut argv, "--dir");
    text::push_str(&mut argv, "--config");
    text::push_str(&mut argv, "electron-builder.config.cjs");
    text::push_all(&mut argv, args);
    assert(argv.deep_view() =~= package_command_view(root@, args.deep_view()).argv);
    plain_command(root, argv)
}

/// The argument that tells the client which app to open.
pub open spec fn app_url_argument_view(url: Seq<char>) -> Seq<char> {
    "--fluxer-app-url="@ + url
}

/// Makes the argument that tells the client which app to open.
pub fn app_url_argument(url: &str) -> (res: String)
    ensures
        res@ == app_url_argument_view(url@),
{
    let mut res = "--fluxer-app-url=".to_owned();
    res.append(url);
    res
}

/// The command of the smoke test: the client reports about itself, without a window, against the
/// local app.
pub open spec fn smoke_command_view(root: Seq<char>, site: LaunchSiteView) -> CommandView {
    CommandView {
        argv: electron::electron_command_view(
            root,
            seq!["--fluxer-debug-info"@, app_url_argument_view(LOCAL_APP_URL@)],
            true,
            site,
        ),
        cwd: paths::desktop_dir_view(root),
        env: seq![(SKIP_NATIVE_VARIABLE@, Some("true"@))],
    }
}

/// Makes the command of the smoke test.
pub fn smoke_command(root: &str, site: &LaunchSite) -> (res: CommandSpec)
    ensures
        res.deep_view() == smoke_command_view(root@, site.deep_view()),
{
    let mut args: Vec<String> = Vec::new();
    text::push_str(&mut args, "--fluxer-debug-info");
    text::push_str(&mut args, app_url_argument(LOCAL_APP_URL).as_str());
    assert(args.deep_view() =~= seq![
        "--fluxer-debug-info"@,
        app_url_argument_view(LOCAL_APP_URL@),
    ]);
    let mut env: Vec<(String, Option<String>)> = Vec::new();
    workspace::push_var(&mut env, SKIP_NATIVE_VARIABLE, Some("true"));
    assert(env.deep_view() =~= smoke_command_view(root@, site.deep_view()).env);
    CommandSpec {
        argv: electron::electron_command(root, args.as_slice(), true, site),
        cwd: paths::desktop_dir(root),
        env,
    }
}

/// The command that runs the client against `app_url`, with `extra_args` after its own arguments.
/// Whatever was built, it runs as the canary channel.
pub open spec fn client_command_view(
    root: Seq<char>,
    app_url: Seq<char>,
    extra_args: Seq<Seq<char>>,
    site: LaunchSiteView,
    labels: BuildLabelsView,
) -> CommandView {
    CommandView {
        argv: electron::electron_command_view(
            root,
            seq![app_url_argument_view(app_url), "--fluxer-log-renderer-console"@] + extra_args,
            false,
            site,
        ),
        cwd: paths::desktop_dir_view(root),
        env: seq![
            (BUILD_CHANNEL_VARIABLE@, Some("canary"@)),
            (
                BUILD_VERSION_VARIABLE@,
                Some(or_default(labels.build_version, DEFAULT_VERSION@)),
            ),
            (
                RELEASE_CHANNEL_VARIABLE@,
                Some(or_default(labels.release_channel, DEFAULT_CHANNEL@)),
            ),
        ],
    }
}

/// Makes the command that runs the client against `app_url`.
pub fn client_command(
    root: &str,
    app_url: &str,
    extra_args: &[String],
    site: &LaunchSite,
    labels: &BuildLabels,
) -> (res: CommandSpec)
    ensures
        res.deep_view() == client_command_view(
            root@,
            app_url@,
            extra_args.deep_view(),
            site.deep_view(),
            labels.deep_view(),
        ),
{
    let mut args: Vec<String> = Vec::new();
    text::push_str(&mut args, app_url_argument(app_url).as_str());
    text::push_str(&mut args, "--fluxer-log-renderer-console");
    text::push_all(&mut args, extra_args);
    assert(args.deep_view() =~= seq![
        app_url_argument_view(app_url@),
        "--fluxer-log-renderer-console"@,
    ] + extra_args.deep_view());
    let mut env: Vec<(String, Option<String>)> = Vec::new();
    workspace::push_var(&mut env, BUILD_CHANNEL_VARIABLE, Some("canary"));
    workspace::push_var(
        &mut env,
        BUILD_VERSION_VARIABLE,
        Some(chosen(&labels.build_version, DEFAULT_VERSION)),
    );
    workspace::push_var(
        &mut env,
        RELEASE_CHANNEL_VARIABLE,
        Some(chosen(&labels.release_channel, DEFAULT_CHANNEL)),
    );
    let res = CommandSpec {
        argv: electron::electron_command(root, args.as_slice(), false, site),
        cwd: paths::desktop_dir(root),
        env,
    };
    proof {
        let want = client_command_view(
            root@,
            app_url@,
            extra_args.deep_view(),
            site.deep_view(),
            labels.deep_view(),
        );
        assert(res.env.deep_view() =~= want.env);
    }
    res
}

/// Whatever the labels are, the client runs as the canary channel.
pub proof fn law_client_runs_as_canary(
    root: Seq<char>,
    app_url: Seq<char>,
    extra_args: Seq<Seq<char>>,
    site: LaunchSiteView,
    labels: BuildLabelsView,
)
    ensures
        client_command_view(root, app_url, extra_args, site, labels).env[0] == (
            BUILD_CHANNEL_VARIABLE@,
            Some("canary"@),
        ),
{
}

/// Extra arguments reach the client in order and last.
pub proof fn law_extra_arguments_come_last(
    root: Seq<char>,
    app_url: Seq<char>,
    extra_args: Seq<Seq<char>>,
    site: LaunchSiteView,
    labels: BuildLabelsView,
)
    ensures
        extra_args.is_suffix_of(client_command_view(root, app_url, extra_args, site, labels).argv),
{
    let own = seq![app_url_argument_view(app_url), "--fluxer-log-renderer-console"@];
    let args = own + extra_args;
    let argv = client_command_view(root, app_url, extra_args, site, labels).argv;
    electron::law_given_arguments_come_last(root, args, false, site);
    assert(args =~= argv.subrange(argv.len() - args.len(), argv.len() as int));
    assert(argv.subrange(argv.len() - extra_args.len(), argv.len() as int) =~= extra_args) by {
        assert forall|k: int| 0 <= k < extra_args.len() implies argv[argv.len() - extra_args.len()
            + k] == extra_args[k] by {
            assert(args[own.len() + k] == extra_args[k]);
        }
    }
}

/// The packages are installed as locked, at the root, and with the workspace's variables.
pub proof fn law_install_command(workspace: WorkspaceView, i: int)
    ensures
        install_command_view(workspace).argv == seq!["pnpm"@, "install"@, "--frozen-lockfile"@],
        install_command_view(workspace).cwd == workspace.root,
        install_command_view(workspace).env.len() == workspace.pnpm_install_env.len(),
        0 <= i < workspace.pnpm_install_env.len() ==> install_command_view(workspace).env[i] == (
            workspace.pnpm_install_env[i].0,
            Some(workspace.pnpm_install_env[i].1),
        ),
{
}

/// The build runs in the desktop package. The native modules are left out exactly where that is
/// wished, whatever the labels are; each label is the one that is set, or its default.
pub proof fn law_build_command(root: Seq<char>, skip_native: bool, labels: BuildLabelsView)
    ensures
        build_command_view(root, skip_native, labels).argv == seq!["pnpm"@, "build"@],
        build_command_view(root, skip_native, labels).cwd == paths::desktop_dir_view(root),
        build_command_view(root, skip_native, labels).env.len() == 4,
        build_command_view(root, skip_native, labels).env[0].0 == "BUILD_CHANNEL"@,
        labels.build_channel is Some ==> build_command_view(root, skip_native, labels).env[0].1
            == labels.build_channel,
        labels.build_channel is None ==> build_command_view(root, skip_native, labels).env[0].1
            == Some("canary"@),
        skip_native ==> build_command_view(root, skip_native, labels).env[1] == (
            "FLUXER_SKIP_NATIVE"@,
            Some("true"@),
        ),
        !skip_native ==> build_command_view(root, skip_native, labels).env[1] == (
            "FLUXER_SKIP_NATIVE"@,
            None::<Seq<char>>,
        ),
        build_command_view(root, skip_native, labels).env[2].0 == "PUBLIC_BUILD_VERSION"@,
        labels.build_version is Some ==> build_command_view(root, skip_native, labels).env[2].1
            == labels.build_version,
        labels.build_version is None ==> build_command_view(root, skip_native, labels).env[2].1
            == Some("dev"@),
        build_command_view(root, skip_native, labels).env[3].0 == "PUBLIC_RELEASE_CHANNEL"@,
        labels.release_channel is Some ==> build_command_view(root, skip_native, labels).env[3].1
            == labels.release_channel,
        labels.release_channel is None ==> build_command_view(root, skip_native, labels).env[3].1
            == Some("canary"@),
{
}

/// Builds with and without native modules differ in that one variable, and builds with other labels
/// agree on it.
pub proof fn law_builds_differ_in_native_modules(
    root: Seq<char>,
    labels: BuildLabelsView,
    other: BuildLabelsView,
    skip_native: bool,
)
    ensures
        build_command_view(root, true, labels).env[1] != build_command_view(
            root,
            false,
            labels,
        ).env[1],
        build_command_view(root, true, labels).env.remove(1) == build_command_view(
            root,
            false,
            labels,
        ).env.remove(1),
        build_command_view(root, skip_native, labels).env[1] == build_command_view(
            root,
            skip_native,
            other,
        ).env[1],
{
    assert(build_command_view(root, true, labels).env.remove(1) =~= build_command_view(
        root,
        false,
        labels,
    ).env.remove(1));
}

/// Checking types and packaging run in the desktop package and leave the environment alone.
pub proof fn law_plain_commands(root: Seq<char>, args: Seq<Seq<char>>)
    ensures
        typecheck_command_view(root).argv == seq!["pnpm"@, "typecheck"@],
        typecheck_command_view(root).cwd == paths::desktop_dir_view(root),
        typecheck_command_view(root).env.len() == 0,
        package_command_view(root, args).argv == seq![
            "pnpm"@,
            "exec"@,
            "electron-builder"@,
            "--dir"@,
            "--config"@,
            "electron-builder.config.cjs"@,
        ] + args,
        package_command_view(root, args).cwd == paths::desktop_dir_view(root),
        package_command_view(root, args).env.len() == 0,
        plain_command_view(root, args).argv == args,
        plain_command_view(root, args).cwd == paths::desktop_dir_view(root),
        plain_command_view(root, args).env.len() == 0,
{
}

/// The smoke test starts Electron without a window to report about itself, against the local app
/// and without native modules.
pub proof fn law_smoke_command(root: Seq<char>, site: LaunchSiteView)
    ensures
        smoke_command_view(root, site).argv == electron::electron_command_view(
            root,
            seq!["--fluxer-debug-info"@, "--fluxer-app-url=http://localhost:8088"@],
            true,
            site,
        ),
        smoke_command_view(root, site).argv.len() >= 2,
        smoke_command_view(root, site).argv[smoke_command_view(root, site).argv.len() - 2]
            == "--fluxer-debug-info"@,
        smoke_command_view(root, site).argv.last() == "--fluxer-app-url=http://localhost:8088"@,
        smoke_command_view(root, site).cwd == paths::desktop_dir_view(root),
        smoke_command_view(root, site).env == seq![("FLUXER_SKIP_NATIVE"@, Some("true"@))],
{
    reveal_strlit("--fluxer-app-url=");
    reveal_strlit("http://localhost:8088");
    reveal_strlit("--fluxer-app-url=http://localhost:8088");
    assert("--fluxer-app-url="@ + "http://localhost:8088"@
        =~= "--fluxer-app-url=http://localhost:8088"@);
    let args = seq!["--fluxer-debug-info"@, "--fluxer-app-url=http://localhost:8088"@];
    assert(seq!["--fluxer-debug-info"@, app_url_argument_view(LOCAL_APP_URL@)] =~= args);
    electron::law_given_arguments_come_last(root, args, true, site);
    let argv = smoke_command_view(root, site).argv;
    assert(args =~= argv.subrange(argv.len() - 2, argv.len() as int));
    assert(args[0] == argv[argv.len() - 2]);
    assert(args[1] == argv[argv.len() - 1]);
}

/// Whatever the site is, the client is told to open the given URL and to log what its page logs,
/// right before the extra arguments.
pub proof fn law_client_opens_the_given_url(
    root: Seq<char>,
    app_url: Seq<char>,
    extra_args: Seq<Seq<char>>,
    site: LaunchSiteView,
    labels: BuildLabelsView,
    k: int,
)
    ensures
        ({
            let argv = client_command_view(root, app_url, extra_args, site, labels).argv;
            let own = argv.len() - extra_args.len() - 2;
            &&& own >= 0
            &&& argv[own] == "--fluxer-app-url="@ + app_url
            &&& argv[own + 1] == "--fluxer-log-renderer-console"@
            &&& 0 <= k < extra_args.len() ==> argv[own + 2 + k] == extra_args[k]
            &&& argv == electron::electron_command_view(
                root,
                seq!["--fluxer-app-url="@ + app_url, "--fluxer-log-renderer-console"@] + extra_args,
                false,
                site,
            )
        }),
{
    let args = seq!["--fluxer-app-url="@ + app_url, "--fluxer-log-renderer-console"@] + extra_args;
    let argv = client_command_view(root, app_url, extra_args, site, labels).argv;
    electron::law_given_arguments_come_last(root, args, false, site);
    assert(args =~= argv.subrange(argv.len() - args.len(), argv.len() as int));
    assert(args[0] == argv[argv.len() - args.len()]);
    assert(args[1] == argv[argv.len() - args.len() + 1]);
    if 0 <= k < extra_args.len() {
        assert(args[2 + k] == argv[argv.len() - args.len() + 2 + k]);
    }
}

/// The client runs in the desktop package, as canary, and with the version and the release channel
/// that are set, or their defaults.
pub proof fn law_client_environment(
    root: Seq<char>,
    app_url: Seq<char>,
    extra_args: Seq<Seq<char>>,
    site: LaunchSiteView,
    labels: BuildLabelsView,
)
    ensures
        ({
            let command = client_command_view(root, app_url, extra_args, site, labels);
            &&& command.cwd == paths::desktop_dir_view(root)
            &&& command.env.len() == 3
            &&& command.env[0] == ("BUILD_CHANNEL"@, Some("canary"@))
            &&& command.env[1].0 == "PUBLIC_BUILD_VERSION"@
            &&& labels.build_version is Some ==> command.env[1].1 == labels.build_version
            &&& labels.build_version is None ==> command.env[1].1 == Some("dev"@)
            &&& command.env[2].0 == "PUBLIC_RELEASE_CHANNEL"@
            &&& labels.release_channel is Some ==> command.env[2].1 == labels.release_channel
            &&& labels.release_channel is None ==> command.env[2].1 == Some("canary"@)
        }),
{
}

/// The argument for the app URL holds the URL as it is.
pub proof fn law_app_url_argument(url: Seq<char>)
    ensures
        app_url_argument_view(url) == "--fluxer-app-url="@ + url,
{
}

} // verus!
