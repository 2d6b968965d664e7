//! The command line that starts Electron.

use crate::paths;
use crate::replay::LaunchSite;
use crate::replay::LaunchSiteView;
use crate::replay::Os;
use crate::replay::XVFB_PROGRAM;
use crate::text;
use vstd::prelude::*;

verus! {

/// Whether Electron has to run without its sandbox: in a Linux container, unless that is switched
/// off.
pub open spec fn drops_sandbox(site: LaunchSiteView) -> bool {
    site.host.os is Linux && site.host.in_container && site.no_sandbox != Some("0"@)
}

fn must_drop_sandbox(site: &LaunchSite) -> (res: bool)
    ensures
        res == drops_sandbox(site.deep_view()),
{
    let linux = match site.host.os {
        Os::Linux => true,
        _ => false,
    };
    let switched_off = match &site.no_sandbox {
        Some(value) => text::same_text(value.as_str(), "0"),
        None => false,
    };
    linux && site.host.in_container && !switched_off
}

/// The arguments for Electron: `args`, after what the site calls for.
pub open spec fn electron_args_view(args: Seq<Seq<char>>, site: LaunchSiteView) -> Seq<Seq<char>> {
    if drops_sandbox(site) {
        seq!["--no-sandbox"@] + args
    } else {
        args
    }
}

/// Makes the arguments for Electron: `args`, after what the site calls for.
pub fn electron_args(args: &[String], site: &LaunchSite) -> (res: Vec<String>)
    ensures
        res.deep_view() == electron_args_view(args.deep_view(), site.deep_view()),
{
    let mut res: Vec<String> = Vec::new();
    if must_drop_sandbox(site) {
        text::push_str(&mut res, "--no-sandbox");
    }
    text::push_all(&mut res, args);
    assert(res.deep_view() =~= electron_args_view(args.deep_view(), site.deep_view()));
    res
}

/// The command that starts Electron through the `exec-disclaimed` command of `launcher`.
pub open spec fn disclaimed_view(launcher: Seq<char>, electron_binary: Seq<char>) -> Seq<
    Seq<char>,
> {
    seq![launcher, "desktop"@, "exec-disclaimed"@, electron_binary, "."@]
}

/// Makes the command that starts Electron through `launcher`.
pub fn disclaimed_electron_command(launcher: &str, electron_binary: &str) -> (res: Vec<String>)
    ensures
        res.deep_view() == disclaimed_view(launcher@, electron_binary@),
{
    let mut res: Vec<String> = Vec::new();
    text::push_str(&mut res, launcher);
    text::push_str(&mut res, "desktop");
    text::push_str(&mut res, "exec-disclaimed");
    text::push_str(&mut res, electron_binary);
    text::push_str(&mut res, ".");
    assert(res.deep_view() =~= disclaimed_view(launcher@, electron_binary@));
    res
}

/// The command that starts Electron, before its arguments: the development bundle itself on a
/// macOS host that has it, the package's own launcher anywhere else.
pub open spec fn base_command_view(root: Seq<char>, site: LaunchSiteView) -> Seq<Seq<char>> {
    match site.launcher {
        Some(launcher) if site.host.is_macos_host() && site.has_dev_binary => disclaimed_view(
            launcher,
            paths::dev_electron_binary_view(root),
        ),
        _ => seq!["pnpm"@, "exec"@, "electron"@, "."@],
    }
}

/// Makes the command that starts Electron, before its arguments.
pub fn base_electron_command(root: &str, site: &LaunchSite) -> (res: Vec<String>)
    ensures
        res.deep_view() == base_command_view(root@, site.deep_view()),
{
    if site.host.macos_host() && site.has_dev_binary {
        if let Some(launcher) = &site.launcher {
            return disclaimed_electron_command(
                launcher.as_str(),
                paths::dev_electron_binary_path(root).as_str(),
            );
        }
    }
    let mut res: Vec<String> = Vec::new();
    text::push_str(&mut res, "pnpm");
    text::push_str(&mut res, "exec");
    text::push_str(&mut res, "electron");
    text::push_str(&mut res, ".");
    assert(res.deep_view() =~= base_command_view(root@, site.deep_view()));
    res
}

/// Whether a client without a window has to run under a virtual display, and can.
pub open spec fn needs_virtual_display(headless: bool, site: LaunchSiteView) -> bool {
    headless && site.host.os is Linux && !site.has_display && site.has_xvfb
}

/// The whole command that starts Electron with `args`.
pub open spec fn electron_command_view(
    root: Seq<char>,
    args: Seq<Seq<char>>,
    headless: bool,
    site: LaunchSiteView,
) -> Seq<Seq<char>> {
    let command = base_command_view(root, site) + electron_args_view(args, site);
    if needs_virtual_display(headless, site) {
        seq![XVFB_PROGRAM@, "-a"@] + command
    } else {
        command
    }
}

/// Makes the whole command that starts Electron with `args`.
pub fn electron_command(
    root: &str,
    args: &[String],
    headless: bool,
    site: &LaunchSite,
) -> (res: Vec<String>)
    ensures
        res.deep_view() == electron_command_view(
            root@,
            args.deep_view(),
            headless,
            site.deep_view(),
        ),
{
    let linux = match site.host.os {
        Os::Linux => true,
        _ => false,
    };
    let mut res: Vec<String> = Vec::new();
    if headless && linux && !site.has_display && site.has_xvfb {
        text::push_str(&mut res, XVFB_PROGRAM);
        text::push_str(&mut res, "-a");
    }
    text::push_all(&mut res, base_electron_command(root, site).as_slice());
    text::push_all(&mut res, electron_args(args, site).as_slice());
    assert(res.deep_view() =~= electron_command_view(
        root@,
        args.deep_view(),
        headless,
        site.deep_view(),
    ));
    res
}

/// The arguments that are given reach Electron in order and last, whatever the site is.
pub proof fn law_given_arguments_come_last(
    root: Seq<char>,
    args: Seq<Seq<char>>,
    headless: bool,
    site: LaunchSiteView,
)
    ensures
        args.is_suffix_of(electron_args_view(args, site)),
        electron_args_view(args, site).len() <= args.len() + 1,
        args.is_suffix_of(electron_command_view(root, args, headless, site)),
{
    let all = electron_args_view(args, site);
    let command = electron_command_view(root, args, headless, site);
    assert(all.subrange(all.len() - args.len(), all.len() as int) =~= args);
    assert(command.subrange(command.len() - args.len(), command.len() as int) =~= args);
}

/// The sandbox is dropped by the container policy only: on Linux, in a container, and where the
/// variable does not say `0`.
pub proof fn law_sandbox_is_dropped_by_container_policy_only(
    args: Seq<Seq<char>>,
    site: LaunchSiteView,
)
    requires
        !args.contains("--no-sandbox"@),
    ensures
        electron_args_view(args, site).contains("--no-sandbox"@) <==> (site.host.os is Linux
            && site.host.in_container && site.no_sandbox != Some("0"@)),
        drops_sandbox(site) ==> electron_args_view(args, site)[0] == "--no-sandbox"@,
{
    if drops_sandbox(site) {
        assert(electron_args_view(args, site)[0] == "--no-sandbox"@);
    }
}

/// On a macOS host the display and the sandbox policy play no part in the command.
pub proof fn law_macos_command_is_plain(
    root: Seq<char>,
    args: Seq<Seq<char>>,
    headless: bool,
    site: LaunchSiteView,
)
    requires
        site.host.os is Macos,
    ensures
        electron_command_view(root, args, headless, site) == base_command_view(root, site) + args,
{
}

/// The arguments for Electron are the given ones, with `--no-sandbox` in front of them in a Linux
/// container where the variable does not say `0`, and nowhere else.
pub proof fn law_electron_arguments(args: Seq<Seq<char>>, site: LaunchSiteView)
    ensures
        site.host.os is Linux && site.host.in_container && site.no_sandbox != Some("0"@)
            ==> electron_args_view(args, site) == seq!["--no-sandbox"@] + args,
        !(site.host.os is Linux && site.host.in_container && site.no_sandbox != Some("0"@))
            ==> electron_args_view(args, site) == args,
{
}

/// Outside containers macOS starts the executable of the development bundle through the running
/// program, where both are known. Every other site starts the launcher of the package.
pub proof fn law_electron_starts_the_bundle_on_macos_only(root: Seq<char>, site: LaunchSiteView)
    ensures
        site.host.os is Macos && !site.host.in_container && site.has_dev_binary ==> (
        site.launcher matches Some(launcher) ==> base_command_view(root, site) == seq![
            launcher,
            "desktop"@,
            "exec-disclaimed"@,
            paths::dev_electron_binary_view(root),
            "."@,
        ]),
        !(site.host.os is Macos) || site.host.in_container || !site.has_dev_binary
            || site.launcher is None ==> base_command_view(root, site) == seq![
            "pnpm"@,
            "exec"@,
            "electron"@,
            "."@,
        ],
{
}

/// A program is started through the launcher with the executable as its last but one argument.
pub proof fn law_disclaimed_command(launcher: Seq<char>, electron_binary: Seq<char>)
    ensures
        disclaimed_view(launcher, electron_binary) == seq![
            launcher,
            "desktop"@,
            "exec-disclaimed"@,
            electron_binary,
            "."@,
        ],
{
}

/// A virtual display is put in front of the whole command exactly for a client without a window, on
/// Linux, without a display and where the program is installed.
pub proof fn law_virtual_display(
    root: Seq<char>,
    args: Seq<Seq<char>>,
    headless: bool,
    site: LaunchSiteView,
)
    ensures
        headless && site.host.os is Linux && !site.has_display && site.has_xvfb
            ==> electron_command_view(root, args, headless, site) == seq!["xvfb-run"@, "-a"@] + (
        base_command_view(root, site) + electron_args_view(args, site)),
        !(headless && site.host.os is Linux && !site.has_display && site.has_xvfb)
            ==> electron_command_view(root, args, headless, site) == base_command_view(root, site)
            + electron_args_view(args, site),
{
}

} // verus!
