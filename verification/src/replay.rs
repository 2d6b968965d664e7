//! The questions that a workflow asks of the outside world, the replies that it gets, and how far
//! a workflow gets on the replies received so far.
//!
//! A workflow is a function of the replies to its earlier questions. It either names the next
//! effect to perform, or it ends. Whoever drives it performs that effect, appends the reply to the
//! log and calls the workflow again.

use crate::error::DesktopError;
use crate::error::DesktopErrorView;
use vstd::prelude::*;

verus! {

/// The file that exists in containers only.
pub const CONTAINER_MARKER: &'static str = "/.dockerenv";

/// The variable that keeps the sandbox on in containers.
pub const NO_SANDBOX_VARIABLE: &'static str = "FLUXER_ELECTRON_NO_SANDBOX";

/// The variable that names the display.
pub const DISPLAY_VARIABLE: &'static str = "DISPLAY";

/// The program that runs another one under a virtual display.
pub const XVFB_PROGRAM: &'static str = "xvfb-run";

/// The variable with the channel that a build is for.
pub const BUILD_CHANNEL_VARIABLE: &'static str = "BUILD_CHANNEL";

/// The variable with the version that a build shows.
pub const BUILD_VERSION_VARIABLE: &'static str = "PUBLIC_BUILD_VERSION";

/// The variable with the release channel that a build shows.
pub const RELEASE_CHANNEL_VARIABLE: &'static str = "PUBLIC_RELEASE_CHANNEL";

/// A command of the toolchain: it inherits the terminal, and to fail is to end the workflow.
#[derive(Debug, PartialEq, Eq)]
pub struct CommandSpec {
    /// The program and its arguments.
    pub argv: Vec<String>,
    /// The directory to run in.
    pub cwd: String,
    /// Variables to set, or to remove where there is no value.
    pub env: Vec<(String, Option<String>)>,
}

/// The mathematical counterpart of `CommandSpec`.
pub struct CommandView {
    pub argv: Seq<Seq<char>>,
    pub cwd: Seq<char>,
    pub env: Seq<(Seq<char>, Option<Seq<char>>)>,
}

impl DeepView for CommandSpec {
    type V = CommandView;

    open spec fn deep_view(&self) -> CommandView {
        CommandView {
            argv: self.argv.deep_view(),
            cwd: self.cwd@,
            env: self.env.deep_view(),
        }
    }
}

/// What one standard stream of a process is connected to.
#[derive(Clone, Copy, Debug, PartialEq, Eq)]
pub enum Stream {
    Inherit,
    Null,
    Piped,
}

/// A system tool whose exit and output the workflow judges itself.
#[derive(Debug, PartialEq, Eq)]
pub struct ProcessSpec {
    pub program: String,
    pub args: Vec<String>,
    pub stdin: Stream,
    pub stdout: Stream,
    pub stderr: Stream,
}

/// The mathematical counterpart of `ProcessSpec`.
pub struct ProcessView {
    pub program: Seq<char>,
    pub args: Seq<Seq<char>>,
    pub stdin: Stream,
    pub stdout: Stream,
    pub stderr: Stream,
}

impl DeepView for ProcessSpec {
    type V = ProcessView;

    open spec fn deep_view(&self) -> ProcessView {
        ProcessView {
            program: self.program@,
            args: self.args.deep_view(),
            stdin: self.stdin,
            stdout: self.stdout,
            stderr: self.stderr,
        }
    }
}

/// Where a bundle has to have regular files, and where symbolic links.
#[derive(Debug, PartialEq, Eq)]
pub struct BundlePaths {
    /// A regular file: the property list.
    pub info_plist: String,
    /// A regular file: the executable.
    pub binary: String,
    /// A link: the framework's current version.
    pub versions: String,
    /// A link: the framework's library.
    pub framework: String,
    /// A link: the framework's helpers.
    pub helpers: String,
    /// A link: the framework's own libraries.
    pub libraries: String,
    /// A link: the framework's resources.
    pub resources: String,
}

/// The mathematical counterpart of `BundlePaths`.
pub struct BundlePathsView {
    pub info_plist: Seq<char>,
    pub binary: Seq<char>,
    pub versions: Seq<char>,
    pub framework: Seq<char>,
    pub helpers: Seq<char>,
    pub libraries: Seq<char>,
    pub resources: Seq<char>,
}

impl DeepView for BundlePaths {
    type V = BundlePathsView;

    open spec fn deep_view(&self) -> BundlePathsView {
        BundlePathsView {
            info_plist: self.info_plist@,
            binary: self.binary@,
            versions: self.versions@,
            framework: self.framework@,
            helpers: self.helpers@,
            libraries: self.libraries@,
            resources: self.resources@,
        }
    }
}

/// Something that only the outside world can do or tell.
#[derive(Debug, PartialEq, Eq)]
pub enum Effect {
    /// Print a line. Answered by `Done`.
    Print(String),
    /// Run a toolchain command to success. Answered by `Done` or `Failed`.
    RunCommand(CommandSpec),
    /// Run a system tool to its end. Answered by `Exited`, or `Failed` where it did not start.
    Execute(ProcessSpec),
    /// Tell the operating system and whether this is a container. Answered by `Host`.
    InspectHost,
    /// Look at the files and links of the development bundle. Answered by `Bundle`.
    InspectBundle(BundlePaths),
    /// Tell what the Electron command line depends on. Answered by `Launch`.
    SurveyLaunch { dev_binary: String },
    /// Read the variables that a build is labelled with. Answered by `Labels`.
    ReadBuildLabels,
    /// Tell whether a regular file stands at the path. Answered by `Answer`.
    IsFile(String),
    /// Tell what stands at the path, not following links. Answered by `Kind` or `Failed`.
    InspectPath(String),
    /// Remove a directory with all it holds. Answered by `Done` or `Failed`.
    RemoveDirectory(String),
    /// Remove anything but a directory. Answered by `Done` or `Failed`.
    RemoveFile(String),
    /// Read an environment variable. Answered by `Text`.
    ReadVariable(String),
    /// Find the public URL of the tunnel, if there is one. Answered by `Text`.
    FindTunnelUrl,
    /// Get the URL and tell the status of the response, if there is one. Answered by `Status`.
    Fetch { url: String, timeout_secs: u64 },
    /// Note a deadline this long from now. Answered by `Done`.
    ArmDeadline { millis: u64 },
    /// Tell whether the deadline is still ahead. Answered by `Answer`.
    DeadlineAhead,
    /// Wait. Answered by `Done`.
    Sleep { millis: u64 },
}

/// The mathematical counterpart of `Effect`.
pub enum EffectView {
    Print(Seq<char>),
    RunCommand(CommandView),
    Execute(ProcessView),
    InspectHost,
    InspectBundle(BundlePathsView),
    SurveyLaunch { dev_binary: Seq<char> },
    ReadBuildLabels,
    IsFile(Seq<char>),
    InspectPath(Seq<char>),
    RemoveDirectory(Seq<char>),
    RemoveFile(Seq<char>),
    ReadVariable(Seq<char>),
    FindTunnelUrl,
    Fetch { url: Seq<char>, timeout_secs: u64 },
    ArmDeadline { millis: u64 },
    DeadlineAhead,
    Sleep { millis: u64 },
}

impl DeepView for Effect {
    type V = EffectView;

    open spec fn deep_view(&self) -> EffectView {
        match self {
            Effect::Print(line) => EffectView::Print(line@),
            Effect::RunCommand(command) => EffectView::RunCommand(command.deep_view()),
            Effect::Execute(process) => EffectView::Execute(process.deep_view()),
            Effect::InspectHost => EffectView::InspectHost,
            Effect::InspectBundle(paths) => EffectView::InspectBundle(paths.deep_view()),
            Effect::SurveyLaunch { dev_binary } => EffectView::SurveyLaunch {
                dev_binary: dev_binary@,
            },
            Effect::ReadBuildLabels => EffectView::ReadBuildLabels,
            Effect::IsFile(path) => EffectView::IsFile(path@),
            Effect::InspectPath(path) => EffectView::InspectPath(path@),
            Effect::RemoveDirectory(path) => EffectView::RemoveDirectory(path@),
            Effect::RemoveFile(path) => EffectView::RemoveFile(path@),
            Effect::ReadVariable(name) => EffectView::ReadVariable(name@),
            Effect::FindTunnelUrl => EffectView::FindTunnelUrl,
            Effect::Fetch { url, timeout_secs } => EffectView::Fetch {
                url: url@,
                timeout_secs: *timeout_secs,
            },
            Effect::ArmDeadline { millis } => EffectView::ArmDeadline { millis: *millis },
            Effect::DeadlineAhead => EffectView::DeadlineAhead,
            Effect::Sleep { millis } => EffectView::Sleep { millis: *millis },
        }
    }
}

/// The operating systems that the workflows tell apart.
#[derive(Clone, Copy, Debug, PartialEq, Eq)]
pub enum Os {
    Linux,
    Macos,
    Other,
}

/// Where the workflows run.
#[derive(Clone, Copy, Debug, PartialEq, Eq)]
pub struct HostFacts {
    pub os: Os,
    /// Whether the file `CONTAINER_MARKER` exists.
    pub in_container: bool,
}

impl HostFacts {
    /// Whether this is macOS itself, not a container on it.
    pub open spec fn is_macos_host(self) -> bool {
        self.os is Macos && !self.in_container
    }

    /// Tells whether this is macOS itself, not a container on it.
    pub fn macos_host(&self) -> (res: bool)
        ensures
            res == self.is_macos_host(),
    {
        match self.os {
            Os::Macos => !self.in_container,
            _ => false,
        }
    }
}

/// What was found of the development bundle: regular files and symbolic links.
#[derive(Clone, Copy, Debug, PartialEq, Eq)]
pub struct BundleFacts {
    pub info_plist_is_file: bool,
    pub binary_is_file: bool,
    pub versions_is_link: bool,
    pub framework_is_link: bool,
    pub helpers_is_link: bool,
    pub libraries_is_link: bool,
    pub resources_is_link: bool,
}

/// What the Electron command line depends on.
#[derive(Debug, PartialEq, Eq)]
pub struct LaunchSite {
    pub host: HostFacts,
    /// The value of `NO_SANDBOX_VARIABLE`.
    pub no_sandbox: Option<String>,
    /// Whether `DISPLAY_VARIABLE` is set.
    pub has_display: bool,
    /// Whether `XVFB_PROGRAM` is installed.
    pub has_xvfb: bool,
    /// Whether the executable of the development bundle is a regular file.
    pub has_dev_binary: bool,
    /// The path of the running program, where it is known.
    pub launcher: Option<String>,
}

/// The mathematical counterpart of `LaunchSite`.
pub struct LaunchSiteView {
    pub host: HostFacts,
    pub no_sandbox: Option<Seq<char>>,
    pub has_display: bool,
    pub has_xvfb: bool,
    pub has_dev_binary: bool,
    pub launcher: Option<Seq<char>>,
}

impl DeepView for LaunchSite {
    type V = LaunchSiteView;

    open spec fn deep_view(&self) -> LaunchSiteView {
        LaunchSiteView {
            host: self.host,
            no_sandbox: self.no_sandbox.deep_view(),
            has_display: self.has_display,
            has_xvfb: self.has_xvfb,
            has_dev_binary: self.has_dev_binary,
            launcher: self.launcher.deep_view(),
        }
    }
}

/// The variables that a build is labelled with, as far as they are set.
#[derive(Debug, PartialEq, Eq)]
pub struct BuildLabels {
    /// The value of `BUILD_CHANNEL_VARIABLE`.
    pub build_channel: Option<String>,
    /// The value of `BUILD_VERSION_VARIABLE`.
    pub build_version: Option<String>,
    /// The value of `RELEASE_CHANNEL_VARIABLE`.
    pub release_channel: Option<String>,
}

/// The mathematical counterpart of `BuildLabels`.
pub struct BuildLabelsView {
    pub build_channel: Option<Seq<char>>,
    pub build_version: Option<Seq<char>>,
    pub release_channel: Option<Seq<char>>,
}

impl DeepView for BuildLabels {
    type V = BuildLabelsView;

    open spec fn deep_view(&self) -> BuildLabelsView {
        BuildLabelsView {
            build_channel: self.build_channel.deep_view(),
            build_version: self.build_version.deep_view(),
            release_channel: self.release_channel.deep_view(),
        }
    }
}

/// What stands at a path.
#[derive(Clone, Copy, Debug, PartialEq, Eq)]
pub enum PathKind {
    Missing,
    Directory,
    Other,
}

/// How a process ended, and what it wrote to the streams that were piped.
#[derive(Debug, PartialEq, Eq)]
pub struct ProcessOutput {
    pub success: bool,
    pub stdout: Vec<u8>,
    pub stderr: Vec<u8>,
}

/// The mathematical counterpart of `ProcessOutput`.
pub struct ProcessOutputView {
    pub success: bool,
    pub stdout: Seq<u8>,
    pub stderr: Seq<u8>,
}

impl DeepView for ProcessOutput {
    type V = ProcessOutputView;

    open spec fn deep_view(&self) -> ProcessOutputView {
        ProcessOutputView { success: self.success, stdout: self.stdout@, stderr: self.stderr@ }
    }
}

/// The answer to an effect.
#[derive(Debug, PartialEq, Eq)]
pub enum Reply {
    Done,
    /// It could not be done, for this reason.
    Failed(String),
    Exited(ProcessOutput),
    Host(HostFacts),
    Bundle(BundleFacts),
    Launch(LaunchSite),
    Labels(BuildLabels),
    Answer(bool),
    Kind(PathKind),
    Text(Option<String>),
    Status(Option<u16>),
}

/// The mathematical counterpart of `Reply`.
pub enum ReplyView {
    Done,
    Failed(Seq<char>),
    Exited(ProcessOutputView),
    Host(HostFacts),
    Bundle(BundleFacts),
    Launch(LaunchSiteView),
    Labels(BuildLabelsView),
    Answer(bool),
    Kind(PathKind),
    Text(Option<Seq<char>>),
    Status(Option<u16>),
}

impl DeepView for Reply {
    type V = ReplyView;

    open spec fn deep_view(&self) -> ReplyView {
        match self {
            Reply::Done => ReplyView::Done,
            Reply::Failed(cause) => ReplyView::Failed(cause@),
            Reply::Exited(output) => ReplyView::Exited(output.deep_view()),
            Reply::Host(facts) => ReplyView::Host(*facts),
            Reply::Bundle(facts) => ReplyView::Bundle(*facts),
            Reply::Launch(site) => ReplyView::Launch(site.deep_view()),
            Reply::Labels(labels) => ReplyView::Labels(labels.deep_view()),
            Reply::Answer(yes) => ReplyView::Answer(*yes),
            Reply::Kind(kind) => ReplyView::Kind(*kind),
            Reply::Text(text) => ReplyView::Text(text.deep_view()),
            Reply::Status(status) => ReplyView::Status(*status),
        }
    }
}

/// How far a workflow gets on a log of replies.
#[derive(Debug, PartialEq, Eq)]
pub enum Progress<T> {
    /// This effect has to be performed next.
    Pending(Effect),
    /// The workflow ended with an error.
    Failed(DesktopError),
    /// The workflow ended with a value; the first reply that it did not use is at `next`.
    Ready { value: T, next: usize },
}

/// The mathematical counterpart of `Progress`.
pub enum ProgressView<T> {
    Pending(EffectView),
    Failed(DesktopErrorView),
    Ready { value: T, next: int },
}

impl<T: DeepView> DeepView for Progress<T> {
    type V = ProgressView<T::V>;

    open spec fn deep_view(&self) -> ProgressView<T::V> {
        match self {
            Progress::Pending(effect) => ProgressView::Pending(effect.deep_view()),
            Progress::Failed(error) => ProgressView::Failed(error.deep_view()),
            Progress::Ready { value, next } => ProgressView::Ready {
                value: value.deep_view(),
                next: *next as int,
            },
        }
    }
}

/// The error for a reply that does not fit.
pub open spec fn unexpected<T>(at: int) -> ProgressView<T> {
    ProgressView::Failed(DesktopErrorView::UnexpectedReply { at: at as usize })
}

/// Printing `line`.
pub open spec fn print_run(line: Seq<char>, log: Seq<ReplyView>, at: int) -> ProgressView<()> {
    if at >= log.len() {
        ProgressView::Pending(EffectView::Print(line))
    } else {
        match log[at] {
            ReplyView::Done => ProgressView::Ready { value: (), next: at + 1 },
            _ => unexpected(at),
        }
    }
}

/// Prints `line`.
pub fn print_line(line: String, log: &[Reply], at: usize) -> (res: Progress<()>)
    ensures
        res.deep_view() == print_run(line@, log.deep_view(), at as int),
{
    if at >= log.len() {
        return Progress::Pending(Effect::Print(line));
    }
    match &log[at] {
        Reply::Done => Progress::Ready { value: (), next: at + 1 },
        _ => Progress::Failed(DesktopError::UnexpectedReply { at }),
    }
}

/// Running `command` to success.
pub open spec fn command_run(command: CommandView, log: Seq<ReplyView>, at: int) -> ProgressView<
    (),
> {
    if at >= log.len() {
        ProgressView::Pending(EffectView::RunCommand(command))
    } else {
        match log[at] {
            ReplyView::Done => ProgressView::Ready { value: (), next: at + 1 },
            ReplyView::Failed(cause) => ProgressView::Failed(DesktopErrorView::Command { cause }),
            _ => unexpected(at),
        }
    }
}

/// Runs `command` to success; where it fails, the workflow fails for the same reason.
pub fn run_command(command: CommandSpec, log: &[Reply], at: usize) -> (res: Progress<()>)
    ensures
        res.deep_view() == command_run(command.deep_view(), log.deep_view(), at as int),
{
    if at >= log.len() {
        return Progress::Pending(Effect::RunCommand(command));
    }
    match &log[at] {
        Reply::Done => Progress::Ready { value: (), next: at + 1 },
        Reply::Failed(cause) => Progress::Failed(DesktopError::Command { cause: cause.clone() }),
        _ => Progress::Failed(DesktopError::UnexpectedReply { at }),
    }
}

/// Whether `longer` is `log` with more replies, if any, behind it.
pub open spec fn extends(log: Seq<ReplyView>, longer: Seq<ReplyView>) -> bool {
    &&& log.len() <= longer.len()
    &&& forall|i: int| 0 <= i < log.len() ==> #[trigger] longer[i] == log[i]
}

/// Whether a workflow that started at `at`, and got to `before` on the first `used` replies and to
/// `after` on more of them, used its replies in order: once it ended it stays at that end, and as
/// long as it waits it cannot end with success on the replies that it has.
pub open spec fn settles<T>(
    before: ProgressView<T>,
    after: ProgressView<T>,
    at: int,
    used: nat,
) -> bool {
    match before {
        ProgressView::Pending(_) => after matches ProgressView::Ready { next, .. } ==> next > used,
        ProgressView::Failed(_) => after == before,
        ProgressView::Ready { next, .. } => after == before && at <= next <= used,
    }
}

/// Once a command ended, more replies do not change how.
pub proof fn law_command_settles(
    command: CommandView,
    log: Seq<ReplyView>,
    longer: Seq<ReplyView>,
    at: int,
)
    requires
        extends(log, longer),
        0 <= at <= log.len(),
    ensures
        settles(
            command_run(command, log, at),
            command_run(command, longer, at),
            at,
            log.len(),
        ),
{
}

/// Only macOS outside a container is a macOS host.
pub proof fn law_macos_host(facts: HostFacts)
    ensures
        facts.is_macos_host() <==> facts.os is Macos && !facts.in_container,
{
}

/// Whether `whole` waits for what `first` waits for, and fails as `first` fails.
pub open spec fn leads<T, U>(first: ProgressView<T>, whole: ProgressView<U>) -> bool {
    &&& first matches ProgressView::Pending(effect) ==> whole == ProgressView::<U>::Pending(effect)
    &&& first matches ProgressView::Failed(error) ==> whole == ProgressView::<U>::Failed(error)
}

/// A line is asked to be printed as it is, and printing it is all there is to it. A reply that does
/// not fit is reported with its position.
pub proof fn law_lines_are_printed_as_they_are(line: Seq<char>, log: Seq<ReplyView>, at: int)
    ensures
        at >= log.len() ==> print_run(line, log, at) == ProgressView::<()>::Pending(
            EffectView::Print(line),
        ),
        at < log.len() && log[at] is Done ==> print_run(line, log, at) == (ProgressView::Ready {
            value: (),
            next: at + 1,
        }),
        at < log.len() && !(log[at] is Done) ==> print_run(line, log, at)
            == ProgressView::<()>::Failed(DesktopErrorView::UnexpectedReply { at: at as usize }),
{
}

/// A command is asked to be run as it is; success lets the workflow go on, and a failure ends it
/// with the reason that was given. A reply that does not fit is reported with its position.
pub proof fn law_commands_are_run_as_they_are(command: CommandView, log: Seq<ReplyView>, at: int)
    ensures
        at >= log.len() ==> command_run(command, log, at) == ProgressView::<()>::Pending(
            EffectView::RunCommand(command),
        ),
        at < log.len() && log[at] is Done ==> command_run(command, log, at) == (
        ProgressView::Ready { value: (), next: at + 1 }),
        at < log.len() ==> (log[at] matches ReplyView::Failed(cause) ==> command_run(
            command,
            log,
            at,
        ) == ProgressView::<()>::Failed(DesktopErrorView::Command { cause })),
        at < log.len() && !(log[at] is Done) && !(log[at] is Failed) ==> command_run(
            command,
            log,
            at,
        ) == ProgressView::<()>::Failed(DesktopErrorView::UnexpectedReply { at: at as usize }),
{
}

/// The view of a command or a process keeps every part of it.
pub proof fn law_spec_views(command: CommandSpec, process: ProcessSpec, paths: BundlePaths)
    ensures
        command.deep_view() == (CommandView {
            argv: command.argv.deep_view(),
            cwd: command.cwd@,
            env: command.env.deep_view(),
        }),
        process.deep_view() == (ProcessView {
            program: process.program@,
            args: process.args.deep_view(),
            stdin: process.stdin,
            stdout: process.stdout,
            stderr: process.stderr,
        }),
        paths.deep_view() == (BundlePathsView {
            info_plist: paths.info_plist@,
            binary: paths.binary@,
            versions: paths.versions@,
            framework: paths.framework@,
            helpers: paths.helpers@,
            libraries: paths.libraries@,
            resources: paths.resources@,
        }),
{
}

/// The view of an effect is the same effect, with everything that it holds.
pub proof fn law_effect_view(effect: Effect)
    ensures
        effect matches Effect::Print(line) ==> effect.deep_view() == EffectView::Print(line@),
        effect matches Effect::RunCommand(command) ==> effect.deep_view()
            == EffectView::RunCommand(command.deep_view()),
        effect matches Effect::Execute(process) ==> effect.deep_view() == EffectView::Execute(
            process.deep_view(),
        ),
        effect matches Effect::InspectHost ==> effect.deep_view() is InspectHost,
        effect matches Effect::InspectBundle(paths) ==> effect.deep_view()
            == EffectView::InspectBundle(paths.deep_view()),
        effect matches Effect::SurveyLaunch { dev_binary } ==> effect.deep_view() == (
        EffectView::SurveyLaunch { dev_binary: dev_binary@ }),
        effect matches Effect::ReadBuildLabels ==> effect.deep_view() is ReadBuildLabels,
        effect matches Effect::IsFile(path) ==> effect.deep_view() == EffectView::IsFile(path@),
        effect matches Effect::InspectPath(path) ==> effect.deep_view()
            == EffectView::InspectPath(path@),
        effect matches Effect::RemoveDirectory(path) ==> effect.deep_view()
            == EffectView::RemoveDirectory(path@),
        effect matches Effect::RemoveFile(path) ==> effect.deep_view() == EffectView::RemoveFile(
            path@,
        ),
        effect matches Effect::ReadVariable(name) ==> effect.deep_view()
            == EffectView::ReadVariable(name@),
        effect matches Effect::FindTunnelUrl ==> effect.deep_view() is FindTunnelUrl,
        effect matches Effect::Fetch { url, timeout_secs } ==> effect.deep_view() == (
        EffectView::Fetch { url: url@, timeout_secs }),
        effect matches Effect::ArmDeadline { millis } ==> effect.deep_view() == (
        EffectView::ArmDeadline { millis }),
        effect matches Effect::DeadlineAhead ==> effect.deep_view() is DeadlineAhead,
        effect matches Effect::Sleep { millis } ==> effect.deep_view() == (EffectView::Sleep {
            millis,
        }),
{
}

/// The view of a reply is the same reply, with everything that it holds.
pub proof fn law_reply_view(reply: Reply, site: LaunchSite, labels: BuildLabels)
    ensures
        reply matches Reply::Done ==> reply.deep_view() is Done,
        reply matches Reply::Failed(cause) ==> reply.deep_view() == ReplyView::Failed(cause@),
        reply matches Reply::Exited(output) ==> reply.deep_view() == ReplyView::Exited(
            ProcessOutputView {
                success: output.success,
                stdout: output.stdout@,
                stderr: output.stderr@,
            },
        ),
        reply matches Reply::Host(facts) ==> reply.deep_view() == ReplyView::Host(facts),
        reply matches Reply::Bundle(facts) ==> reply.deep_view() == ReplyView::Bundle(facts),
        reply matches Reply::Launch(found) ==> reply.deep_view() == ReplyView::Launch(
            found.deep_view(),
        ),
        reply matches Reply::Labels(found) ==> reply.deep_view() == ReplyView::Labels(
            found.deep_view(),
        ),
        reply matches Reply::Answer(yes) ==> reply.deep_view() == ReplyView::Answer(yes),
        reply matches Reply::Kind(kind) ==> reply.deep_view() == ReplyView::Kind(kind),
        reply matches Reply::Text(found) ==> reply.deep_view() == ReplyView::Text(
            found.deep_view(),
        ),
        reply matches Reply::Status(status) ==> reply.deep_view() == ReplyView::Status(status),
        site.deep_view() == (LaunchSiteView {
            host: site.host,
            no_sandbox: site.no_sandbox.deep_view(),
            has_display: site.has_display,
            has_xvfb: site.has_xvfb,
            has_dev_binary: site.has_dev_binary,
            launcher: site.launcher.deep_view(),
        }),
        labels.deep_view() == (BuildLabelsView {
            build_channel: labels.build_channel.deep_view(),
            build_version: labels.build_version.deep_view(),
            release_channel: labels.release_channel.deep_view(),
        }),
{
}

/// The view of progress tells the three ways apart, with everything that they hold.
pub proof fn law_progress_view<T: DeepView>(progress: Progress<T>)
    ensures
        progress matches Progress::Pending(effect) ==> progress.deep_view()
            == ProgressView::<T::V>::Pending(effect.deep_view()),
        progress matches Progress::Failed(error) ==> progress.deep_view()
            == ProgressView::<T::V>::Failed(error.deep_view()),
        progress matches Progress::Ready { value, next } ==> progress.deep_view() == (
        ProgressView::Ready { value: value.deep_view(), next: next as int }),
{
}

} // verus!
