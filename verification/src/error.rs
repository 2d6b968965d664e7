//! What can go wrong, and how it is reported.

use crate::text;
use vstd::prelude::*;
use vstd::string::StringExecFns;

verus! {

/// Why a workflow ended without success.
#[derive(Debug, PartialEq, Eq)]
pub enum DesktopError {
    /// The canary workflow was started somewhere else than on a macOS host.
    HostNotMacos,
    /// The app URL does not parse.
    InvalidAppUrl { raw: String, cause: String },
    /// The app URL parses, but is neither `http` nor `https`.
    UnsupportedScheme { scheme: String },
    /// The `electron` package has no install script.
    MissingInstallScript { path: String },
    /// The install script ran twice and the bundle is still not valid.
    BundleNotCreated { info_plist: String, binary: String, versions: String },
    /// What stands at the distribution's path could not be determined.
    InspectDist { path: String, cause: String },
    /// An incomplete distribution could not be removed.
    RemoveDist { path: String, cause: String },
    /// The tool that reads the property list did not start.
    ReadPlist { key: String, path: String, cause: String },
    /// The tool that changes the property list did not start.
    UpdatePlist { path: String, cause: String },
    /// The tool refused to change the property list.
    PlistRejected { path: String, stderr: String },
    /// The signing tool did not start.
    Resign { path: String, cause: String },
    /// The signing tool refused to sign the bundle.
    ResignRejected { path: String, stderr: String },
    /// The tool that lists the listeners of a port did not start.
    ListPids { cause: String },
    /// The tool that signals processes did not start.
    StartKill { cause: String },
    /// The tool that signals processes refused.
    KillRejected { pids: Vec<String> },
    /// A command of the toolchain failed, for the reason that it gave.
    Command { cause: String },
    /// The reply at this position does not answer the question that was asked.
    UnexpectedReply { at: usize },
}

/// The mathematical counterpart of `DesktopError`.
pub enum DesktopErrorView {
    HostNotMacos,
    InvalidAppUrl { raw: Seq<char>, cause: Seq<char> },
    UnsupportedScheme { scheme: Seq<char> },
    MissingInstallScript { path: Seq<char> },
    BundleNotCreated { info_plist: Seq<char>, binary: Seq<char>, versions: Seq<char> },
    InspectDist { path: Seq<char>, cause: Seq<char> },
    RemoveDist { path: Seq<char>, cause: Seq<char> },
    ReadPlist { key: Seq<char>, path: Seq<char>, cause: Seq<char> },
    UpdatePlist { path: Seq<char>, cause: Seq<char> },
    PlistRejected { path: Seq<char>, stderr: Seq<char> },
    Resign { path: Seq<char>, cause: Seq<char> },
    ResignRejected { path: Seq<char>, stderr: Seq<char> },
    ListPids { cause: Seq<char> },
    StartKill { cause: Seq<char> },
    KillRejected { pids: Seq<Seq<char>> },
    Command { cause: Seq<char> },
    UnexpectedReply { at: usize },
}

impl DeepView for DesktopError {
    type V = DesktopErrorView;

    open spec fn deep_view(&self) -> DesktopErrorView {
        match self {
            DesktopError::HostNotMacos => DesktopErrorView::HostNotMacos,
            DesktopError::InvalidAppUrl { raw, cause } => DesktopErrorView::InvalidAppUrl {
                raw: raw@,
                cause: cause@,
            },
            DesktopError::UnsupportedScheme { scheme } => DesktopErrorView::UnsupportedScheme {
                scheme: scheme@,
            },
            DesktopError::MissingInstallScript { path } => DesktopErrorView::MissingInstallScript {
                path: path@,
            },
            DesktopError::BundleNotCreated { info_plist, binary, versions } => {
                DesktopErrorView::BundleNotCreated {
                    info_plist: info_plist@,
                    binary: binary@,
                    versions: versions@,
                }
            },
            DesktopError::InspectDist { path, cause } => DesktopErrorView::InspectDist {
                path: path@,
                cause: cause@,
            },
            DesktopError::RemoveDist { path, cause } => DesktopErrorView::RemoveDist {
                path: path@,
                cause: cause@,
            },
            DesktopError::ReadPlist { key, path, cause } => DesktopErrorView::ReadPlist {
                key: key@,
                path: path@,
                cause: cause@,
            },
            DesktopError::UpdatePlist { path, cause } => DesktopErrorView::UpdatePlist {
                path: path@,
                cause: cause@,
            },
            DesktopError::PlistRejected { path, stderr } => DesktopErrorView::PlistRejected {
                path: path@,
                stderr: stderr@,
            },
            DesktopError::Resign { path, cause } => DesktopErrorView::Resign {
                path: path@,
                cause: cause@,
            },
            DesktopError::ResignRejected { path, stderr } => DesktopErrorView::ResignRejected {
                path: path@,
                stderr: stderr@,
            },
            DesktopError::ListPids { cause } => DesktopErrorView::ListPids {
                cause: cause@,
            },
            DesktopError::StartKill { cause } => DesktopErrorView::StartKill {
                cause: cause@,
            },
            DesktopError::KillRejected { pids } => DesktopErrorView::KillRejected {
                pids: pids.deep_view(),
            },
            DesktopError::Command { cause } => DesktopErrorView::Command {
                cause: cause@,
            },
            DesktopError::UnexpectedReply { at } => DesktopErrorView::UnexpectedReply {
                at: *at,
            },
        }
    }
}

impl DesktopErrorView {
    /// The message that is reported for the error.
    pub open spec fn message_view(self) -> Seq<char> {
        match self {
            DesktopErrorView::HostNotMacos => {
                "`desktop canary` is a host macOS workflow. Run it on the Mac host, not inside the devcontainer."@
            },
            DesktopErrorView::InvalidAppUrl { raw, .. } => {
                "invalid desktop app URL: "@ + raw
            },
            DesktopErrorView::UnsupportedScheme { scheme } => {
                "desktop app URL must use http or https, got "@ + scheme
            },
            DesktopErrorView::MissingInstallScript { path } => {
                "missing Electron install script at "@ + path
                    + "; run `pnpm dev:desktop:install` first"@
            },
            DesktopErrorView::BundleNotCreated { info_plist, binary, versions } => {
                "Electron install completed without creating a valid macOS app bundle; expected "@
                    + info_plist + ", "@ + binary + ", and "@ + versions
            },
            DesktopErrorView::InspectDist { path, .. } => {
                "failed to inspect "@ + path
            },
            DesktopErrorView::RemoveDist { path, .. } => {
                "failed to remove incomplete "@ + path
            },
            DesktopErrorView::ReadPlist { key, path, .. } => {
                "failed to read "@ + key + " from "@ + path
            },
            DesktopErrorView::UpdatePlist { path, .. } => {
                "failed to update "@ + path
            },
            DesktopErrorView::PlistRejected { path, stderr } => {
                "failed to update "@ + path + ": "@ + stderr
            },
            DesktopErrorView::Resign { path, .. } => {
                "failed to re-sign "@ + path
            },
            DesktopErrorView::ResignRejected { path, stderr } => {
                "failed to re-sign "@ + path + ": "@ + stderr
            },
            DesktopErrorView::ListPids { .. } => {
                "failed to run lsof while stopping Fluxer Canary"@
            },
            DesktopErrorView::StartKill { .. } => {
                "failed to run kill while stopping Fluxer Canary"@
            },
            DesktopErrorView::KillRejected { pids } => {
                "failed to stop Fluxer Canary process(es): "@ + text::joined(pids, ", "@)
            },
            DesktopErrorView::Command { cause } => {
                cause
            },
            DesktopErrorView::UnexpectedReply { at } => {
                "the reply at position "@ + text::decimal(at as nat)
                    + " does not answer the question"@
            },
        }
    }

    /// The reason that outside code gave, where it gave one beside the message.
    pub open spec fn cause_view(self) -> Option<Seq<char>> {
        match self {
            DesktopErrorView::InvalidAppUrl { cause, .. } => Some(cause),
            DesktopErrorView::InspectDist { cause, .. } => Some(cause),
            DesktopErrorView::RemoveDist { cause, .. } => Some(cause),
            DesktopErrorView::ReadPlist { cause, .. } => Some(cause),
            DesktopErrorView::UpdatePlist { cause, .. } => Some(cause),
            DesktopErrorView::Resign { cause, .. } => Some(cause),
            DesktopErrorView::ListPids { cause, .. } => Some(cause),
            DesktopErrorView::StartKill { cause, .. } => Some(cause),
            _ => None,
        }
    }
}

impl DesktopError {
    /// The message to report.
    pub fn message(&self) -> (res: String)
        ensures
            res@ == self.deep_view().message_view(),
    {
        match self {
            DesktopError::HostNotMacos =>
                "`desktop canary` is a host macOS workflow. Run it on the Mac host, not inside the devcontainer.".to_owned(),
            DesktopError::InvalidAppUrl { raw, .. } => {
                let mut res = "invalid desktop app URL: ".to_owned();
                res.append(raw.as_str());
                res
            },
            DesktopError::UnsupportedScheme { scheme } => {
                let mut res = "desktop app URL must use http or https, got ".to_owned();
                res.append(scheme.as_str());
                res
            },
            DesktopError::MissingInstallScript { path } => {
                let mut res = "missing Electron install script at ".to_owned();
                res.append(path.as_str());
                res.append("; run `pnpm dev:desktop:install` first");
                res
            },
            DesktopError::BundleNotCreated { info_plist, binary, versions } => {
                let mut res =
                    "Electron install completed without creating a valid macOS app bundle; expected "
                    .to_owned();
                res.append(info_plist.as_str());
                res.append(", ");
                res.append(binary.as_str());
                res.append(", and ");
                res.append(versions.as_str());
                res
            },
            DesktopError::InspectDist { path, .. } => {
                let mut res = "failed to inspect ".to_owned();
                res.append(path.as_str());
                res
            },
            DesktopError::RemoveDist { path, .. } => {
                let mut res = "failed to remove incomplete ".to_owned();
                res.append(path.as_str());
                res
            },
            DesktopError::ReadPlist { key, path, .. } => {
                let mut res = "failed to read ".to_owned();
                res.append(key.as_str());
                res.append(" from ");
                res.append(path.as_str());
                res
            },
            DesktopError::UpdatePlist { path, .. } => {
                let mut res = "failed to update ".to_owned();
                res.append(path.as_str());
                res
            },
            DesktopError::PlistRejected { path, stderr } => {
                let mut res = "failed to update ".to_owned();
                res.append(path.as_str());
                res.append(": ");
                res.append(stderr.as_str());
                res
            },
            DesktopError::Resign { path, .. } => {
                let mut res = "failed to re-sign ".to_owned();
                res.append(path.as_str());
                res
            },
            DesktopError::ResignRejected { path, stderr } => {
                let mut res = "failed to re-sign ".to_owned();
                res.append(path.as_str());
                res.append(": ");
                res.append(stderr.as_str());
                res
            },
            DesktopError::ListPids { .. } => {
                "failed to run lsof while stopping Fluxer Canary".to_owned()
            },
            DesktopError::StartKill { .. } => {
                "failed to run kill while stopping Fluxer Canary".to_owned()
            },
            DesktopError::KillRejected { pids } => {
                let mut res = "failed to stop Fluxer Canary process(es): ".to_owned();
                res.append(text::join_text(pids.as_slice(), ", ").as_str());
                res
            },
            DesktopError::Command { cause } => cause.clone(),
            DesktopError::UnexpectedReply { at } => {
                let mut res = "the reply at position ".to_owned();
                res.append(text::decimal_text(*at as u64).as_str());
                res.append(" does not answer the question");
                res
            },
        }
    }

    /// The reason that outside code gave beside the message, if it gave one.
    pub fn cause(&self) -> (res: Option<String>)
        ensures
            res.deep_view() == self.deep_view().cause_view(),
    {
        match self {
            DesktopError::InvalidAppUrl { cause, .. } => Some(cause.clone()),
            DesktopError::InspectDist { cause, .. } => Some(cause.clone()),
            DesktopError::RemoveDist { cause, .. } => Some(cause.clone()),
            DesktopError::ReadPlist { cause, .. } => Some(cause.clone()),
            DesktopError::UpdatePlist { cause, .. } => Some(cause.clone()),
            DesktopError::Resign { cause, .. } => Some(cause.clone()),
            DesktopError::ListPids { cause, .. } => Some(cause.clone()),
            DesktopError::StartKill { cause, .. } => Some(cause.clone()),
            _ => None,
        }
    }
}

/// The message of an error says what failed and names what it failed on; the reason that outside
/// code gave stands beside it, in every error that has one but that of a command, whose message it
/// is.
pub proof fn law_messages_name_what_failed(
    raw: Seq<char>,
    path: Seq<char>,
    key: Seq<char>,
    stderr: Seq<char>,
    cause: Seq<char>,
)
    ensures
        DesktopErrorView::HostNotMacos.message_view()
            == "`desktop canary` is a host macOS workflow. Run it on the Mac host, not inside the devcontainer."@,
        DesktopErrorView::HostNotMacos.cause_view() is None,
        (DesktopErrorView::InvalidAppUrl { raw, cause }).message_view()
            == "invalid desktop app URL: "@ + raw,
        (DesktopErrorView::InvalidAppUrl { raw, cause }).cause_view() == Some(cause),
        (DesktopErrorView::UnsupportedScheme { scheme: raw }).message_view()
            == "desktop app URL must use http or https, got "@ + raw,
        (DesktopErrorView::UnsupportedScheme { scheme: raw }).cause_view() is None,
        (DesktopErrorView::MissingInstallScript { path }).message_view()
            == "missing Electron install script at "@ + path
            + "; run `pnpm dev:desktop:install` first"@,
        (DesktopErrorView::MissingInstallScript { path }).cause_view() is None,
        (DesktopErrorView::InspectDist { path, cause }).message_view() == "failed to inspect "@
            + path,
        (DesktopErrorView::InspectDist { path, cause }).cause_view() == Some(cause),
        (DesktopErrorView::RemoveDist { path, cause }).message_view()
            == "failed to remove incomplete "@ + path,
        (DesktopErrorView::RemoveDist { path, cause }).cause_view() == Some(cause),
        (DesktopErrorView::ReadPlist { key, path, cause }).message_view() == "failed to read "@
            + key + " from "@ + path,
        (DesktopErrorView::ReadPlist { key, path, cause }).cause_view() == Some(cause),
        (DesktopErrorView::UpdatePlist { path, cause }).message_view() == "failed to update "@
            + path,
        (DesktopErrorView::UpdatePlist { path, cause }).cause_view() == Some(cause),
        (DesktopErrorView::PlistRejected { path, stderr }).message_view() == "failed to update "@
            + path + ": "@ + stderr,
        (DesktopErrorView::PlistRejected { path, stderr }).cause_view() is None,
        (DesktopErrorView::Resign { path, cause }).message_view() == "failed to re-sign "@ + path,
        (DesktopErrorView::Resign { path, cause }).cause_view() == Some(cause),
        (DesktopErrorView::ResignRejected { path, stderr }).message_view() == "failed to re-sign "@
            + path + ": "@ + stderr,
        (DesktopErrorView::ResignRejected { path, stderr }).cause_view() is None,
        (DesktopErrorView::ListPids { cause }).message_view()
            == "failed to run lsof while stopping Fluxer Canary"@,
        (DesktopErrorView::ListPids { cause }).cause_view() == Some(cause),
        (DesktopErrorView::StartKill { cause }).message_view()
            == "failed to run kill while stopping Fluxer Canary"@,
        (DesktopErrorView::StartKill { cause }).cause_view() == Some(cause),
        (DesktopErrorView::Command { cause }).message_view() == cause,
        (DesktopErrorView::Command { cause }).cause_view() is None,
{
}

/// The messages that list things list all of them: the places where the bundle was expected, and
/// the processes that were not stopped. A reply that does not fit is named by its position.
pub proof fn law_messages_list_everything(
    info_plist: Seq<char>,
    binary: Seq<char>,
    versions: Seq<char>,
    first: Seq<char>,
    pids: Seq<Seq<char>>,
    at: usize,
)
    ensures
        (DesktopErrorView::BundleNotCreated { info_plist, binary, versions }).message_view()
            == "Electron install completed without creating a valid macOS app bundle; expected "@
            + info_plist + ", "@ + binary + ", and "@ + versions,
        (DesktopErrorView::BundleNotCreated { info_plist, binary, versions }).cause_view() is None,
        (DesktopErrorView::KillRejected { pids: seq![first] }).message_view()
            == "failed to stop Fluxer Canary process(es): "@ + first,
        pids.len() > 0 ==> (DesktopErrorView::KillRejected {
            pids: pids.push(first),
        }).message_view() == (DesktopErrorView::KillRejected { pids }).message_view() + ", "@
            + first,
        (DesktopErrorView::KillRejected { pids }).cause_view() is None,
        (DesktopErrorView::UnexpectedReply { at }).message_view() == "the reply at position "@
            + text::decimal(at as nat) + " does not answer the question"@,
        (DesktopErrorView::UnexpectedReply { at }).cause_view() is None,
{
    text::law_joined_lists(seq![first], Seq::empty(), ", "@);
    text::law_joined_lists(pids, seq![first], ", "@);
    assert(pids + seq![first] =~= pids.push(first));
    let start = "failed to stop Fluxer Canary process(es): "@;
    if pids.len() > 0 {
        assert(start + (text::joined(pids, ", "@) + ", "@ + first) =~= start + text::joined(
            pids,
            ", "@,
        ) + ", "@ + first);
    }
}

/// The view of an error is the same error, with every text that it holds.
pub proof fn law_error_view(error: DesktopError)
    ensures
        error matches DesktopError::HostNotMacos ==> error.deep_view() is HostNotMacos,
        error matches DesktopError::InvalidAppUrl { raw, cause } ==> error.deep_view() == (
        DesktopErrorView::InvalidAppUrl { raw: raw@, cause: cause@ }),
        error matches DesktopError::UnsupportedScheme { scheme } ==> error.deep_view() == (
        DesktopErrorView::UnsupportedScheme { scheme: scheme@ }),
        error matches DesktopError::MissingInstallScript { path } ==> error.deep_view() == (
        DesktopErrorView::MissingInstallScript { path: path@ }),
        error matches DesktopError::BundleNotCreated { info_plist, binary, versions }
            ==> error.deep_view() == (DesktopErrorView::BundleNotCreated {
            info_plist: info_plist@,
            binary: binary@,
            versions: versions@,
        }),
        error matches DesktopError::InspectDist { path, cause } ==> error.deep_view() == (
        DesktopErrorView::InspectDist { path: path@, cause: cause@ }),
        error matches DesktopError::RemoveDist { path, cause } ==> error.deep_view() == (
        DesktopErrorView::RemoveDist { path: path@, cause: cause@ }),
        error matches DesktopError::ReadPlist { key, path, cause } ==> error.deep_view() == (
        DesktopErrorView::ReadPlist { key: key@, path: path@, cause: cause@ }),
        error matches DesktopError::UpdatePlist { path, cause } ==> error.deep_view() == (
        DesktopErrorView::UpdatePlist { path: path@, cause: cause@ }),
        error matches DesktopError::PlistRejected { path, stderr } ==> error.deep_view() == (
        DesktopErrorView::PlistRejected { path: path@, stderr: stderr@ }),
        error matches DesktopError::Resign { path, cause } ==> error.deep_view() == (
        DesktopErrorView::Resign { path: path@, cause: cause@ }),
        error matches DesktopError::ResignRejected { path, stderr } ==> error.deep_view() == (
        DesktopErrorView::ResignRejected { path: path@, stderr: stderr@ }),
        error matches DesktopError::ListPids { cause } ==> error.deep_view() == (
        DesktopErrorView::ListPids { cause: cause@ }),
        error matches DesktopError::StartKill { cause } ==> error.deep_view() == (
        DesktopErrorView::StartKill { cause: cause@ }),
        error matches DesktopError::KillRejected { pids } ==> error.deep_view() == (
        DesktopErrorView::KillRejected { pids: pids.deep_view() }),
        error matches DesktopError::Command { cause } ==> error.deep_view() == (
        DesktopErrorView::Command { cause: cause@ }),
        error matches DesktopError::UnexpectedReply { at } ==> error.deep_view() == (
        DesktopErrorView::UnexpectedReply { at }),
{
}

} // verus!
