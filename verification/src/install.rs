//! Installing what the Harness needs: the Node.js runtime, the packaged Harness and pnpm.
use vstd::prelude::*;

use crate::dialogue::Dialogue;
use crate::host::{
    Component, LatestDshPkg, LatestDshPkgView, Level, Reply, ReplyView, Request, RequestView,
    Status, Turn,
};
use crate::settings::{Setting, SettingView};
use crate::text::joined;

verus! {

/// A stage of the command line synchronisation: it starts at `Reading`. `T` stands for a
/// text.
#[derive(Debug, PartialEq, Eq)]
pub enum SyncStage<T> {
    Reading,
    /// Bringing the integration in line with this switch.
    Linking(bool),
    /// That failed, for this reason.
    Warning(T),
}

impl<T: DeepView> DeepView for SyncStage<T> {
    type V = SyncStage<T::V>;

    open spec fn deep_view(&self) -> SyncStage<T::V> {
        match *self {
            SyncStage::Reading => SyncStage::Reading,
            SyncStage::Linking(enabled) => SyncStage::Linking(enabled),
            SyncStage::Warning(reason) => SyncStage::Warning(reason.deep_view()),
        }
    }
}

/// [`SyncStage`] over plain values.
pub type SyncStageView = SyncStage<Seq<char>>;

/// The request that brings the integration in line with its switch.
pub open spec fn link_request(enabled: bool) -> RequestView {
    if enabled {
        RequestView::EnsureCliLink
    } else {
        RequestView::RemoveCliLink
    }
}

/// The warning for a synchronisation that failed.
pub open spec fn sync_warning(reason: Seq<char>) -> Seq<char> {
    "cli link sync failed: "@ + reason
}

impl Dialogue for SyncStageView {
    type Output = ();

    open spec fn asks(self) -> RequestView {
        match self {
            SyncStage::Reading => RequestView::ReadSetting,
            SyncStage::Linking(enabled) => link_request(enabled),
            SyncStage::Warning(reason) => RequestView::Log(Level::Warn, sync_warning(reason)),
        }
    }

    open spec fn hears(self, reply: ReplyView) -> Turn<Self, (), Seq<char>> {
        match (self, reply) {
            (SyncStage::Reading, ReplyView::Setting(setting)) => Turn::Ask(
                SyncStage::Linking(setting.cli_link_enabled),
            ),
            (SyncStage::Linking(_), ReplyView::Outcome(linked)) => match linked {
                Ok(_) => Turn::Return(()),
                Err(reason) => Turn::Ask(SyncStage::Warning(reason)),
            },
            (SyncStage::Warning(_), ReplyView::Done) => Turn::Return(()),
            _ => Turn::Ask(self),
        }
    }

    open spec fn left(self) -> nat {
        match self {
            SyncStage::Reading => 3,
            SyncStage::Linking(_) => 2,
            SyncStage::Warning(_) => 1,
        }
    }

    proof fn progress(self, reply: ReplyView) {
    }

    proof fn patience(self, reply: ReplyView) {
    }
}

impl SyncStage<String> {
    /// The request of this stage.
    pub fn request(&self) -> (request: Request<'_>)
        ensures
            request.deep_view() == self.deep_view().asks(),
    {
        match self {
            SyncStage::Reading => Request::ReadSetting,
            SyncStage::Linking(enabled) => if *enabled {
                Request::EnsureCliLink
            } else {
                Request::RemoveCliLink
            },
            SyncStage::Warning(reason) => Request::Log(
                Level::Warn,
                joined("cli link sync failed: ", reason.as_str()),
            ),
        }
    }
}

/// Brings the command line integration (shim and PATH entry) in line with the settings.
/// This closes an installation and holds nothing up: where it fails, one warning is logged
/// and the synchronisation ends as well as it does otherwise.
pub fn sync_cli_link(stage: SyncStage<String>, reply: Reply) -> (turn: Turn<
    SyncStage<String>,
    (),
    String,
>)
    ensures
        turn.deep_view() == stage.deep_view().hears(reply.deep_view()),
{
    match (stage, reply) {
        (SyncStage::Reading, Reply::Setting(setting)) => Turn::Ask(
            SyncStage::Linking(setting.cli_link_enabled),
        ),
        (SyncStage::Linking(_), Reply::Outcome(linked)) => match linked {
            Ok(_) => Turn::Return(()),
            Err(reason) => Turn::Ask(SyncStage::Warning(reason)),
        },
        (SyncStage::Warning(_), Reply::Done) => Turn::Return(()),
        (stage, _) => Turn::Ask(stage),
    }
}

/// Whether the installed Harness counts as up to date. The installed files are what
/// matters: without a known latest release they are kept as they are, and else the record
/// of them has to name its commit.
pub open spec fn dsh_is_current(
    files_in_place: bool,
    recorded: Option<Seq<char>>,
    latest: Option<LatestDshPkgView>,
) -> bool {
    files_in_place && (latest matches Some(release) ==> recorded == Some(release.commit))
}

/// What is logged where an installation is already under way.
pub open spec fn running_note() -> Seq<char> {
    "Installation process already running, skipping"@
}

/// The warning for a query for the latest release that failed.
pub open spec fn lookup_warning(reason: Seq<char>) -> Seq<char> {
    "Failed to check latest dsh release info, keeping local install: "@ + reason
}

/// What is logged where everything is in place.
pub open spec fn ready_note() -> Seq<char> {
    "Dependencies already installed and up to date, skipping installation"@
}

/// What is logged where something is missing or outdated.
pub open spec fn missing_note() -> Seq<char> {
    "Dependencies missing or outdated, starting installation process"@
}

/// What is logged after an installation.
pub open spec fn installed_note() -> Seq<char> {
    "Installation completed, marked as installed"@
}

/// A stage of the installation: it starts at `ReadingStatus`. `P` stands for a package
/// release, `S` for the settings and `T` for a text.
#[derive(Debug, PartialEq, Eq)]
pub enum InstallStage<P, S, T> {
    ReadingStatus,
    /// Another installation is under way.
    TellingRunning,
    ProbingNode,
    ProbingDsh { node_ok: bool },
    FetchingLatest { node_ok: bool, files_ok: bool },
    /// The latest release cannot be found out, for this reason.
    WarningOffline { node_ok: bool, files_ok: bool, reason: T },
    /// The files of the Harness are in place; `latest` is the latest release.
    ReadingCommit { node_ok: bool, latest: P },
    ProbingPnpm { node_ok: bool, dsh_ok: bool, latest: Option<P> },
    /// Everything is in place.
    TellingReady,
    ReadingReady,
    StoringReady(S),
    /// Something is missing or outdated.
    TellingMissing(Option<P>),
    MarkingInstalling(Option<P>),
    EmittingStatus(Option<P>),
    Installing(Option<P>),
    TellingInstalled,
    ReadingInstalled,
    StoringInstalled(S),
    Syncing(SyncStage<T>),
}

impl<P: DeepView, S: DeepView, T: DeepView> DeepView for InstallStage<P, S, T> {
    type V = InstallStage<P::V, S::V, T::V>;

    open spec fn deep_view(&self) -> InstallStage<P::V, S::V, T::V> {
        match *self {
            InstallStage::ReadingStatus => InstallStage::ReadingStatus,
            InstallStage::TellingRunning => InstallStage::TellingRunning,
            InstallStage::ProbingNode => InstallStage::ProbingNode,
            InstallStage::ProbingDsh { node_ok } => InstallStage::ProbingDsh { node_ok },
            InstallStage::FetchingLatest { node_ok, files_ok } => InstallStage::FetchingLatest {
                node_ok,
                files_ok,
            },
            InstallStage::WarningOffline { node_ok, files_ok, reason } =>
                InstallStage::WarningOffline { node_ok, files_ok, reason: reason.deep_view() },
            InstallStage::ReadingCommit { node_ok, latest } => InstallStage::ReadingCommit {
                node_ok,
                latest: latest.deep_view(),
            },
            InstallStage::ProbingPnpm { node_ok, dsh_ok, latest } => InstallStage::ProbingPnpm {
                node_ok,
                dsh_ok,
                latest: latest.deep_view(),
            },
            InstallStage::TellingReady => InstallStage::TellingReady,
            InstallStage::ReadingReady => InstallStage::ReadingReady,
            InstallStage::StoringReady(setting) => InstallStage::StoringReady(setting.deep_view()),
            InstallStage::TellingMissing(latest) => InstallStage::TellingMissing(
                latest.deep_view(),
            ),
            InstallStage::MarkingInstalling(latest) => InstallStage::MarkingInstalling(
                latest.deep_view(),
            ),
            InstallStage::EmittingStatus(latest) => InstallStage::EmittingStatus(
                latest.deep_view(),
            ),
            InstallStage::Installing(latest) => InstallStage::Installing(latest.deep_view()),
            InstallStage::TellingInstalled => InstallStage::TellingInstalled,
            InstallStage::ReadingInstalled => InstallStage::ReadingInstalled,
            InstallStage::StoringInstalled(setting) => InstallStage::StoringInstalled(
                setting.deep_view(),
            ),
            InstallStage::Syncing(stage) => InstallStage::Syncing(stage.deep_view()),
        }
    }
}

/// The settings with the dependencies marked as installed.
pub open spec fn marked_installed(setting: SettingView) -> SettingView {
    SettingView { installed: true, ..setting }
}

/// [`InstallStage`] over plain values.
pub type InstallStageView = InstallStage<LatestDshPkgView, SettingView, Seq<char>>;

impl Dialogue for InstallStageView {
    type Output = ();

    open spec fn asks(self) -> RequestView {
        match self {
            InstallStage::ReadingStatus => RequestView::ReadStatus,
            InstallStage::TellingRunning => RequestView::Log(Level::Info, running_note()),
            InstallStage::ProbingNode => RequestView::CheckInstalled(Component::Nodejs),
            InstallStage::ProbingDsh { .. } => RequestView::CheckInstalled(Component::Dsh),
            InstallStage::FetchingLatest { .. } => RequestView::FetchLatest,
            InstallStage::WarningOffline { reason, .. } => RequestView::Log(
                Level::Warn,
                lookup_warning(reason),
            ),
            InstallStage::ReadingCommit { .. } => RequestView::ReadCommit,
            InstallStage::ProbingPnpm { .. } => RequestView::CheckInstalled(Component::Pnpm),
            InstallStage::TellingReady => RequestView::Log(Level::Debug, ready_note()),
            InstallStage::ReadingReady => RequestView::ReadSetting,
            InstallStage::StoringReady(setting) => RequestView::StoreSetting(setting),
            InstallStage::TellingMissing(_) => RequestView::Log(Level::Debug, missing_note()),
            InstallStage::MarkingInstalling(_) => RequestView::MarkInstalling,
            InstallStage::EmittingStatus(_) => RequestView::EmitStatus,
            InstallStage::Installing(latest) => RequestView::RunInstall(latest),
            InstallStage::TellingInstalled => RequestView::Log(Level::Debug, installed_note()),
            InstallStage::ReadingInstalled => RequestView::ReadSetting,
            InstallStage::StoringInstalled(setting) => RequestView::StoreSetting(setting),
            InstallStage::Syncing(stage) => stage.asks(),
        }
    }

    open spec fn hears(self, reply: ReplyView) -> Turn<Self, (), Seq<char>> {
        match (self, reply) {
            (InstallStage::ReadingStatus, ReplyView::Status(status)) => if status
                == Status::Installing {
                Turn::Ask(InstallStage::TellingRunning)
            } else {
                Turn::Ask(InstallStage::ProbingNode)
            },
            (InstallStage::TellingRunning, ReplyView::Done) => Turn::Return(()),
            (InstallStage::ProbingNode, ReplyView::Flag(node_ok)) => Turn::Ask(
                InstallStage::ProbingDsh { node_ok },
            ),
            (InstallStage::ProbingDsh { node_ok }, ReplyView::Flag(files_ok)) => Turn::Ask(
                InstallStage::FetchingLatest { node_ok, files_ok },
            ),
            (InstallStage::FetchingLatest { node_ok, files_ok }, ReplyView::Latest(fetched)) =>
                match fetched {
                    // The record matters only where there are files that it speaks of.
                    Ok(latest) if files_ok => Turn::Ask(
                        InstallStage::ReadingCommit { node_ok, latest },
                    ),
                    Ok(latest) => Turn::Ask(
                        InstallStage::ProbingPnpm { node_ok, dsh_ok: false, latest: Some(latest) },
                    ),
                    Err(reason) => Turn::Ask(
                        InstallStage::WarningOffline { node_ok, files_ok, reason },
                    ),
                },
            (InstallStage::WarningOffline { node_ok, files_ok, .. }, ReplyView::Done) => Turn::Ask(
                InstallStage::ProbingPnpm {
                    node_ok,
                    dsh_ok: dsh_is_current(files_ok, None, None),
                    latest: None,
                },
            ),
            (InstallStage::ReadingCommit { node_ok, latest }, ReplyView::MaybeText(recorded)) =>
                Turn::Ask(
                    InstallStage::ProbingPnpm {
                        node_ok,
                        dsh_ok: dsh_is_current(true, recorded, Some(latest)),
                        latest: Some(latest),
                    },
                ),
            (InstallStage::ProbingPnpm { node_ok, dsh_ok, latest }, ReplyView::Flag(pnpm_ok)) =>
                if node_ok && dsh_ok && pnpm_ok {
                    Turn::Ask(InstallStage::TellingReady)
                } else {
                    Turn::Ask(InstallStage::TellingMissing(latest))
                },
            (InstallStage::TellingReady, ReplyView::Done) => Turn::Ask(InstallStage::ReadingReady),
            (InstallStage::TellingMissing(latest), ReplyView::Done) => Turn::Ask(
                InstallStage::MarkingInstalling(latest),
            ),
            (InstallStage::ReadingReady, ReplyView::Setting(setting)) => if setting.installed {
                Turn::Ask(InstallStage::Syncing(SyncStage::Reading))
            } else {
                Turn::Ask(InstallStage::StoringReady(marked_installed(setting)))
            },
            (InstallStage::MarkingInstalling(latest), ReplyView::Done) => Turn::Ask(
                InstallStage::EmittingStatus(latest),
            ),
            (InstallStage::EmittingStatus(latest), ReplyView::Done) => Turn::Ask(
                InstallStage::Installing(latest),
            ),
            (InstallStage::Installing(_), ReplyView::Outcome(outcome)) => match outcome {
                Ok(_) => Turn::Ask(InstallStage::TellingInstalled),
                Err(message) => Turn::Fail(message),
            },
            (InstallStage::TellingInstalled, ReplyView::Done) => Turn::Ask(
                InstallStage::ReadingInstalled,
            ),
            (InstallStage::ReadingInstalled, ReplyView::Setting(setting)) => Turn::Ask(
                InstallStage::StoringInstalled(marked_installed(setting)),
            ),
            (InstallStage::StoringReady(_), ReplyView::Done) => Turn::Ask(
                InstallStage::Syncing(SyncStage::Reading),
            ),
            (InstallStage::StoringInstalled(_), ReplyView::Done) => Turn::Ask(
                InstallStage::Syncing(SyncStage::Reading),
            ),
            (InstallStage::Syncing(stage), reply) => match stage.hears(reply) {
                Turn::Ask(next) => Turn::Ask(InstallStage::Syncing(next)),
                Turn::Return(_) => Turn::Return(()),
                Turn::Fail(message) => Turn::Fail(message),
            },
            _ => Turn::Ask(self),
        }
    }

    open spec fn left(self) -> nat {
        match self {
            InstallStage::ReadingStatus => 16,
            InstallStage::TellingRunning => 1,
            InstallStage::ProbingNode => 15,
            InstallStage::ProbingDsh { .. } => 14,
            InstallStage::FetchingLatest { .. } => 13,
            InstallStage::WarningOffline { .. } => 12,
            InstallStage::ReadingCommit { .. } => 12,
            InstallStage::ProbingPnpm { .. } => 11,
            InstallStage::TellingMissing(_) => 10,
            InstallStage::MarkingInstalling(_) => 9,
            InstallStage::EmittingStatus(_) => 8,
            InstallStage::Installing(_) => 7,
            InstallStage::TellingInstalled => 6,
            InstallStage::TellingReady => 6,
            InstallStage::ReadingInstalled => 5,
            InstallStage::ReadingReady => 5,
            InstallStage::StoringReady(_) => 4,
            InstallStage::StoringInstalled(_) => 4,
            InstallStage::Syncing(stage) => stage.left(),
        }
    }

    proof fn progress(self, reply: ReplyView) {
        if let InstallStage::Syncing(stage) = self {
            stage.progress(reply);
        }
    }

    proof fn patience(self, reply: ReplyView) {
        if let InstallStage::Syncing(stage) = self {
            stage.patience(reply);
        }
    }
}

/// [`InstallStage`] over the values that a running program holds.
pub type Installation = InstallStage<LatestDshPkg, Setting, String>;

impl Installation {
    /// The request of this stage.
    pub fn request(&self) -> (request: Request<'_>)
        ensures
            request.deep_view() == self.deep_view().asks(),
    {
        match self {
            InstallStage::ReadingStatus => Request::ReadStatus,
            InstallStage::TellingRunning => Request::Log(
                Level::Info,
                "Installation process already running, skipping".to_owned(),
            ),
            InstallStage::ProbingNode => Request::CheckInstalled(Component::Nodejs),
            InstallStage::ProbingDsh { .. } => Request::CheckInstalled(Component::Dsh),
            InstallStage::FetchingLatest { .. } => Request::FetchLatest,
            InstallStage::WarningOffline { reason, .. } => Request::Log(
                Level::Warn,
                joined(
                    "Failed to check latest dsh release info, keeping local install: ",
                    reason.as_str(),
                ),
            ),
            InstallStage::ReadingCommit { .. } => Request::ReadCommit,
            InstallStage::ProbingPnpm { .. } => Request::CheckInstalled(Component::Pnpm),
            InstallStage::TellingReady => Request::Log(
                Level::Debug,
                "Dependencies already installed and up to date, skipping installation".to_owned(),
            ),
            InstallStage::ReadingReady => Request::ReadSetting,
            InstallStage::StoringReady(setting) => Request::StoreSetting(setting),
            InstallStage::TellingMissing(_) => Request::Log(
                Level::Debug,
                "Dependencies missing or outdated, starting installation process".to_owned(),
            ),
            InstallStage::MarkingInstalling(_) => Request::MarkInstalling,
            InstallStage::EmittingStatus(_) => Request::EmitStatus,
            InstallStage::Installing(latest) => Request::RunInstall(latest.as_ref()),
            InstallStage::TellingInstalled => Request::Log(
                Level::Debug,
                "Installation completed, marked as installed".to_owned(),
            ),
            InstallStage::ReadingInstalled => Request::ReadSetting,
            InstallStage::StoringInstalled(setting) => Request::StoreSetting(setting),
            InstallStage::Syncing(stage) => stage.request(),
        }
    }
}

/// Whether the installed Harness is up to date, given the commit on record and the latest
/// release, if known.
pub fn dsh_up_to_date(
    files_in_place: bool,
    recorded: &Option<String>,
    latest: &Option<LatestDshPkg>,
) -> (current: bool)
    ensures
        current == dsh_is_current(files_in_place, recorded.deep_view(), latest.deep_view()),
{
    files_in_place && match (latest, recorded) {
        (Some(release), Some(commit)) => *commit == release.commit,
        (Some(_), None) => false,
        (None, _) => true,
    }
}

/// Installs what is missing or outdated, and marks the dependencies as installed.
///
/// An installation that is already under way is left alone. Where the latest release
/// cannot be found out, a warning is logged and the local installation is kept.
pub fn install_dependencies(stage: Installation, reply: Reply) -> (turn: Turn<
    Installation,
    (),
    String,
>)
    ensures
        turn.deep_view() == stage.deep_view().hears(reply.deep_view()),
{
    match (stage, reply) {
        (InstallStage::ReadingStatus, Reply::Status(status)) => if status == Status::Installing {
            Turn::Ask(InstallStage::TellingRunning)
        } else {
            Turn::Ask(InstallStage::ProbingNode)
        },
        (InstallStage::TellingRunning, Reply::Done) => Turn::Return(()),
        (InstallStage::ProbingNode, Reply::Flag(node_ok)) => Turn::Ask(
            InstallStage::ProbingDsh { node_ok },
        ),
        (InstallStage::ProbingDsh { node_ok }, Reply::Flag(files_ok)) => Turn::Ask(
            InstallStage::FetchingLatest { node_ok, files_ok },
        ),
        (InstallStage::FetchingLatest { node_ok, files_ok }, Reply::Latest(fetched)) => {
            match fetched {
                Ok(latest) => if files_ok {
                    Turn::Ask(InstallStage::ReadingCommit { node_ok, latest })
                } else {
                    Turn::Ask(
                        InstallStage::ProbingPnpm { node_ok, dsh_ok: false, latest: Some(latest) },
                    )
                },
                Err(reason) => Turn::Ask(
                    InstallStage::WarningOffline { node_ok, files_ok, reason },
                ),
            }
        },
        (InstallStage::WarningOffline { node_ok, files_ok, reason }, Reply::Done) => {
            let dsh_ok = dsh_up_to_date(files_ok, &None, &None);
            Turn::Ask(InstallStage::ProbingPnpm { node_ok, dsh_ok, latest: None })
        },
        (InstallStage::ReadingCommit { node_ok, latest }, Reply::MaybeText(recorded)) => {
            let latest = Some(latest);
            let dsh_ok = dsh_up_to_date(true, &recorded, &latest);
            Turn::Ask(InstallStage::ProbingPnpm { node_ok, dsh_ok, latest })
        },
        (InstallStage::ProbingPnpm { node_ok, dsh_ok, latest }, Reply::Flag(pnpm_ok)) => {
            if node_ok && dsh_ok && pnpm_ok {
                Turn::Ask(InstallStage::TellingReady)
            } else {
                Turn::Ask(InstallStage::TellingMissing(latest))
            }
        },
        (InstallStage::TellingReady, Reply::Done) => Turn::Ask(InstallStage::ReadingReady),
        (InstallStage::TellingMissing(latest), Reply::Done) => Turn::Ask(
            InstallStage::MarkingInstalling(latest),
        ),
        (InstallStage::ReadingReady, Reply::Setting(setting)) => if setting.installed {
            Turn::Ask(InstallStage::Syncing(SyncStage::Reading))
        } else {
            Turn::Ask(InstallStage::StoringReady(Setting { installed: true, ..setting }))
        },
        (InstallStage::MarkingInstalling(latest), Reply::Done) => Turn::Ask(
            InstallStage::EmittingStatus(latest),
        ),
        (InstallStage::EmittingStatus(latest), Reply::Done) => Turn::Ask(
            InstallStage::Installing(latest),
        ),
        (InstallStage::Installing(latest), Reply::Outcome(outcome)) => match outcome {
            Ok(_) => Turn::Ask(InstallStage::TellingInstalled),
            Err(message) => Turn::Fail(message),
        },
        (InstallStage::TellingInstalled, Reply::Done) => Turn::Ask(InstallStage::ReadingInstalled),
        (InstallStage::ReadingInstalled, Reply::Setting(setting)) => Turn::Ask(
            InstallStage::StoringInstalled(Setting { installed: true, ..setting }),
        ),
        (InstallStage::StoringReady(_), Reply::Done) => Turn::Ask(
            InstallStage::Syncing(SyncStage::Reading),
        ),
        (InstallStage::StoringInstalled(_), Reply::Done) => Turn::Ask(
            InstallStage::Syncing(SyncStage::Reading),
        ),
        (InstallStage::Syncing(stage), reply) => match sync_cli_link(stage, reply) {
            Turn::Ask(next) => Turn::Ask(InstallStage::Syncing(next)),
            Turn::Return(_) => Turn::Return(()),
            Turn::Fail(message) => Turn::Fail(message),
        },
        (stage, _) => Turn::Ask(stage),
    }
}

} // verus!
