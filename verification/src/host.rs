//! What the commands ask of the services around them, and what those answer.
//!
//! A command never touches a file, the network or a window itself. It asks its host for
//! one thing at a time, with a [`Request`], and goes on with the [`Reply`].
use vstd::prelude::*;

use crate::settings::{DshEnvironmentVariable, DshEnvironmentVariableView, Setting, SettingView};

verus! {

/// A part of the local installation.
#[derive(Clone, Copy, Debug, PartialEq, Eq, Structural)]
pub enum Component {
    /// The Node.js runtime.
    Nodejs,
    /// The packaged Harness distribution.
    Dsh,
    /// The bundled pnpm, which the plugin commands of the Harness need.
    Pnpm,
}

/// The state of the Harness workflow, as far as a command reads it.
#[derive(Clone, Copy, Debug, PartialEq, Eq, Structural)]
pub enum Status {
    /// An installation is under way.
    Installing,
    /// Any other state.
    Other,
}

/// A language of the interface.
#[derive(Clone, Copy, Debug, PartialEq, Eq, Structural)]
pub enum Lang {
    En,
    Zh,
}

/// The desktop platform that the application runs on.
#[derive(Clone, Copy, Debug, PartialEq, Eq, Structural)]
pub enum Platform {
    Windows,
    MacOs,
    Other,
}

/// How grave an entry in the log of the application is.
#[derive(Clone, Copy, Debug, PartialEq, Eq, Structural)]
pub enum Level {
    Debug,
    Info,
    Warn,
    Error,
}

/// What a comparison of the installed Harness with the latest release found.
#[derive(Clone, Copy, Debug, PartialEq, Eq, Structural)]
pub enum UpdateCheck {
    UpToDate,
    UpdateAvailable,
    /// The installed files are at the latest release; only the record of them is behind.
    HealUpToDate,
}

/// The latest release of the Harness package, as far as the commands speak of it.
#[derive(Clone, Debug, PartialEq, Eq)]
pub struct LatestDshPkg {
    pub tag: String,
    pub commit: String,
}

/// The texts of a [`LatestDshPkg`].
pub struct LatestDshPkgView {
    pub tag: Seq<char>,
    pub commit: Seq<char>,
}

impl DeepView for LatestDshPkg {
    type V = LatestDshPkgView;

    open spec fn deep_view(&self) -> LatestDshPkgView {
        LatestDshPkgView { tag: self.tag@, commit: self.commit@ }
    }
}

/// One tag of the repository that the Harness package is released from.
#[derive(Clone, Debug, PartialEq, Eq)]
pub struct DshPkgTag {
    pub tag: String,
    pub commit: String,
}

/// The texts of a [`DshPkgTag`].
pub struct DshPkgTagView {
    pub tag: Seq<char>,
    pub commit: Seq<char>,
}

impl DeepView for DshPkgTag {
    type V = DshPkgTagView;

    open spec fn deep_view(&self) -> DshPkgTagView {
        DshPkgTagView { tag: self.tag@, commit: self.commit@ }
    }
}

/// One thing that a command asks its host to do or to find out.
#[derive(Debug, PartialEq, Eq)]
pub enum Request<'a> {
    /// The current workflow status.
    ReadStatus,
    /// Set the workflow status to [`Status::Installing`].
    MarkInstalling,
    /// Tell the front end the current workflow status.
    EmitStatus,
    /// Whether the files of a component are in place.
    CheckInstalled(Component),
    /// The latest release of the Harness package, from the network.
    FetchLatest,
    /// The tags of the package repository, from the network.
    FetchTags,
    /// The recorded commit of the installed package.
    ReadCommit,
    /// The recorded tag of the installed package.
    ReadTag,
    /// The version that the installed files themselves state.
    ReadVersion,
    RecordCommit(&'a str),
    RecordTag(&'a str),
    /// Compare the installed Harness with the latest release.
    ResolveUpdate {
        commit: Option<&'a str>,
        tag: Option<&'a str>,
        version: Option<&'a str>,
        latest: &'a LatestDshPkg,
        tags: &'a Vec<DshPkgTag>,
    },
    /// Install what is missing or outdated; the release is the one to install, if known.
    RunInstall(Option<&'a LatestDshPkg>),
    ReadSetting,
    /// Store these settings. What else the store may hold stays as it is.
    StoreSetting(&'a Setting),
    /// Put the command line integration in place.
    EnsureCliLink,
    /// Take the command line integration away.
    RemoveCliLink,
    /// The normalized form of a proxy address, or why it is refused.
    NormalizeHttpProxy(&'a str),
    /// Whether the environment may be handed to the service.
    ValidateEnvironment(&'a Vec<DshEnvironmentVariable>),
    /// Whether the arguments may be handed to the service.
    ValidateArguments(&'a Vec<String>),
    /// Install the plugins with these ids.
    InstallPlugins(&'a Vec<String>),
    /// The repository address of a plugin on the preinstall list.
    LookUpRepo(&'a str),
    /// Ask the service on this port for its health.
    HealthCheck(u16),
    /// The address of the service on this port.
    ServiceUrl(u16),
    /// Open an address in the system browser.
    OpenUrl(&'a str),
    /// Put a text on the system clipboard.
    WriteClipboard(&'a str),
    /// Show a file in the system file manager.
    RevealItem(&'a str),
    /// Find the data directory of the application.
    LocateDataDir,
    /// Start a program with the data directory as its only argument.
    OpenDataDirWith(&'static str),
    /// Whether the path of the service log has a parent directory.
    LogHasParent,
    /// Create the parent directory of the service log where it is missing.
    CreateLogDir,
    /// Append a text to the service log, creating the log where it is missing.
    AppendLog(&'a str),
    /// Whether the service log exists.
    LogExists,
    /// The whole content of the service log.
    ReadLog,
    /// Replace the content of the service log.
    WriteLog(&'a str),
    /// Switch the language of the running application.
    ApplyLanguage(Lang),
    /// Write an entry to the log of the application itself.
    Log(Level, String),
}

/// The values in a [`Request`].
pub enum RequestView {
    ReadStatus,
    MarkInstalling,
    EmitStatus,
    CheckInstalled(Component),
    FetchLatest,
    FetchTags,
    ReadCommit,
    ReadTag,
    ReadVersion,
    RecordCommit(Seq<char>),
    RecordTag(Seq<char>),
    ResolveUpdate {
        commit: Option<Seq<char>>,
        tag: Option<Seq<char>>,
        version: Option<Seq<char>>,
        latest: LatestDshPkgView,
        tags: Seq<DshPkgTagView>,
    },
    RunInstall(Option<LatestDshPkgView>),
    ReadSetting,
    StoreSetting(SettingView),
    EnsureCliLink,
    RemoveCliLink,
    NormalizeHttpProxy(Seq<char>),
    ValidateEnvironment(Seq<DshEnvironmentVariableView>),
    ValidateArguments(Seq<Seq<char>>),
    InstallPlugins(Seq<Seq<char>>),
    LookUpRepo(Seq<char>),
    HealthCheck(u16),
    ServiceUrl(u16),
    OpenUrl(Seq<char>),
    WriteClipboard(Seq<char>),
    RevealItem(Seq<char>),
    LocateDataDir,
    OpenDataDirWith(Seq<char>),
    LogHasParent,
    CreateLogDir,
    AppendLog(Seq<char>),
    LogExists,
    ReadLog,
    WriteLog(Seq<char>),
    ApplyLanguage(Lang),
    Log(Level, Seq<char>),
}

impl<'a> DeepView for Request<'a> {
    type V = RequestView;

    open spec fn deep_view(&self) -> RequestView {
        match *self {
            Request::ReadStatus => RequestView::ReadStatus,
            Request::MarkInstalling => RequestView::MarkInstalling,
            Request::EmitStatus => RequestView::EmitStatus,
            Request::CheckInstalled(component) => RequestView::CheckInstalled(component),
            Request::FetchLatest => RequestView::FetchLatest,
            Request::FetchTags => RequestView::FetchTags,
            Request::ReadCommit => RequestView::ReadCommit,
            Request::ReadTag => RequestView::ReadTag,
            Request::ReadVersion => RequestView::ReadVersion,
            Request::RecordCommit(commit) => RequestView::RecordCommit(commit@),
            Request::RecordTag(tag) => RequestView::RecordTag(tag@),
            Request::ResolveUpdate { commit, tag, version, latest, tags } =>
                RequestView::ResolveUpdate {
                commit: commit.deep_view(),
                tag: tag.deep_view(),
                version: version.deep_view(),
                latest: latest.deep_view(),
                tags: tags.deep_view(),
            },
            Request::RunInstall(latest) => RequestView::RunInstall(latest.deep_view()),
            Request::ReadSetting => RequestView::ReadSetting,
            Request::StoreSetting(setting) => RequestView::StoreSetting(setting.deep_view()),
            Request::EnsureCliLink => RequestView::EnsureCliLink,
            Request::RemoveCliLink => RequestView::RemoveCliLink,
            Request::NormalizeHttpProxy(proxy) => RequestView::NormalizeHttpProxy(proxy@),
            Request::ValidateEnvironment(environment) => RequestView::ValidateEnvironment(
                environment.deep_view(),
            ),
            Request::ValidateArguments(arguments) => RequestView::ValidateArguments(
                arguments.deep_view(),
            ),
            Request::InstallPlugins(ids) => RequestView::InstallPlugins(ids.deep_view()),
            Request::LookUpRepo(id) => RequestView::LookUpRepo(id@),
            Request::HealthCheck(port) => RequestView::HealthCheck(port),
            Request::ServiceUrl(port) => RequestView::ServiceUrl(port),
            Request::OpenUrl(url) => RequestView::OpenUrl(url@),
            Request::WriteClipboard(text) => RequestView::WriteClipboard(text@),
            Request::RevealItem(path) => RequestView::RevealItem(path@),
            Request::LocateDataDir => RequestView::LocateDataDir,
            Request::OpenDataDirWith(program) => RequestView::OpenDataDirWith(program@),
            Request::LogHasParent => RequestView::LogHasParent,
            Request::CreateLogDir => RequestView::CreateLogDir,
            Request::AppendLog(text) => RequestView::AppendLog(text@),
            Request::LogExists => RequestView::LogExists,
            Request::ReadLog => RequestView::ReadLog,
            Request::WriteLog(text) => RequestView::WriteLog(text@),
            Request::ApplyLanguage(lang) => RequestView::ApplyLanguage(lang),
            Request::Log(level, text) => RequestView::Log(level, text@),
        }
    }
}

/// What a host answers to a [`Request`].
#[derive(Debug, PartialEq, Eq)]
pub enum Reply {
    /// It is done; there is nothing to tell.
    Done,
    Flag(bool),
    Status(Status),
    Setting(Setting),
    Text(String),
    /// A text that may be absent.
    MaybeText(Option<String>),
    /// It worked, or the reason why it did not.
    Outcome(Result<(), String>),
    /// A text, or the reason why there is none.
    TextOutcome(Result<String, String>),
    Latest(Result<LatestDshPkg, String>),
    Tags(Result<Vec<DshPkgTag>, String>),
    Verdict(UpdateCheck),
}

/// The values in a [`Reply`].
pub enum ReplyView {
    Done,
    Flag(bool),
    Status(Status),
    Setting(SettingView),
    Text(Seq<char>),
    MaybeText(Option<Seq<char>>),
    Outcome(Result<(), Seq<char>>),
    TextOutcome(Result<Seq<char>, Seq<char>>),
    Latest(Result<LatestDshPkgView, Seq<char>>),
    Tags(Result<Seq<DshPkgTagView>, Seq<char>>),
    Verdict(UpdateCheck),
}

/// The values in a result whose error is a text.
pub open spec fn result_view<T: DeepView>(result: Result<T, String>) -> Result<T::V, Seq<char>> {
    match result {
        Ok(value) => Ok(value.deep_view()),
        Err(message) => Err(message@),
    }
}

impl DeepView for Reply {
    type V = ReplyView;

    open spec fn deep_view(&self) -> ReplyView {
        match *self {
            Reply::Done => ReplyView::Done,
            Reply::Flag(flag) => ReplyView::Flag(flag),
            Reply::Status(status) => ReplyView::Status(status),
            Reply::Setting(setting) => ReplyView::Setting(setting.deep_view()),
            Reply::Text(text) => ReplyView::Text(text@),
            Reply::MaybeText(text) => ReplyView::MaybeText(text.deep_view()),
            Reply::Outcome(outcome) => ReplyView::Outcome(result_view(outcome)),
            Reply::TextOutcome(outcome) => ReplyView::TextOutcome(result_view(outcome)),
            Reply::Latest(latest) => ReplyView::Latest(result_view(latest)),
            Reply::Tags(tags) => ReplyView::Tags(result_view(tags)),
            Reply::Verdict(verdict) => ReplyView::Verdict(verdict),
        }
    }
}

/// Whether `reply` is of the kind that answers `request`.
pub open spec fn answers(request: RequestView, reply: ReplyView) -> bool {
    match request {
        RequestView::ReadStatus => reply is Status,
        RequestView::MarkInstalling
        | RequestView::EmitStatus
        | RequestView::RecordCommit(_)
        | RequestView::RecordTag(_)
        | RequestView::StoreSetting(_)
        | RequestView::ApplyLanguage(_)
        | RequestView::Log(_, _) => reply is Done,
        RequestView::CheckInstalled(_)
        | RequestView::LogHasParent
        | RequestView::LogExists => reply is Flag,
        RequestView::FetchLatest => reply is Latest,
        RequestView::FetchTags => reply is Tags,
        RequestView::ReadCommit
        | RequestView::ReadTag
        | RequestView::ReadVersion
        | RequestView::LookUpRepo(_) => reply is MaybeText,
        RequestView::ResolveUpdate { .. } => reply is Verdict,
        RequestView::ReadSetting => reply is Setting,
        RequestView::RunInstall(_)
        | RequestView::EnsureCliLink
        | RequestView::RemoveCliLink
        | RequestView::ValidateEnvironment(_)
        | RequestView::ValidateArguments(_)
        | RequestView::InstallPlugins(_)
        | RequestView::OpenUrl(_)
        | RequestView::WriteClipboard(_)
        | RequestView::RevealItem(_)
        | RequestView::LocateDataDir
        | RequestView::OpenDataDirWith(_)
        | RequestView::CreateLogDir
        | RequestView::AppendLog(_)
        | RequestView::WriteLog(_) => reply is Outcome,
        RequestView::NormalizeHttpProxy(_)
        | RequestView::HealthCheck(_)
        | RequestView::ReadLog => reply is TextOutcome,
        RequestView::ServiceUrl(_) => reply is Text,
    }
}

/// How a command goes on after a reply.
#[derive(Debug, PartialEq, Eq)]
pub enum Turn<S, O, T> {
    /// Ask the request of this stage.
    Ask(S),
    /// End with this value.
    Return(O),
    /// End with this error message.
    Fail(T),
}

impl<S: DeepView, O: DeepView, T: DeepView> DeepView for Turn<S, O, T> {
    type V = Turn<S::V, O::V, T::V>;

    open spec fn deep_view(&self) -> Turn<S::V, O::V, T::V> {
        match self {
            Turn::Ask(stage) => Turn::Ask(stage.deep_view()),
            Turn::Return(value) => Turn::Return(value.deep_view()),
            Turn::Fail(message) => Turn::Fail(message.deep_view()),
        }
    }
}

} // verus!
