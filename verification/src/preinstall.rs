//! The guide for the preinstalled plugins: installing them, skipping them, and opening
//! their repositories.
use vstd::prelude::*;

use crate::dialogue::Dialogue;
use crate::host::{Reply, ReplyView, Request, RequestView, Turn};
use crate::settings::{Setting, SettingView};
use crate::text::joined;

verus! {

/// A stage of closing the guide: it starts at `Reading`. `S` stands for settings.
#[derive(Debug, PartialEq, Eq)]
pub enum SkipStage<S> {
    Reading,
    Storing(S),
}

impl<S: DeepView> DeepView for SkipStage<S> {
    type V = SkipStage<S::V>;

    open spec fn deep_view(&self) -> SkipStage<S::V> {
        match *self {
            SkipStage::Reading => SkipStage::Reading,
            SkipStage::Storing(setting) => SkipStage::Storing(setting.deep_view()),
        }
    }
}

/// The settings with the guide marked as done.
pub open spec fn marked_done(setting: SettingView) -> SettingView {
    SettingView { preinstall_done: true, ..setting }
}

/// [`SkipStage`] over plain values.
pub type SkipStageView = SkipStage<SettingView>;

impl Dialogue for SkipStageView {
    type Output = ();

    open spec fn asks(self) -> RequestView {
        match self {
            SkipStage::Reading => RequestView::ReadSetting,
            SkipStage::Storing(setting) => RequestView::StoreSetting(setting),
        }
    }

    open spec fn hears(self, reply: ReplyView) -> Turn<Self, (), Seq<char>> {
        match (self, reply) {
            (SkipStage::Reading, ReplyView::Setting(setting)) => Turn::Ask(
                SkipStage::Storing(marked_done(setting)),
            ),
            (SkipStage::Storing(_), ReplyView::Done) => Turn::Return(()),
            _ => Turn::Ask(self),
        }
    }

    open spec fn left(self) -> nat {
        match self {
            SkipStage::Reading => 2,
            SkipStage::Storing(_) => 1,
        }
    }

    proof fn progress(self, reply: ReplyView) {
    }

    proof fn patience(self, reply: ReplyView) {
    }
}

impl SkipStage<Setting> {
    /// The request of this stage.
    pub fn request(&self) -> (request: Request<'_>)
        ensures
            request.deep_view() == self.deep_view().asks(),
    {
        match self {
            SkipStage::Reading => Request::ReadSetting,
            SkipStage::Storing(setting) => Request::StoreSetting(setting),
        }
    }
}

/// Closes the guide without installing anything: it is marked as done and does not come
/// up again.
pub fn skip_preinstall_plugins(stage: SkipStage<Setting>, reply: Reply) -> (turn: Turn<
    SkipStage<Setting>,
    (),
    String,
>)
    ensures
        turn.deep_view() == stage.deep_view().hears(reply.deep_view()),
{
    match (stage, reply) {
        (SkipStage::Reading, Reply::Setting(setting)) => Turn::Ask(
            SkipStage::Storing(Setting { preinstall_done: true, ..setting }),
        ),
        (SkipStage::Storing(_), Reply::Done) => Turn::Return(()),
        (stage, _) => Turn::Ask(stage),
    }
}

/// A stage of installing plugins: it starts at `Installing` with their ids. `S` stands for
/// settings and `A` for a list of ids.
#[derive(Debug, PartialEq, Eq)]
pub enum PluginStage<S, A> {
    Installing(A),
    /// The plugins are installed, and the guide is closed.
    Closing(SkipStage<S>),
}

impl<S: DeepView, A: DeepView> DeepView for PluginStage<S, A> {
    type V = PluginStage<S::V, A::V>;

    open spec fn deep_view(&self) -> PluginStage<S::V, A::V> {
        match *self {
            PluginStage::Installing(ids) => PluginStage::Installing(ids.deep_view()),
            PluginStage::Closing(stage) => PluginStage::Closing(stage.deep_view()),
        }
    }
}

/// [`PluginStage`] over plain values.
pub type PluginStageView = PluginStage<SettingView, Seq<Seq<char>>>;

impl Dialogue for PluginStageView {
    type Output = ();

    open spec fn asks(self) -> RequestView {
        match self {
            PluginStage::Installing(ids) => RequestView::InstallPlugins(ids),
            PluginStage::Closing(stage) => stage.asks(),
        }
    }

    open spec fn hears(self, reply: ReplyView) -> Turn<Self, (), Seq<char>> {
        match (self, reply) {
            (PluginStage::Installing(_), ReplyView::Outcome(outcome)) => match outcome {
                Ok(_) => Turn::Ask(PluginStage::Closing(SkipStage::Reading)),
                Err(message) => Turn::Fail(message),
            },
            (PluginStage::Closing(stage), reply) => match stage.hears(reply) {
                Turn::Ask(next) => Turn::Ask(PluginStage::Closing(next)),
                Turn::Return(_) => Turn::Return(()),
                Turn::Fail(message) => Turn::Fail(message),
            },
            _ => Turn::Ask(self),
        }
    }

    open spec fn left(self) -> nat {
        match self {
            PluginStage::Installing(_) => 3,
            PluginStage::Closing(stage) => stage.left(),
        }
    }

    proof fn progress(self, reply: ReplyView) {
        if let PluginStage::Closing(stage) = self {
            stage.progress(reply);
        }
    }

    proof fn patience(self, reply: ReplyView) {
        if let PluginStage::Closing(stage) = self {
            stage.patience(reply);
        }
    }
}

impl PluginStage<Setting, Vec<String>> {
    /// The request of this stage.
    pub fn request(&self) -> (request: Request<'_>)
        ensures
            request.deep_view() == self.deep_view().asks(),
    {
        match self {
            PluginStage::Installing(ids) => Request::InstallPlugins(ids),
            PluginStage::Closing(stage) => stage.request(),
        }
    }
}

/// Installs the chosen plugins and, where that works, marks the guide as done.
pub fn install_preinstall_plugins(
    stage: PluginStage<Setting, Vec<String>>,
    reply: Reply,
) -> (turn: Turn<PluginStage<Setting, Vec<String>>, (), String>)
    ensures
        turn.deep_view() == stage.deep_view().hears(reply.deep_view()),
{
    match (stage, reply) {
        (PluginStage::Installing(ids), Reply::Outcome(outcome)) => match outcome {
            Ok(_) => Turn::Ask(PluginStage::Closing(SkipStage::Reading)),
            Err(message) => Turn::Fail(message),
        },
        (PluginStage::Closing(stage), reply) => match skip_preinstall_plugins(stage, reply) {
            Turn::Ask(next) => Turn::Ask(PluginStage::Closing(next)),
            Turn::Return(_) => Turn::Return(()),
            Turn::Fail(message) => Turn::Fail(message),
        },
        (stage, _) => Turn::Ask(stage),
    }
}

/// A stage of opening a plugin's repository: it starts at `LookingUp` with the plugin's id.
/// `T` stands for a text.
#[derive(Debug, PartialEq, Eq)]
pub enum RepoStage<T> {
    LookingUp(T),
    /// Opening this address.
    Opening(T),
}

impl<T: DeepView> DeepView for RepoStage<T> {
    type V = RepoStage<T::V>;

    open spec fn deep_view(&self) -> RepoStage<T::V> {
        match *self {
            RepoStage::LookingUp(id) => RepoStage::LookingUp(id.deep_view()),
            RepoStage::Opening(url) => RepoStage::Opening(url.deep_view()),
        }
    }
}

/// The message for an id that is not on the preinstall list.
pub open spec fn invalid_id_message(id: Seq<char>) -> Seq<char> {
    "PREINSTALL_INVALID_ID: "@ + id
}

/// [`RepoStage`] over plain values.
pub type RepoStageView = RepoStage<Seq<char>>;

impl Dialogue for RepoStageView {
    type Output = ();

    open spec fn asks(self) -> RequestView {
        match self {
            RepoStage::LookingUp(id) => RequestView::LookUpRepo(id),
            RepoStage::Opening(url) => RequestView::OpenUrl(url),
        }
    }

    open spec fn hears(self, reply: ReplyView) -> Turn<Self, (), Seq<char>> {
        match (self, reply) {
            (RepoStage::LookingUp(id), ReplyView::MaybeText(found)) => match found {
                Some(url) => Turn::Ask(RepoStage::Opening(url)),
                None => Turn::Fail(invalid_id_message(id)),
            },
            (RepoStage::Opening(_), ReplyView::Outcome(outcome)) => match outcome {
                Ok(_) => Turn::Return(()),
                Err(message) => Turn::Fail(message),
            },
            _ => Turn::Ask(self),
        }
    }

    open spec fn left(self) -> nat {
        match self {
            RepoStage::LookingUp(_) => 2,
            RepoStage::Opening(_) => 1,
        }
    }

    proof fn progress(self, reply: ReplyView) {
    }

    proof fn patience(self, reply: ReplyView) {
    }
}

impl RepoStage<String> {
    /// The request of this stage.
    pub fn request(&self) -> (request: Request<'_>)
        ensures
            request.deep_view() == self.deep_view().asks(),
    {
        match self {
            RepoStage::LookingUp(id) => Request::LookUpRepo(id.as_str()),
            RepoStage::Opening(url) => Request::OpenUrl(url.as_str()),
        }
    }
}

/// Opens the repository of a plugin in the system browser. Only ids on the preinstall list
/// have one.
pub fn open_preinstall_repo(stage: RepoStage<String>, reply: Reply) -> (turn: Turn<
    RepoStage<String>,
    (),
    String,
>)
    ensures
        turn.deep_view() == stage.deep_view().hears(reply.deep_view()),
{
    match (stage, reply) {
        (RepoStage::LookingUp(id), Reply::MaybeText(found)) => match found {
            Some(url) => Turn::Ask(RepoStage::Opening(url)),
            None => Turn::Fail(joined("PREINSTALL_INVALID_ID: ", id.as_str())),
        },
        (RepoStage::Opening(_), Reply::Outcome(outcome)) => match outcome {
            Ok(_) => Turn::Return(()),
            Err(message) => Turn::Fail(message),
        },
        (stage, _) => Turn::Ask(stage),
    }
}

} // verus!
