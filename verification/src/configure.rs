//! Reading and updating the desktop settings.
use vstd::prelude::*;

use crate::dialogue::Dialogue;
use crate::host::{Lang, Reply, ReplyView, Request, RequestView, Turn};
use crate::settings::{
    replaced, DshEnvironmentVariable, DshEnvironmentVariableView, Setting, SettingPatch,
    SettingPatchView, SettingView,
};

verus! {

/// A stage of a settings update: it starts at `Reading` with the patch to apply. `Q`
/// stands for a patch, `S` for settings, `T` for a text, `E` for a list of environment
/// variables and `A` for a list of arguments.
///
/// `setting` holds what has been applied so far; `environment`, `arguments` and `link` are
/// the parts of the patch that are still to come.
#[derive(Debug, PartialEq, Eq)]
pub enum UpdateStage<Q, S, T, E, A> {
    Reading(Q),
    NormalizingProxy {
        setting: S,
        proxy: T,
        environment: Option<E>,
        arguments: Option<A>,
        link: Option<bool>,
    },
    CheckingEnvironment { setting: S, environment: E, arguments: Option<A>, link: Option<bool> },
    CheckingArguments { setting: S, arguments: A, link: Option<bool> },
    /// The integration is put in place or taken away before the switch is stored, so that
    /// the switch never says more than is there.
    Linking { setting: S, enabled: bool },
    Storing(S),
}

impl<
    Q: DeepView,
    S: DeepView,
    T: DeepView,
    E: DeepView,
    A: DeepView,
> DeepView for UpdateStage<Q, S, T, E, A> {
    type V = UpdateStage<Q::V, S::V, T::V, E::V, A::V>;

    open spec fn deep_view(&self) -> UpdateStage<Q::V, S::V, T::V, E::V, A::V> {
        match *self {
            UpdateStage::Reading(patch) => UpdateStage::Reading(patch.deep_view()),
            UpdateStage::NormalizingProxy { setting, proxy, environment, arguments, link } =>
                UpdateStage::NormalizingProxy {
                setting: setting.deep_view(),
                proxy: proxy.deep_view(),
                environment: environment.deep_view(),
                arguments: arguments.deep_view(),
                link,
            },
            UpdateStage::CheckingEnvironment { setting, environment, arguments, link } =>
                UpdateStage::CheckingEnvironment {
                setting: setting.deep_view(),
                environment: environment.deep_view(),
                arguments: arguments.deep_view(),
                link,
            },
            UpdateStage::CheckingArguments { setting, arguments, link } =>
                UpdateStage::CheckingArguments {
                setting: setting.deep_view(),
                arguments: arguments.deep_view(),
                link,
            },
            UpdateStage::Linking { setting, enabled } => UpdateStage::Linking {
                setting: setting.deep_view(),
                enabled,
            },
            UpdateStage::Storing(setting) => UpdateStage::Storing(setting.deep_view()),
        }
    }
}

/// [`UpdateStage`] over plain values.
pub type UpdateStageView = UpdateStage<
    SettingPatchView,
    SettingView,
    Seq<char>,
    Seq<DshEnvironmentVariableView>,
    Seq<Seq<char>>,
>;

/// The message for a port of zero.
pub open spec fn port_message() -> Seq<char> {
    "port must be a positive number"@
}

/// The stage after the proxy.
pub open spec fn after_proxy(
    setting: SettingView,
    environment: Option<Seq<DshEnvironmentVariableView>>,
    arguments: Option<Seq<Seq<char>>>,
    link: Option<bool>,
) -> UpdateStageView {
    match environment {
        Some(environment) => UpdateStage::CheckingEnvironment {
            setting,
            environment,
            arguments,
            link,
        },
        None => after_environment(setting, arguments, link),
    }
}

/// The stage after the environment.
pub open spec fn after_environment(
    setting: SettingView,
    arguments: Option<Seq<Seq<char>>>,
    link: Option<bool>,
) -> UpdateStageView {
    match arguments {
        Some(arguments) => UpdateStage::CheckingArguments { setting, arguments, link },
        None => after_arguments(setting, link),
    }
}

/// The stage after the arguments.
pub open spec fn after_arguments(setting: SettingView, link: Option<bool>) -> UpdateStageView {
    match link {
        Some(enabled) => UpdateStage::Linking { setting, enabled },
        None => UpdateStage::Storing(setting),
    }
}

impl Dialogue for UpdateStageView {
    /// The settings in force after the update.
    type Output = SettingView;

    open spec fn asks(self) -> RequestView {
        match self {
            UpdateStage::Reading(_) => RequestView::ReadSetting,
            UpdateStage::NormalizingProxy { proxy, .. } => RequestView::NormalizeHttpProxy(proxy),
            UpdateStage::CheckingEnvironment { environment, .. } =>
                RequestView::ValidateEnvironment(environment),
            UpdateStage::CheckingArguments { arguments, .. } => RequestView::ValidateArguments(
                arguments,
            ),
            UpdateStage::Linking { enabled: true, .. } => RequestView::EnsureCliLink,
            UpdateStage::Linking { enabled: false, .. } => RequestView::RemoveCliLink,
            UpdateStage::Storing(setting) => RequestView::StoreSetting(setting),
        }
    }

    open spec fn hears(self, reply: ReplyView) -> Turn<Self, SettingView, Seq<char>> {
        match (self, reply) {
            (UpdateStage::Reading(patch), ReplyView::Setting(setting)) => {
                let setting = SettingView {
                    port: replaced(setting.port, patch.port),
                    auto_start: replaced(setting.auto_start, patch.auto_start),
                    ..setting
                };
                let environment = patch.dsh_environment;
                let arguments = patch.dsh_arguments;
                let link = patch.cli_link_enabled;
                if patch.port == Some(0u16) {
                    Turn::Fail(port_message())
                } else if let Some(proxy) = patch.http_proxy {
                    Turn::Ask(
                        UpdateStage::NormalizingProxy {
                            setting,
                            proxy,
                            environment,
                            arguments,
                            link,
                        },
                    )
                } else {
                    Turn::Ask(after_proxy(setting, environment, arguments, link))
                }
            },
            (
                UpdateStage::NormalizingProxy { setting, environment, arguments, link, .. },
                ReplyView::TextOutcome(normalized),
            ) => match normalized {
                Ok(http_proxy) => Turn::Ask(
                    after_proxy(
                        SettingView { http_proxy, ..setting },
                        environment,
                        arguments,
                        link,
                    ),
                ),
                Err(message) => Turn::Fail(message),
            },
            (
                UpdateStage::CheckingEnvironment { setting, environment, arguments, link },
                ReplyView::Outcome(valid),
            ) => match valid {
                Ok(_) => Turn::Ask(
                    after_environment(
                        SettingView { dsh_environment: environment, ..setting },
                        arguments,
                        link,
                    ),
                ),
                Err(message) => Turn::Fail(message),
            },
            (
                UpdateStage::CheckingArguments { setting, arguments, link },
                ReplyView::Outcome(valid),
            ) => match valid {
                Ok(_) => Turn::Ask(
                    after_arguments(SettingView { dsh_arguments: arguments, ..setting }, link),
                ),
                Err(message) => Turn::Fail(message),
            },
            (UpdateStage::Linking { setting, enabled }, ReplyView::Outcome(linked)) =>
                match linked {
                    Ok(_) => Turn::Ask(
                        UpdateStage::Storing(SettingView { cli_link_enabled: enabled, ..setting }),
                    ),
                    Err(message) => Turn::Fail(message),
                },
            (UpdateStage::Storing(setting), ReplyView::Done) => Turn::Return(setting),
            _ => Turn::Ask(self),
        }
    }

    open spec fn left(self) -> nat {
        match self {
            UpdateStage::Reading(_) => 6,
            UpdateStage::NormalizingProxy { .. } => 5,
            UpdateStage::CheckingEnvironment { .. } => 4,
            UpdateStage::CheckingArguments { .. } => 3,
            UpdateStage::Linking { .. } => 2,
            UpdateStage::Storing(_) => 1,
        }
    }

    proof fn progress(self, reply: ReplyView) {
    }

    proof fn patience(self, reply: ReplyView) {
    }
}

/// [`UpdateStage`] over the values that a running program holds.
pub type Updating = UpdateStage<
    SettingPatch,
    Setting,
    String,
    Vec<DshEnvironmentVariable>,
    Vec<String>,
>;

impl Updating {
    /// The request of this stage.
    pub fn request(&self) -> (request: Request<'_>)
        ensures
            request.deep_view() == self.deep_view().asks(),
    {
        match self {
            UpdateStage::Reading(_) => Request::ReadSetting,
            UpdateStage::NormalizingProxy { proxy, .. } => Request::NormalizeHttpProxy(
                proxy.as_str(),
            ),
            UpdateStage::CheckingEnvironment { environment, .. } => Request::ValidateEnvironment(
                environment,
            ),
            UpdateStage::CheckingArguments { arguments, .. } => Request::ValidateArguments(
                arguments,
            ),
            UpdateStage::Linking { enabled, .. } => if *enabled {
                Request::EnsureCliLink
            } else {
                Request::RemoveCliLink
            },
            UpdateStage::Storing(setting) => Request::StoreSetting(setting),
        }
    }
}

/// Goes on after the proxy.
fn go_on_after_proxy(
    setting: Setting,
    environment: Option<Vec<DshEnvironmentVariable>>,
    arguments: Option<Vec<String>>,
    link: Option<bool>,
) -> (stage: Updating)
    ensures
        stage.deep_view() == after_proxy(
            setting.deep_view(),
            environment.deep_view(),
            arguments.deep_view(),
            link,
        ),
{
    match environment {
        Some(environment) => UpdateStage::CheckingEnvironment {
            setting,
            environment,
            arguments,
            link,
        },
        None => go_on_after_environment(setting, arguments, link),
    }
}

/// Goes on after the environment.
fn go_on_after_environment(
    setting: Setting,
    arguments: Option<Vec<String>>,
    link: Option<bool>,
) -> (stage: Updating)
    ensures
        stage.deep_view() == after_environment(setting.deep_view(), arguments.deep_view(), link),
{
    match arguments {
        Some(arguments) => UpdateStage::CheckingArguments { setting, arguments, link },
        None => go_on_after_arguments(setting, link),
    }
}

/// Goes on after the arguments.
fn go_on_after_arguments(setting: Setting, link: Option<bool>) -> (stage: Updating)
    ensures
        stage.deep_view() == after_arguments(setting.deep_view(), link),
{
    match link {
        Some(enabled) => UpdateStage::Linking { setting, enabled },
        None => UpdateStage::Storing(setting),
    }
}

/// Updates the desktop settings and returns those in force afterwards.
///
/// The values are checked one after the other, and nothing is stored unless all of them
/// pass.
pub fn update_app_config(stage: Updating, reply: Reply) -> (turn: Turn<Updating, Setting, String>)
    ensures
        turn.deep_view() == stage.deep_view().hears(reply.deep_view()),
{
    match (stage, reply) {
        (UpdateStage::Reading(patch), Reply::Setting(setting)) => {
            let mut setting = setting;
            if let Some(port) = patch.port {
                if port == 0 {
                    return Turn::Fail("port must be a positive number".to_owned());
                }
                setting.port = port;
            }
            if let Some(auto_start) = patch.auto_start {
                setting.auto_start = auto_start;
            }
            let environment = patch.dsh_environment;
            let arguments = patch.dsh_arguments;
            let link = patch.cli_link_enabled;
            match patch.http_proxy {
                Some(proxy) => Turn::Ask(
                    UpdateStage::NormalizingProxy { setting, proxy, environment, arguments, link },
                ),
                None => Turn::Ask(go_on_after_proxy(setting, environment, arguments, link)),
            }
        },
        (
            UpdateStage::NormalizingProxy { setting, proxy, environment, arguments, link },
            Reply::TextOutcome(normalized),
        ) => match normalized {
            Ok(http_proxy) => Turn::Ask(
                go_on_after_proxy(
                    Setting { http_proxy, ..setting },
                    environment,
                    arguments,
                    link,
                ),
            ),
            Err(message) => Turn::Fail(message),
        },
        (
            UpdateStage::CheckingEnvironment { setting, environment, arguments, link },
            Reply::Outcome(valid),
        ) => match valid {
            Ok(_) => Turn::Ask(
                go_on_after_environment(
                    Setting { dsh_environment: environment, ..setting },
                    arguments,
                    link,
                ),
            ),
            Err(message) => Turn::Fail(message),
        },
        (UpdateStage::CheckingArguments { setting, arguments, link }, Reply::Outcome(valid)) => {
            match valid {
                Ok(_) => Turn::Ask(
                    go_on_after_arguments(Setting { dsh_arguments: arguments, ..setting }, link),
                ),
                Err(message) => Turn::Fail(message),
            }
        },
        (UpdateStage::Linking { setting, enabled }, Reply::Outcome(linked)) => match linked {
            Ok(_) => Turn::Ask(
                UpdateStage::Storing(Setting { cli_link_enabled: enabled, ..setting }),
            ),
            Err(message) => Turn::Fail(message),
        },
        (UpdateStage::Storing(setting), Reply::Done) => Turn::Return(setting),
        (stage, _) => Turn::Ask(stage),
    }
}

/// The one stage of reading the settings.
#[derive(Clone, Copy, Debug, PartialEq, Eq, Structural)]
pub enum ReadConfigStage {
    Reading,
}

impl DeepView for ReadConfigStage {
    type V = ReadConfigStage;

    open spec fn deep_view(&self) -> ReadConfigStage {
        *self
    }
}

impl Dialogue for ReadConfigStage {
    type Output = SettingView;

    open spec fn asks(self) -> RequestView {
        RequestView::ReadSetting
    }

    open spec fn hears(self, reply: ReplyView) -> Turn<ReadConfigStage, SettingView, Seq<char>> {
        match reply {
            ReplyView::Setting(setting) => Turn::Return(setting),
            _ => Turn::Ask(self),
        }
    }

    open spec fn left(self) -> nat {
        1
    }

    proof fn progress(self, reply: ReplyView) {
    }

    proof fn patience(self, reply: ReplyView) {
    }
}

impl ReadConfigStage {
    /// The request of this stage.
    pub fn request(&self) -> (request: Request<'_>)
        ensures
            request.deep_view() == self.deep_view().asks(),
    {
        Request::ReadSetting
    }
}

/// Returns the settings in force.
pub fn get_app_config(stage: ReadConfigStage, reply: Reply) -> (turn: Turn<
    ReadConfigStage,
    Setting,
    String,
>)
    ensures
        turn.deep_view() == stage.deep_view().hears(reply.deep_view()),
{
    match reply {
        Reply::Setting(setting) => Turn::Return(setting),
        _ => Turn::Ask(stage),
    }
}

/// A stage of a change of language: it starts at `Reading` with the language that the user
/// chose. `S` stands for settings and `T` for a text.
#[derive(Debug, PartialEq, Eq)]
pub enum LanguageStage<S, T> {
    Reading(T),
    /// The settings to store, and the language to switch to next.
    Storing(S, Lang),
    Applying(Lang),
}

impl<S: DeepView, T: DeepView> DeepView for LanguageStage<S, T> {
    type V = LanguageStage<S::V, T::V>;

    open spec fn deep_view(&self) -> LanguageStage<S::V, T::V> {
        match *self {
            LanguageStage::Reading(choice) => LanguageStage::Reading(choice.deep_view()),
            LanguageStage::Storing(setting, lang) => LanguageStage::Storing(
                setting.deep_view(),
                lang,
            ),
            LanguageStage::Applying(lang) => LanguageStage::Applying(lang),
        }
    }
}

/// The language of the interface for a choice of the user: English where it is asked for
/// by one of its two names, else Chinese.
pub open spec fn language_of(choice: Seq<char>) -> Lang {
    if choice == "en"@ || choice == "en-US"@ {
        Lang::En
    } else {
        Lang::Zh
    }
}

/// [`LanguageStage`] over plain values.
pub type LanguageStageView = LanguageStage<SettingView, Seq<char>>;

impl Dialogue for LanguageStageView {
    type Output = ();

    open spec fn asks(self) -> RequestView {
        match self {
            LanguageStage::Reading(_) => RequestView::ReadSetting,
            LanguageStage::Storing(setting, _) => RequestView::StoreSetting(setting),
            LanguageStage::Applying(lang) => RequestView::ApplyLanguage(lang),
        }
    }

    open spec fn hears(self, reply: ReplyView) -> Turn<Self, (), Seq<char>> {
        match (self, reply) {
            (LanguageStage::Reading(choice), ReplyView::Setting(setting)) => Turn::Ask(
                LanguageStage::Storing(
                    SettingView { language: choice, ..setting },
                    language_of(choice),
                ),
            ),
            (LanguageStage::Storing(_, lang), ReplyView::Done) => Turn::Ask(
                LanguageStage::Applying(lang),
            ),
            (LanguageStage::Applying(_), ReplyView::Done) => Turn::Return(()),
            _ => Turn::Ask(self),
        }
    }

    open spec fn left(self) -> nat {
        match self {
            LanguageStage::Reading(_) => 3,
            LanguageStage::Storing(_, _) => 2,
            LanguageStage::Applying(_) => 1,
        }
    }

    proof fn progress(self, reply: ReplyView) {
    }

    proof fn patience(self, reply: ReplyView) {
    }
}

impl LanguageStage<Setting, String> {
    /// The request of this stage.
    pub fn request(&self) -> (request: Request<'_>)
        ensures
            request.deep_view() == self.deep_view().asks(),
    {
        match self {
            LanguageStage::Reading(_) => Request::ReadSetting,
            LanguageStage::Storing(setting, _) => Request::StoreSetting(setting),
            LanguageStage::Applying(lang) => Request::ApplyLanguage(*lang),
        }
    }
}

/// The language of the interface for a choice of the user.
pub fn language_for(choice: &String) -> (lang: Lang)
    ensures
        lang == language_of(choice@),
{
    if *choice == "en".to_owned() || *choice == "en-US".to_owned() {
        Lang::En
    } else {
        Lang::Zh
    }
}

/// Stores the user's choice of language and switches to it.
pub fn set_language(stage: LanguageStage<Setting, String>, reply: Reply) -> (turn: Turn<
    LanguageStage<Setting, String>,
    (),
    String,
>)
    ensures
        turn.deep_view() == stage.deep_view().hears(reply.deep_view()),
{
    match (stage, reply) {
        (LanguageStage::Reading(choice), Reply::Setting(setting)) => {
            let lang = language_for(&choice);
            Turn::Ask(LanguageStage::Storing(Setting { language: choice, ..setting }, lang))
        },
        (LanguageStage::Storing(_, lang), Reply::Done) => Turn::Ask(LanguageStage::Applying(lang)),
        (LanguageStage::Applying(_), Reply::Done) => Turn::Return(()),
        (stage, _) => Turn::Ask(stage),
    }
}

} // verus!
