//! What reading and updating the settings is for.
use vstd::prelude::*;

use crate::configure::{
    after_arguments, after_environment, after_proxy, language_of, LanguageStageView,
    UpdateStageView,
};
use crate::dialogue::{
    carried_out, converses, lemma_exchange, logged, outcome, stores_setting, tally, Dialogue,
    Exchange, World,
};
use crate::host::{Lang, Level, ReplyView, RequestView, Turn};
use crate::laws::configure::{failed_update_stores_nothing, update_applies_the_patch};
use crate::settings::{DshEnvironmentVariableView, SettingPatchView, SettingView};

verus! {

/// After an update that succeeded, each value that the patch holds is the value in the
/// settings, both in those that are returned and in those that are stored; of the proxy it
/// is the form that the host made of it. Every value that the patch does not hold is as it
/// was, and so is every value that no patch can hold. The integration is in place if and
/// only if it was asked for, or was in place before and not asked about. Nothing else
/// changes.
pub proof fn each_value_is_in_force(
    patch: SettingPatchView,
    world: World,
    talk: Seq<Exchange>,
    setting: SettingView,
)
    requires
        converses(UpdateStageView::Reading(patch), talk, Ok(setting)),
        carried_out(world, talk),
    ensures
        patch.port matches Some(port) ==> port > 0 && setting.port == port,
        patch.port is None ==> setting.port == world.setting.port,
        patch.auto_start matches Some(auto_start) ==> setting.auto_start == auto_start,
        patch.auto_start is None ==> setting.auto_start == world.setting.auto_start,
        patch.http_proxy matches Some(proxy) ==> exists|i: int|
            {
                &&& 0 <= i < talk.len()
                &&& (#[trigger] talk[i]).request == RequestView::NormalizeHttpProxy(proxy)
                &&& talk[i].reply == ReplyView::TextOutcome(Ok(setting.http_proxy))
            },
        patch.http_proxy is None ==> setting.http_proxy == world.setting.http_proxy,
        patch.dsh_environment matches Some(environment) ==> setting.dsh_environment == environment,
        patch.dsh_environment is None ==> setting.dsh_environment == world.setting.dsh_environment,
        patch.dsh_arguments matches Some(arguments) ==> setting.dsh_arguments == arguments,
        patch.dsh_arguments is None ==> setting.dsh_arguments == world.setting.dsh_arguments,
        patch.cli_link_enabled matches Some(enabled) ==> {
            &&& setting.cli_link_enabled == enabled
            &&& outcome(world, talk).linked == enabled
        },
        patch.cli_link_enabled is None ==> {
            &&& setting.cli_link_enabled == world.setting.cli_link_enabled
            &&& outcome(world, talk).linked == world.linked
        },
        setting.installed == world.setting.installed,
        setting.preinstall_done == world.setting.preinstall_done,
        setting.language == world.setting.language,
        outcome(world, talk) == (World { setting, linked: outcome(world, talk).linked, ..world }),
        tally(talk, stores_setting()) == 1,
{
    update_applies_the_patch(patch, world, talk, setting);
}

/// An update that failed has stored nothing. It failed for a port of zero, before anything
/// was checked, or else with the message of the request that was refused, which is its last.
/// Nothing is changed but, where the patch asks for that, the integration.
pub proof fn failed_update_keeps_the_settings(
    patch: SettingPatchView,
    world: World,
    talk: Seq<Exchange>,
    message: Seq<char>,
)
    requires
        converses(UpdateStageView::Reading(patch), talk, Err(message)),
        carried_out(world, talk),
    ensures
        patch.port == Some(0u16) ==> {
            &&& message == "port must be a positive number"@
            &&& talk.len() == 1
            &&& talk[0].request == RequestView::ReadSetting
        },
        patch.port != Some(0u16) ==> {
            ||| talk.last().reply == ReplyView::Outcome(Err(message))
            ||| talk.last().reply == ReplyView::TextOutcome(Err(message))
        },
        tally(talk, stores_setting()) == 0,
        outcome(world, talk) == (World { linked: outcome(world, talk).linked, ..world }),
        patch.cli_link_enabled is None ==> outcome(world, talk) == world,
{
    failed_update_stores_nothing(patch, world, talk, message);
}

/// Whether `reply` is not a refusal.
spec fn passes(reply: ReplyView) -> bool {
    match reply {
        ReplyView::Outcome(Err(_)) => false,
        ReplyView::TextOutcome(Err(_)) => false,
        _ => true,
    }
}

/// What an update asks after the arguments.
proof fn lemma_linking_on(
    setting: SettingView,
    link: Option<bool>,
    talk: Seq<Exchange>,
    end: Result<SettingView, Seq<char>>,
)
    requires
        converses(after_arguments(setting, link), talk, end),
    ensures
        ({
            let store: int = if link is Some {
                1
            } else {
                0
            };
            &&& 1 <= talk.len() <= store + 1
            &&& link matches Some(enabled) ==> talk[0].request == (if enabled {
                RequestView::EnsureCliLink
            } else {
                RequestView::RemoveCliLink
            })
            &&& end is Ok <==> talk.len() == store + 1
            &&& end matches Ok(stored) ==> talk[store].request == RequestView::StoreSetting(stored)
            &&& end is Ok <==> passes(talk.last().reply)
            &&& forall|i: int| 0 <= i < talk.len() - 1 ==> passes((#[trigger] talk[i]).reply)
        }),
{
    reveal_with_fuel(converses, 3);
    if link is Some && passes(talk[0].reply) {
        assert(talk[1] == talk.drop_first()[0]);
    }
}

/// What an update asks after the environment.
proof fn lemma_arguments_on(
    setting: SettingView,
    arguments: Option<Seq<Seq<char>>>,
    link: Option<bool>,
    talk: Seq<Exchange>,
    end: Result<SettingView, Seq<char>>,
)
    requires
        converses(after_environment(setting, arguments, link), talk, end),
    ensures
        ({
            let linking: int = if arguments is Some {
                1
            } else {
                0
            };
            let store: int = if link is Some {
                linking + 1
            } else {
                linking
            };
            &&& 1 <= talk.len() <= store + 1
            &&& arguments matches Some(arguments) ==> talk[0].request
                == RequestView::ValidateArguments(arguments)
            &&& link is Some && linking < talk.len() ==> talk[linking].request == (
            if link->Some_0 {
                RequestView::EnsureCliLink
            } else {
                RequestView::RemoveCliLink
            })
            &&& end is Ok <==> talk.len() == store + 1
            &&& end matches Ok(stored) ==> talk[store].request == RequestView::StoreSetting(stored)
            &&& end is Ok <==> passes(talk.last().reply)
            &&& forall|i: int| 0 <= i < talk.len() - 1 ==> passes((#[trigger] talk[i]).reply)
        }),
{
    match arguments {
        None => lemma_linking_on(setting, link, talk, end),
        Some(arguments) => {
            if passes(talk[0].reply) {
                let rest = talk.drop_first();
                let setting = SettingView { dsh_arguments: arguments, ..setting };
                assert(converses(after_arguments(setting, link), rest, end));
                lemma_linking_on(setting, link, rest, end);
                assert(talk.last() == rest.last());
                assert forall|i: int| 0 <= i < talk.len() - 1 implies passes(
                    (#[trigger] talk[i]).reply,
                ) by {
                    if i > 0 {
                        assert(talk[i] == rest[i - 1]);
                    }
                }
            }
        },
    }
}

/// What an update asks after the proxy.
proof fn lemma_environment_on(
    setting: SettingView,
    environment: Option<Seq<DshEnvironmentVariableView>>,
    arguments: Option<Seq<Seq<char>>>,
    link: Option<bool>,
    talk: Seq<Exchange>,
    end: Result<SettingView, Seq<char>>,
)
    requires
        converses(after_proxy(setting, environment, arguments, link), talk, end),
    ensures
        ({
            let checking: int = if environment is Some {
                1
            } else {
                0
            };
            let linking: int = if arguments is Some {
                checking + 1
            } else {
                checking
            };
            let store: int = if link is Some {
                linking + 1
            } else {
                linking
            };
            &&& 1 <= talk.len() <= store + 1
            &&& environment matches Some(environment) ==> talk[0].request
                == RequestView::ValidateEnvironment(environment)
            &&& arguments is Some && checking < talk.len() ==> talk[checking].request
                == RequestView::ValidateArguments(arguments->Some_0)
            &&& link is Some && linking < talk.len() ==> talk[linking].request == (
            if link->Some_0 {
                RequestView::EnsureCliLink
            } else {
                RequestView::RemoveCliLink
            })
            &&& end is Ok <==> talk.len() == store + 1
            &&& end matches Ok(stored) ==> talk[store].request == RequestView::StoreSetting(stored)
            &&& end is Ok <==> passes(talk.last().reply)
            &&& forall|i: int| 0 <= i < talk.len() - 1 ==> passes((#[trigger] talk[i]).reply)
        }),
{
    match environment {
        None => lemma_arguments_on(setting, arguments, link, talk, end),
        Some(environment) => {
            if passes(talk[0].reply) {
                let rest = talk.drop_first();
                let setting = SettingView { dsh_environment: environment, ..setting };
                assert(converses(after_environment(setting, arguments, link), rest, end));
                lemma_arguments_on(setting, arguments, link, rest, end);
                assert(talk.last() == rest.last());
                assert forall|i: int| 0 <= i < talk.len() - 1 implies passes(
                    (#[trigger] talk[i]).reply,
                ) by {
                    if i > 0 {
                        assert(talk[i] == rest[i - 1]);
                    }
                }
            }
        },
    }
}

/// An update reads the settings and then has each value that needs it checked, in this
/// order: the proxy, the environment, the arguments. Then it puts the integration in place
/// or takes it away, and last of all it stores what it returns. A value that the patch does
/// not hold is passed over. The first refusal ends the update, and an update that nothing
/// refuses succeeds.
pub proof fn update_goes_from_check_to_check(
    patch: SettingPatchView,
    world: World,
    talk: Seq<Exchange>,
    end: Result<SettingView, Seq<char>>,
)
    requires
        patch.port != Some(0u16),
        converses(UpdateStageView::Reading(patch), talk, end),
        carried_out(world, talk),
    ensures
        ({
            let environment: int = if patch.http_proxy is Some {
                2
            } else {
                1
            };
            let arguments: int = if patch.dsh_environment is Some {
                environment + 1
            } else {
                environment
            };
            let link: int = if patch.dsh_arguments is Some {
                arguments + 1
            } else {
                arguments
            };
            let store: int = if patch.cli_link_enabled is Some {
                link + 1
            } else {
                link
            };
            &&& 2 <= talk.len() <= store + 1
            &&& talk[0].request == RequestView::ReadSetting
            &&& patch.http_proxy matches Some(proxy) ==> talk[1].request
                == RequestView::NormalizeHttpProxy(proxy)
            &&& patch.dsh_environment is Some && environment < talk.len() ==> {
                talk[environment].request == RequestView::ValidateEnvironment(
                    patch.dsh_environment->Some_0,
                )
            }
            &&& patch.dsh_arguments is Some && arguments < talk.len() ==> {
                talk[arguments].request == RequestView::ValidateArguments(
                    patch.dsh_arguments->Some_0,
                )
            }
            &&& patch.cli_link_enabled is Some && link < talk.len() ==> talk[link].request == (
            if patch.cli_link_enabled->Some_0 {
                RequestView::EnsureCliLink
            } else {
                RequestView::RemoveCliLink
            })
            &&& end is Ok <==> talk.len() == store + 1
            &&& end matches Ok(stored) ==> talk[store].request == RequestView::StoreSetting(stored)
            &&& end is Ok <==> forall|i: int|
                0 <= i < talk.len() ==> match (#[trigger] talk[i]).reply {
                    ReplyView::Outcome(Err(_)) => false,
                    ReplyView::TextOutcome(Err(_)) => false,
                    _ => true,
                }
        }),
{
    let stage = UpdateStageView::Reading(patch);
    let rest = talk.drop_first();
    assert(talk.skip(0) =~= talk);
    lemma_exchange(stage, world, talk, end, 0);
    if let Turn::Ask(next) = stage.hears(talk[0].reply) {
        assert(converses(next, rest, end));
        if let UpdateStageView::NormalizingProxy { setting, environment, arguments, link, .. } =
            next {
            assert(talk[1] == rest[0]);
            if let ReplyView::TextOutcome(Ok(http_proxy)) = rest[0].reply {
                let later = rest.drop_first();
                let setting = SettingView { http_proxy, ..setting };
                assert(converses(
                    after_proxy(setting, environment, arguments, link),
                    later,
                    end,
                ));
                lemma_environment_on(setting, environment, arguments, link, later, end);
                assert(talk.last() == later.last());
                assert forall|i: int| 0 <= i < talk.len() - 1 implies passes(
                    (#[trigger] talk[i]).reply,
                ) by {
                    if i > 1 {
                        assert(talk[i] == later[i - 2]);
                    }
                }
                assert forall|i: int| 0 <= i < later.len() implies #[trigger] later[i] == talk[i
                    + 2] by {}
            }
        } else {
            let setting = talk[0].reply->Setting_0;
            let setting = SettingView {
                port: if let Some(port) = patch.port {
                    port
                } else {
                    setting.port
                },
                auto_start: if let Some(auto_start) = patch.auto_start {
                    auto_start
                } else {
                    setting.auto_start
                },
                ..setting
            };
            lemma_environment_on(
                setting,
                patch.dsh_environment,
                patch.dsh_arguments,
                patch.cli_link_enabled,
                rest,
                end,
            );
            assert(talk.last() == rest.last());
            assert forall|i: int| 0 <= i < talk.len() - 1 implies passes(
                (#[trigger] talk[i]).reply,
            ) by {
                if i > 0 {
                    assert(talk[i] == rest[i - 1]);
                }
            }
            assert forall|i: int| 0 <= i < rest.len() implies #[trigger] rest[i] == talk[i
                + 1] by {}
        }
        assert(talk.last() == talk[talk.len() - 1]);
    }
}

/// The interface switches to English where the choice is `en` or `en-US`, and to Chinese for
/// every other choice. The choice is stored as it is, and no other setting changes.
pub proof fn interface_speaks_the_chosen_language(
    choice: Seq<char>,
    world: World,
    talk: Seq<Exchange>,
    end: Result<(), Seq<char>>,
)
    requires
        converses(LanguageStageView::Reading(choice), talk, end),
        carried_out(world, talk),
    ensures
        end == Ok::<(), Seq<char>>(()),
        outcome(world, talk).lang == Lang::En <==> choice == "en"@ || choice == "en-US"@,
        outcome(world, talk).lang == Lang::Zh <==> choice != "en"@ && choice != "en-US"@,
        outcome(world, talk) == (World {
            setting: SettingView { language: choice, ..world.setting },
            lang: outcome(world, talk).lang,
            ..world
        }),
        talk.len() == 3,
        talk[0].request == RequestView::ReadSetting,
        talk[1].request == RequestView::StoreSetting(
            SettingView { language: choice, ..world.setting },
        ),
        talk[2].request == RequestView::ApplyLanguage(outcome(world, talk).lang),
        language_of(choice) == Lang::En <==> choice == "en"@ || choice == "en-US"@,
        logged(talk) == Seq::<(Level, Seq<char>)>::empty(),
{
    assert(talk.skip(0) =~= talk);
    lemma_exchange(LanguageStageView::Reading(choice), world, talk, end, 0);
    let setting = SettingView { language: choice, ..world.setting };
    let lang = language_of(choice);
    lemma_exchange(LanguageStageView::Storing(setting, lang), world, talk, end, 1);
    lemma_exchange(LanguageStageView::Applying(lang), talk[1].after, talk, end, 2);
    assert(talk.skip(3).len() == 0);
}

} // verus!
