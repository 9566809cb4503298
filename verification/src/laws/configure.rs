//! Laws of reading and updating the settings.
use vstd::prelude::*;

use crate::configure::{
    language_of, port_message, LanguageStageView, ReadConfigStage, UpdateStage, UpdateStageView,
};
use crate::dialogue::{
    agrees, can_be_refused, carried_out, converses, heard, lemma_heard_later, normalizes_proxy,
    outcome, stores_setting, tally, Dialogue, Exchange, World,
};
use crate::host::{ReplyView, RequestView, Turn};
use crate::install::link_request;
use crate::settings::{replaced, SettingPatchView, SettingView};

verus! {

/// Whether `reply` is the refusal of a request, with this message.
pub open spec fn refuses(reply: ReplyView, message: Seq<char>) -> bool {
    reply == ReplyView::Outcome(Err(message)) || reply == ReplyView::TextOutcome(Err(message))
}

/// Whether the host granted what `patch` asks of it: it let the proxy pass, with the
/// normalized form `proxy`, the environment and the arguments, and it put the command line
/// integration in place or took it away.
pub open spec fn granted(
    talk: Seq<Exchange>,
    patch: SettingPatchView,
    proxy: Seq<char>,
) -> bool {
    &&& patch.http_proxy matches Some(asked) ==> heard(
        talk,
        RequestView::NormalizeHttpProxy(asked),
        ReplyView::TextOutcome(Ok(proxy)),
    )
    &&& patch.dsh_environment matches Some(environment) ==> heard(
        talk,
        RequestView::ValidateEnvironment(environment),
        ReplyView::Outcome(Ok(())),
    )
    &&& patch.dsh_arguments matches Some(arguments) ==> heard(
        talk,
        RequestView::ValidateArguments(arguments),
        ReplyView::Outcome(Ok(())),
    )
    &&& patch.cli_link_enabled matches Some(enabled) ==> heard(
        talk,
        link_request(enabled),
        ReplyView::Outcome(Ok(())),
    )
}

/// Whether no value is present in both patches.
pub open spec fn disjoint(one: SettingPatchView, other: SettingPatchView) -> bool {
    &&& one.port is None || other.port is None
    &&& one.auto_start is None || other.auto_start is None
    &&& one.http_proxy is None || other.http_proxy is None
    &&& one.dsh_environment is None || other.dsh_environment is None
    &&& one.dsh_arguments is None || other.dsh_arguments is None
    &&& one.cli_link_enabled is None || other.cli_link_enabled is None
}

/// The part of an update that is still to come at a stage after the first, as a patch.
spec fn to_come(stage: UpdateStageView) -> SettingPatchView {
    let nothing = SettingPatchView {
        port: None,
        auto_start: None,
        http_proxy: None,
        dsh_environment: None,
        dsh_arguments: None,
        cli_link_enabled: None,
    };
    match stage {
        UpdateStage::Reading(patch) => patch,
        UpdateStage::NormalizingProxy { proxy, environment, arguments, link, .. } =>
            SettingPatchView {
            http_proxy: Some(proxy),
            dsh_environment: environment,
            dsh_arguments: arguments,
            cli_link_enabled: link,
            ..nothing
        },
        UpdateStage::CheckingEnvironment { environment, arguments, link, .. } => SettingPatchView {
            dsh_environment: Some(environment),
            dsh_arguments: arguments,
            cli_link_enabled: link,
            ..nothing
        },
        UpdateStage::CheckingArguments { arguments, link, .. } => SettingPatchView {
            dsh_arguments: Some(arguments),
            cli_link_enabled: link,
            ..nothing
        },
        UpdateStage::Linking { enabled, .. } => SettingPatchView {
            cli_link_enabled: Some(enabled),
            ..nothing
        },
        UpdateStage::Storing(_) => nothing,
    }
}

/// What has been applied so far at a stage after the first.
spec fn so_far(stage: UpdateStageView) -> SettingView
    recommends
        !(stage is Reading),
{
    match stage {
        UpdateStage::Reading(_) => arbitrary(),
        UpdateStage::NormalizingProxy { setting, .. } => setting,
        UpdateStage::CheckingEnvironment { setting, .. } => setting,
        UpdateStage::CheckingArguments { setting, .. } => setting,
        UpdateStage::Linking { setting, .. } => setting,
        UpdateStage::Storing(setting) => setting,
    }
}

/// What an update from any stage after the first on stores and returns.
proof fn lemma_update_from(
    stage: UpdateStageView,
    world: World,
    talk: Seq<Exchange>,
    end: Result<SettingView, Seq<char>>,
)
    requires
        !(stage is Reading),
        converses(stage, talk, end),
        carried_out(world, talk),
    ensures
        end is Err ==> {
            &&& tally(talk, stores_setting()) == 0
            &&& refuses(talk.last().reply, end->Err_0)
            &&& outcome(world, talk) == (World { linked: outcome(world, talk).linked, ..world })
            &&& to_come(stage).cli_link_enabled is None ==> outcome(world, talk) == world
        },
        end matches Ok(setting) ==> {
            &&& tally(talk, stores_setting()) == 1
            &&& setting == so_far(stage).patched(to_come(stage), setting.http_proxy)
            &&& outcome(world, talk) == (World {
                setting,
                linked: replaced(world.linked, to_come(stage).cli_link_enabled),
                ..world
            })
        },
    decreases talk.len(),
{
    let rest = talk.drop_first();
    match stage.hears(talk[0].reply) {
        Turn::Ask(next) => {
            lemma_update_from(next, talk[0].after, rest, end);
            assert(converses(next, rest, end));
            assert(talk.last() == rest.last());
        },
        _ => {
            reveal_with_fuel(tally, 2);
            reveal_with_fuel(outcome, 2);
        },
    }
}

/// An update that succeeds from any stage after the first on has been granted what is
/// still to come there.
proof fn lemma_update_granted(
    stage: UpdateStageView,
    talk: Seq<Exchange>,
    setting: SettingView,
)
    requires
        !(stage is Reading),
        converses(stage, talk, Ok(setting)),
    ensures
        stage is CheckingEnvironment || stage is CheckingArguments || stage is Linking
            || stage is Storing ==> setting.http_proxy == so_far(stage).http_proxy,
        granted(talk, to_come(stage), setting.http_proxy),
    decreases talk.len(),
{
    let rest = talk.drop_first();
    if let Turn::Ask(next) = stage.hears(talk[0].reply) {
        lemma_update_granted(next, rest, setting);
        lemma_granted_later(talk, to_come(next), setting.http_proxy);
        if let ReplyView::Outcome(Ok(unit)) = talk[0].reply {
            assert(unit == ());
        }
        assert(heard(talk, talk[0].request, talk[0].reply));
    }
}

/// What was granted in the rest of a conversation was granted in the whole of it.
proof fn lemma_granted_later(talk: Seq<Exchange>, patch: SettingPatchView, proxy: Seq<char>)
    requires
        talk.len() > 0,
        granted(talk.drop_first(), patch, proxy),
    ensures
        granted(talk, patch, proxy),
{
    if let Some(asked) = patch.http_proxy {
        lemma_heard_later(
            talk,
            RequestView::NormalizeHttpProxy(asked),
            ReplyView::TextOutcome(Ok(proxy)),
        );
    }
    if let Some(environment) = patch.dsh_environment {
        lemma_heard_later(
            talk,
            RequestView::ValidateEnvironment(environment),
            ReplyView::Outcome(Ok(())),
        );
    }
    if let Some(arguments) = patch.dsh_arguments {
        lemma_heard_later(
            talk,
            RequestView::ValidateArguments(arguments),
            ReplyView::Outcome(Ok(())),
        );
    }
    if let Some(enabled) = patch.cli_link_enabled {
        lemma_heard_later(talk, link_request(enabled), ReplyView::Outcome(Ok(())));
    }
}

/// What was answered in a conversation and not by its first exchange was answered in the
/// rest of it.
proof fn lemma_heard_not_first(talk: Seq<Exchange>, request: RequestView, reply: ReplyView)
    requires
        heard(talk, request, reply),
        talk[0].request != request,
    ensures
        heard(talk.drop_first(), request, reply),
{
    let i = choose|i: int|
        0 <= i < talk.len() && (#[trigger] talk[i]).request == request && talk[i].reply == reply;
    assert(talk.drop_first()[i - 1] == talk[i]);
}

/// What was granted in a conversation and not by its first exchange was granted in the
/// rest of it.
proof fn lemma_granted_not_first(talk: Seq<Exchange>, patch: SettingPatchView, proxy: Seq<char>)
    requires
        granted(talk, patch, proxy),
        patch.http_proxy is Some ==> !(talk[0].request is NormalizeHttpProxy),
        patch.dsh_environment is Some ==> !(talk[0].request is ValidateEnvironment),
        patch.dsh_arguments is Some ==> !(talk[0].request is ValidateArguments),
        patch.cli_link_enabled is Some ==> !(talk[0].request is EnsureCliLink
            || talk[0].request is RemoveCliLink),
    ensures
        granted(talk.drop_first(), patch, proxy),
{
    let fine = ReplyView::Outcome(Ok(()));
    if let Some(asked) = patch.http_proxy {
        lemma_heard_not_first(
            talk,
            RequestView::NormalizeHttpProxy(asked),
            ReplyView::TextOutcome(Ok(proxy)),
        );
    }
    if let Some(environment) = patch.dsh_environment {
        lemma_heard_not_first(talk, RequestView::ValidateEnvironment(environment), fine);
    }
    if let Some(arguments) = patch.dsh_arguments {
        lemma_heard_not_first(talk, RequestView::ValidateArguments(arguments), fine);
    }
    if let Some(enabled) = patch.cli_link_enabled {
        lemma_heard_not_first(talk, link_request(enabled), fine);
    }
}

/// An update that fails from any stage after the first on has not been granted all of what
/// is still to come there.
proof fn lemma_failed_update_not_granted(
    stage: UpdateStageView,
    talk: Seq<Exchange>,
    message: Seq<char>,
    proxy: Seq<char>,
)
    requires
        !(stage is Reading),
        converses(stage, talk, Err(message)),
    ensures
        !granted(talk, to_come(stage), proxy),
    decreases talk.len(),
{
    if granted(talk, to_come(stage), proxy) {
        if let Turn::Ask(next) = stage.hears(talk[0].reply) {
            lemma_failed_update_not_granted(next, talk.drop_first(), message, proxy);
            lemma_granted_not_first(talk, to_come(next), proxy);
        }
    }
}

/// A settings update that fails leaves everything as it was: nothing is stored and nothing
/// logged, and the command line integration can have changed only where the patch asks for
/// that. It fails only for a port of zero, or with the message of the request that was
/// refused.
pub proof fn failed_update_stores_nothing(
    patch: SettingPatchView,
    world: World,
    talk: Seq<Exchange>,
    message: Seq<char>,
)
    requires
        converses(UpdateStageView::Reading(patch), talk, Err(message)),
        carried_out(world, talk),
    ensures
        tally(talk, stores_setting()) == 0,
        outcome(world, talk) == (World { linked: outcome(world, talk).linked, ..world }),
        patch.cli_link_enabled is None ==> outcome(world, talk) == world,
        patch.port == Some(0u16) && message == port_message() || patch.port != Some(0u16)
            && refuses(talk.last().reply, message),
{
    let stage = UpdateStageView::Reading(patch);
    let rest = talk.drop_first();
    match stage.hears(talk[0].reply) {
        Turn::Ask(next) => {
            lemma_update_from(next, talk[0].after, rest, Err(message));
            assert(converses(next, rest, Err(message)));
            assert(talk.last() == rest.last());
        },
        _ => {
            reveal_with_fuel(tally, 2);
            reveal_with_fuel(outcome, 2);
        },
    }
}

/// A settings update that succeeds stores once, and what it stores and returns is the
/// settings as they were with the patch applied: every value that the patch holds is in
/// force, every other value is unchanged. The host has granted what was asked of it, and
/// the command line integration is as the switch says by then.
pub proof fn update_applies_the_patch(
    patch: SettingPatchView,
    world: World,
    talk: Seq<Exchange>,
    setting: SettingView,
)
    requires
        converses(UpdateStageView::Reading(patch), talk, Ok(setting)),
        carried_out(world, talk),
    ensures
        patch.port != Some(0u16),
        tally(talk, stores_setting()) == 1,
        setting == world.setting.patched(patch, setting.http_proxy),
        granted(talk, patch, setting.http_proxy),
        outcome(world, talk) == (World {
            setting,
            linked: replaced(world.linked, patch.cli_link_enabled),
            ..world
        }),
{
    let stage = UpdateStageView::Reading(patch);
    let rest = talk.drop_first();
    if let Turn::Ask(next) = stage.hears(talk[0].reply) {
        lemma_update_from(next, talk[0].after, rest, Ok(setting));
        lemma_update_granted(next, rest, setting);
        lemma_granted_later(talk, to_come(next), setting.http_proxy);
    }
}

/// An update succeeds if and only if it does not ask for a port of zero and the host
/// grants everything that is asked of it: each check and the step for the command line
/// integration.
pub proof fn update_succeeds_iff_granted(
    patch: SettingPatchView,
    world: World,
    talk: Seq<Exchange>,
    end: Result<SettingView, Seq<char>>,
)
    requires
        converses(UpdateStageView::Reading(patch), talk, end),
        carried_out(world, talk),
    ensures
        end is Ok <==> patch.port != Some(0u16) && exists|proxy: Seq<char>|
            granted(talk, patch, proxy),
{
    match end {
        Ok(setting) => update_applies_the_patch(patch, world, talk, setting),
        Err(message) => {
            let stage = UpdateStageView::Reading(patch);
            if let Turn::Ask(next) = stage.hears(talk[0].reply) {
                assert forall|proxy: Seq<char>| !granted(talk, patch, proxy) by {
                    lemma_failed_update_not_granted(next, talk.drop_first(), message, proxy);
                    if granted(talk, patch, proxy) {
                        lemma_granted_not_first(talk, patch, proxy);
                    }
                }
            }
        },
    }
}

/// Making the same update again changes nothing but the form of the proxy, and not that
/// either where the host normalizes the proxy as it did before.
pub proof fn repeated_update_changes_nothing(
    patch: SettingPatchView,
    world: World,
    first: Seq<Exchange>,
    setting: SettingView,
    second: Seq<Exchange>,
    setting_again: SettingView,
)
    requires
        converses(UpdateStageView::Reading(patch), first, Ok(setting)),
        carried_out(world, first),
        converses(UpdateStageView::Reading(patch), second, Ok(setting_again)),
        carried_out(outcome(world, first), second),
    ensures
        setting_again == (SettingView { http_proxy: setting_again.http_proxy, ..setting }),
        outcome(outcome(world, first), second) == (World {
            setting: setting_again,
            ..outcome(world, first)
        }),
        agrees(first, second, normalizes_proxy()) ==> {
            &&& setting_again == setting
            &&& outcome(outcome(world, first), second) == outcome(world, first)
        },
{
    update_applies_the_patch(patch, world, first, setting);
    update_applies_the_patch(patch, outcome(world, first), second, setting_again);
    if agrees(first, second, normalizes_proxy()) {
        lemma_same_proxy(
            patch,
            first,
            setting.http_proxy,
            patch,
            second,
            setting_again.http_proxy,
        );
    }
}

/// Two updates with no value in common can be made in either order: the settings and the
/// command line integration come out the same, but for the form of the proxy, and that too
/// where the host normalizes the proxy alike both times.
pub proof fn disjoint_updates_commute(
    one: SettingPatchView,
    other: SettingPatchView,
    world: World,
    one_first: (Seq<Exchange>, SettingView),
    other_second: (Seq<Exchange>, SettingView),
    other_first: (Seq<Exchange>, SettingView),
    one_second: (Seq<Exchange>, SettingView),
)
    requires
        disjoint(one, other),
        converses(UpdateStageView::Reading(one), one_first.0, Ok(one_first.1)),
        carried_out(world, one_first.0),
        converses(UpdateStageView::Reading(other), other_second.0, Ok(other_second.1)),
        carried_out(outcome(world, one_first.0), other_second.0),
        converses(UpdateStageView::Reading(other), other_first.0, Ok(other_first.1)),
        carried_out(world, other_first.0),
        converses(UpdateStageView::Reading(one), one_second.0, Ok(one_second.1)),
        carried_out(outcome(world, other_first.0), one_second.0),
    ensures
        other_second.1 == (SettingView {
            http_proxy: other_second.1.http_proxy,
            ..one_second.1
        }),
        outcome(outcome(world, one_first.0), other_second.0) == (World {
            setting: other_second.1,
            ..outcome(outcome(world, other_first.0), one_second.0)
        }),
        agrees(one_first.0, one_second.0, normalizes_proxy()) && agrees(
            other_first.0,
            other_second.0,
            normalizes_proxy(),
        ) ==> {
            &&& other_second.1 == one_second.1
            &&& outcome(outcome(world, one_first.0), other_second.0) == outcome(
                outcome(world, other_first.0),
                one_second.0,
            )
        },
{
    update_applies_the_patch(one, world, one_first.0, one_first.1);
    update_applies_the_patch(other, outcome(world, one_first.0), other_second.0, other_second.1);
    update_applies_the_patch(other, world, other_first.0, other_first.1);
    update_applies_the_patch(one, outcome(world, other_first.0), one_second.0, one_second.1);
    let proxies = (one_first.1.http_proxy, one_second.1.http_proxy);
    let other_proxies = (other_first.1.http_proxy, other_second.1.http_proxy);
    lemma_patches_commute(one, other, world.setting, proxies, other_proxies);
    if agrees(one_first.0, one_second.0, normalizes_proxy()) {
        lemma_same_proxy(one, one_first.0, proxies.0, one, one_second.0, proxies.1);
    }
    if agrees(other_first.0, other_second.0, normalizes_proxy()) {
        lemma_same_proxy(
            other,
            other_first.0,
            other_proxies.0,
            other,
            other_second.0,
            other_proxies.1,
        );
    }
}

/// Two patches with no value in common can be applied in either order. The pairs hold the
/// two forms of the proxy of each patch: as it came out where the patch was applied first,
/// and where it was applied second.
proof fn lemma_patches_commute(
    one: SettingPatchView,
    other: SettingPatchView,
    setting: SettingView,
    proxies: (Seq<char>, Seq<char>),
    other_proxies: (Seq<char>, Seq<char>),
)
    requires
        disjoint(one, other),
    ensures
        ({
            let here = setting.patched(one, proxies.0).patched(other, other_proxies.1);
            let there = setting.patched(other, other_proxies.0).patched(one, proxies.1);
            &&& here == (SettingView { http_proxy: here.http_proxy, ..there })
            &&& {
                &&& one.http_proxy is Some ==> proxies.0 == proxies.1
                &&& other.http_proxy is Some ==> other_proxies.0 == other_proxies.1
            } ==> here == there
        }),
{
}

/// Two updates that ask for the same proxy get the same form of it from a host that
/// normalizes alike.
proof fn lemma_same_proxy(
    one: SettingPatchView,
    first: Seq<Exchange>,
    proxy: Seq<char>,
    other: SettingPatchView,
    second: Seq<Exchange>,
    proxy_again: Seq<char>,
)
    requires
        granted(first, one, proxy),
        granted(second, other, proxy_again),
        one.http_proxy == other.http_proxy,
        agrees(first, second, normalizes_proxy()),
    ensures
        one.http_proxy is Some ==> proxy == proxy_again,
{
    if let Some(asked) = one.http_proxy {
        let request = RequestView::NormalizeHttpProxy(asked);
        let i = choose|i: int|
            0 <= i < first.len() && (#[trigger] first[i]).request == request && first[i].reply
                == ReplyView::TextOutcome(Ok(proxy));
        let j = choose|j: int|
            0 <= j < second.len() && (#[trigger] second[j]).request == request
                && second[j].reply == ReplyView::TextOutcome(Ok(proxy_again));
        assert(first[i].reply == second[j].reply);
    }
}

/// Whether `request` is one that the host can refuse and that `patch` gives rise to.
pub open spec fn arises(patch: SettingPatchView, request: RequestView) -> bool {
    ||| patch.http_proxy matches Some(proxy) && request == RequestView::NormalizeHttpProxy(proxy)
    ||| patch.dsh_environment matches Some(environment) && request
        == RequestView::ValidateEnvironment(environment)
    ||| patch.dsh_arguments matches Some(arguments) && request == RequestView::ValidateArguments(
        arguments,
    )
    ||| patch.cli_link_enabled matches Some(enabled) && request == link_request(enabled)
}

/// The request that makes an update fail is one that what is still to come at its stage
/// gives rise to.
proof fn lemma_refused_request_arises(
    stage: UpdateStageView,
    talk: Seq<Exchange>,
    message: Seq<char>,
)
    requires
        !(stage is Reading),
        converses(stage, talk, Err(message)),
    ensures
        arises(to_come(stage), talk.last().request),
        refuses(talk.last().reply, message),
    decreases talk.len(),
{
    if let Turn::Ask(next) = stage.hears(talk[0].reply) {
        let rest = talk.drop_first();
        lemma_refused_request_arises(next, rest, message);
        assert(converses(next, rest, Err(message)));
        assert(talk.last() == rest.last());
    }
}

/// A request that an update gave rise to and that was granted then is not refused in another
/// conversation by a host that refuses alike.
proof fn lemma_not_refused(
    patch: SettingPatchView,
    first: Seq<Exchange>,
    proxy: Seq<char>,
    second: Seq<Exchange>,
    j: int,
    message: Seq<char>,
)
    requires
        granted(first, patch, proxy),
        agrees(first, second, can_be_refused()),
        0 <= j < second.len(),
        arises(patch, second[j].request),
    ensures
        !refuses(second[j].reply, message),
{
    let request = second[j].request;
    let reply = if request is NormalizeHttpProxy {
        ReplyView::TextOutcome(Ok(proxy))
    } else {
        ReplyView::Outcome(Ok(()))
    };
    assert(heard(first, request, reply));
    let i = choose|i: int|
        0 <= i < first.len() && (#[trigger] first[i]).request == request && first[i].reply
            == reply;
    assert(first[i].reply == second[j].reply);
}

/// Making an update again that succeeded once succeeds again, with the same settings and
/// with no change, where the host grants again what it granted before.
pub proof fn repeated_update_succeeds(
    patch: SettingPatchView,
    world: World,
    first: Seq<Exchange>,
    setting: SettingView,
    second: Seq<Exchange>,
    end: Result<SettingView, Seq<char>>,
)
    requires
        converses(UpdateStageView::Reading(patch), first, Ok(setting)),
        carried_out(world, first),
        converses(UpdateStageView::Reading(patch), second, end),
        carried_out(outcome(world, first), second),
        agrees(first, second, can_be_refused()),
    ensures
        end == Ok::<SettingView, Seq<char>>(setting),
        outcome(outcome(world, first), second) == outcome(world, first),
{
    update_applies_the_patch(patch, world, first, setting);
    match end {
        Ok(setting_again) => {
            repeated_update_changes_nothing(patch, world, first, setting, second, setting_again);
        },
        Err(message) => {
            lemma_refused_request(patch, second, message);
            lemma_not_refused(
                patch,
                first,
                setting.http_proxy,
                second,
                second.len() - 1,
                message,
            );
        },
    }
}

/// The request that makes a whole update fail is one that its patch gives rise to.
proof fn lemma_refused_request(patch: SettingPatchView, talk: Seq<Exchange>, message: Seq<char>)
    requires
        patch.port != Some(0u16),
        converses(UpdateStageView::Reading(patch), talk, Err(message)),
    ensures
        arises(patch, talk.last().request),
        refuses(talk.last().reply, message),
{
    let stage = UpdateStageView::Reading(patch);
    if let Turn::Ask(next) = stage.hears(talk[0].reply) {
        let rest = talk.drop_first();
        lemma_refused_request_arises(next, rest, message);
        assert(converses(next, rest, Err(message)));
        assert(talk.last() == rest.last());
    }
}

/// `preferred` where it is present, else `fallback`.
pub open spec fn either<T>(preferred: Option<T>, fallback: Option<T>) -> Option<T> {
    match preferred {
        Some(_) => preferred,
        None => fallback,
    }
}

/// The patch that holds the values of both patches; where both have one, that of `other`.
pub open spec fn merged(one: SettingPatchView, other: SettingPatchView) -> SettingPatchView {
    SettingPatchView {
        port: either(other.port, one.port),
        auto_start: either(other.auto_start, one.auto_start),
        http_proxy: either(other.http_proxy, one.http_proxy),
        dsh_environment: either(other.dsh_environment, one.dsh_environment),
        dsh_arguments: either(other.dsh_arguments, one.dsh_arguments),
        cli_link_enabled: either(other.cli_link_enabled, one.cli_link_enabled),
    }
}

/// Two updates with no value in common can be made as one: where it succeeds, the settings
/// and the command line integration come out as after the two, but for the form of the
/// proxy. Where the host answers as it did to the two, it succeeds, and the proxy comes out
/// the same too.
pub proof fn disjoint_updates_merge(
    one: SettingPatchView,
    other: SettingPatchView,
    world: World,
    first: (Seq<Exchange>, SettingView),
    second: (Seq<Exchange>, SettingView),
    both: Seq<Exchange>,
    end: Result<SettingView, Seq<char>>,
)
    requires
        disjoint(one, other),
        converses(UpdateStageView::Reading(one), first.0, Ok(first.1)),
        carried_out(world, first.0),
        converses(UpdateStageView::Reading(other), second.0, Ok(second.1)),
        carried_out(outcome(world, first.0), second.0),
        converses(UpdateStageView::Reading(merged(one, other)), both, end),
        carried_out(world, both),
    ensures
        end matches Ok(setting) ==> {
            &&& setting == (SettingView { http_proxy: setting.http_proxy, ..second.1 })
            &&& outcome(world, both) == (World {
                setting,
                ..outcome(outcome(world, first.0), second.0)
            })
        },
        agrees(first.0, both, can_be_refused()) && agrees(second.0, both, can_be_refused()) ==> {
            &&& end == Ok::<SettingView, Seq<char>>(second.1)
            &&& outcome(world, both) == outcome(outcome(world, first.0), second.0)
        },
{
    let patch = merged(one, other);
    update_applies_the_patch(one, world, first.0, first.1);
    update_applies_the_patch(other, outcome(world, first.0), second.0, second.1);
    match end {
        Ok(setting) => {
            update_applies_the_patch(patch, world, both, setting);
            let proxies = (first.1.http_proxy, second.1.http_proxy);
            lemma_patches_merge(one, other, world.setting, proxies, setting.http_proxy);
            if agrees(first.0, both, can_be_refused()) && other.http_proxy is None {
                lemma_same_proxy(one, first.0, proxies.0, patch, both, setting.http_proxy);
            }
            if agrees(second.0, both, can_be_refused()) && other.http_proxy is Some {
                lemma_same_proxy(other, second.0, proxies.1, patch, both, setting.http_proxy);
            }
        },
        Err(message) => {
            lemma_refused_request(patch, both, message);
            let last = both.len() - 1;
            if agrees(first.0, both, can_be_refused()) && agrees(
                second.0,
                both,
                can_be_refused(),
            ) {
                if arises(one, both[last].request) {
                    lemma_not_refused(one, first.0, first.1.http_proxy, both, last, message);
                } else {
                    lemma_not_refused(other, second.0, second.1.http_proxy, both, last, message);
                }
            }
        },
    }
}

/// Two patches with no value in common can be applied as one. `proxies` are the forms of
/// the proxy that come with the two, `proxy` is the one that comes with both together.
proof fn lemma_patches_merge(
    one: SettingPatchView,
    other: SettingPatchView,
    setting: SettingView,
    proxies: (Seq<char>, Seq<char>),
    proxy: Seq<char>,
)
    requires
        disjoint(one, other),
    ensures
        ({
            let apart = setting.patched(one, proxies.0).patched(other, proxies.1);
            let together = setting.patched(merged(one, other), proxy);
            &&& together == (SettingView { http_proxy: together.http_proxy, ..apart })
            &&& {
                &&& one.http_proxy is Some ==> proxies.0 == proxy
                &&& other.http_proxy is Some ==> proxies.1 == proxy
            } ==> together == apart
        }),
{
}

/// Whatever request of an update is refused, the update fails with the message of that
/// refusal.
pub proof fn refusal_fails_the_update(
    stage: UpdateStageView,
    talk: Seq<Exchange>,
    end: Result<SettingView, Seq<char>>,
    i: int,
    message: Seq<char>,
)
    requires
        converses(stage, talk, end),
        0 <= i < talk.len(),
        refuses(talk[i].reply, message),
    ensures
        end == Err::<SettingView, Seq<char>>(message),
        i == talk.len() - 1,
    decreases talk.len(),
{
    if i > 0 {
        if let Turn::Ask(next) = stage.hears(talk[0].reply) {
            assert(talk[i] == talk.drop_first()[i - 1]);
            refusal_fails_the_update(next, talk.drop_first(), end, i - 1, message);
        }
    }
}

/// Up to the last exchange of an update nothing but the command line integration changes.
proof fn lemma_unchanged_before_the_end(
    stage: UpdateStageView,
    world: World,
    talk: Seq<Exchange>,
    end: Result<SettingView, Seq<char>>,
    i: int,
)
    requires
        converses(stage, talk, end),
        carried_out(world, talk),
        0 <= i < talk.len() - 1,
    ensures
        talk[i].after.setting == world.setting,
    decreases talk.len(),
{
    if let Turn::Ask(next) = stage.hears(talk[0].reply) {
        if i > 0 {
            assert(talk[i] == talk.drop_first()[i - 1]);
            lemma_unchanged_before_the_end(
                next,
                talk[0].after,
                talk.drop_first(),
                end,
                i - 1,
            );
        }
    }
}

/// The state after the last exchange is the state at the end.
proof fn lemma_last_state(world: World, talk: Seq<Exchange>)
    requires
        talk.len() > 0,
    ensures
        outcome(world, talk) == talk.last().after,
    decreases talk.len(),
{
    if talk.len() > 1 {
        lemma_last_state(talk[0].after, talk.drop_first());
        assert(talk.last() == talk.drop_first().last());
    } else {
        reveal_with_fuel(outcome, 2);
    }
}

/// The switch for the command line integration is never turned on ahead of the integration
/// itself: at no point of an update do the settings say that it is on, unless they said so
/// before or it is in place.
pub proof fn switch_never_runs_ahead(
    patch: SettingPatchView,
    world: World,
    talk: Seq<Exchange>,
    end: Result<SettingView, Seq<char>>,
    i: int,
)
    requires
        converses(UpdateStageView::Reading(patch), talk, end),
        carried_out(world, talk),
        0 <= i < talk.len(),
        talk[i].after.setting.cli_link_enabled,
    ensures
        world.setting.cli_link_enabled || talk[i].after.linked,
{
    if i < talk.len() - 1 {
        lemma_unchanged_before_the_end(UpdateStageView::Reading(patch), world, talk, end, i);
    } else {
        lemma_last_state(world, talk);
        match end {
            Ok(setting) => update_applies_the_patch(patch, world, talk, setting),
            Err(message) => failed_update_stores_nothing(patch, world, talk, message),
        }
    }
}

/// A port of zero is refused before anything is checked or changed.
pub proof fn zero_port_is_refused(
    patch: SettingPatchView,
    world: World,
    talk: Seq<Exchange>,
    end: Result<SettingView, Seq<char>>,
)
    requires
        patch.port == Some(0u16),
        converses(UpdateStageView::Reading(patch), talk, end),
        carried_out(world, talk),
    ensures
        end == Err::<SettingView, Seq<char>>(port_message()),
        talk.len() == 1,
        outcome(world, talk) == world,
{
    reveal_with_fuel(outcome, 2);
}

/// An update that asks for nothing succeeds and changes nothing.
pub proof fn empty_update_changes_nothing(
    patch: SettingPatchView,
    world: World,
    talk: Seq<Exchange>,
    end: Result<SettingView, Seq<char>>,
)
    requires
        patch == (SettingPatchView {
            port: None,
            auto_start: None,
            http_proxy: None,
            dsh_environment: None,
            dsh_arguments: None,
            cli_link_enabled: None,
        }),
        converses(UpdateStageView::Reading(patch), talk, end),
        carried_out(world, talk),
    ensures
        end == Ok::<SettingView, Seq<char>>(world.setting),
        outcome(world, talk) == world,
{
    reveal_with_fuel(converses, 3);
    reveal_with_fuel(carried_out, 3);
    reveal_with_fuel(outcome, 3);
}

/// Reading the settings gives them as they are and changes nothing.
pub proof fn reading_changes_nothing(
    world: World,
    talk: Seq<Exchange>,
    end: Result<SettingView, Seq<char>>,
)
    requires
        converses(ReadConfigStage::Reading, talk, end),
        carried_out(world, talk),
    ensures
        end == Ok::<SettingView, Seq<char>>(world.setting),
        talk.len() == 1,
        talk[0].request == RequestView::ReadSetting,
        outcome(world, talk) == world,
{
    reveal_with_fuel(outcome, 2);
}

/// Reading the settings gives back what the last successful update returned.
pub proof fn settings_read_back(
    patch: SettingPatchView,
    world: World,
    update: Seq<Exchange>,
    setting: SettingView,
    read: Seq<Exchange>,
    end: Result<SettingView, Seq<char>>,
)
    requires
        converses(UpdateStageView::Reading(patch), update, Ok(setting)),
        carried_out(world, update),
        converses(ReadConfigStage::Reading, read, end),
        carried_out(outcome(world, update), read),
    ensures
        end == Ok::<SettingView, Seq<char>>(setting),
{
    update_applies_the_patch(patch, world, update, setting);
}

/// Choosing a language stores the choice and changes no other setting, and the language
/// that the application switches to is the one of the stored choice.
pub proof fn language_is_stored_and_applied(
    choice: Seq<char>,
    world: World,
    talk: Seq<Exchange>,
    end: Result<(), Seq<char>>,
)
    requires
        converses(LanguageStageView::Reading(choice), talk, end),
        carried_out(world, talk),
    ensures
        end == Ok::<(), Seq<char>>(()),
        outcome(world, talk) == (World {
            setting: SettingView { language: choice, ..world.setting },
            lang: language_of(choice),
            ..world
        }),
{
    reveal_with_fuel(converses, 4);
    reveal_with_fuel(carried_out, 4);
    reveal_with_fuel(outcome, 4);
}

} // verus!
