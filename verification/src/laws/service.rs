//! Laws of the commands on the running service.
use vstd::prelude::*;

use crate::configure::UpdateStageView;
use crate::dialogue::{agrees, carried_out, converses, finds_address, outcome, Exchange, World};
use crate::host::{ReplyView, RequestView};
use crate::laws::configure::update_applies_the_patch;
use crate::service::{BrowserStageView, CopyStageView, HealthStage, RuntimeStage};
use crate::settings::{SettingPatchView, SettingView};

verus! {

/// The interface that opens in the browser is the one at the address of the configured
/// port, and opening it ends as the browser's start did.
pub proof fn browser_opens_the_service(
    world: World,
    talk: Seq<Exchange>,
    end: Result<(), Seq<char>>,
)
    requires
        converses(BrowserStageView::Reading, talk, end),
        carried_out(world, talk),
    ensures
        talk.len() == 3,
        talk[0].request == RequestView::ReadSetting,
        talk[1].request == RequestView::ServiceUrl(world.setting.port),
        talk[1].reply matches ReplyView::Text(url) && {
            &&& talk[2].request == RequestView::OpenUrl(url)
            &&& talk[2].reply == ReplyView::Outcome(end)
            &&& end is Ok ==> outcome(world, talk) == (World {
                opened: world.opened.push(url),
                ..world
            })
        },
{
    reveal_with_fuel(converses, 4);
    reveal_with_fuel(carried_out, 4);
    reveal_with_fuel(outcome, 4);
    let addressing = talk.drop_first();
    let opening = addressing.drop_first();
    assert(talk[1] == addressing[0]);
    assert(talk[2] == opening[0]);
    if let ReplyView::Outcome(Ok(unit)) = opening[0].reply {
        assert(unit == ());
    }
}

/// What is copied is the address of the configured port, and nothing else changes.
pub proof fn copied_address_is_the_service(
    world: World,
    talk: Seq<Exchange>,
    end: Result<(), Seq<char>>,
)
    requires
        converses(CopyStageView::Reading, talk, end),
        carried_out(world, talk),
    ensures
        talk.len() == 3,
        talk[0].request == RequestView::ReadSetting,
        talk[1].request == RequestView::ServiceUrl(world.setting.port),
        talk[1].reply matches ReplyView::Text(url) && {
            &&& talk[2].request == RequestView::WriteClipboard(url)
            &&& talk[2].reply == ReplyView::Outcome(end)
            &&& end is Ok ==> outcome(world, talk) == (World { clipboard: url, ..world })
        },
{
    reveal_with_fuel(converses, 4);
    reveal_with_fuel(carried_out, 4);
    reveal_with_fuel(outcome, 4);
    let addressing = talk.drop_first();
    let copying = addressing.drop_first();
    assert(talk[1] == addressing[0]);
    assert(talk[2] == copying[0]);
    if let ReplyView::Outcome(Ok(unit)) = copying[0].reply {
        assert(unit == ());
    }
}

/// The address that is copied is the one that opens: of a host that always gives the same
/// address for a port, the clipboard holds by the end what was opened last.
pub proof fn copied_address_is_the_opened_one(
    world: World,
    opening: Seq<Exchange>,
    copying: Seq<Exchange>,
)
    requires
        converses(BrowserStageView::Reading, opening, Ok(())),
        carried_out(world, opening),
        converses(CopyStageView::Reading, copying, Ok(())),
        carried_out(outcome(world, opening), copying),
        agrees(opening, copying, finds_address()),
    ensures
        outcome(outcome(world, opening), copying).clipboard == outcome(
            outcome(world, opening),
            copying,
        ).opened.last(),
{
    browser_opens_the_service(world, opening, Ok(()));
    copied_address_is_the_service(outcome(world, opening), copying, Ok(()));
    assert(opening[1].reply == copying[1].reply);
}

/// Once an update has set a port, that port is the one whose health is checked and whose
/// runtime information is gathered.
pub proof fn updated_port_is_used(
    patch: SettingPatchView,
    port: u16,
    world: World,
    update: Seq<Exchange>,
    setting: SettingView,
    health: Seq<Exchange>,
    health_end: Result<Seq<char>, Seq<char>>,
    info: Seq<Exchange>,
    info_end: Result<u16, Seq<char>>,
)
    requires
        patch.port == Some(port),
        converses(UpdateStageView::Reading(patch), update, Ok(setting)),
        carried_out(world, update),
        converses(HealthStage::Reading, health, health_end),
        carried_out(outcome(world, update), health),
        converses(RuntimeStage::Reading, info, info_end),
        carried_out(outcome(world, update), info),
    ensures
        port > 0,
        health.len() == 2,
        health[1].request == RequestView::HealthCheck(port),
        health[1].reply == ReplyView::TextOutcome(health_end),
        info_end == Ok::<u16, Seq<char>>(port),
{
    update_applies_the_patch(patch, world, update, setting);
    reveal_with_fuel(converses, 3);
    reveal_with_fuel(carried_out, 3);
    assert(health[1] == health.drop_first()[0]);
}

} // verus!
