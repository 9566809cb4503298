//! Laws of the guide for the preinstalled plugins.
use vstd::prelude::*;

use crate::dialogue::{
    carried_out, converses, outcome, stores_setting, tally, Exchange, World,
};
use crate::host::{ReplyView, RequestView};
use crate::preinstall::{
    invalid_id_message, marked_done, PluginStageView, RepoStageView, SkipStageView,
};

verus! {

/// Skipping the guide always works; it marks the guide as done and changes nothing else.
pub proof fn skipping_closes_the_guide(
    world: World,
    talk: Seq<Exchange>,
    end: Result<(), Seq<char>>,
)
    requires
        converses(SkipStageView::Reading, talk, end),
        carried_out(world, talk),
    ensures
        end == Ok::<(), Seq<char>>(()),
        outcome(world, talk) == (World { setting: marked_done(world.setting), ..world }),
{
    reveal_with_fuel(converses, 3);
    reveal_with_fuel(carried_out, 3);
    reveal_with_fuel(outcome, 3);
}

/// Installing plugins asks for exactly the chosen ids. Where that fails, the error is
/// handed on and nothing is stored; where it works, the settings as they are by then are
/// stored with the guide marked as done, and nothing else changes.
pub proof fn guide_closes_only_on_success(
    ids: Seq<Seq<char>>,
    world: World,
    talk: Seq<Exchange>,
    end: Result<(), Seq<char>>,
)
    requires
        converses(PluginStageView::Installing(ids), talk, end),
        carried_out(world, talk),
    ensures
        talk[0].request == RequestView::InstallPlugins(ids),
        talk[0].reply == ReplyView::Outcome(end),
        end is Ok ==> {
            &&& tally(talk, stores_setting()) == 1
            &&& outcome(world, talk) == (World {
                setting: marked_done(talk[0].after.setting),
                ..talk[0].after
            })
        },
        end is Err ==> {
            &&& talk.len() == 1
            &&& tally(talk, stores_setting()) == 0
            &&& outcome(world, talk) == talk[0].after
        },
{
    reveal_with_fuel(converses, 4);
    reveal_with_fuel(carried_out, 4);
    reveal_with_fuel(outcome, 4);
    reveal_with_fuel(tally, 4);
    if let ReplyView::Outcome(Ok(unit)) = talk[0].reply {
        assert(unit == ());
        assert(end == Ok::<(), Seq<char>>(()));
    }
}

/// An id that is not on the preinstall list is refused by name, and nothing is opened.
pub proof fn unlisted_id_opens_nothing(
    id: Seq<char>,
    world: World,
    talk: Seq<Exchange>,
    end: Result<(), Seq<char>>,
)
    requires
        converses(RepoStageView::LookingUp(id), talk, end),
        carried_out(world, talk),
        talk[0].reply == ReplyView::MaybeText(None),
    ensures
        end == Err::<(), Seq<char>>(invalid_id_message(id)),
        talk.len() == 1,
        outcome(world, talk) == world,
{
    reveal_with_fuel(outcome, 2);
}

/// Only the address on the preinstall list for the id is ever opened.
pub proof fn only_listed_addresses_open(
    id: Seq<char>,
    world: World,
    talk: Seq<Exchange>,
    end: Result<(), Seq<char>>,
    i: int,
    url: Seq<char>,
)
    requires
        converses(RepoStageView::LookingUp(id), talk, end),
        carried_out(world, talk),
        0 <= i < talk.len(),
        talk[i].request == RequestView::OpenUrl(url),
    ensures
        talk[0].request == RequestView::LookUpRepo(id),
        talk[0].reply == ReplyView::MaybeText(Some(url)),
        i == 1,
        talk[1].reply == ReplyView::Outcome(end),
        end is Ok ==> outcome(world, talk).opened == world.opened.push(url),
{
    reveal_with_fuel(converses, 3);
    reveal_with_fuel(carried_out, 3);
    reveal_with_fuel(outcome, 3);
    let rest = talk.drop_first();
    assert(talk[1] == rest[0]);
    if let ReplyView::Outcome(Ok(unit)) = rest[0].reply {
        assert(unit == ());
        assert(end == Ok::<(), Seq<char>>(()));
    }
}

} // verus!
