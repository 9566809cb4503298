//! What the commands on the running service are for.
use vstd::prelude::*;

use crate::dialogue::{carried_out, converses, lemma_exchange, outcome, Exchange, World};
use crate::host::{ReplyView, RequestView};
use crate::service::{HealthStage, RuntimeStage};

verus! {

/// The health that is asked for is that of the service on the configured port, and the
/// command ends as that query did.
pub proof fn health_is_that_of_the_configured_port(
    world: World,
    talk: Seq<Exchange>,
    end: Result<Seq<char>, Seq<char>>,
)
    requires
        converses(HealthStage::Reading, talk, end),
        carried_out(world, talk),
    ensures
        talk.len() == 2,
        talk[0].request == RequestView::ReadSetting,
        talk[1].request == RequestView::HealthCheck(world.setting.port),
        talk[1].reply == ReplyView::TextOutcome(end),
        outcome(world, talk) == talk[1].after,
{
    assert(talk.skip(0) =~= talk);
    lemma_exchange(HealthStage::Reading, world, talk, end, 0);
    lemma_exchange(HealthStage::Checking(world.setting.port), world, talk, end, 1);
    assert(talk.skip(2).len() == 0);
}

/// The runtime information is that for the configured port.
pub proof fn runtime_information_is_for_the_configured_port(
    world: World,
    talk: Seq<Exchange>,
    end: Result<u16, Seq<char>>,
)
    requires
        converses(RuntimeStage::Reading, talk, end),
        carried_out(world, talk),
    ensures
        end == Ok::<u16, Seq<char>>(world.setting.port),
        talk.len() == 1,
        talk[0].request == RequestView::ReadSetting,
        outcome(world, talk) == world,
{
    assert(talk.skip(0) =~= talk);
    lemma_exchange(RuntimeStage::Reading, world, talk, end, 0);
    assert(talk.skip(1).len() == 0);
}

} // verus!
