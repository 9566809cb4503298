//! Laws of the update check.
use vstd::prelude::*;

use crate::dialogue::{
    carried_out, converses, emits_status, fetches_tags, lemma_exchange, logged, marks_installing,
    outcome, runs_install, stores_setting, tally, undisturbed, Dialogue, Exchange, World,
};
use crate::host::{
    DshPkgTagView, LatestDshPkgView, Level, ReplyView, RequestView, Status, Turn, UpdateCheck,
};
use crate::install::{dsh_is_current, InstallStageView};
use crate::laws::install::{finds_ready, undisturbed_start_finds_ready};
use crate::update_check::{heal_note, CheckStageView};

verus! {

/// The state of the host when a check has asked for the latest release and has its answer.
/// The record is read right after.
pub open spec fn fetched(talk: Seq<Exchange>) -> World {
    talk[1].after
}

/// Where in a check the comparison is made: one exchange later where the record has no
/// tag, since the tags of the repository are asked for first.
pub open spec fn comparison_at(talk: Seq<Exchange>) -> int {
    if fetched(talk).tag is None {
        6
    } else {
        5
    }
}

/// The state of the host at the comparison.
pub open spec fn compared(talk: Seq<Exchange>) -> World {
    talk[comparison_at(talk)].after
}

/// What the comparison found.
pub open spec fn verdict(talk: Seq<Exchange>) -> UpdateCheck {
    talk[comparison_at(talk)].reply->Verdict_0
}

/// The tags in a reply; a failed query counts as an empty list.
pub open spec fn tags_in(reply: ReplyView) -> Seq<DshPkgTagView> {
    match reply {
        ReplyView::Tags(Ok(tags)) => tags,
        _ => Seq::empty(),
    }
}

/// What a check offers: the release where it is an update.
pub open spec fn offered(latest: LatestDshPkgView, verdict: UpdateCheck) -> Option<
    LatestDshPkgView,
> {
    if verdict == UpdateCheck::UpdateAvailable {
        Some(latest)
    } else {
        None
    }
}

/// What a check logs: that it brings the record up to the release, where it does.
pub open spec fn check_notes(latest: LatestDshPkgView, verdict: UpdateCheck) -> Seq<
    (Level, Seq<char>),
> {
    if verdict == UpdateCheck::HealUpToDate {
        seq![(Level::Info, heal_note(latest))]
    } else {
        Seq::empty()
    }
}

/// What a check makes of the state at the comparison: where only the record is behind, it
/// is brought up to the release and the log says so.
pub open spec fn settled(
    latest: LatestDshPkgView,
    verdict: UpdateCheck,
    compared: World,
) -> World {
    if verdict == UpdateCheck::HealUpToDate {
        World {
            commit: Some(latest.commit),
            tag: Some(latest.tag),
            journal: compared.journal + check_notes(latest, verdict),
            ..compared
        }
    } else {
        compared
    }
}

/// The stage of the comparison in a check that found `latest`.
spec fn comparing(latest: LatestDshPkgView, talk: Seq<Exchange>) -> CheckStageView {
    CheckStageView::Resolving {
        latest,
        commit: fetched(talk).commit,
        tag: fetched(talk).tag,
        version: talk[4].reply->MaybeText_0,
        tags: if fetched(talk).tag is None {
            tags_in(talk[5].reply)
        } else {
            Seq::empty()
        },
    }
}

/// A check that finds an installation and a latest release comes to the comparison; up to
/// there it only looks, and logs nothing.
proof fn lemma_up_to_comparison(
    world: World,
    latest: LatestDshPkgView,
    talk: Seq<Exchange>,
    end: Result<Option<LatestDshPkgView>, Seq<char>>,
)
    requires
        world.dsh_installed,
        fetched(talk).latest == Ok::<LatestDshPkgView, Seq<char>>(latest),
        converses(CheckStageView::ProbingDsh, talk, end),
        carried_out(world, talk),
    ensures
        comparison_at(talk) <= talk.len(),
        talk[1].reply == ReplyView::Latest(Ok(latest)),
        talk[4].request == RequestView::ReadVersion,
        fetched(talk).tag is None ==> talk[5].request == RequestView::FetchTags,
        fetched(talk).tag is Some ==> talk[comparison_at(talk) - 1].after == fetched(talk),
        undisturbed(world, talk) ==> talk[comparison_at(talk) - 1].after == world && fetched(talk)
            == world,
        converses(comparing(latest, talk), talk.skip(comparison_at(talk)), end),
        carried_out(talk[comparison_at(talk) - 1].after, talk.skip(comparison_at(talk))),
        outcome(world, talk) == outcome(
            talk[comparison_at(talk) - 1].after,
            talk.skip(comparison_at(talk)),
        ),
        logged(talk) == logged(talk.skip(comparison_at(talk))),
        tally(talk, fetches_tags()) == tally(talk.skip(comparison_at(talk)), fetches_tags())
            + if fetched(talk).tag is None {
            1nat
        } else {
            0nat
        },
{
    assert(talk.skip(0) =~= talk);
    lemma_exchange(CheckStageView::ProbingDsh, world, talk, end, 0);
    lemma_exchange(CheckStageView::FetchingLatest, world, talk, end, 1);
    let known = fetched(talk);
    let commit = known.commit;
    let tag = known.tag;
    lemma_exchange(CheckStageView::ReadingCommit { latest }, known, talk, end, 2);
    lemma_exchange(CheckStageView::ReadingTag { latest, commit }, known, talk, end, 3);
    lemma_exchange(CheckStageView::ReadingVersion { latest, commit, tag }, known, talk, end, 4);
    if tag is None {
        let version = talk[4].reply->MaybeText_0;
        let stage = CheckStageView::FetchingTags { latest, commit, version };
        lemma_exchange(stage, known, talk, end, 5);
    }
}

/// What the comparison of such a check is made on, and what comes after it.
proof fn lemma_from_comparison(
    world: World,
    latest: LatestDshPkgView,
    talk: Seq<Exchange>,
    end: Result<Option<LatestDshPkgView>, Seq<char>>,
)
    requires
        world.dsh_installed,
        fetched(talk).latest == Ok::<LatestDshPkgView, Seq<char>>(latest),
        converses(CheckStageView::ProbingDsh, talk, end),
        carried_out(world, talk),
    ensures
        comparison_at(talk) < talk.len(),
        talk[1].reply == ReplyView::Latest(Ok(latest)),
        talk[4].request == RequestView::ReadVersion,
        fetched(talk).tag is None ==> talk[5].request == RequestView::FetchTags,
        fetched(talk).tag is Some ==> compared(talk) == fetched(talk),
        undisturbed(world, talk) ==> compared(talk) == world && fetched(talk) == world,
        talk[comparison_at(talk)].request == comparing(latest, talk).asks(),
        end == Ok::<Option<LatestDshPkgView>, Seq<char>>(offered(latest, verdict(talk))),
        outcome(world, talk) == settled(latest, verdict(talk), compared(talk)),
        logged(talk) == check_notes(latest, verdict(talk)),
        tally(talk, fetches_tags()) == (if fetched(talk).tag is None {
            1nat
        } else {
            0nat
        }),
{
    let k = comparison_at(talk);
    lemma_up_to_comparison(world, latest, talk, end);
    lemma_exchange(comparing(latest, talk), talk[k - 1].after, talk, end, k);
    if verdict(talk) == UpdateCheck::HealUpToDate {
        lemma_exchange(CheckStageView::TellingHeal(latest), talk[k].after, talk, end, k + 1);
        let healing = CheckStageView::HealingCommit(latest);
        lemma_exchange(healing, talk[k + 1].after, talk, end, k + 2);
        lemma_exchange(CheckStageView::HealingTag(latest), talk[k + 2].after, talk, end, k + 3);
        assert(talk.skip(k + 4).len() == 0);
        let notes = check_notes(latest, verdict(talk));
        assert(outcome(world, talk).journal =~= compared(talk).journal + notes);
    } else {
        assert(talk.skip(k + 1).len() == 0);
    }
}

/// The check looks and no more: it never installs, never sets or sends the status and never
/// stores settings, whatever the host answers.
pub proof fn check_installs_nothing(
    stage: CheckStageView,
    talk: Seq<Exchange>,
    end: Result<Option<LatestDshPkgView>, Seq<char>>,
)
    requires
        converses(stage, talk, end),
    ensures
        tally(talk, runs_install()) == 0,
        tally(talk, marks_installing()) == 0,
        tally(talk, emits_status()) == 0,
        tally(talk, stores_setting()) == 0,
    decreases talk.len(),
{
    match stage.hears(talk[0].reply) {
        Turn::Ask(next) => check_installs_nothing(next, talk.drop_first(), end),
        _ => {
            reveal_with_fuel(tally, 2);
        },
    }
}

/// Without a local installation there is nothing to offer, and the network is not asked.
pub proof fn nothing_to_update_without_an_installation(
    world: World,
    talk: Seq<Exchange>,
    end: Result<Option<LatestDshPkgView>, Seq<char>>,
)
    requires
        !world.dsh_installed,
        converses(CheckStageView::ProbingDsh, talk, end),
        carried_out(world, talk),
    ensures
        end == Ok::<Option<LatestDshPkgView>, Seq<char>>(None),
        talk.len() == 1,
        outcome(world, talk) == world,
{
    reveal_with_fuel(outcome, 2);
}

/// Where the latest release cannot be found out, the check fails with the reason and
/// changes nothing.
pub proof fn failed_query_fails_the_check(
    world: World,
    talk: Seq<Exchange>,
    end: Result<Option<LatestDshPkgView>, Seq<char>>,
)
    requires
        world.dsh_installed,
        fetched(talk).latest is Err,
        converses(CheckStageView::ProbingDsh, talk, end),
        carried_out(world, talk),
    ensures
        end == Err::<Option<LatestDshPkgView>, Seq<char>>(fetched(talk).latest->Err_0),
        talk.len() == 2,
        talk[1].request == RequestView::FetchLatest,
        talk[1].reply == ReplyView::Latest(Err(fetched(talk).latest->Err_0)),
        outcome(world, talk) == fetched(talk),
{
    assert(talk.skip(0) =~= talk);
    lemma_exchange(CheckStageView::ProbingDsh, world, talk, end, 0);
    lemma_exchange(CheckStageView::FetchingLatest, world, talk, end, 1);
    assert(talk.skip(2).len() == 0);
}

/// The comparison is made on the record as it stands, on the version that the installed
/// files state and on the latest release. The tags of the repository take part only where
/// the record has no tag of its own; where they cannot be had, the list is empty.
pub proof fn comparison_is_on_the_record(
    world: World,
    latest: LatestDshPkgView,
    talk: Seq<Exchange>,
    end: Result<Option<LatestDshPkgView>, Seq<char>>,
)
    requires
        world.dsh_installed,
        fetched(talk).latest == Ok::<LatestDshPkgView, Seq<char>>(latest),
        converses(CheckStageView::ProbingDsh, talk, end),
        carried_out(world, talk),
    ensures
        comparison_at(talk) < talk.len(),
        talk[1].reply == ReplyView::Latest(Ok(latest)),
        talk[4].request == RequestView::ReadVersion,
        fetched(talk).tag is None ==> talk[5].request == RequestView::FetchTags,
        tally(talk, fetches_tags()) == (if fetched(talk).tag is None {
            1nat
        } else {
            0nat
        }),
        talk[comparison_at(talk)].request == (RequestView::ResolveUpdate {
            commit: fetched(talk).commit,
            tag: fetched(talk).tag,
            version: talk[4].reply->MaybeText_0,
            latest,
            tags: if fetched(talk).tag is None {
                tags_in(talk[5].reply)
            } else {
                Seq::empty()
            },
        }),
{
    lemma_from_comparison(world, latest, talk, end);
}

/// With a local installation and a known latest release the comparison of the two
/// decides: the release is offered if and only if it is an update, and where only the
/// record is behind, the record is brought up to the release, the log says so and nobody is
/// disturbed. Beyond that the check leaves everything as it is and logs nothing.
pub proof fn verdict_decides(
    world: World,
    latest: LatestDshPkgView,
    talk: Seq<Exchange>,
    end: Result<Option<LatestDshPkgView>, Seq<char>>,
)
    requires
        world.dsh_installed,
        fetched(talk).latest == Ok::<LatestDshPkgView, Seq<char>>(latest),
        converses(CheckStageView::ProbingDsh, talk, end),
        carried_out(world, talk),
    ensures
        end == Ok::<Option<LatestDshPkgView>, Seq<char>>(offered(latest, verdict(talk))),
        outcome(world, talk) == settled(latest, verdict(talk), compared(talk)),
        logged(talk) == check_notes(latest, verdict(talk)),
        fetched(talk).tag is Some ==> compared(talk) == fetched(talk),
        undisturbed(world, talk) ==> compared(talk) == world && fetched(talk) == world,
{
    lemma_from_comparison(world, latest, talk, end);
}

/// After a check that healed the record, the next check compares on the healed record: it
/// passes the commit and the tag of the release on and asks for no tags. As long as the
/// release stays the latest and nothing else touches the record, the record stays as the
/// first check wrote it; and unless the comparison finds an update, nothing is offered.
pub proof fn healed_record_is_passed_on(
    world: World,
    latest: LatestDshPkgView,
    first: Seq<Exchange>,
    first_end: Result<Option<LatestDshPkgView>, Seq<char>>,
    second: Seq<Exchange>,
    second_end: Result<Option<LatestDshPkgView>, Seq<char>>,
)
    requires
        world.dsh_installed,
        fetched(first).latest == Ok::<LatestDshPkgView, Seq<char>>(latest),
        converses(CheckStageView::ProbingDsh, first, first_end),
        carried_out(world, first),
        verdict(first) == UpdateCheck::HealUpToDate,
        outcome(world, first).dsh_installed,
        fetched(second).latest == Ok::<LatestDshPkgView, Seq<char>>(latest),
        fetched(second).commit == outcome(world, first).commit,
        fetched(second).tag == outcome(world, first).tag,
        converses(CheckStageView::ProbingDsh, second, second_end),
        carried_out(outcome(world, first), second),
    ensures
        first_end == Ok::<Option<LatestDshPkgView>, Seq<char>>(None),
        outcome(world, first).commit == Some(latest.commit),
        outcome(world, first).tag == Some(latest.tag),
        tally(second, fetches_tags()) == 0,
        second[comparison_at(second)].request == (RequestView::ResolveUpdate {
            commit: Some(latest.commit),
            tag: Some(latest.tag),
            version: second[4].reply->MaybeText_0,
            latest,
            tags: Seq::empty(),
        }),
        verdict(second) != UpdateCheck::UpdateAvailable ==> second_end == Ok::<
            Option<LatestDshPkgView>,
            Seq<char>,
        >(None),
        outcome(outcome(world, first), second).commit == outcome(world, first).commit,
        outcome(outcome(world, first), second).tag == outcome(world, first).tag,
{
    verdict_decides(world, latest, first, first_end);
    let healed = outcome(world, first);
    comparison_is_on_the_record(healed, latest, second, second_end);
    verdict_decides(healed, latest, second, second_end);
}

/// A healed record counts as up to date from then on: as long as the release stays the
/// latest and nothing else happens meanwhile, the next start installs nothing.
pub proof fn healed_record_is_current(
    world: World,
    latest: LatestDshPkgView,
    talk: Seq<Exchange>,
    end: Result<Option<LatestDshPkgView>, Seq<char>>,
    start: Seq<Exchange>,
    start_end: Result<(), Seq<char>>,
)
    requires
        world.dsh_installed && world.node_installed && world.pnpm_installed,
        world.status != Status::Installing,
        world.latest == Ok::<LatestDshPkgView, Seq<char>>(latest),
        converses(CheckStageView::ProbingDsh, talk, end),
        carried_out(world, talk),
        undisturbed(world, talk),
        verdict(talk) == UpdateCheck::HealUpToDate,
        converses(InstallStageView::ReadingStatus, start, start_end),
        carried_out(outcome(world, talk), start),
        undisturbed(outcome(world, talk), start),
    ensures
        dsh_is_current(true, outcome(world, talk).commit, Some(latest)),
        finds_ready(outcome(world, talk), start, start_end),
{
    assert(talk.skip(0) =~= talk);
    lemma_exchange(CheckStageView::ProbingDsh, world, talk, end, 0);
    lemma_exchange(CheckStageView::FetchingLatest, world, talk, end, 1);
    verdict_decides(world, latest, talk, end);
    undisturbed_start_finds_ready(outcome(world, talk), start, start_end);
}

} // verus!
