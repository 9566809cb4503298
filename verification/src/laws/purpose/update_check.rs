//! What the update check is for.
use vstd::prelude::*;

use crate::dialogue::{
    carried_out, converses, fetches_tags, lemma_exchange, logged, outcome, tally, Exchange, World,
};
use crate::host::{
    Component, DshPkgTagView, LatestDshPkgView, Level, ReplyView, RequestView, UpdateCheck,
};
use crate::update_check::CheckStageView;

verus! {

/// A check first looks for the files of the Harness. Without them it ends with nothing to
/// offer. With them it asks for the latest release, and a query that fails is its error.
/// In neither case does it change or log anything.
pub proof fn check_needs_files_and_a_release(
    world: World,
    talk: Seq<Exchange>,
    end: Result<Option<LatestDshPkgView>, Seq<char>>,
)
    requires
        converses(CheckStageView::ProbingDsh, talk, end),
        carried_out(world, talk),
    ensures
        talk[0].request == RequestView::CheckInstalled(Component::Dsh),
        !world.dsh_installed ==> {
            &&& talk.len() == 1
            &&& end == Ok::<Option<LatestDshPkgView>, Seq<char>>(None)
            &&& outcome(world, talk) == world
        },
        world.dsh_installed ==> {
            &&& talk[1].request == RequestView::FetchLatest
            &&& talk[1].reply == ReplyView::Latest(talk[1].after.latest)
            &&& match talk[1].after.latest {
                Err(message) => {
                    &&& talk.len() == 2
                    &&& end == Err::<Option<LatestDshPkgView>, Seq<char>>(message)
                    &&& outcome(world, talk) == talk[1].after
                },
                Ok(_) => talk.len() > 5 && end is Ok,
            }
        },
{
    assert(talk.skip(0) =~= talk);
    lemma_exchange(CheckStageView::ProbingDsh, world, talk, end, 0);
    if world.dsh_installed {
        lemma_exchange(CheckStageView::FetchingLatest, world, talk, end, 1);
        match talk[1].after.latest {
            Ok(latest) => {
                lemma_to_the_end(world, latest, talk, end);
            },
            Err(_) => {
                assert(talk.skip(2).len() == 0);
            },
        }
    } else {
        assert(talk.skip(1).len() == 0);
    }
}

/// With files and a known release the check reads the recorded commit and tag and the
/// version that the files state, and compares the installed Harness with the release on just
/// these. The tags of the repository take part only where no tag is on record; where they
/// cannot be had, the list is empty.
pub proof fn comparison_is_on_record_version_and_release(
    world: World,
    latest: LatestDshPkgView,
    talk: Seq<Exchange>,
    end: Result<Option<LatestDshPkgView>, Seq<char>>,
)
    requires
        world.dsh_installed,
        talk[1].after.latest == Ok::<LatestDshPkgView, Seq<char>>(latest),
        converses(CheckStageView::ProbingDsh, talk, end),
        carried_out(world, talk),
    ensures
        talk[2].request == RequestView::ReadCommit,
        talk[3].request == RequestView::ReadTag,
        talk[4].request == RequestView::ReadVersion,
        ({
            let record = talk[1].after;
            &&& talk[4].reply matches ReplyView::MaybeText(version)
            &&& match record.tag {
                Some(tag) => {
                    &&& tally(talk, fetches_tags()) == 0
                    &&& talk[5].request == (RequestView::ResolveUpdate {
                        commit: record.commit,
                        tag: Some(tag),
                        version,
                        latest,
                        tags: Seq::empty(),
                    })
                },
                None => {
                    &&& tally(talk, fetches_tags()) == 1
                    &&& talk[5].request == RequestView::FetchTags
                    &&& talk[5].reply matches ReplyView::Tags(found)
                    &&& talk[6].request == (RequestView::ResolveUpdate {
                        commit: record.commit,
                        tag: None,
                        version,
                        latest,
                        tags: match found {
                            Ok(tags) => tags,
                            Err(_) => Seq::<DshPkgTagView>::empty(),
                        },
                    })
                },
            }
        }),
{
    lemma_to_the_end(world, latest, talk, end);
}

/// The comparison decides. An update is offered, and nothing changes. Where the Harness is
/// up to date, nothing is offered and nothing changes. Where only the record is behind,
/// nothing is offered: that is logged with the tag and the commit of the release, and the
/// record then names both.
pub proof fn comparison_decides(
    world: World,
    latest: LatestDshPkgView,
    talk: Seq<Exchange>,
    end: Result<Option<LatestDshPkgView>, Seq<char>>,
    k: int,
    found: UpdateCheck,
)
    requires
        world.dsh_installed,
        talk[1].after.latest == Ok::<LatestDshPkgView, Seq<char>>(latest),
        converses(CheckStageView::ProbingDsh, talk, end),
        carried_out(world, talk),
        0 <= k < talk.len(),
        talk[k].request is ResolveUpdate,
        talk[k].reply == ReplyView::Verdict(found),
    ensures
        ({
            let note = "Installed Harness files already at latest release, healing stale record: "@
                + latest.tag + " ("@ + latest.commit + ")"@;
            match found {
                UpdateCheck::UpdateAvailable => {
                    &&& end == Ok::<Option<LatestDshPkgView>, Seq<char>>(Some(latest))
                    &&& talk.len() == k + 1
                    &&& outcome(world, talk) == talk[k].after
                    &&& logged(talk) == Seq::<(Level, Seq<char>)>::empty()
                },
                UpdateCheck::UpToDate => {
                    &&& end == Ok::<Option<LatestDshPkgView>, Seq<char>>(None)
                    &&& talk.len() == k + 1
                    &&& outcome(world, talk) == talk[k].after
                    &&& logged(talk) == Seq::<(Level, Seq<char>)>::empty()
                },
                UpdateCheck::HealUpToDate => {
                    &&& end == Ok::<Option<LatestDshPkgView>, Seq<char>>(None)
                    &&& talk.len() == k + 4
                    &&& talk[k + 1].request == RequestView::Log(Level::Info, note)
                    &&& talk[k + 2].request == RequestView::RecordCommit(latest.commit)
                    &&& talk[k + 3].request == RequestView::RecordTag(latest.tag)
                    &&& outcome(world, talk) == (World {
                        commit: Some(latest.commit),
                        tag: Some(latest.tag),
                        journal: talk[k].after.journal.push((Level::Info, note)),
                        ..talk[k].after
                    })
                    &&& logged(talk) == seq![(Level::Info, note)]
                },
            }
        }),
{
    lemma_to_the_end(world, latest, talk, end);
}

/// Everything that a check asks which finds files and a release.
proof fn lemma_to_the_end(
    world: World,
    latest: LatestDshPkgView,
    talk: Seq<Exchange>,
    end: Result<Option<LatestDshPkgView>, Seq<char>>,
)
    requires
        world.dsh_installed,
        talk[1].after.latest == Ok::<LatestDshPkgView, Seq<char>>(latest),
        converses(CheckStageView::ProbingDsh, talk, end),
        carried_out(world, talk),
    ensures
        talk[0].request is CheckInstalled,
        talk[1].request is FetchLatest,
        talk[2].request == RequestView::ReadCommit,
        talk[3].request == RequestView::ReadTag,
        talk[4].request == RequestView::ReadVersion,
        talk[4].reply is MaybeText,
        talk[1].after.tag is None ==> {
            &&& talk[5].request == RequestView::FetchTags
            &&& talk[5].reply is Tags
        },
        tally(talk, fetches_tags()) == (if talk[1].after.tag is None {
            1nat
        } else {
            0nat
        }),
        ({
            let at: int = if talk[1].after.tag is None {
                6
            } else {
                5
            };
            let note = "Installed Harness files already at latest release, healing stale record: "@
                + latest.tag + " ("@ + latest.commit + ")"@;
            &&& at < talk.len()
            &&& talk[at].request == (RequestView::ResolveUpdate {
                commit: talk[1].after.commit,
                tag: talk[1].after.tag,
                version: talk[4].reply->MaybeText_0,
                latest,
                tags: if talk[1].after.tag is None {
                    match talk[5].reply->Tags_0 {
                        Ok(tags) => tags,
                        Err(_) => Seq::empty(),
                    }
                } else {
                    Seq::empty()
                },
            })
            &&& talk[at].reply is Verdict
            &&& end is Ok
            &&& match talk[at].reply->Verdict_0 {
                UpdateCheck::HealUpToDate => {
                    &&& end == Ok::<Option<LatestDshPkgView>, Seq<char>>(None)
                    &&& talk.len() == at + 4
                    &&& talk[at + 1].request == RequestView::Log(Level::Info, note)
                    &&& talk[at + 2].request == RequestView::RecordCommit(latest.commit)
                    &&& talk[at + 3].request == RequestView::RecordTag(latest.tag)
                    &&& outcome(world, talk) == (World {
                        commit: Some(latest.commit),
                        tag: Some(latest.tag),
                        journal: talk[at].after.journal.push((Level::Info, note)),
                        ..talk[at].after
                    })
                    &&& logged(talk) == seq![(Level::Info, note)]
                },
                verdict => {
                    &&& end == Ok::<Option<LatestDshPkgView>, Seq<char>>(
                        if verdict == UpdateCheck::UpdateAvailable {
                            Some(latest)
                        } else {
                            None
                        },
                    )
                    &&& talk.len() == at + 1
                    &&& outcome(world, talk) == talk[at].after
                    &&& logged(talk) == Seq::<(Level, Seq<char>)>::empty()
                },
            }
        }),
{
    assert(talk.skip(0) =~= talk);
    lemma_exchange(CheckStageView::ProbingDsh, world, talk, end, 0);
    lemma_exchange(CheckStageView::FetchingLatest, world, talk, end, 1);
    let known = talk[1].after;
    let commit = known.commit;
    let tag = known.tag;
    lemma_exchange(CheckStageView::ReadingCommit { latest }, known, talk, end, 2);
    lemma_exchange(CheckStageView::ReadingTag { latest, commit }, known, talk, end, 3);
    lemma_exchange(CheckStageView::ReadingVersion { latest, commit, tag }, known, talk, end, 4);
    let version = talk[4].reply->MaybeText_0;
    let at: int = if tag is None {
        let stage = CheckStageView::FetchingTags { latest, commit, version };
        lemma_exchange(stage, known, talk, end, 5);
        6
    } else {
        5
    };
    let tags = if tag is None {
        match talk[5].reply->Tags_0 {
            Ok(tags) => tags,
            Err(_) => Seq::empty(),
        }
    } else {
        Seq::empty()
    };
    let stage = CheckStageView::Resolving { latest, commit, tag, version, tags };
    lemma_exchange(stage, talk[at - 1].after, talk, end, at);
    if talk[at].reply->Verdict_0 == UpdateCheck::HealUpToDate {
        lemma_exchange(CheckStageView::TellingHeal(latest), talk[at].after, talk, end, at + 1);
        let healing = CheckStageView::HealingCommit(latest);
        lemma_exchange(healing, talk[at + 1].after, talk, end, at + 2);
        lemma_exchange(CheckStageView::HealingTag(latest), talk[at + 2].after, talk, end, at + 3);
        assert(talk.skip(at + 4).len() == 0);
    } else {
        assert(talk.skip(at + 1).len() == 0);
    }
}

} // verus!
