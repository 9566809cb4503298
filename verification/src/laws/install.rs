//! Laws of the installation and of the command line synchronisation that closes it.
use vstd::prelude::*;

use crate::dialogue::{
    carried_out, changes_link, converses, emits_status, lemma_exchange, logged, marks_installing,
    outcome, runs_install, stores_setting, tally, undisturbed, Exchange, World,
};
use crate::host::{LatestDshPkgView, Level, ReplyView, RequestView, Status};
use crate::install::{
    dsh_is_current, installed_note, link_request, lookup_warning, marked_installed, missing_note,
    ready_note, running_note, sync_warning, InstallStageView, SyncStageView,
};

verus! {

/// The release that a query found, if it found one.
pub open spec fn found(latest: Result<LatestDshPkgView, Seq<char>>) -> Option<LatestDshPkgView> {
    match latest {
        Ok(release) => Some(release),
        Err(_) => None,
    }
}

/// The state of the host when an installation has asked for the latest release and has its
/// answer.
pub open spec fn fetched(talk: Seq<Exchange>) -> World {
    talk[3].after
}

/// Whether everything that the Harness needs is in place and up to date. Node.js and the
/// files of the Harness are looked for first, in state `probed`; the rest is looked up once
/// the latest release is known, in state `known`.
pub open spec fn is_ready(probed: World, known: World) -> bool {
    &&& probed.node_installed
    &&& known.pnpm_installed
    &&& dsh_is_current(probed.dsh_installed, known.commit, found(known.latest))
}

/// What is logged of a query for the latest release: a warning where it failed.
pub open spec fn lookup_notes(latest: Result<LatestDshPkgView, Seq<char>>) -> Seq<
    (Level, Seq<char>),
> {
    match latest {
        Ok(_) => Seq::empty(),
        Err(reason) => seq![(Level::Warn, lookup_warning(reason))],
    }
}

/// Whether `talk` ends with a change of the command line integration to `enabled` that
/// worked.
pub open spec fn ends_linked(enabled: bool, talk: Seq<Exchange>) -> bool {
    &&& talk.len() > 0
    &&& talk.last().request == link_request(enabled)
    &&& talk.last().reply == ReplyView::Outcome(Ok(()))
    &&& talk.last().after.linked == enabled
}

/// Whether `talk` ends with a change of the command line integration to `enabled` that
/// failed for `reason`, and with a warning that says so.
pub open spec fn ends_warned(enabled: bool, reason: Seq<char>, talk: Seq<Exchange>) -> bool {
    &&& talk.len() > 1
    &&& talk[talk.len() - 2].request == link_request(enabled)
    &&& talk[talk.len() - 2].reply == ReplyView::Outcome(Err(reason))
    &&& talk.last().request == RequestView::Log(Level::Warn, sync_warning(reason))
}

/// Whether `talk` closes with exactly one change of the command line integration, to
/// `enabled`. Before it the command has asked for the log entries `entries`, and the host
/// keeps `journal`. Where it worked, no entry follows. Where it failed, one warning follows
/// that holds the reason, and there is no second try.
pub open spec fn closes_with_link(
    entries: Seq<(Level, Seq<char>)>,
    journal: Seq<(Level, Seq<char>)>,
    enabled: bool,
    talk: Seq<Exchange>,
) -> bool {
    &&& tally(talk, changes_link()) == 1
    &&& {
        ||| {
            &&& ends_linked(enabled, talk)
            &&& logged(talk) == entries
            &&& talk.last().after.journal == journal
        }
        ||| exists|reason: Seq<char>|
            {
                &&& #[trigger] ends_warned(enabled, reason, talk)
                &&& logged(talk) == entries.push((Level::Warn, sync_warning(reason)))
                &&& talk.last().after.journal == journal.push((Level::Warn, sync_warning(reason)))
            }
    }
}

/// A synchronisation reads the settings and brings the integration in line with the switch
/// in them: it is put in place where the switch is on, and else taken away. It ends well
/// whether that works or not; a failure is logged as one warning with its reason. Nothing
/// else changes, the switch least of all.
pub proof fn sync_follows_the_switch(
    world: World,
    talk: Seq<Exchange>,
    end: Result<(), Seq<char>>,
)
    requires
        converses(SyncStageView::Reading, talk, end),
        carried_out(world, talk),
    ensures
        end == Ok::<(), Seq<char>>(()),
        talk[0].request == RequestView::ReadSetting,
        talk[1].request == link_request(world.setting.cli_link_enabled),
        closes_with_link(Seq::empty(), world.journal, world.setting.cli_link_enabled, talk),
        outcome(world, talk) == (World {
            linked: talk.last().after.linked,
            journal: talk.last().after.journal,
            ..world
        }),
{
    let enabled = world.setting.cli_link_enabled;
    assert(talk.skip(0) =~= talk);
    lemma_exchange(SyncStageView::Reading, world, talk, end, 0);
    lemma_exchange(SyncStageView::Linking(enabled), world, talk, end, 1);
    match talk[1].reply->Outcome_0 {
        Ok(unit) => {
            assert(unit == ());
            assert(talk.skip(2).len() == 0);
        },
        Err(reason) => {
            lemma_exchange(SyncStageView::Warning(reason), talk[1].after, talk, end, 2);
            assert(talk.skip(3).len() == 0);
            assert(ends_warned(enabled, reason, talk));
            assert(logged(talk) =~= Seq::empty().push((Level::Warn, sync_warning(reason))));
        },
    }
}

/// What holds from the closing synchronisation of an installation on, which is exchange
/// `i`; `entries` is what was logged before. None of the other requests follows any more.
proof fn lemma_from_sync(
    entries: Seq<(Level, Seq<char>)>,
    world: World,
    talk: Seq<Exchange>,
    end: Result<(), Seq<char>>,
    i: int,
)
    requires
        0 <= i <= talk.len(),
        converses(InstallStageView::Syncing(SyncStageView::Reading), talk.skip(i), end),
        carried_out(world, talk.skip(i)),
        tally(talk, changes_link()) == tally(talk.skip(i), changes_link()),
        logged(talk) == entries + logged(talk.skip(i)),
    ensures
        end == Ok::<(), Seq<char>>(()),
        tally(talk.skip(i), runs_install()) == 0,
        tally(talk.skip(i), stores_setting()) == 0,
        tally(talk.skip(i), marks_installing()) == 0,
        tally(talk.skip(i), emits_status()) == 0,
        closes_with_link(entries, world.journal, world.setting.cli_link_enabled, talk),
        outcome(world, talk.skip(i)) == (World {
            linked: talk.last().after.linked,
            journal: talk.last().after.journal,
            ..world
        }),
{
    let enabled = world.setting.cli_link_enabled;
    lemma_exchange(InstallStageView::Syncing(SyncStageView::Reading), world, talk, end, i);
    lemma_exchange(
        InstallStageView::Syncing(SyncStageView::Linking(enabled)),
        world,
        talk,
        end,
        i + 1,
    );
    match talk[i + 1].reply->Outcome_0 {
        Ok(unit) => {
            assert(unit == ());
            assert(talk.skip(i + 2).len() == 0);
            assert(logged(talk) =~= entries);
        },
        Err(reason) => {
            lemma_exchange(
                InstallStageView::Syncing(SyncStageView::Warning(reason)),
                talk[i + 1].after,
                talk,
                end,
                i + 2,
            );
            assert(talk.skip(i + 3).len() == 0);
            assert(ends_warned(enabled, reason, talk));
            assert(logged(talk) =~= entries.push((Level::Warn, sync_warning(reason))));
        },
    }
}

/// What finding everything in place comes to; `known` is the state in which it was found.
/// It is logged, after the warning for a query that failed. The mark that the dependencies
/// are installed is stored only where it is news. Nothing is installed and no status is set
/// or sent, and the command closes with the synchronisation.
pub open spec fn finds_ready(
    known: World,
    talk: Seq<Exchange>,
    end: Result<(), Seq<char>>,
) -> bool {
    &&& end == Ok::<(), Seq<char>>(())
    &&& tally(talk, runs_install()) == 0
    &&& tally(talk, marks_installing()) == 0
    &&& tally(talk, emits_status()) == 0
    &&& tally(talk, stores_setting()) == (if known.setting.installed {
        0nat
    } else {
        1nat
    })
    &&& {
        let entries = lookup_notes(known.latest).push((Level::Debug, ready_note()));
        closes_with_link(entries, known.journal + entries, known.setting.cli_link_enabled, talk)
    }
    &&& outcome(known, talk) == (World {
        setting: marked_installed(known.setting),
        linked: talk.last().after.linked,
        journal: talk.last().after.journal,
        ..known
    })
}

/// What an installation of `latest` in exchange `k` of `talk` comes to; `known` is the state
/// in which something was found to be missing. That is logged, after the warning for a query
/// that failed, and the status is set and sent just before the installation.
///
/// An installation that failed ends the command with its error: nothing more is logged,
/// nothing is stored, and the integration is not touched. After one that worked, that is
/// logged, the settings that it left are stored with the mark that the dependencies are
/// installed, and the command closes with the synchronisation.
pub open spec fn installs_at(
    latest: Option<LatestDshPkgView>,
    known: World,
    talk: Seq<Exchange>,
    end: Result<(), Seq<char>>,
    k: int,
) -> bool {
    let entries = lookup_notes(known.latest).push((Level::Debug, missing_note()));
    let completed = (Level::Debug, installed_note());
    &&& 2 < k < talk.len()
    &&& talk[k - 3].request == RequestView::Log(Level::Debug, missing_note())
    &&& talk[k - 2].request == RequestView::MarkInstalling
    &&& talk[k - 1].request == RequestView::EmitStatus
    &&& talk[k - 1].after == (World {
        status: Status::Installing,
        journal: known.journal + entries,
        ..known
    })
    &&& talk[k].request == RequestView::RunInstall(latest)
    &&& tally(talk, marks_installing()) == 1
    &&& tally(talk, emits_status()) == 1
    &&& tally(talk, runs_install()) == 1
    &&& match end {
        Ok(_) => {
            let left = talk[k].after;
            &&& talk[k].reply == ReplyView::Outcome(Ok(()))
            &&& tally(talk, stores_setting()) == 1
            &&& closes_with_link(
                entries.push(completed),
                left.journal.push(completed),
                left.setting.cli_link_enabled,
                talk,
            )
            &&& outcome(known, talk) == (World {
                setting: marked_installed(left.setting),
                linked: talk.last().after.linked,
                journal: talk.last().after.journal,
                ..left
            })
        },
        Err(message) => {
            &&& k == talk.len() - 1
            &&& talk[k].reply == ReplyView::Outcome(Err(message))
            &&& tally(talk, stores_setting()) == 0
            &&& tally(talk, changes_link()) == 0
            &&& logged(talk) == entries
            &&& outcome(known, talk) == talk[k].after
        },
    }
}

/// The state `known` after what is logged of the query for the latest release.
spec fn told(known: World) -> World {
    World { journal: known.journal + lookup_notes(known.latest), ..known }
}

/// Whether the exchanges of `talk` before `i` hold the log entries `entries` and no other
/// request that changes something.
spec fn only_looked(entries: Seq<(Level, Seq<char>)>, talk: Seq<Exchange>, i: int) -> bool {
    &&& tally(talk, runs_install()) == tally(talk.skip(i), runs_install())
    &&& tally(talk, stores_setting()) == tally(talk.skip(i), stores_setting())
    &&& tally(talk, marks_installing()) == tally(talk.skip(i), marks_installing())
    &&& tally(talk, emits_status()) == tally(talk.skip(i), emits_status())
    &&& tally(talk, changes_link()) == tally(talk.skip(i), changes_link())
    &&& logged(talk) == entries + logged(talk.skip(i))
}

/// What holds once everything was found in place, which is before exchange `i`.
proof fn lemma_from_ready(known: World, talk: Seq<Exchange>, end: Result<(), Seq<char>>, i: int)
    requires
        0 <= i <= talk.len(),
        converses(InstallStageView::TellingReady, talk.skip(i), end),
        carried_out(told(known), talk.skip(i)),
        only_looked(lookup_notes(known.latest), talk, i),
        outcome(known, talk) == outcome(told(known), talk.skip(i)),
    ensures
        finds_ready(known, talk, end),
{
    let entries = lookup_notes(known.latest).push((Level::Debug, ready_note()));
    lemma_exchange(InstallStageView::TellingReady, told(known), talk, end, i);
    assert(talk[i].after.journal =~= known.journal + entries);
    assert(logged(talk) =~= entries + logged(talk.skip(i + 1)));
    lemma_exchange(InstallStageView::ReadingReady, talk[i].after, talk, end, i + 1);
    if known.setting.installed {
        lemma_from_sync(entries, talk[i].after, talk, end, i + 2);
        assert(marked_installed(known.setting) == known.setting);
    } else {
        let stage = InstallStageView::StoringReady(marked_installed(known.setting));
        lemma_exchange(stage, talk[i].after, talk, end, i + 2);
        lemma_from_sync(entries, talk[i + 2].after, talk, end, i + 3);
    }
}

/// What holds once something was found to be missing, which is before exchange `i`.
proof fn lemma_from_missing(
    latest: Option<LatestDshPkgView>,
    known: World,
    talk: Seq<Exchange>,
    end: Result<(), Seq<char>>,
    i: int,
)
    requires
        0 <= i <= talk.len(),
        converses(InstallStageView::TellingMissing(latest), talk.skip(i), end),
        carried_out(told(known), talk.skip(i)),
        only_looked(lookup_notes(known.latest), talk, i),
        outcome(known, talk) == outcome(told(known), talk.skip(i)),
    ensures
        installs_at(latest, known, talk, end, i + 3),
{
    let entries = lookup_notes(known.latest).push((Level::Debug, missing_note()));
    lemma_exchange(InstallStageView::TellingMissing(latest), told(known), talk, end, i);
    assert(talk[i].after.journal =~= known.journal + entries);
    assert(logged(talk) =~= entries + logged(talk.skip(i + 1)));
    lemma_exchange(InstallStageView::MarkingInstalling(latest), talk[i].after, talk, end, i + 1);
    lemma_exchange(InstallStageView::EmittingStatus(latest), talk[i + 1].after, talk, end, i + 2);
    lemma_exchange(InstallStageView::Installing(latest), talk[i + 2].after, talk, end, i + 3);
    let left = talk[i + 3].after;
    match talk[i + 3].reply->Outcome_0 {
        Ok(unit) => {
            assert(unit == ());
            let completed = (Level::Debug, installed_note());
            let stage = InstallStageView::StoringInstalled(marked_installed(left.setting));
            lemma_exchange(InstallStageView::TellingInstalled, left, talk, end, i + 4);
            assert(logged(talk) =~= entries.push(completed) + logged(talk.skip(i + 5)));
            lemma_exchange(
                InstallStageView::ReadingInstalled,
                talk[i + 4].after,
                talk,
                end,
                i + 5,
            );
            lemma_exchange(stage, talk[i + 4].after, talk, end, i + 6);
            lemma_from_sync(entries.push(completed), talk[i + 6].after, talk, end, i + 7);
        },
        Err(_) => {
            assert(talk.skip(i + 4).len() == 0);
            assert(logged(talk) =~= entries);
        },
    }
}

/// What holds of a whole installation that does not find another one under way; `k` is
/// where it installs, if it does.
proof fn lemma_whole_installation(
    world: World,
    talk: Seq<Exchange>,
    end: Result<(), Seq<char>>,
) -> (k: int)
    requires
        world.status != Status::Installing,
        converses(InstallStageView::ReadingStatus, talk, end),
        carried_out(world, talk),
    ensures
        talk.len() > 4,
        talk[3].request == RequestView::FetchLatest,
        talk[3].reply == ReplyView::Latest(fetched(talk).latest),
        fetched(talk).latest matches Err(reason) ==> talk[4].request == RequestView::Log(
            Level::Warn,
            lookup_warning(reason),
        ),
        undisturbed(world, talk) ==> fetched(talk) == world,
        outcome(world, talk) == outcome(fetched(talk), talk),
        is_ready(world, fetched(talk)) ==> finds_ready(fetched(talk), talk, end),
        !is_ready(world, fetched(talk)) ==> installs_at(
            found(fetched(talk).latest),
            fetched(talk),
            talk,
            end,
            k,
        ),
{
    let node_ok = world.node_installed;
    let files_ok = world.dsh_installed;
    assert(talk.skip(0) =~= talk);
    lemma_exchange(InstallStageView::ReadingStatus, world, talk, end, 0);
    lemma_exchange(InstallStageView::ProbingNode, world, talk, end, 1);
    lemma_exchange(InstallStageView::ProbingDsh { node_ok }, world, talk, end, 2);
    lemma_exchange(InstallStageView::FetchingLatest { node_ok, files_ok }, world, talk, end, 3);
    let known = fetched(talk);
    let latest = found(known.latest);
    let dsh_ok = dsh_is_current(files_ok, known.commit, latest);
    assert(known.journal + Seq::empty() =~= known.journal);
    let at = match known.latest {
        Err(reason) => {
            let stage = InstallStageView::WarningOffline { node_ok, files_ok, reason };
            lemma_exchange(stage, known, talk, end, 4);
            assert(talk[4].after.journal =~= told(known).journal);
            5
        },
        Ok(latest) => if files_ok {
            let stage = InstallStageView::ReadingCommit { node_ok, latest };
            lemma_exchange(stage, known, talk, end, 4);
            5
        } else {
            4
        },
    };
    lemma_exchange(
        InstallStageView::ProbingPnpm { node_ok, dsh_ok, latest },
        told(known),
        talk,
        end,
        at,
    );
    assert(logged(talk) =~= lookup_notes(known.latest) + logged(talk.skip(at + 1)));
    assert(only_looked(lookup_notes(known.latest), talk, at + 1));
    if is_ready(world, known) {
        lemma_from_ready(known, talk, end, at + 1);
    } else {
        lemma_from_missing(latest, known, talk, end, at + 1);
    }
    at + 4
}

/// While an installation is under way, a second one says so in the log, does nothing else
/// and ends well.
pub proof fn running_installation_is_left_alone(
    world: World,
    talk: Seq<Exchange>,
    end: Result<(), Seq<char>>,
)
    requires
        world.status == Status::Installing,
        converses(InstallStageView::ReadingStatus, talk, end),
        carried_out(world, talk),
    ensures
        end == Ok::<(), Seq<char>>(()),
        talk.len() == 2,
        talk[1].request == RequestView::Log(Level::Info, running_note()),
        outcome(world, talk) == (World {
            journal: world.journal.push((Level::Info, running_note())),
            ..world
        }),
{
    assert(talk.skip(0) =~= talk);
    lemma_exchange(InstallStageView::ReadingStatus, world, talk, end, 0);
    lemma_exchange(InstallStageView::TellingRunning, world, talk, end, 1);
    assert(talk.skip(2).len() == 0);
}

/// Where everything is in place and up to date, nothing is installed. The command ends
/// well with the dependencies marked as installed, stores that only where it is news, and
/// changes nothing else but the command line integration and the log.
pub proof fn ready_setup_is_kept(world: World, talk: Seq<Exchange>, end: Result<(), Seq<char>>)
    requires
        world.status != Status::Installing,
        is_ready(world, fetched(talk)),
        converses(InstallStageView::ReadingStatus, talk, end),
        carried_out(world, talk),
    ensures
        finds_ready(fetched(talk), talk, end),
        outcome(world, talk) == outcome(fetched(talk), talk),
{
    lemma_whole_installation(world, talk, end);
}

/// Where something is missing or outdated, one installation runs, of the release that was
/// found.
pub proof fn missing_parts_are_installed(
    world: World,
    talk: Seq<Exchange>,
    end: Result<(), Seq<char>>,
) -> (k: int)
    requires
        world.status != Status::Installing,
        !is_ready(world, fetched(talk)),
        converses(InstallStageView::ReadingStatus, talk, end),
        carried_out(world, talk),
    ensures
        installs_at(found(fetched(talk).latest), fetched(talk), talk, end, k),
        outcome(world, talk) == outcome(fetched(talk), talk),
{
    lemma_whole_installation(world, talk, end)
}

/// Where the query for the latest release fails, a warning with the reason is logged, a
/// complete local installation is kept and nothing holds the start up.
pub proof fn offline_keeps_the_local_installation(
    world: World,
    talk: Seq<Exchange>,
    end: Result<(), Seq<char>>,
)
    requires
        world.status != Status::Installing,
        world.node_installed && world.dsh_installed,
        fetched(talk).latest is Err,
        fetched(talk).pnpm_installed,
        converses(InstallStageView::ReadingStatus, talk, end),
        carried_out(world, talk),
    ensures
        talk[3].reply == ReplyView::Latest(Err(fetched(talk).latest->Err_0)),
        talk[4].request == RequestView::Log(
            Level::Warn,
            lookup_warning(fetched(talk).latest->Err_0),
        ),
        finds_ready(fetched(talk), talk, end),
{
    lemma_whole_installation(world, talk, end);
}

/// A Harness whose files are in place is installed again as soon as the latest release has
/// another commit than the one on record.
pub proof fn outdated_harness_is_reinstalled(
    world: World,
    release: LatestDshPkgView,
    talk: Seq<Exchange>,
    end: Result<(), Seq<char>>,
) -> (k: int)
    requires
        world.status != Status::Installing,
        fetched(talk).latest == Ok::<LatestDshPkgView, Seq<char>>(release),
        fetched(talk).commit != Some(release.commit),
        converses(InstallStageView::ReadingStatus, talk, end),
        carried_out(world, talk),
    ensures
        installs_at(Some(release), fetched(talk), talk, end, k),
{
    missing_parts_are_installed(world, talk, end)
}

/// An installation that ends well and did not find another one under way leaves the
/// dependencies marked as installed.
pub proof fn success_means_installed(world: World, talk: Seq<Exchange>)
    requires
        world.status != Status::Installing,
        converses(InstallStageView::ReadingStatus, talk, Ok(())),
        carried_out(world, talk),
    ensures
        outcome(world, talk).setting.installed,
{
    lemma_whole_installation(world, talk, Ok(()));
}

/// Running the command again on a setup that it found ready installs nothing and stores
/// nothing, as long as nothing else happens meanwhile.
pub proof fn ready_setup_is_stable(
    world: World,
    first: Seq<Exchange>,
    first_end: Result<(), Seq<char>>,
    second: Seq<Exchange>,
    second_end: Result<(), Seq<char>>,
)
    requires
        world.status != Status::Installing,
        is_ready(world, world),
        converses(InstallStageView::ReadingStatus, first, first_end),
        carried_out(world, first),
        undisturbed(world, first),
        converses(InstallStageView::ReadingStatus, second, second_end),
        carried_out(outcome(world, first), second),
        undisturbed(outcome(world, first), second),
    ensures
        second_end == Ok::<(), Seq<char>>(()),
        tally(second, runs_install()) == 0,
        tally(second, stores_setting()) == 0,
        outcome(outcome(world, first), second).setting == outcome(world, first).setting,
{
    lemma_whole_installation(world, first, first_end);
    lemma_whole_installation(outcome(world, first), second, second_end);
}

/// A start that nothing disturbs finds a setup that is ready to be ready.
pub proof fn undisturbed_start_finds_ready(
    world: World,
    talk: Seq<Exchange>,
    end: Result<(), Seq<char>>,
)
    requires
        world.status != Status::Installing,
        is_ready(world, world),
        converses(InstallStageView::ReadingStatus, talk, end),
        carried_out(world, talk),
        undisturbed(world, talk),
    ensures
        finds_ready(world, talk, end),
{
    lemma_whole_installation(world, talk, end);
}

} // verus!
