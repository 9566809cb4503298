//! What an installation and the synchronisation that closes it are for.
use vstd::prelude::*;

use crate::dialogue::{
    carried_out, changes_link, converses, emits_status, lemma_exchange, logged, marks_installing,
    outcome, runs_install, stores_setting, tally, Exchange, World,
};
use crate::host::{
    Component, LatestDshPkgView, Level, ReplyView, RequestView, Status,
};
use crate::install::{dsh_is_current, marked_installed, InstallStageView, SyncStageView};
use crate::settings::SettingView;

verus! {

/// What an installation asks from its closing synchronisation on, which is exchange `i`.
proof fn lemma_closing(world: World, talk: Seq<Exchange>, end: Result<(), Seq<char>>, i: int)
    requires
        0 <= i <= talk.len(),
        converses(InstallStageView::Syncing(SyncStageView::Reading), talk.skip(i), end),
        carried_out(world, talk.skip(i)),
    ensures
        end == Ok::<(), Seq<char>>(()),
        talk[i].request == RequestView::ReadSetting,
        talk[i + 1].request == (if world.setting.cli_link_enabled {
            RequestView::EnsureCliLink
        } else {
            RequestView::RemoveCliLink
        }),
        talk[i + 1].reply is Outcome,
        talk[i + 1].reply == ReplyView::Outcome(Ok(())) ==> {
            &&& talk.len() == i + 2
            &&& talk.last().after == (World {
                linked: world.setting.cli_link_enabled,
                ..world
            })
            &&& logged(talk.skip(i)) == Seq::<(Level, Seq<char>)>::empty()
        },
        talk[i + 1].reply matches ReplyView::Outcome(Err(reason)) ==> {
            let warning = "cli link sync failed: "@ + reason;
            &&& talk.len() == i + 3
            &&& talk[i + 2].request == RequestView::Log(Level::Warn, warning)
            &&& talk.last().after == (World {
                linked: talk[i + 1].after.linked,
                journal: world.journal.push((Level::Warn, warning)),
                ..world
            })
            &&& logged(talk.skip(i)) == seq![(Level::Warn, warning)]
        },
        outcome(world, talk.skip(i)) == talk.last().after,
        tally(talk.skip(i), changes_link()) == 1,
        tally(talk.skip(i), runs_install()) == 0,
        tally(talk.skip(i), stores_setting()) == 0,
        tally(talk.skip(i), marks_installing()) == 0,
        tally(talk.skip(i), emits_status()) == 0,
{
    let enabled = world.setting.cli_link_enabled;
    lemma_exchange(InstallStageView::Syncing(SyncStageView::Reading), world, talk, end, i);
    lemma_exchange(
        InstallStageView::Syncing(SyncStageView::Linking(enabled)),
        world,
        talk,
        end,
        i + 1,
    );
    match talk[i + 1].reply->Outcome_0 {
        Ok(unit) => {
            assert(unit == ());
            assert(talk.skip(i + 2).len() == 0);
        },
        Err(reason) => {
            lemma_exchange(
                InstallStageView::Syncing(SyncStageView::Warning(reason)),
                talk[i + 1].after,
                talk,
                end,
                i + 2,
            );
            assert(talk.skip(i + 3).len() == 0);
            assert(logged(talk.skip(i)) =~= seq![
                (Level::Warn, "cli link sync failed: "@ + reason),
            ]);
        },
    }
}

/// A synchronisation reads the switch, and puts the command line integration in place where
/// the switch is on and takes it away where it is off. Where that fails, the reason goes to
/// the log as one warning. It always ends well, and the settings stay as they are.
pub proof fn link_follows_its_switch(
    world: World,
    talk: Seq<Exchange>,
    end: Result<(), Seq<char>>,
)
    requires
        converses(SyncStageView::Reading, talk, end),
        carried_out(world, talk),
    ensures
        end == Ok::<(), Seq<char>>(()),
        talk[0].request == RequestView::ReadSetting,
        talk[1].request == (if world.setting.cli_link_enabled {
            RequestView::EnsureCliLink
        } else {
            RequestView::RemoveCliLink
        }),
        talk[1].reply == ReplyView::Outcome(Ok(())) ==> {
            &&& talk.len() == 2
            &&& outcome(world, talk) == (World {
                linked: world.setting.cli_link_enabled,
                ..world
            })
        },
        talk[1].reply != ReplyView::Outcome(Ok(())) ==> {
            &&& talk[1].reply matches ReplyView::Outcome(Err(reason))
            &&& talk.len() == 3
            &&& talk[2].request == RequestView::Log(
                Level::Warn,
                "cli link sync failed: "@ + reason,
            )
            &&& outcome(world, talk) == (World {
                linked: talk[1].after.linked,
                journal: world.journal.push((Level::Warn, "cli link sync failed: "@ + reason)),
                ..world
            })
        },
{
    let enabled = world.setting.cli_link_enabled;
    assert(talk.skip(0) =~= talk);
    lemma_exchange(SyncStageView::Reading, world, talk, end, 0);
    lemma_exchange(SyncStageView::Linking(enabled), world, talk, end, 1);
    match talk[1].reply->Outcome_0 {
        Ok(unit) => {
            assert(unit == ());
            assert(talk.skip(2).len() == 0);
        },
        Err(reason) => {
            lemma_exchange(SyncStageView::Warning(reason), talk[1].after, talk, end, 2);
            assert(talk.skip(3).len() == 0);
        },
    }
}

/// While an installation is under way, another one notes that and ends well, and does
/// nothing else.
pub proof fn second_installation_only_notes_the_first(
    world: World,
    talk: Seq<Exchange>,
    end: Result<(), Seq<char>>,
)
    requires
        world.status == Status::Installing,
        converses(InstallStageView::ReadingStatus, talk, end),
        carried_out(world, talk),
    ensures
        end == Ok::<(), Seq<char>>(()),
        talk.len() == 2,
        talk[0].request == RequestView::ReadStatus,
        talk[1].request == RequestView::Log(
            Level::Info,
            "Installation process already running, skipping"@,
        ),
        outcome(world, talk) == (World {
            journal: world.journal.push(
                (Level::Info, "Installation process already running, skipping"@),
            ),
            ..world
        }),
{
    assert(talk.skip(0) =~= talk);
    lemma_exchange(InstallStageView::ReadingStatus, world, talk, end, 0);
    lemma_exchange(InstallStageView::TellingRunning, world, talk, end, 1);
    assert(talk.skip(2).len() == 0);
}

/// What an installation asks until it knows what is in place. The position that it returns
/// is where it looks for pnpm.
proof fn lemma_looking(world: World, talk: Seq<Exchange>, end: Result<(), Seq<char>>) -> (at: int)
    requires
        world.status != Status::Installing,
        converses(InstallStageView::ReadingStatus, talk, end),
        carried_out(world, talk),
    ensures
        at == (if talk[3].after.latest is Err || world.dsh_installed {
            5int
        } else {
            4int
        }),
        at < talk.len(),
        talk[0].request == RequestView::ReadStatus,
        talk[1].request == RequestView::CheckInstalled(Component::Nodejs),
        talk[2].request == RequestView::CheckInstalled(Component::Dsh),
        talk[3].request == RequestView::FetchLatest,
        talk[3].reply == ReplyView::Latest(talk[3].after.latest),
        talk[3].after.latest matches Err(reason) ==> talk[4].request == RequestView::Log(
            Level::Warn,
            "Failed to check latest dsh release info, keeping local install: "@ + reason,
        ),
        talk[3].after.latest is Ok && world.dsh_installed ==> talk[4].request
            == RequestView::ReadCommit,
        talk[at].request == RequestView::CheckInstalled(Component::Pnpm),
        talk[at].after == (World { journal: talk[at].after.journal, ..talk[3].after }),
        talk[3].after.latest is Ok ==> {
            &&& talk[at].after.journal == talk[3].after.journal
            &&& logged(talk) == logged(talk.skip(at + 1))
        },
        talk[3].after.latest matches Err(reason) ==> {
            let warning = "Failed to check latest dsh release info, keeping local install: "@
                + reason;
            &&& talk[at].after.journal == talk[3].after.journal.push((Level::Warn, warning))
            &&& logged(talk) == seq![(Level::Warn, warning)] + logged(talk.skip(at + 1))
        },
        ({
            let seen = talk[3].after;
            if world.node_installed && world.dsh_installed && seen.pnpm_installed && (
            seen.latest matches Ok(release) ==> seen.commit == Some(release.commit)) {
                converses(InstallStageView::TellingReady, talk.skip(at + 1), end)
            } else {
                converses(
                    InstallStageView::TellingMissing(
                        match seen.latest {
                            Ok(release) => Some(release),
                            Err(_) => None,
                        },
                    ),
                    talk.skip(at + 1),
                    end,
                )
            }
        }),
        carried_out(talk[at].after, talk.skip(at + 1)),
        outcome(world, talk) == outcome(talk[at].after, talk.skip(at + 1)),
        tally(talk, changes_link()) == tally(talk.skip(at + 1), changes_link()),
        tally(talk, runs_install()) == tally(talk.skip(at + 1), runs_install()),
        tally(talk, stores_setting()) == tally(talk.skip(at + 1), stores_setting()),
        tally(talk, marks_installing()) == tally(talk.skip(at + 1), marks_installing()),
        tally(talk, emits_status()) == tally(talk.skip(at + 1), emits_status()),
{
    let node_ok = world.node_installed;
    let files_ok = world.dsh_installed;
    assert(talk.skip(0) =~= talk);
    lemma_exchange(InstallStageView::ReadingStatus, world, talk, end, 0);
    lemma_exchange(InstallStageView::ProbingNode, world, talk, end, 1);
    lemma_exchange(InstallStageView::ProbingDsh { node_ok }, world, talk, end, 2);
    lemma_exchange(InstallStageView::FetchingLatest { node_ok, files_ok }, world, talk, end, 3);
    let seen = talk[3].after;
    match seen.latest {
        Err(reason) => {
            let stage = InstallStageView::WarningOffline { node_ok, files_ok, reason };
            lemma_exchange(stage, seen, talk, end, 4);
            let dsh_ok = dsh_is_current(files_ok, None, None);
            let stage = InstallStageView::ProbingPnpm { node_ok, dsh_ok, latest: None };
            lemma_exchange(stage, talk[4].after, talk, end, 5);
            5
        },
        Ok(latest) => if files_ok {
            let stage = InstallStageView::ReadingCommit { node_ok, latest };
            lemma_exchange(stage, seen, talk, end, 4);
            let dsh_ok = dsh_is_current(true, seen.commit, Some(latest));
            let stage = InstallStageView::ProbingPnpm { node_ok, dsh_ok, latest: Some(latest) };
            lemma_exchange(stage, seen, talk, end, 5);
            5
        } else {
            let stage = InstallStageView::ProbingPnpm {
                node_ok,
                dsh_ok: false,
                latest: Some(latest),
            };
            lemma_exchange(stage, seen, talk, end, 4);
            4
        },
    }
}

/// What an installation asks where everything is in place, from exchange `i` on.
proof fn lemma_ready(world: World, talk: Seq<Exchange>, end: Result<(), Seq<char>>, i: int)
    requires
        0 <= i <= talk.len(),
        converses(InstallStageView::TellingReady, talk.skip(i), end),
        carried_out(world, talk.skip(i)),
    ensures
        ({
            let note = "Dependencies already installed and up to date, skipping installation"@;
            let close = if world.setting.installed {
                i + 2
            } else {
                i + 3
            };
            let known = World {
                setting: SettingView { installed: true, ..world.setting },
                journal: world.journal.push((Level::Debug, note)),
                ..world
            };
            &&& talk[i].request == RequestView::Log(Level::Debug, note)
            &&& talk[i + 1].request == RequestView::ReadSetting
            &&& !world.setting.installed ==> talk[i + 2].request == RequestView::StoreSetting(
                SettingView { installed: true, ..world.setting },
            )
            &&& close <= talk.len()
            &&& converses(
                InstallStageView::Syncing(SyncStageView::Reading),
                talk.skip(close),
                end,
            )
            &&& carried_out(known, talk.skip(close))
            &&& outcome(world, talk.skip(i)) == outcome(known, talk.skip(close))
            &&& logged(talk.skip(i)) == seq![(Level::Debug, note)] + logged(talk.skip(close))
            &&& tally(talk.skip(i), changes_link()) == 1
            &&& tally(talk.skip(i), runs_install()) == 0
            &&& tally(talk.skip(i), marks_installing()) == 0
            &&& tally(talk.skip(i), emits_status()) == 0
            &&& tally(talk.skip(i), stores_setting()) == (if world.setting.installed {
                0nat
            } else {
                1nat
            })
        }),
{
    lemma_exchange(InstallStageView::TellingReady, world, talk, end, i);
    lemma_exchange(InstallStageView::ReadingReady, talk[i].after, talk, end, i + 1);
    if world.setting.installed {
        assert((SettingView { installed: true, ..world.setting }) == world.setting);
        lemma_closing(talk[i].after, talk, end, i + 2);
    } else {
        let stage = InstallStageView::StoringReady(marked_installed(world.setting));
        lemma_exchange(stage, talk[i].after, talk, end, i + 2);
        lemma_closing(talk[i + 2].after, talk, end, i + 3);
    }
}

/// What an installation asks where something is missing, from exchange `i` on, up to the
/// installation itself.
proof fn lemma_missing(
    latest: Option<LatestDshPkgView>,
    world: World,
    talk: Seq<Exchange>,
    end: Result<(), Seq<char>>,
    i: int,
)
    requires
        0 <= i <= talk.len(),
        converses(InstallStageView::TellingMissing(latest), talk.skip(i), end),
        carried_out(world, talk.skip(i)),
    ensures
        ({
            let note = "Dependencies missing or outdated, starting installation process"@;
            let left = talk[i + 3].after;
            &&& i + 3 < talk.len()
            &&& talk[i].request == RequestView::Log(Level::Debug, note)
            &&& talk[i + 1].request == RequestView::MarkInstalling
            &&& talk[i + 2].request == RequestView::EmitStatus
            &&& talk[i + 2].after == (World {
                status: Status::Installing,
                journal: world.journal.push((Level::Debug, note)),
                ..world
            })
            &&& talk[i + 3].request == RequestView::RunInstall(latest)
            &&& talk[i + 3].reply is Outcome
            &&& tally(talk.skip(i), runs_install()) == 1
            &&& tally(talk.skip(i), marks_installing()) == 1
            &&& tally(talk.skip(i), emits_status()) == 1
            &&& talk[i + 3].reply matches ReplyView::Outcome(Err(message)) ==> {
                &&& end == Err::<(), Seq<char>>(message)
                &&& talk.len() == i + 4
                &&& outcome(world, talk.skip(i)) == left
                &&& logged(talk.skip(i)) == seq![(Level::Debug, note)]
                &&& tally(talk.skip(i), stores_setting()) == 0
                &&& tally(talk.skip(i), changes_link()) == 0
            }
            &&& talk[i + 3].reply == ReplyView::Outcome(Ok(())) ==> {
                let done = (Level::Debug, "Installation completed, marked as installed"@);
                let setting = SettingView { installed: true, ..left.setting };
                let stored = World { setting, journal: left.journal.push(done), ..left };
                &&& end == Ok::<(), Seq<char>>(())
                &&& i + 7 <= talk.len()
                &&& talk[i + 4].request == RequestView::Log(done.0, done.1)
                &&& talk[i + 5].request == RequestView::ReadSetting
                &&& talk[i + 6].request == RequestView::StoreSetting(setting)
                &&& converses(
                    InstallStageView::Syncing(SyncStageView::Reading),
                    talk.skip(i + 7),
                    end,
                )
                &&& carried_out(stored, talk.skip(i + 7))
                &&& outcome(world, talk.skip(i)) == outcome(stored, talk.skip(i + 7))
                &&& logged(talk.skip(i)) == seq![(Level::Debug, note), done] + logged(
                    talk.skip(i + 7),
                )
                &&& tally(talk.skip(i), stores_setting()) == 1
                &&& tally(talk.skip(i), changes_link()) == 1
            }
        }),
{
    lemma_exchange(InstallStageView::TellingMissing(latest), world, talk, end, i);
    lemma_exchange(InstallStageView::MarkingInstalling(latest), talk[i].after, talk, end, i + 1);
    lemma_exchange(InstallStageView::EmittingStatus(latest), talk[i + 1].after, talk, end, i + 2);
    lemma_exchange(InstallStageView::Installing(latest), talk[i + 2].after, talk, end, i + 3);
    let left = talk[i + 3].after;
    let note = "Dependencies missing or outdated, starting installation process"@;
    match talk[i + 3].reply->Outcome_0 {
        Ok(unit) => {
            assert(unit == ());
            let done = (Level::Debug, "Installation completed, marked as installed"@);
            let stage = InstallStageView::StoringInstalled(marked_installed(left.setting));
            lemma_exchange(InstallStageView::TellingInstalled, left, talk, end, i + 4);
            lemma_exchange(
                InstallStageView::ReadingInstalled,
                talk[i + 4].after,
                talk,
                end,
                i + 5,
            );
            lemma_exchange(stage, talk[i + 4].after, talk, end, i + 6);
            lemma_closing(talk[i + 6].after, talk, end, i + 7);
            assert(logged(talk.skip(i)) =~= seq![(Level::Debug, note), done] + logged(
                talk.skip(i + 7),
            ));
        },
        Err(_) => {
            assert(talk.skip(i + 4).len() == 0);
            assert(logged(talk.skip(i)) =~= seq![(Level::Debug, note)]);
        },
    }
}

/// Where the files of the Harness are not in place, exactly one installation runs, whatever
/// the record and the latest release say.
pub proof fn missing_harness_is_installed(
    world: World,
    talk: Seq<Exchange>,
    end: Result<(), Seq<char>>,
)
    requires
        world.status != Status::Installing,
        !world.dsh_installed,
        converses(InstallStageView::ReadingStatus, talk, end),
        carried_out(world, talk),
    ensures
        tally(talk, runs_install()) == 1,
        tally(talk, marks_installing()) == 1,
        tally(talk, emits_status()) == 1,
{
    installs_unless_all_is_in_place(world, talk, end);
}

/// Where Node.js or pnpm is not in place, exactly one installation runs, whatever else is.
/// pnpm is looked for once the query for the latest release is answered.
pub proof fn missing_runtime_is_installed(
    world: World,
    talk: Seq<Exchange>,
    end: Result<(), Seq<char>>,
)
    requires
        world.status != Status::Installing,
        !world.node_installed || !talk[3].after.pnpm_installed,
        converses(InstallStageView::ReadingStatus, talk, end),
        carried_out(world, talk),
    ensures
        tally(talk, runs_install()) == 1,
        tally(talk, marks_installing()) == 1,
        tally(talk, emits_status()) == 1,
{
    installs_unless_all_is_in_place(world, talk, end);
}

/// A Harness without its files is never up to date. One with its files is, where no release
/// is known to hold against it; and else if and only if the record names the commit of the
/// release.
pub proof fn harness_is_current_by_files_and_record(
    files_in_place: bool,
    recorded: Option<Seq<char>>,
    release: LatestDshPkgView,
)
    ensures
        dsh_is_current(files_in_place, recorded, None) == files_in_place,
        dsh_is_current(files_in_place, recorded, Some(release)) <==> {
            &&& files_in_place
            &&& recorded matches Some(commit)
            &&& commit == release.commit
        },
{
}

/// Exactly one installation runs, unless Node.js, the files of the Harness and pnpm are in
/// place and the latest release, where it is known, has the commit on record. In that case
/// none runs, and the status is neither set nor sent.
pub proof fn installs_unless_all_is_in_place(
    world: World,
    talk: Seq<Exchange>,
    end: Result<(), Seq<char>>,
)
    requires
        world.status != Status::Installing,
        converses(InstallStageView::ReadingStatus, talk, end),
        carried_out(world, talk),
    ensures
        ({
            let seen = talk[3].after;
            let runs: nat = if world.node_installed && world.dsh_installed && seen.pnpm_installed
                && (seen.latest matches Ok(release) ==> seen.commit == Some(release.commit)) {
                0
            } else {
                1
            };
            &&& talk[3].request == RequestView::FetchLatest
            &&& talk[3].reply == ReplyView::Latest(seen.latest)
            &&& tally(talk, runs_install()) == runs
            &&& tally(talk, marks_installing()) == runs
            &&& tally(talk, emits_status()) == runs
        }),
{
    let at = lemma_looking(world, talk, end);
    let seen = talk[3].after;
    if world.node_installed && world.dsh_installed && seen.pnpm_installed && (
    seen.latest matches Ok(release) ==> seen.commit == Some(release.commit)) {
        lemma_ready(talk[at].after, talk, end, at + 1);
    } else {
        let latest = match seen.latest {
            Ok(release) => Some(release),
            Err(_) => None,
        };
        lemma_missing(latest, talk[at].after, talk, end, at + 1);
    }
}

/// An installation first looks for Node.js and the files of the Harness, then asks for the
/// latest release, and then looks for pnpm. The record is read only where there are files
/// and a release to hold against it; a query that failed is logged with its reason.
pub proof fn installation_looks_before_it_acts(
    world: World,
    talk: Seq<Exchange>,
    end: Result<(), Seq<char>>,
)
    requires
        world.status != Status::Installing,
        converses(InstallStageView::ReadingStatus, talk, end),
        carried_out(world, talk),
    ensures
        talk[0].request == RequestView::ReadStatus,
        talk[1].request == RequestView::CheckInstalled(Component::Nodejs),
        talk[2].request == RequestView::CheckInstalled(Component::Dsh),
        talk[3].request == RequestView::FetchLatest,
        match talk[3].after.latest {
            Err(reason) => {
                &&& talk[4].request == RequestView::Log(
                    Level::Warn,
                    "Failed to check latest dsh release info, keeping local install: "@ + reason,
                )
                &&& talk[5].request == RequestView::CheckInstalled(Component::Pnpm)
            },
            Ok(_) => if world.dsh_installed {
                &&& talk[4].request == RequestView::ReadCommit
                &&& talk[5].request == RequestView::CheckInstalled(Component::Pnpm)
            } else {
                talk[4].request == RequestView::CheckInstalled(Component::Pnpm)
            },
        },
{
    lemma_looking(world, talk, end);
}

/// Where no installation runs, the command ends well. The settings are marked as installed,
/// which is stored only where it is news, and the integration is put in place or taken away
/// as its switch says. That everything is in place is logged, and so is a query or a change
/// of the integration that failed. Nothing else changes.
pub proof fn complete_setup_is_only_marked(
    world: World,
    talk: Seq<Exchange>,
    end: Result<(), Seq<char>>,
)
    requires
        world.status != Status::Installing,
        tally(talk, runs_install()) == 0,
        converses(InstallStageView::ReadingStatus, talk, end),
        carried_out(world, talk),
    ensures
        ({
            let seen = talk[3].after;
            let warned = match seen.latest {
                Ok(_) => Seq::empty(),
                Err(reason) => seq![
                    (
                        Level::Warn,
                        "Failed to check latest dsh release info, keeping local install: "@
                            + reason,
                    ),
                ],
            };
            let noted = warned + seq![
                (
                    Level::Debug,
                    "Dependencies already installed and up to date, skipping installation"@,
                ),
            ];
            let marked = World {
                setting: SettingView { installed: true, ..seen.setting },
                journal: seen.journal + noted,
                ..seen
            };
            let looks: int = if seen.latest is Err || world.dsh_installed {
                6
            } else {
                5
            };
            let close = if seen.setting.installed {
                looks + 2
            } else {
                looks + 3
            };
            &&& end == Ok::<(), Seq<char>>(())
            &&& talk[looks].request is Log
            &&& talk[looks + 1].request == RequestView::ReadSetting
            &&& !seen.setting.installed ==> talk[looks + 2].request == RequestView::StoreSetting(
                SettingView { installed: true, ..seen.setting },
            )
            &&& tally(talk, stores_setting()) == (if seen.setting.installed {
                0nat
            } else {
                1nat
            })
            &&& talk[close].request == RequestView::ReadSetting
            &&& tally(talk, changes_link()) == 1
            &&& talk[close + 1].request == (if seen.setting.cli_link_enabled {
                RequestView::EnsureCliLink
            } else {
                RequestView::RemoveCliLink
            })
            &&& match talk[close + 1].reply {
                ReplyView::Outcome(Ok(_)) => {
                    &&& talk.len() == close + 2
                    &&& logged(talk) == noted
                    &&& outcome(world, talk) == (World {
                        linked: seen.setting.cli_link_enabled,
                        ..marked
                    })
                },
                ReplyView::Outcome(Err(reason)) => {
                    let warning = (Level::Warn, "cli link sync failed: "@ + reason);
                    &&& talk.len() == close + 3
                    &&& logged(talk) == noted.push(warning)
                    &&& outcome(world, talk) == (World {
                        linked: talk[close + 1].after.linked,
                        journal: marked.journal.push(warning),
                        ..marked
                    })
                },
                _ => false,
            }
        }),
{
    let at = lemma_looking(world, talk, end);
    installs_unless_all_is_in_place(world, talk, end);
    let seen = talk[3].after;
    let ready = (
        Level::Debug,
        "Dependencies already installed and up to date, skipping installation"@,
    );
    let warned = match seen.latest {
        Ok(_) => Seq::empty(),
        Err(reason) => seq![
            (
                Level::Warn,
                "Failed to check latest dsh release info, keeping local install: "@ + reason,
            ),
        ],
    };
    let noted = warned + seq![ready];
    lemma_ready(talk[at].after, talk, end, at + 1);
    assert(talk[at].after.journal.push(ready) =~= seen.journal + noted);
    let close = if seen.setting.installed {
        at + 3
    } else {
        at + 4
    };
    let marked = World {
        setting: SettingView { installed: true, ..seen.setting },
        journal: seen.journal + noted,
        ..seen
    };
    lemma_closing(marked, talk, end, close);
    match talk[close + 1].reply->Outcome_0 {
        Ok(unit) => {
            assert(unit == ());
            assert(logged(talk) =~= noted);
        },
        Err(reason) => {
            let warning = (Level::Warn, "cli link sync failed: "@ + reason);
            assert(logged(talk) =~= noted.push(warning));
        },
    }
}

/// Where an installation runs, that something is missing is logged first, after the warning
/// for a query that failed, and the status is set and sent. Then the latest release is
/// installed, if it is known. Where that fails, the command ends with its error and does
/// nothing more: nothing is stored and the integration is not touched.
pub proof fn installation_is_announced(
    world: World,
    talk: Seq<Exchange>,
    end: Result<(), Seq<char>>,
)
    requires
        world.status != Status::Installing,
        tally(talk, runs_install()) > 0,
        converses(InstallStageView::ReadingStatus, talk, end),
        carried_out(world, talk),
    ensures
        ({
            let seen = talk[3].after;
            let run: int = if seen.latest is Err || world.dsh_installed {
                9
            } else {
                8
            };
            let missing = (
                Level::Debug,
                "Dependencies missing or outdated, starting installation process"@,
            );
            let noted = match seen.latest {
                Ok(_) => seq![missing],
                Err(reason) => seq![
                    (
                        Level::Warn,
                        "Failed to check latest dsh release info, keeping local install: "@
                            + reason,
                    ),
                    missing,
                ],
            };
            &&& talk[run - 3].request == RequestView::Log(missing.0, missing.1)
            &&& talk[run - 2].request == RequestView::MarkInstalling
            &&& talk[run - 1].request == RequestView::EmitStatus
            &&& talk[run - 1].after == (World {
                status: Status::Installing,
                journal: seen.journal + noted,
                ..seen
            })
            &&& talk[run].request == RequestView::RunInstall(
                match seen.latest {
                    Ok(release) => Some(release),
                    Err(_) => None,
                },
            )
            &&& match talk[run].reply {
                ReplyView::Outcome(Err(message)) => {
                    &&& end == Err::<(), Seq<char>>(message)
                    &&& talk.len() == run + 1
                    &&& outcome(world, talk) == talk[run].after
                    &&& logged(talk) == noted
                    &&& tally(talk, stores_setting()) == 0
                    &&& tally(talk, changes_link()) == 0
                },
                ReplyView::Outcome(Ok(_)) => end == Ok::<(), Seq<char>>(()),
                _ => false,
            }
        }),
{
    let at = lemma_looking(world, talk, end);
    installs_unless_all_is_in_place(world, talk, end);
    let seen = talk[3].after;
    let missing = (
        Level::Debug,
        "Dependencies missing or outdated, starting installation process"@,
    );
    let noted = match seen.latest {
        Ok(_) => seq![missing],
        Err(reason) => seq![
            (
                Level::Warn,
                "Failed to check latest dsh release info, keeping local install: "@ + reason,
            ),
            missing,
        ],
    };
    let latest = match seen.latest {
        Ok(release) => Some(release),
        Err(_) => None,
    };
    lemma_missing(latest, talk[at].after, talk, end, at + 1);
    assert(talk[at].after.journal.push(missing) =~= seen.journal + noted);
    match talk[at + 4].reply->Outcome_0 {
        Err(_) => {
            assert(logged(talk) =~= noted);
        },
        Ok(unit) => {
            assert(unit == ());
        },
    }
}

/// After an installation that worked, that is logged. The settings that it left are stored
/// with the mark that the dependencies are installed and with every other value as it was,
/// and the integration is put in place or taken away as its switch says by then. Nothing
/// else changes.
pub proof fn installation_marks_what_it_left(
    world: World,
    talk: Seq<Exchange>,
    run: int,
)
    requires
        world.status != Status::Installing,
        0 <= run < talk.len(),
        talk[run].request is RunInstall,
        converses(InstallStageView::ReadingStatus, talk, Ok(())),
        carried_out(world, talk),
    ensures
        ({
            let left = talk[run].after;
            let done = (Level::Debug, "Installation completed, marked as installed"@);
            let setting = SettingView { installed: true, ..left.setting };
            let stored = World { setting, journal: left.journal.push(done), ..left };
            &&& talk[run].reply == ReplyView::Outcome(Ok(()))
            &&& talk[run + 1].request == RequestView::Log(done.0, done.1)
            &&& talk[run + 2].request == RequestView::ReadSetting
            &&& talk[run + 3].request == RequestView::StoreSetting(setting)
            &&& tally(talk, stores_setting()) == 1
            &&& talk[run + 4].request == RequestView::ReadSetting
            &&& tally(talk, changes_link()) == 1
            &&& talk[run + 5].request == (if left.setting.cli_link_enabled {
                RequestView::EnsureCliLink
            } else {
                RequestView::RemoveCliLink
            })
            &&& match talk[run + 5].reply {
                ReplyView::Outcome(Ok(_)) => {
                    &&& talk.len() == run + 6
                    &&& outcome(world, talk) == (World {
                        linked: left.setting.cli_link_enabled,
                        ..stored
                    })
                },
                ReplyView::Outcome(Err(reason)) => {
                    let warning = (Level::Warn, "cli link sync failed: "@ + reason);
                    &&& talk.len() == run + 7
                    &&& talk[run + 6].request == RequestView::Log(warning.0, warning.1)
                    &&& outcome(world, talk) == (World {
                        linked: talk[run + 5].after.linked,
                        journal: stored.journal.push(warning),
                        ..stored
                    })
                },
                _ => false,
            }
        }),
{
    let end = Ok::<(), Seq<char>>(());
    lemma_asked(talk, runs_install(), run);
    let at = lemma_looking(world, talk, end);
    installs_unless_all_is_in_place(world, talk, end);
    let seen = talk[3].after;
    let latest = match seen.latest {
        Ok(release) => Some(release),
        Err(_) => None,
    };
    lemma_missing(latest, talk[at].after, talk, end, at + 1);
    lemma_asked_once(talk, runs_install(), run, at + 4);
    let left = talk[run].after;
    let done = (Level::Debug, "Installation completed, marked as installed"@);
    let setting = SettingView { installed: true, ..left.setting };
    let stored = World { setting, journal: left.journal.push(done), ..left };
    if let ReplyView::Outcome(Ok(unit)) = talk[run].reply {
        assert(unit == ());
    }
    lemma_closing(stored, talk, end, run + 4);
    if let ReplyView::Outcome(Ok(unit)) = talk[run + 5].reply {
        assert(unit == ());
    }
}

/// A request that was asked counts.
proof fn lemma_asked(talk: Seq<Exchange>, kind: spec_fn(RequestView) -> bool, i: int)
    requires
        0 <= i < talk.len(),
        kind(talk[i].request),
    ensures
        tally(talk, kind) > 0,
    decreases talk.len(),
{
    if i > 0 {
        assert(talk[i] == talk.drop_first()[i - 1]);
        lemma_asked(talk.drop_first(), kind, i - 1);
    }
}

/// Where one request of a kind was asked, there is one place where it was.
proof fn lemma_asked_once(talk: Seq<Exchange>, kind: spec_fn(RequestView) -> bool, i: int, j: int)
    requires
        0 <= i < talk.len(),
        0 <= j < talk.len(),
        kind(talk[i].request),
        kind(talk[j].request),
        tally(talk, kind) == 1,
    ensures
        i == j,
    decreases talk.len(),
{
    let rest = talk.drop_first();
    if i > 0 {
        assert(talk[i] == rest[i - 1]);
        lemma_asked(rest, kind, i - 1);
    }
    if j > 0 {
        assert(talk[j] == rest[j - 1]);
        lemma_asked(rest, kind, j - 1);
    }
    if i > 0 && j > 0 {
        lemma_asked_once(rest, kind, i - 1, j - 1);
    }
}

} // verus!
