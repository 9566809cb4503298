//! What the guide for the preinstalled plugins is for.
use vstd::prelude::*;

use crate::dialogue::{
    carried_out, converses, lemma_exchange, logged, outcome, Exchange, World,
};
use crate::host::{Level, ReplyView, RequestView};
use crate::preinstall::{marked_done, PluginStageView, RepoStageView, SkipStageView};
use crate::settings::SettingView;

verus! {

/// After the guide was skipped it is done, for good: that is what the settings say that are
/// stored, and every other value in them is as it was.
pub proof fn skipped_guide_is_done(world: World, talk: Seq<Exchange>, end: Result<(), Seq<char>>)
    requires
        converses(SkipStageView::Reading, talk, end),
        carried_out(world, talk),
    ensures
        end == Ok::<(), Seq<char>>(()),
        outcome(world, talk).setting.preinstall_done,
        outcome(world, talk).setting.port == world.setting.port,
        outcome(world, talk).setting.auto_start == world.setting.auto_start,
        outcome(world, talk).setting.http_proxy == world.setting.http_proxy,
        outcome(world, talk).setting.dsh_environment == world.setting.dsh_environment,
        outcome(world, talk).setting.dsh_arguments == world.setting.dsh_arguments,
        outcome(world, talk).setting.cli_link_enabled == world.setting.cli_link_enabled,
        outcome(world, talk).setting.installed == world.setting.installed,
        outcome(world, talk).setting.language == world.setting.language,
        outcome(world, talk) == (World { setting: outcome(world, talk).setting, ..world }),
        talk.len() == 2,
        talk[0].request == RequestView::ReadSetting,
        talk[1].request == RequestView::StoreSetting(
            SettingView { preinstall_done: true, ..world.setting },
        ),
{
    assert(talk.skip(0) =~= talk);
    lemma_exchange(SkipStageView::Reading, world, talk, end, 0);
    let stage = SkipStageView::Storing(marked_done(world.setting));
    lemma_exchange(stage, world, talk, end, 1);
    assert(talk.skip(2).len() == 0);
}

/// The plugins that are installed are the chosen ones. After an installation that worked the
/// guide is done: the settings as the installation left them are stored with that mark, and
/// every other value in them is as it was. After one that failed nothing follows, and its
/// error is the error of the command.
pub proof fn guide_is_done_once_the_plugins_are_there(
    ids: Seq<Seq<char>>,
    world: World,
    talk: Seq<Exchange>,
    end: Result<(), Seq<char>>,
)
    requires
        converses(PluginStageView::Installing(ids), talk, end),
        carried_out(world, talk),
    ensures
        talk[0].request == RequestView::InstallPlugins(ids),
        match talk[0].reply {
            ReplyView::Outcome(Err(message)) => {
                &&& end == Err::<(), Seq<char>>(message)
                &&& talk.len() == 1
                &&& outcome(world, talk) == talk[0].after
            },
            ReplyView::Outcome(Ok(_)) => {
                let left = talk[0].after.setting;
                let setting = outcome(world, talk).setting;
                &&& end == Ok::<(), Seq<char>>(())
                &&& setting.preinstall_done
                &&& setting.port == left.port
                &&& setting.auto_start == left.auto_start
                &&& setting.http_proxy == left.http_proxy
                &&& setting.dsh_environment == left.dsh_environment
                &&& setting.dsh_arguments == left.dsh_arguments
                &&& setting.cli_link_enabled == left.cli_link_enabled
                &&& setting.installed == left.installed
                &&& setting.language == left.language
                &&& outcome(world, talk) == (World { setting, ..talk[0].after })
                &&& talk.len() == 3
                &&& talk[1].request == RequestView::ReadSetting
                &&& talk[2].request == RequestView::StoreSetting(
                    SettingView { preinstall_done: true, ..left },
                )
            },
            _ => false,
        },
{
    assert(talk.skip(0) =~= talk);
    lemma_exchange(PluginStageView::Installing(ids), world, talk, end, 0);
    if let ReplyView::Outcome(Ok(unit)) = talk[0].reply {
        let left = talk[0].after;
        lemma_exchange(PluginStageView::Closing(SkipStageView::Reading), left, talk, end, 1);
        let stage = SkipStageView::Storing(marked_done(left.setting));
        lemma_exchange(PluginStageView::Closing(stage), left, talk, end, 2);
        assert(talk.skip(3).len() == 0);
    } else {
        assert(talk.skip(1).len() == 0);
    }
}

/// The address that opens is the one that the preinstall list has for the id, and opening it
/// ends as the start of the browser did. An id that is not on the list opens nothing and is
/// named in the error.
pub proof fn repository_is_the_one_on_the_list(
    id: Seq<char>,
    world: World,
    talk: Seq<Exchange>,
    end: Result<(), Seq<char>>,
)
    requires
        converses(RepoStageView::LookingUp(id), talk, end),
        carried_out(world, talk),
    ensures
        talk[0].request == RequestView::LookUpRepo(id),
        match talk[0].reply {
            ReplyView::MaybeText(Some(url)) => {
                &&& talk.len() == 2
                &&& talk[1].request == RequestView::OpenUrl(url)
                &&& talk[1].reply == ReplyView::Outcome(end)
                &&& end is Ok ==> outcome(world, talk) == (World {
                    opened: world.opened.push(url),
                    ..world
                })
            },
            ReplyView::MaybeText(None) => {
                &&& talk.len() == 1
                &&& end == Err::<(), Seq<char>>("PREINSTALL_INVALID_ID: "@ + id)
                &&& outcome(world, talk) == world
            },
            _ => false,
        },
        logged(talk) == Seq::<(Level, Seq<char>)>::empty(),
{
    assert(talk.skip(0) =~= talk);
    lemma_exchange(RepoStageView::LookingUp(id), world, talk, end, 0);
    if let ReplyView::MaybeText(Some(url)) = talk[0].reply {
        lemma_exchange(RepoStageView::Opening(url), world, talk, end, 1);
        assert(talk.skip(2).len() == 0);
        if let ReplyView::Outcome(Ok(unit)) = talk[1].reply {
            assert(unit == ());
        }
    } else {
        assert(talk.skip(1).len() == 0);
    }
}

} // verus!
