//! The views lose nothing: what is proved of views holds of the values that a running
//! program holds.
use vstd::prelude::*;

use crate::configure::{
    LanguageStage, LanguageStageView, ReadConfigStage, UpdateStageView, Updating,
};
use crate::desktop::{
    ClipboardStage, ClipboardStageView, DataDirStage, RevealStage, RevealStageView,
};
use crate::host::{
    DshPkgTag, LatestDshPkg, Platform, Reply, ReplyView, Request, RequestView, Turn,
};
use crate::install::{InstallStageView, Installation, SyncStage, SyncStageView};
use crate::logs::{ClearLogStage, ReadLogStage, ReportStage, ReportStageView};
use crate::preinstall::{
    PluginStage, PluginStageView, RepoStage, RepoStageView, SkipStage, SkipStageView,
};
use crate::service::{
    BrowserStage, BrowserStageView, CopyStage, CopyStageView, HealthStage, RuntimeStage,
};
use crate::settings::{DshEnvironmentVariable, Setting, SettingPatch};
use crate::update_check::{CheckStageView, Checking};

verus! {

/// The view of settings holds each of their values.
pub proof fn view_of_settings_is_faithful(setting: Setting)
    ensures
        setting.deep_view().port == setting.port,
        setting.deep_view().auto_start == setting.auto_start,
        setting.deep_view().http_proxy == setting.http_proxy@,
        setting.deep_view().dsh_environment.len() == setting.dsh_environment@.len(),
        forall|i: int|
            0 <= i < setting.dsh_environment@.len() ==> {
                let variable = #[trigger] setting.deep_view().dsh_environment[i];
                &&& variable.name == setting.dsh_environment@[i].name@
                &&& variable.value == setting.dsh_environment@[i].value@
            },
        setting.deep_view().dsh_arguments.len() == setting.dsh_arguments@.len(),
        forall|i: int|
            0 <= i < setting.dsh_arguments@.len() ==> #[trigger]
            setting.deep_view().dsh_arguments[i] == setting.dsh_arguments@[i]@,
        setting.deep_view().cli_link_enabled == setting.cli_link_enabled,
        setting.deep_view().installed == setting.installed,
        setting.deep_view().preinstall_done == setting.preinstall_done,
        setting.deep_view().language == setting.language@,
{
}

/// The view of a patch holds each of its values, and none that it does not hold.
pub proof fn view_of_a_patch_is_faithful(patch: SettingPatch)
    ensures
        patch.deep_view().port == patch.port,
        patch.deep_view().auto_start == patch.auto_start,
        patch.deep_view().cli_link_enabled == patch.cli_link_enabled,
        match patch.http_proxy {
            Some(proxy) => patch.deep_view().http_proxy == Some(proxy@),
            None => patch.deep_view().http_proxy is None,
        },
        match patch.dsh_environment {
            Some(environment) => {
                &&& patch.deep_view().dsh_environment matches Some(view)
                &&& view.len() == environment@.len()
                &&& forall|i: int|
                    0 <= i < environment@.len() ==> {
                        &&& (#[trigger] view[i]).name == environment@[i].name@
                        &&& view[i].value == environment@[i].value@
                    }
            },
            None => patch.deep_view().dsh_environment is None,
        },
        match patch.dsh_arguments {
            Some(arguments) => {
                &&& patch.deep_view().dsh_arguments matches Some(view)
                &&& view.len() == arguments@.len()
                &&& forall|i: int|
                    0 <= i < arguments@.len() ==> #[trigger] view[i] == arguments@[i]@
            },
            None => patch.deep_view().dsh_arguments is None,
        },
{
}

/// The views of a variable, of a release and of a tag hold their texts.
pub proof fn views_of_pairs_are_faithful(
    variable: DshEnvironmentVariable,
    release: LatestDshPkg,
    tag: DshPkgTag,
)
    ensures
        variable.deep_view().name == variable.name@,
        variable.deep_view().value == variable.value@,
        release.deep_view().tag == release.tag@,
        release.deep_view().commit == release.commit@,
        tag.deep_view().tag == tag.tag@,
        tag.deep_view().commit == tag.commit@,
{
}

/// The view of a request asks for the same thing with the same values.
pub proof fn view_of_a_request_is_faithful(request: Request<'_>)
    ensures
        match request {
            Request::ReadStatus => request.deep_view() is ReadStatus,
            Request::MarkInstalling => request.deep_view() is MarkInstalling,
            Request::EmitStatus => request.deep_view() is EmitStatus,
            Request::CheckInstalled(part) => request.deep_view() == RequestView::CheckInstalled(
                part,
            ),
            Request::FetchLatest => request.deep_view() is FetchLatest,
            Request::FetchTags => request.deep_view() is FetchTags,
            Request::ReadCommit => request.deep_view() is ReadCommit,
            Request::ReadTag => request.deep_view() is ReadTag,
            Request::ReadVersion => request.deep_view() is ReadVersion,
            Request::RecordCommit(commit) => request.deep_view() == RequestView::RecordCommit(
                commit@,
            ),
            Request::RecordTag(tag) => request.deep_view() == RequestView::RecordTag(tag@),
            Request::ResolveUpdate { commit, tag, version, latest, tags } => {
                &&& request.deep_view() matches RequestView::ResolveUpdate {
                    commit: commit_view,
                    tag: tag_view,
                    version: version_view,
                    latest: latest_view,
                    tags: tags_view,
                }
                &&& commit_view == commit.deep_view()
                &&& tag_view == tag.deep_view()
                &&& version_view == version.deep_view()
                &&& latest_view.tag == latest.tag@
                &&& latest_view.commit == latest.commit@
                &&& tags_view.len() == tags@.len()
                &&& forall|i: int|
                    0 <= i < tags@.len() ==> {
                        &&& (#[trigger] tags_view[i]).tag == tags@[i].tag@
                        &&& tags_view[i].commit == tags@[i].commit@
                    }
            },
            Request::RunInstall(latest) => match latest {
                Some(latest) => {
                    &&& request.deep_view() matches RequestView::RunInstall(Some(view))
                    &&& view.tag == latest.tag@
                    &&& view.commit == latest.commit@
                },
                None => request.deep_view() == RequestView::RunInstall(None),
            },
            Request::ReadSetting => request.deep_view() is ReadSetting,
            Request::StoreSetting(setting) => request.deep_view() == RequestView::StoreSetting(
                setting.deep_view(),
            ),
            Request::EnsureCliLink => request.deep_view() is EnsureCliLink,
            Request::RemoveCliLink => request.deep_view() is RemoveCliLink,
            Request::NormalizeHttpProxy(proxy) => request.deep_view()
                == RequestView::NormalizeHttpProxy(proxy@),
            Request::ValidateEnvironment(environment) => {
                &&& request.deep_view() matches RequestView::ValidateEnvironment(view)
                &&& view.len() == environment@.len()
                &&& forall|i: int|
                    0 <= i < environment@.len() ==> {
                        &&& (#[trigger] view[i]).name == environment@[i].name@
                        &&& view[i].value == environment@[i].value@
                    }
            },
            Request::ValidateArguments(arguments) => {
                &&& request.deep_view() matches RequestView::ValidateArguments(view)
                &&& view.len() == arguments@.len()
                &&& forall|i: int|
                    0 <= i < arguments@.len() ==> #[trigger] view[i] == arguments@[i]@
            },
            Request::InstallPlugins(ids) => {
                &&& request.deep_view() matches RequestView::InstallPlugins(view)
                &&& view.len() == ids@.len()
                &&& forall|i: int| 0 <= i < ids@.len() ==> #[trigger] view[i] == ids@[i]@
            },
            Request::LookUpRepo(id) => request.deep_view() == RequestView::LookUpRepo(id@),
            Request::HealthCheck(port) => request.deep_view() == RequestView::HealthCheck(port),
            Request::ServiceUrl(port) => request.deep_view() == RequestView::ServiceUrl(port),
            Request::OpenUrl(url) => request.deep_view() == RequestView::OpenUrl(url@),
            Request::WriteClipboard(text) => request.deep_view() == RequestView::WriteClipboard(
                text@,
            ),
            Request::RevealItem(path) => request.deep_view() == RequestView::RevealItem(path@),
            Request::LocateDataDir => request.deep_view() is LocateDataDir,
            Request::OpenDataDirWith(program) => request.deep_view()
                == RequestView::OpenDataDirWith(program@),
            Request::LogHasParent => request.deep_view() is LogHasParent,
            Request::CreateLogDir => request.deep_view() is CreateLogDir,
            Request::AppendLog(text) => request.deep_view() == RequestView::AppendLog(text@),
            Request::LogExists => request.deep_view() is LogExists,
            Request::ReadLog => request.deep_view() is ReadLog,
            Request::WriteLog(text) => request.deep_view() == RequestView::WriteLog(text@),
            Request::ApplyLanguage(lang) => request.deep_view() == RequestView::ApplyLanguage(
                lang,
            ),
            Request::Log(level, text) => request.deep_view() == RequestView::Log(level, text@),
        },
{
}

/// The view of a reply says the same thing with the same values.
pub proof fn view_of_a_reply_is_faithful(reply: Reply)
    ensures
        match reply {
            Reply::Done => reply.deep_view() is Done,
            Reply::Flag(flag) => reply.deep_view() == ReplyView::Flag(flag),
            Reply::Status(status) => reply.deep_view() == ReplyView::Status(status),
            Reply::Setting(setting) => reply.deep_view() == ReplyView::Setting(
                setting.deep_view(),
            ),
            Reply::Text(text) => reply.deep_view() == ReplyView::Text(text@),
            Reply::MaybeText(Some(text)) => reply.deep_view() == ReplyView::MaybeText(Some(text@)),
            Reply::MaybeText(None) => reply.deep_view() == ReplyView::MaybeText(None),
            Reply::Outcome(Ok(_)) => reply.deep_view() == ReplyView::Outcome(Ok(())),
            Reply::Outcome(Err(message)) => reply.deep_view() == ReplyView::Outcome(Err(message@)),
            Reply::TextOutcome(Ok(text)) => reply.deep_view() == ReplyView::TextOutcome(Ok(text@)),
            Reply::TextOutcome(Err(message)) => reply.deep_view() == ReplyView::TextOutcome(
                Err(message@),
            ),
            Reply::Latest(Ok(release)) => {
                &&& reply.deep_view() matches ReplyView::Latest(Ok(view))
                &&& view.tag == release.tag@
                &&& view.commit == release.commit@
            },
            Reply::Latest(Err(message)) => reply.deep_view() == ReplyView::Latest(Err(message@)),
            Reply::Tags(Ok(tags)) => {
                &&& reply.deep_view() matches ReplyView::Tags(Ok(view))
                &&& view.len() == tags@.len()
                &&& forall|i: int|
                    0 <= i < tags@.len() ==> {
                        &&& (#[trigger] view[i]).tag == tags@[i].tag@
                        &&& view[i].commit == tags@[i].commit@
                    }
            },
            Reply::Tags(Err(message)) => reply.deep_view() == ReplyView::Tags(Err(message@)),
            Reply::Verdict(verdict) => reply.deep_view() == ReplyView::Verdict(verdict),
        },
{
    if let Reply::Outcome(Ok(unit)) = reply {
        assert(unit == ());
    }
}

/// The view of a turn goes on as the turn does: with the same stage, the same value or the
/// same message.
pub proof fn view_of_a_turn_is_faithful<S: DeepView, O: DeepView>(turn: Turn<S, O, String>)
    ensures
        match turn {
            Turn::Ask(stage) => turn.deep_view() == Turn::<S::V, O::V, Seq<char>>::Ask(
                stage.deep_view(),
            ),
            Turn::Return(value) => turn.deep_view() == Turn::<S::V, O::V, Seq<char>>::Return(
                value.deep_view(),
            ),
            Turn::Fail(message) => turn.deep_view() == Turn::<S::V, O::V, Seq<char>>::Fail(
                message@,
            ),
        },
{
}

/// The stage at which a running command starts is seen as the stage that the laws start
/// from, with the same values.
pub proof fn commands_start_where_the_laws_do(
    text: String,
    patch: SettingPatch,
    ids: Vec<String>,
    platform: Platform,
    max_bytes: Option<usize>,
)
    ensures
        Installation::ReadingStatus.deep_view() == InstallStageView::ReadingStatus,
        SyncStage::<String>::Reading.deep_view() == SyncStageView::Reading,
        Checking::ProbingDsh.deep_view() == CheckStageView::ProbingDsh,
        Updating::Reading(patch).deep_view() == UpdateStageView::Reading(patch.deep_view()),
        ReadConfigStage::Reading.deep_view() == ReadConfigStage::Reading,
        LanguageStage::<Setting, String>::Reading(text).deep_view() == LanguageStageView::Reading(
            text@,
        ),
        SkipStage::<Setting>::Reading.deep_view() == SkipStageView::Reading,
        PluginStage::<Setting, Vec<String>>::Installing(ids).deep_view()
            == PluginStageView::Installing(ids@.map_values(|id: String| id@)),
        RepoStage::<String>::LookingUp(text).deep_view() == RepoStageView::LookingUp(text@),
        HealthStage::Reading.deep_view() == HealthStage::Reading,
        RuntimeStage::Reading.deep_view() == RuntimeStage::Reading,
        BrowserStage::<String>::Reading.deep_view() == BrowserStageView::Reading,
        CopyStage::<String>::Reading.deep_view() == CopyStageView::Reading,
        ClipboardStage::<String>::Writing(text).deep_view() == ClipboardStageView::Writing(text@),
        RevealStage::<String>::Revealing(text).deep_view() == RevealStageView::Revealing(text@),
        DataDirStage::Locating(platform).deep_view() == DataDirStage::Locating(platform),
        ReportStage::<String>::Logging(text).deep_view() == ReportStageView::Logging(text@),
        ReadLogStage::Checking(max_bytes).deep_view() == ReadLogStage::Checking(max_bytes),
        ClearLogStage::Clearing.deep_view() == ClearLogStage::Clearing,
{
    assert(ids.deep_view() =~= ids@.map_values(|id: String| id@));
}

} // verus!
