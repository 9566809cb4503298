//! Conversations between a command and its host.
//!
//! A command is a [`Dialogue`]: at each stage it asks one request, and the reply decides
//! how it goes on. A [`World`] is the part of the host's state that the commands read and
//! change; [`carried_out`] says that a host did what it was asked and told the truth. The
//! laws of the commands speak of every finished conversation with such a host.
use vstd::prelude::*;

use crate::host::{
    answers, Component, Lang, LatestDshPkgView, Level, ReplyView, RequestView, Status, Turn,
};
use crate::settings::SettingView;

verus! {

/// A command as a sequence of requests, each chosen by the replies so far.
pub trait Dialogue: Sized {
    /// What the command returns where it does not fail.
    type Output;

    /// The request that this stage asks.
    spec fn asks(self) -> RequestView;

    /// How the command goes on after a reply. A reply of the wrong kind changes nothing:
    /// the request is asked again.
    spec fn hears(self, reply: ReplyView) -> Turn<Self, Self::Output, Seq<char>>;

    /// How many more requests there can be, this one included.
    spec fn left(self) -> nat;

    /// Each answered request brings the command nearer to its end.
    proof fn progress(self, reply: ReplyView)
        requires
            answers(self.asks(), reply),
        ensures
            self.left() > 0,
            self.hears(reply) matches Turn::Ask(next) ==> next.left() < self.left(),
    ;

    /// A reply of the wrong kind changes nothing: the same request is asked again.
    proof fn patience(self, reply: ReplyView)
        requires
            !answers(self.asks(), reply),
        ensures
            self.hears(reply) == Turn::<Self, Self::Output, Seq<char>>::Ask(self),
    ;
}

/// The part of the host's state that the commands read or change.
pub struct World {
    pub status: Status,
    pub node_installed: bool,
    pub dsh_installed: bool,
    pub pnpm_installed: bool,
    /// What a query for the latest release gives.
    pub latest: Result<LatestDshPkgView, Seq<char>>,
    /// The recorded commit and tag of the installed package.
    pub commit: Option<Seq<char>>,
    pub tag: Option<Seq<char>>,
    pub setting: SettingView,
    /// Whether the command line integration is in place.
    pub linked: bool,
    pub lang: Lang,
    pub clipboard: Seq<char>,
    /// The addresses opened in the system browser so far.
    pub opened: Seq<Seq<char>>,
    /// The content of the service log, where there is one.
    pub log: Option<Seq<char>>,
    /// The entries that the commands have asked for in the log of the application itself.
    pub journal: Seq<(Level, Seq<char>)>,
}

impl World {
    /// Whether the files of `component` are in place.
    pub open spec fn has(self, component: Component) -> bool {
        match component {
            Component::Nodejs => self.node_installed,
            Component::Dsh => self.dsh_installed,
            Component::Pnpm => self.pnpm_installed,
        }
    }

    /// The content of the service log; a missing log reads as an empty one.
    pub open spec fn log_text(self) -> Seq<char> {
        match self.log {
            Some(text) => text,
            None => Seq::empty(),
        }
    }
}

/// Whether the outcome of a request is known to be good.
pub open spec fn succeeded(reply: ReplyView) -> bool {
    reply matches ReplyView::Outcome(outcome) && outcome is Ok
}

/// The requests that the host waits for: queries over the network and installations.
pub open spec fn is_awaited(request: RequestView) -> bool {
    ||| request is FetchLatest
    ||| request is FetchTags
    ||| request is HealthCheck
    ||| request is RunInstall
    ||| request is InstallPlugins
}

/// What it means for a host in state `before` to carry out `request`, answer `reply` and
/// be in state `after`. While the host waits for a request, other commands may run, so
/// anything may have changed by the end of it. A step that failed may have left its own
/// target in any state, and has changed nothing else.
pub open spec fn performs(
    before: World,
    request: RequestView,
    reply: ReplyView,
    after: World,
) -> bool {
    match request {
        RequestView::ReadStatus => reply == ReplyView::Status(before.status) && after == before,
        RequestView::MarkInstalling => after == (World { status: Status::Installing, ..before }),
        RequestView::CheckInstalled(component) => {
            &&& reply == ReplyView::Flag(before.has(component))
            &&& after == before
        },
        RequestView::FetchLatest => reply == ReplyView::Latest(after.latest),
        RequestView::ReadCommit => reply == ReplyView::MaybeText(before.commit) && after == before,
        RequestView::ReadTag => reply == ReplyView::MaybeText(before.tag) && after == before,
        RequestView::RecordCommit(commit) => after == (World { commit: Some(commit), ..before }),
        RequestView::RecordTag(tag) => after == (World { tag: Some(tag), ..before }),
        RequestView::FetchTags
        | RequestView::HealthCheck(_)
        | RequestView::RunInstall(_)
        | RequestView::InstallPlugins(_) => true,
        RequestView::ReadSetting => reply == ReplyView::Setting(before.setting) && after == before,
        RequestView::StoreSetting(setting) => after == (World { setting, ..before }),
        RequestView::EnsureCliLink => {
            &&& after == (World { linked: after.linked, ..before })
            &&& succeeded(reply) ==> after.linked
        },
        RequestView::RemoveCliLink => {
            &&& after == (World { linked: after.linked, ..before })
            &&& succeeded(reply) ==> !after.linked
        },
        RequestView::OpenUrl(url) => {
            &&& after == (World { opened: after.opened, ..before })
            &&& succeeded(reply) ==> after.opened == before.opened.push(url)
        },
        RequestView::WriteClipboard(text) => {
            &&& after == (World { clipboard: after.clipboard, ..before })
            &&& succeeded(reply) ==> after.clipboard == text
        },
        RequestView::AppendLog(text) => {
            &&& after == (World { log: after.log, ..before })
            &&& succeeded(reply) ==> after.log == Some(before.log_text() + text)
        },
        RequestView::LogExists => {
            &&& reply == ReplyView::Flag(before.log is Some)
            &&& after == before
        },
        RequestView::ReadLog => {
            &&& reply matches ReplyView::TextOutcome(Ok(text)) ==> before.log == Some(text)
            &&& after == before
        },
        RequestView::WriteLog(text) => {
            &&& after == (World { log: after.log, ..before })
            &&& succeeded(reply) ==> after.log == Some(text)
        },
        RequestView::ApplyLanguage(lang) => after == (World { lang, ..before }),
        RequestView::Log(level, text) => after == (World {
            journal: before.journal.push((level, text)),
            ..before
        }),
        RequestView::EmitStatus
        | RequestView::ReadVersion
        | RequestView::ResolveUpdate { .. }
        | RequestView::NormalizeHttpProxy(_)
        | RequestView::ValidateEnvironment(_)
        | RequestView::ValidateArguments(_)
        | RequestView::LookUpRepo(_)
        | RequestView::ServiceUrl(_)
        | RequestView::RevealItem(_)
        | RequestView::LocateDataDir
        | RequestView::OpenDataDirWith(_)
        | RequestView::LogHasParent
        | RequestView::CreateLogDir => after == before,
    }
}

/// One request, the reply to it, and the state of the host after it.
pub struct Exchange {
    pub request: RequestView,
    pub reply: ReplyView,
    pub after: World,
}

/// Whether `talk` is a whole conversation of a command that starts at stage `stage` and
/// ends with `end`, in which every request is answered.
pub open spec fn converses<D: Dialogue>(
    stage: D,
    talk: Seq<Exchange>,
    end: Result<D::Output, Seq<char>>,
) -> bool
    decreases talk.len(),
{
    &&& talk.len() > 0
    &&& talk[0].request == stage.asks()
    &&& answers(talk[0].request, talk[0].reply)
    &&& match stage.hears(talk[0].reply) {
        Turn::Ask(next) => converses(next, talk.drop_first(), end),
        Turn::Return(value) => talk.len() == 1 && end == Ok::<D::Output, Seq<char>>(value),
        Turn::Fail(message) => talk.len() == 1 && end == Err::<D::Output, Seq<char>>(message),
    }
}

/// Whether a host that starts in state `world` did what `talk` asks and told the truth.
pub open spec fn carried_out(world: World, talk: Seq<Exchange>) -> bool
    decreases talk.len(),
{
    talk.len() == 0 || {
        &&& performs(world, talk[0].request, talk[0].reply, talk[0].after)
        &&& carried_out(talk[0].after, talk.drop_first())
    }
}

/// The state of the host after `talk`.
pub open spec fn outcome(world: World, talk: Seq<Exchange>) -> World
    decreases talk.len(),
{
    if talk.len() == 0 {
        world
    } else {
        outcome(talk[0].after, talk.drop_first())
    }
}

/// Whether nothing else changed the host while it waited during `talk`.
pub open spec fn undisturbed(world: World, talk: Seq<Exchange>) -> bool
    decreases talk.len(),
{
    talk.len() == 0 || {
        &&& is_awaited(talk[0].request) ==> talk[0].after == world
        &&& undisturbed(talk[0].after, talk.drop_first())
    }
}

/// How many requests of a kind `talk` holds.
pub open spec fn tally(talk: Seq<Exchange>, kind: spec_fn(RequestView) -> bool) -> nat
    decreases talk.len(),
{
    if talk.len() == 0 {
        0
    } else {
        let rest = tally(talk.drop_first(), kind);
        if kind(talk[0].request) {
            rest + 1
        } else {
            rest
        }
    }
}

/// The entries that `talk` asks for in the log of the application itself, in order.
pub open spec fn logged(talk: Seq<Exchange>) -> Seq<(Level, Seq<char>)>
    decreases talk.len(),
{
    if talk.len() == 0 {
        Seq::empty()
    } else {
        let rest = logged(talk.drop_first());
        match talk[0].request {
            RequestView::Log(level, text) => seq![(level, text)] + rest,
            _ => rest,
        }
    }
}

/// Whether the host gave the same reply in both conversations wherever it was asked the
/// same request of this kind.
pub open spec fn agrees(
    first: Seq<Exchange>,
    second: Seq<Exchange>,
    kind: spec_fn(RequestView) -> bool,
) -> bool {
    forall|i: int, j: int|
        #![trigger first[i], second[j]]
        {
            &&& 0 <= i < first.len()
            &&& 0 <= j < second.len()
            &&& kind(first[i].request)
            &&& first[i].request == second[j].request
        } ==> first[i].reply == second[j].reply
}

/// Whether `talk` holds `request` with `reply` as the answer.
pub open spec fn heard(talk: Seq<Exchange>, request: RequestView, reply: ReplyView) -> bool {
    exists|i: int|
        0 <= i < talk.len() && (#[trigger] talk[i]).request == request && talk[i].reply == reply
}

/// The requests that store settings.
pub open spec fn stores_setting() -> spec_fn(RequestView) -> bool {
    |request: RequestView| request is StoreSetting
}

/// The requests that run an installation.
pub open spec fn runs_install() -> spec_fn(RequestView) -> bool {
    |request: RequestView| request is RunInstall
}

/// The requests that mark an installation as under way.
pub open spec fn marks_installing() -> spec_fn(RequestView) -> bool {
    |request: RequestView| request is MarkInstalling
}

/// The requests that tell the front end the status.
pub open spec fn emits_status() -> spec_fn(RequestView) -> bool {
    |request: RequestView| request is EmitStatus
}

/// The requests that put the command line integration in place or take it away.
pub open spec fn changes_link() -> spec_fn(RequestView) -> bool {
    |request: RequestView| request is EnsureCliLink || request is RemoveCliLink
}

/// The requests for the tags of the package repository.
pub open spec fn fetches_tags() -> spec_fn(RequestView) -> bool {
    |request: RequestView| request is FetchTags
}

/// The requests for the normalized form of a proxy.
pub open spec fn normalizes_proxy() -> spec_fn(RequestView) -> bool {
    |request: RequestView| request is NormalizeHttpProxy
}

/// The requests that the host can refuse to an update of the settings: the checks, and the
/// changes of the command line integration.
pub open spec fn can_be_refused() -> spec_fn(RequestView) -> bool {
    |request: RequestView|
        {
            ||| request is NormalizeHttpProxy
            ||| request is ValidateEnvironment
            ||| request is ValidateArguments
            ||| request is EnsureCliLink
            ||| request is RemoveCliLink
        }
}

/// The requests for the address of the service.
pub open spec fn finds_address() -> spec_fn(RequestView) -> bool {
    |request: RequestView| request is ServiceUrl
}

/// The requests that append to the service log.
pub open spec fn appends_log() -> spec_fn(RequestView) -> bool {
    |request: RequestView| request is AppendLog
}

/// What exchange `i` of a conversation is, where the conversation has come to `stage` and
/// the host to the state `world` by then, and how the two go on from it.
pub proof fn lemma_exchange<D: Dialogue>(
    stage: D,
    world: World,
    talk: Seq<Exchange>,
    end: Result<D::Output, Seq<char>>,
    i: int,
)
    requires
        0 <= i <= talk.len(),
        converses(stage, talk.skip(i), end),
        carried_out(world, talk.skip(i)),
    ensures
        i < talk.len(),
        talk[i].request == stage.asks(),
        answers(talk[i].request, talk[i].reply),
        performs(world, talk[i].request, talk[i].reply, talk[i].after),
        match stage.hears(talk[i].reply) {
            Turn::Ask(next) => converses(next, talk.skip(i + 1), end),
            Turn::Return(value) => talk.len() == i + 1 && end == Ok::<D::Output, Seq<char>>(value),
            Turn::Fail(message) => talk.len() == i + 1 && end == Err::<D::Output, Seq<char>>(
                message,
            ),
        },
        carried_out(talk[i].after, talk.skip(i + 1)),
        outcome(world, talk.skip(i)) == outcome(talk[i].after, talk.skip(i + 1)),
        undisturbed(world, talk.skip(i)) ==> {
            &&& is_awaited(talk[i].request) ==> talk[i].after == world
            &&& undisturbed(talk[i].after, talk.skip(i + 1))
        },
        forall|kind: spec_fn(RequestView) -> bool| #[trigger]
            tally(talk.skip(i), kind) == tally(talk.skip(i + 1), kind) + if kind(
                talk[i].request,
            ) {
                1nat
            } else {
                0nat
            },
        match talk[i].request {
            RequestView::Log(level, text) => logged(talk.skip(i)) == seq![(level, text)] + logged(
                talk.skip(i + 1),
            ),
            _ => logged(talk.skip(i)) == logged(talk.skip(i + 1)),
        },
{
    assert(talk.skip(i).drop_first() =~= talk.skip(i + 1));
}

/// What was answered in the rest of a conversation was answered in the whole of it.
pub proof fn lemma_heard_later(talk: Seq<Exchange>, request: RequestView, reply: ReplyView)
    requires
        talk.len() > 0,
        heard(talk.drop_first(), request, reply),
    ensures
        heard(talk, request, reply),
{
    let i = choose|i: int|
        0 <= i < talk.drop_first().len() && (#[trigger] talk.drop_first()[i]).request == request
            && talk.drop_first()[i].reply == reply;
    assert(talk[i + 1] == talk.drop_first()[i]);
}

/// A command asks no more requests than its first stage announces.
pub proof fn conversations_are_bounded<D: Dialogue>(
    stage: D,
    talk: Seq<Exchange>,
    end: Result<D::Output, Seq<char>>,
)
    requires
        converses(stage, talk, end),
    ensures
        talk.len() <= stage.left(),
    decreases talk.len(),
{
    stage.progress(talk[0].reply);
    if let Turn::Ask(next) = stage.hears(talk[0].reply) {
        conversations_are_bounded(next, talk.drop_first(), end);
    }
}

/// Whatever a host answers, as long as each reply answers its request, every command
/// comes to an end. `host` gives the answer to a request as the host's exchange number so
/// and so; the conversation starts at number `count`.
pub proof fn every_command_ends<D: Dialogue>(
    stage: D,
    host: spec_fn(nat, RequestView) -> Exchange,
    count: nat,
) -> (ended: (Seq<Exchange>, Result<D::Output, Seq<char>>))
    requires
        forall|i: nat, request: RequestView|
            {
                &&& (#[trigger] host(i, request)).request == request
                &&& answers(request, host(i, request).reply)
            },
    ensures
        converses(stage, ended.0, ended.1),
        forall|i: int|
            0 <= i < ended.0.len() ==> #[trigger] ended.0[i] == host(
                (count + i) as nat,
                ended.0[i].request,
            ),
    decreases stage.left(),
{
    let first = host(count, stage.asks());
    stage.progress(first.reply);
    match stage.hears(first.reply) {
        Turn::Ask(next) => {
            let (talk, end) = every_command_ends(next, host, count + 1);
            let whole = seq![first] + talk;
            assert(whole.drop_first() =~= talk);
            assert forall|i: int| 0 <= i < whole.len() implies #[trigger] whole[i] == host(
                (count + i) as nat,
                whole[i].request,
            ) by {
                if i > 0 {
                    assert(whole[i] == talk[i - 1]);
                }
            }
            (whole, end)
        },
        Turn::Return(value) => (seq![first], Ok(value)),
        Turn::Fail(message) => (seq![first], Err(message)),
    }
}

} // verus!
