//! The silent check for a newer Harness: it looks, and installs nothing.
use vstd::prelude::*;

use crate::dialogue::Dialogue;
use crate::host::{
    Component, DshPkgTag, DshPkgTagView, LatestDshPkg, LatestDshPkgView, Level, Reply, ReplyView,
    Request, RequestView, Turn, UpdateCheck,
};
use crate::text::joined;

verus! {

/// A stage of the update check: it starts at `ProbingDsh`. `P` stands for a package
/// release, `T` for a text and `G` for a list of repository tags.
///
/// `commit`, `tag` and `version` are the record of the installed package and the version
/// that its files state.
#[derive(Debug, PartialEq, Eq)]
pub enum CheckStage<P, T, G> {
    ProbingDsh,
    FetchingLatest,
    ReadingCommit { latest: P },
    ReadingTag { latest: P, commit: Option<T> },
    ReadingVersion { latest: P, commit: Option<T>, tag: Option<T> },
    /// The record has no tag; the repository is asked which tag its commit belongs to.
    FetchingTags { latest: P, commit: Option<T>, version: Option<T> },
    Resolving { latest: P, commit: Option<T>, tag: Option<T>, version: Option<T>, tags: G },
    /// The record is behind the files and is brought up to the latest release.
    TellingHeal(P),
    HealingCommit(P),
    HealingTag(P),
}

impl<P: DeepView, T: DeepView, G: DeepView> DeepView for CheckStage<P, T, G> {
    type V = CheckStage<P::V, T::V, G::V>;

    open spec fn deep_view(&self) -> CheckStage<P::V, T::V, G::V> {
        match *self {
            CheckStage::ProbingDsh => CheckStage::ProbingDsh,
            CheckStage::FetchingLatest => CheckStage::FetchingLatest,
            CheckStage::ReadingCommit { latest } => CheckStage::ReadingCommit {
                latest: latest.deep_view(),
            },
            CheckStage::ReadingTag { latest, commit } => CheckStage::ReadingTag {
                latest: latest.deep_view(),
                commit: commit.deep_view(),
            },
            CheckStage::ReadingVersion { latest, commit, tag } => CheckStage::ReadingVersion {
                latest: latest.deep_view(),
                commit: commit.deep_view(),
                tag: tag.deep_view(),
            },
            CheckStage::FetchingTags { latest, commit, version } => CheckStage::FetchingTags {
                latest: latest.deep_view(),
                commit: commit.deep_view(),
                version: version.deep_view(),
            },
            CheckStage::Resolving { latest, commit, tag, version, tags } => CheckStage::Resolving {
                latest: latest.deep_view(),
                commit: commit.deep_view(),
                tag: tag.deep_view(),
                version: version.deep_view(),
                tags: tags.deep_view(),
            },
            CheckStage::TellingHeal(latest) => CheckStage::TellingHeal(latest.deep_view()),
            CheckStage::HealingCommit(latest) => CheckStage::HealingCommit(latest.deep_view()),
            CheckStage::HealingTag(latest) => CheckStage::HealingTag(latest.deep_view()),
        }
    }
}

/// What is logged where the record is brought up to `latest`.
pub open spec fn heal_note(latest: LatestDshPkgView) -> Seq<char> {
    "Installed Harness files already at latest release, healing stale record: "@ + latest.tag
        + " ("@ + latest.commit + ")"@
}

/// What is logged where the record is brought up to `latest`.
fn heal_entry(latest: &LatestDshPkg) -> (entry: String)
    ensures
        entry@ == heal_note(latest.deep_view()),
{
    let words = "Installed Harness files already at latest release, healing stale record: ";
    let tagged = joined(joined(words, latest.tag.as_str()).as_str(), " (");
    joined(joined(tagged.as_str(), latest.commit.as_str()).as_str(), ")")
}

/// [`CheckStage`] over plain values.
pub type CheckStageView = CheckStage<LatestDshPkgView, Seq<char>, Seq<DshPkgTagView>>;

impl Dialogue for CheckStageView {
    /// The release to offer, if there is one.
    type Output = Option<LatestDshPkgView>;

    open spec fn asks(self) -> RequestView {
        match self {
            CheckStage::ProbingDsh => RequestView::CheckInstalled(Component::Dsh),
            CheckStage::FetchingLatest => RequestView::FetchLatest,
            CheckStage::ReadingCommit { .. } => RequestView::ReadCommit,
            CheckStage::ReadingTag { .. } => RequestView::ReadTag,
            CheckStage::ReadingVersion { .. } => RequestView::ReadVersion,
            CheckStage::FetchingTags { .. } => RequestView::FetchTags,
            CheckStage::Resolving { latest, commit, tag, version, tags } =>
                RequestView::ResolveUpdate { commit, tag, version, latest, tags },
            CheckStage::TellingHeal(latest) => RequestView::Log(Level::Info, heal_note(latest)),
            CheckStage::HealingCommit(latest) => RequestView::RecordCommit(latest.commit),
            CheckStage::HealingTag(latest) => RequestView::RecordTag(latest.tag),
        }
    }

    open spec fn hears(self, reply: ReplyView) -> Turn<
        Self,
        Option<LatestDshPkgView>,
        Seq<char>,
    > {
        match (self, reply) {
            (CheckStage::ProbingDsh, ReplyView::Flag(installed)) => if installed {
                Turn::Ask(CheckStage::FetchingLatest)
            } else {
                Turn::Return(None)
            },
            (CheckStage::FetchingLatest, ReplyView::Latest(fetched)) => match fetched {
                Ok(latest) => Turn::Ask(CheckStage::ReadingCommit { latest }),
                Err(message) => Turn::Fail(message),
            },
            (CheckStage::ReadingCommit { latest }, ReplyView::MaybeText(commit)) => Turn::Ask(
                CheckStage::ReadingTag { latest, commit },
            ),
            (CheckStage::ReadingTag { latest, commit }, ReplyView::MaybeText(tag)) => Turn::Ask(
                CheckStage::ReadingVersion { latest, commit, tag },
            ),
            (
                CheckStage::ReadingVersion { latest, commit, tag },
                ReplyView::MaybeText(version),
            ) => if tag is None {
                Turn::Ask(CheckStage::FetchingTags { latest, commit, version })
            } else {
                Turn::Ask(
                    CheckStage::Resolving { latest, commit, tag, version, tags: Seq::empty() },
                )
            },
            (CheckStage::FetchingTags { latest, commit, version }, ReplyView::Tags(fetched)) =>
                Turn::Ask(
                    CheckStage::Resolving {
                        latest,
                        commit,
                        tag: None,
                        version,
                        // A failed query counts as an empty list.
                        tags: match fetched {
                            Ok(tags) => tags,
                            Err(_) => Seq::empty(),
                        },
                    },
                ),
            (CheckStage::Resolving { latest, .. }, ReplyView::Verdict(verdict)) => match verdict {
                UpdateCheck::UpToDate => Turn::Return(None),
                UpdateCheck::UpdateAvailable => Turn::Return(Some(latest)),
                UpdateCheck::HealUpToDate => Turn::Ask(CheckStage::TellingHeal(latest)),
            },
            (CheckStage::TellingHeal(latest), ReplyView::Done) => Turn::Ask(
                CheckStage::HealingCommit(latest),
            ),
            (CheckStage::HealingCommit(latest), ReplyView::Done) => Turn::Ask(
                CheckStage::HealingTag(latest),
            ),
            (CheckStage::HealingTag(_), ReplyView::Done) => Turn::Return(None),
            _ => Turn::Ask(self),
        }
    }

    open spec fn left(self) -> nat {
        match self {
            CheckStage::ProbingDsh => 10,
            CheckStage::FetchingLatest => 9,
            CheckStage::ReadingCommit { .. } => 8,
            CheckStage::ReadingTag { .. } => 7,
            CheckStage::ReadingVersion { .. } => 6,
            CheckStage::FetchingTags { .. } => 5,
            CheckStage::Resolving { .. } => 4,
            CheckStage::TellingHeal(_) => 3,
            CheckStage::HealingCommit(_) => 2,
            CheckStage::HealingTag(_) => 1,
        }
    }

    proof fn progress(self, reply: ReplyView) {
    }

    proof fn patience(self, reply: ReplyView) {
    }
}

/// The text in `text`, borrowed.
fn borrowed(text: &Option<String>) -> (slice: Option<&str>)
    ensures
        slice.deep_view() == text.deep_view(),
{
    match text {
        Some(text) => Some(text.as_str()),
        None => None,
    }
}

/// [`CheckStage`] over the values that a running program holds.
pub type Checking = CheckStage<LatestDshPkg, String, Vec<DshPkgTag>>;

impl Checking {
    /// The request of this stage.
    pub fn request(&self) -> (request: Request<'_>)
        ensures
            request.deep_view() == self.deep_view().asks(),
    {
        match self {
            CheckStage::ProbingDsh => Request::CheckInstalled(Component::Dsh),
            CheckStage::FetchingLatest => Request::FetchLatest,
            CheckStage::ReadingCommit { .. } => Request::ReadCommit,
            CheckStage::ReadingTag { .. } => Request::ReadTag,
            CheckStage::ReadingVersion { .. } => Request::ReadVersion,
            CheckStage::FetchingTags { .. } => Request::FetchTags,
            CheckStage::Resolving { latest, commit, tag, version, tags } => Request::ResolveUpdate {
                commit: borrowed(commit),
                tag: borrowed(tag),
                version: borrowed(version),
                latest,
                tags,
            },
            CheckStage::TellingHeal(latest) => Request::Log(Level::Info, heal_entry(latest)),
            CheckStage::HealingCommit(latest) => Request::RecordCommit(latest.commit.as_str()),
            CheckStage::HealingTag(latest) => Request::RecordTag(latest.tag.as_str()),
        }
    }
}

/// Checks whether a newer Harness can be had, and returns it if so.
///
/// Without a local installation there is nothing to offer. The installed files decide,
/// not the record of them alone: where only the record is behind, it is corrected and the
/// user is not disturbed.
pub fn check_dsh_update(stage: Checking, reply: Reply) -> (turn: Turn<
    Checking,
    Option<LatestDshPkg>,
    String,
>)
    ensures
        turn.deep_view() == stage.deep_view().hears(reply.deep_view()),
{
    match (stage, reply) {
        (CheckStage::ProbingDsh, Reply::Flag(installed)) => if installed {
            Turn::Ask(CheckStage::FetchingLatest)
        } else {
            Turn::Return(None)
        },
        (CheckStage::FetchingLatest, Reply::Latest(fetched)) => match fetched {
            Ok(latest) => Turn::Ask(CheckStage::ReadingCommit { latest }),
            Err(message) => Turn::Fail(message),
        },
        (CheckStage::ReadingCommit { latest }, Reply::MaybeText(commit)) => Turn::Ask(
            CheckStage::ReadingTag { latest, commit },
        ),
        (CheckStage::ReadingTag { latest, commit }, Reply::MaybeText(tag)) => Turn::Ask(
            CheckStage::ReadingVersion { latest, commit, tag },
        ),
        (CheckStage::ReadingVersion { latest, commit, tag }, Reply::MaybeText(version)) => {
            if tag.is_none() {
                Turn::Ask(CheckStage::FetchingTags { latest, commit, version })
            } else {
                let tags: Vec<DshPkgTag> = Vec::new();
                assert(tags.deep_view() =~= Seq::empty());
                Turn::Ask(CheckStage::Resolving { latest, commit, tag, version, tags })
            }
        },
        (CheckStage::FetchingTags { latest, commit, version }, Reply::Tags(fetched)) => {
            let tags: Vec<DshPkgTag> = match fetched {
                Ok(tags) => tags,
                Err(_) => Vec::new(),
            };
            assert(fetched is Err ==> tags.deep_view() =~= Seq::empty());
            Turn::Ask(CheckStage::Resolving { latest, commit, tag: None, version, tags })
        },
        (
            CheckStage::Resolving { latest, commit, tag, version, tags },
            Reply::Verdict(verdict),
        ) => match verdict {
            UpdateCheck::UpToDate => Turn::Return(None),
            UpdateCheck::UpdateAvailable => Turn::Return(Some(latest)),
            UpdateCheck::HealUpToDate => Turn::Ask(CheckStage::TellingHeal(latest)),
        },
        (CheckStage::TellingHeal(latest), Reply::Done) => Turn::Ask(
            CheckStage::HealingCommit(latest),
        ),
        (CheckStage::HealingCommit(latest), Reply::Done) => Turn::Ask(
            CheckStage::HealingTag(latest),
        ),
        (CheckStage::HealingTag(_), Reply::Done) => Turn::Return(None),
        (stage, _) => Turn::Ask(stage),
    }
}

} // verus!
