//! What the commands on the clipboard and the system file manager are for.
use vstd::prelude::*;

use crate::desktop::{file_manager_of, ClipboardStageView, DataDirStage, RevealStageView};
use crate::dialogue::{carried_out, converses, lemma_exchange, outcome, Exchange, World};
use crate::host::{Platform, ReplyView, RequestView};

verus! {

/// The text that was given is put on the clipboard as it is. A failure is named, and followed
/// by its reason.
pub proof fn given_text_is_on_the_clipboard(
    text: Seq<char>,
    world: World,
    talk: Seq<Exchange>,
    end: Result<(), Seq<char>>,
)
    requires
        converses(ClipboardStageView::Writing(text), talk, end),
        carried_out(world, talk),
    ensures
        talk.len() == 1,
        talk[0].request == RequestView::WriteClipboard(text),
        match talk[0].reply {
            ReplyView::Outcome(Ok(_)) => {
                &&& end == Ok::<(), Seq<char>>(())
                &&& outcome(world, talk) == (World { clipboard: text, ..world })
            },
            ReplyView::Outcome(Err(reason)) => end == Err::<(), Seq<char>>(
                "CLIPBOARD_WRITE_FAILED: "@ + reason,
            ),
            _ => false,
        },
{
    assert(talk.skip(0) =~= talk);
    lemma_exchange(ClipboardStageView::Writing(text), world, talk, end, 0);
    assert(talk.skip(1).len() == 0);
}

/// The file that was named is shown. A failure is named, and followed by its reason.
pub proof fn given_path_is_shown(
    path: Seq<char>,
    world: World,
    talk: Seq<Exchange>,
    end: Result<(), Seq<char>>,
)
    requires
        converses(RevealStageView::Revealing(path), talk, end),
        carried_out(world, talk),
    ensures
        talk.len() == 1,
        talk[0].request == RequestView::RevealItem(path),
        match talk[0].reply {
            ReplyView::Outcome(Ok(_)) => end == Ok::<(), Seq<char>>(()),
            ReplyView::Outcome(Err(reason)) => end == Err::<(), Seq<char>>(
                "REVEAL_FAILED: "@ + reason,
            ),
            _ => false,
        },
        outcome(world, talk) == world,
{
    assert(talk.skip(0) =~= talk);
    lemma_exchange(RevealStageView::Revealing(path), world, talk, end, 0);
    assert(talk.skip(1).len() == 0);
}

/// Once the data directory is found, the file manager of the platform is started on it:
/// `explorer` on Windows, `open` on macOS and `xdg-open` elsewhere. A directory that cannot
/// be found starts nothing. The error of either step is the error of the command.
pub proof fn file_manager_is_that_of_the_platform(
    platform: Platform,
    world: World,
    talk: Seq<Exchange>,
    end: Result<(), Seq<char>>,
)
    requires
        converses(DataDirStage::Locating(platform), talk, end),
        carried_out(world, talk),
    ensures
        talk[0].request == RequestView::LocateDataDir,
        match talk[0].reply {
            ReplyView::Outcome(Ok(_)) => {
                &&& talk.len() == 2
                &&& platform == Platform::Windows ==> talk[1].request
                    == RequestView::OpenDataDirWith("explorer"@)
                &&& platform == Platform::MacOs ==> talk[1].request
                    == RequestView::OpenDataDirWith("open"@)
                &&& platform == Platform::Other ==> talk[1].request
                    == RequestView::OpenDataDirWith("xdg-open"@)
                &&& talk[1].reply == ReplyView::Outcome(end)
            },
            ReplyView::Outcome(Err(message)) => {
                &&& talk.len() == 1
                &&& end == Err::<(), Seq<char>>(message)
            },
            _ => false,
        },
        outcome(world, talk) == world,
        file_manager_of(Platform::Windows) == "explorer"@,
        file_manager_of(Platform::MacOs) == "open"@,
        file_manager_of(Platform::Other) == "xdg-open"@,
{
    assert(talk.skip(0) =~= talk);
    lemma_exchange(DataDirStage::Locating(platform), world, talk, end, 0);
    if let ReplyView::Outcome(Ok(_)) = talk[0].reply {
        lemma_exchange(DataDirStage::Opening(platform), world, talk, end, 1);
        assert(talk.skip(2).len() == 0);
        if let ReplyView::Outcome(Ok(unit)) = talk[1].reply {
            assert(unit == ());
        }
    } else {
        assert(talk.skip(1).len() == 0);
    }
}

} // verus!
