//! Laws of the clipboard and of the system file manager.
use vstd::prelude::*;

use crate::desktop::{
    clipboard_message, file_manager_of, reveal_message, ClipboardStageView, DataDirStage,
    RevealStageView,
};
use crate::dialogue::{carried_out, converses, outcome, Exchange, World};
use crate::host::{Platform, ReplyView, RequestView};

verus! {

/// The text that is written to the clipboard is the text that was given, and a failure
/// says so and why.
pub proof fn clipboard_holds_the_text(
    text: Seq<char>,
    world: World,
    talk: Seq<Exchange>,
    end: Result<(), Seq<char>>,
)
    requires
        converses(ClipboardStageView::Writing(text), talk, end),
        carried_out(world, talk),
    ensures
        end is Ok ==> outcome(world, talk) == (World { clipboard: text, ..world }),
        end matches Err(message) ==> {
            &&& talk[0].reply matches ReplyView::Outcome(Err(reason))
            &&& message == clipboard_message(reason)
        },
{
    reveal_with_fuel(outcome, 2);
}

/// The file that is shown is the one that was named, and a failure says so and why.
pub proof fn named_file_is_shown(path: Seq<char>, talk: Seq<Exchange>, end: Result<(), Seq<char>>)
    requires
        converses(RevealStageView::Revealing(path), talk, end),
    ensures
        talk.len() == 1,
        talk[0].request == RequestView::RevealItem(path),
        end is Ok <==> talk[0].reply == ReplyView::Outcome(Ok(())),
        end matches Err(message) ==> {
            &&& talk[0].reply matches ReplyView::Outcome(Err(reason))
            &&& message == reveal_message(reason)
        },
{
    if let ReplyView::Outcome(Ok(unit)) = talk[0].reply {
        assert(unit == ());
    }
}

/// The data directory is opened with the program of the platform; where the directory
/// cannot be found, no program is started. The command ends as its last request did.
pub proof fn data_directory_opens_with_the_platform_program(
    platform: Platform,
    talk: Seq<Exchange>,
    end: Result<(), Seq<char>>,
)
    requires
        converses(DataDirStage::Locating(platform), talk, end),
    ensures
        talk[0].request == RequestView::LocateDataDir,
        talk[0].reply == ReplyView::Outcome(Ok(())) ==> {
            &&& talk.len() == 2
            &&& talk[1].request == RequestView::OpenDataDirWith(file_manager_of(platform))
        },
        talk[0].reply != ReplyView::Outcome(Ok(())) ==> talk.len() == 1,
        talk.last().reply == ReplyView::Outcome(end),
{
    reveal_with_fuel(converses, 3);
    if let ReplyView::Outcome(Ok(unit)) = talk[0].reply {
        assert(unit == ());
        let rest = talk.drop_first();
        assert(talk[1] == rest[0]);
        if let ReplyView::Outcome(Ok(unit)) = rest[0].reply {
            assert(unit == ());
        }
    }
}

} // verus!
