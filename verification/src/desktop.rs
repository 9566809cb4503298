//! Commands on the desktop: the clipboard and the system file manager.
use vstd::prelude::*;

use crate::dialogue::Dialogue;
use crate::host::{Platform, Reply, ReplyView, Request, RequestView, Turn};
use crate::text::joined;

verus! {

/// The one stage of writing to the clipboard: it holds the text. `T` stands for a text.
#[derive(Debug, PartialEq, Eq)]
pub enum ClipboardStage<T> {
    Writing(T),
}

impl<T: DeepView> DeepView for ClipboardStage<T> {
    type V = ClipboardStage<T::V>;

    open spec fn deep_view(&self) -> ClipboardStage<T::V> {
        match *self {
            ClipboardStage::Writing(text) => ClipboardStage::Writing(text.deep_view()),
        }
    }
}

/// The message for a clipboard that could not be written.
pub open spec fn clipboard_message(reason: Seq<char>) -> Seq<char> {
    "CLIPBOARD_WRITE_FAILED: "@ + reason
}

/// [`ClipboardStage`] over plain values.
pub type ClipboardStageView = ClipboardStage<Seq<char>>;

impl Dialogue for ClipboardStageView {
    type Output = ();

    open spec fn asks(self) -> RequestView {
        match self {
            ClipboardStage::Writing(text) => RequestView::WriteClipboard(text),
        }
    }

    open spec fn hears(self, reply: ReplyView) -> Turn<Self, (), Seq<char>> {
        match reply {
            ReplyView::Outcome(Ok(_)) => Turn::Return(()),
            ReplyView::Outcome(Err(reason)) => Turn::Fail(clipboard_message(reason)),
            _ => Turn::Ask(self),
        }
    }

    open spec fn left(self) -> nat {
        1
    }

    proof fn progress(self, reply: ReplyView) {
    }

    proof fn patience(self, reply: ReplyView) {
    }
}

impl ClipboardStage<String> {
    /// The request of this stage.
    pub fn request(&self) -> (request: Request<'_>)
        ensures
            request.deep_view() == self.deep_view().asks(),
    {
        match self {
            ClipboardStage::Writing(text) => Request::WriteClipboard(text.as_str()),
        }
    }
}

/// Puts a text on the system clipboard.
pub fn write_system_clipboard(stage: ClipboardStage<String>, reply: Reply) -> (turn: Turn<
    ClipboardStage<String>,
    (),
    String,
>)
    ensures
        turn.deep_view() == stage.deep_view().hears(reply.deep_view()),
{
    match reply {
        Reply::Outcome(Ok(_)) => Turn::Return(()),
        Reply::Outcome(Err(reason)) => Turn::Fail(
            joined("CLIPBOARD_WRITE_FAILED: ", reason.as_str()),
        ),
        _ => Turn::Ask(stage),
    }
}

/// The one stage of showing a file: it holds the file's path. `T` stands for a text.
#[derive(Debug, PartialEq, Eq)]
pub enum RevealStage<T> {
    Revealing(T),
}

impl<T: DeepView> DeepView for RevealStage<T> {
    type V = RevealStage<T::V>;

    open spec fn deep_view(&self) -> RevealStage<T::V> {
        match *self {
            RevealStage::Revealing(path) => RevealStage::Revealing(path.deep_view()),
        }
    }
}

/// The message for a file that could not be shown.
pub open spec fn reveal_message(reason: Seq<char>) -> Seq<char> {
    "REVEAL_FAILED: "@ + reason
}

/// [`RevealStage`] over plain values.
pub type RevealStageView = RevealStage<Seq<char>>;

impl Dialogue for RevealStageView {
    type Output = ();

    open spec fn asks(self) -> RequestView {
        match self {
            RevealStage::Revealing(path) => RequestView::RevealItem(path),
        }
    }

    open spec fn hears(self, reply: ReplyView) -> Turn<Self, (), Seq<char>> {
        match reply {
            ReplyView::Outcome(Ok(_)) => Turn::Return(()),
            ReplyView::Outcome(Err(reason)) => Turn::Fail(reveal_message(reason)),
            _ => Turn::Ask(self),
        }
    }

    open spec fn left(self) -> nat {
        1
    }

    proof fn progress(self, reply: ReplyView) {
    }

    proof fn patience(self, reply: ReplyView) {
    }
}

impl RevealStage<String> {
    /// The request of this stage.
    pub fn request(&self) -> (request: Request<'_>)
        ensures
            request.deep_view() == self.deep_view().asks(),
    {
        match self {
            RevealStage::Revealing(path) => Request::RevealItem(path.as_str()),
        }
    }
}

/// Shows a file in the system file manager.
pub fn reveal_in_folder(stage: RevealStage<String>, reply: Reply) -> (turn: Turn<
    RevealStage<String>,
    (),
    String,
>)
    ensures
        turn.deep_view() == stage.deep_view().hears(reply.deep_view()),
{
    match reply {
        Reply::Outcome(Ok(_)) => Turn::Return(()),
        Reply::Outcome(Err(reason)) => Turn::Fail(joined("REVEAL_FAILED: ", reason.as_str())),
        _ => Turn::Ask(stage),
    }
}

/// The program that opens a directory on a platform.
pub open spec fn file_manager_of(platform: Platform) -> Seq<char> {
    match platform {
        Platform::Windows => "explorer"@,
        Platform::MacOs => "open"@,
        Platform::Other => "xdg-open"@,
    }
}

/// The program that opens a directory on `platform`.
pub fn file_manager(platform: Platform) -> (program: &'static str)
    ensures
        program@ == file_manager_of(platform),
{
    match platform {
        Platform::Windows => "explorer",
        Platform::MacOs => "open",
        Platform::Other => "xdg-open",
    }
}

/// A stage of opening the data directory: it starts at `Locating` with the platform that
/// the application runs on.
#[derive(Clone, Copy, Debug, PartialEq, Eq, Structural)]
pub enum DataDirStage {
    Locating(Platform),
    Opening(Platform),
}

impl DeepView for DataDirStage {
    type V = DataDirStage;

    open spec fn deep_view(&self) -> DataDirStage {
        *self
    }
}

impl Dialogue for DataDirStage {
    type Output = ();

    open spec fn asks(self) -> RequestView {
        match self {
            DataDirStage::Locating(_) => RequestView::LocateDataDir,
            DataDirStage::Opening(platform) => RequestView::OpenDataDirWith(
                file_manager_of(platform),
            ),
        }
    }

    open spec fn hears(self, reply: ReplyView) -> Turn<DataDirStage, (), Seq<char>> {
        match (self, reply) {
            (_, ReplyView::Outcome(Err(message))) => Turn::Fail(message),
            (DataDirStage::Locating(platform), ReplyView::Outcome(Ok(_))) => Turn::Ask(
                DataDirStage::Opening(platform),
            ),
            (DataDirStage::Opening(_), ReplyView::Outcome(Ok(_))) => Turn::Return(()),
            _ => Turn::Ask(self),
        }
    }

    open spec fn left(self) -> nat {
        match self {
            DataDirStage::Locating(_) => 2,
            DataDirStage::Opening(_) => 1,
        }
    }

    proof fn progress(self, reply: ReplyView) {
    }

    proof fn patience(self, reply: ReplyView) {
    }
}

impl DataDirStage {
    /// The request of this stage.
    pub fn request(&self) -> (request: Request<'_>)
        ensures
            request.deep_view() == self.deep_view().asks(),
    {
        match self {
            DataDirStage::Locating(_) => Request::LocateDataDir,
            DataDirStage::Opening(platform) => Request::OpenDataDirWith(file_manager(*platform)),
        }
    }
}

/// Opens the data directory of the application in the system file manager.
pub fn reveal_data_dir(stage: DataDirStage, reply: Reply) -> (turn: Turn<
    DataDirStage,
    (),
    String,
>)
    ensures
        turn.deep_view() == stage.deep_view().hears(reply.deep_view()),
{
    match (stage, reply) {
        (_, Reply::Outcome(Err(message))) => Turn::Fail(message),
        (DataDirStage::Locating(platform), Reply::Outcome(Ok(_))) => Turn::Ask(
            DataDirStage::Opening(platform),
        ),
        (DataDirStage::Opening(_), Reply::Outcome(Ok(_))) => Turn::Return(()),
        (stage, _) => Turn::Ask(stage),
    }
}

} // verus!
