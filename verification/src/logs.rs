//! The service log: adding a failure report to it, reading its end, and emptying it.
use vstd::prelude::*;

use crate::dialogue::Dialogue;
use crate::host::{Level, Reply, ReplyView, Request, RequestView, Turn};
use crate::text::{
    cut_is_clean, cuts_between_chars, flattened, joined, keep_last_bytes, last_bytes, single_line,
};

verus! {

/// The log entry for a failed injection of the window drag bridge: one line, whatever the
/// detail holds.
pub open spec fn failure_entry_of(detail: Seq<char>) -> Seq<char> {
    "[desktop-window-drag] injection failed: "@ + flattened(detail)
}

/// The log entry for a failed injection of the window drag bridge.
pub fn failure_entry(detail: &str) -> (entry: String)
    ensures
        entry@ == failure_entry_of(detail@),
{
    joined("[desktop-window-drag] injection failed: ", single_line(detail).as_str())
}

/// A stage of reporting a failed injection: it starts at `Logging` with the detail of the
/// failure. `T` stands for a text.
#[derive(Debug, PartialEq, Eq)]
pub enum ReportStage<T> {
    /// Writing the entry to the log of the application itself.
    Logging(T),
    Locating(T),
    CreatingDir(T),
    /// Appending this line.
    Appending(T),
}

impl<T: DeepView> DeepView for ReportStage<T> {
    type V = ReportStage<T::V>;

    open spec fn deep_view(&self) -> ReportStage<T::V> {
        match *self {
            ReportStage::Logging(detail) => ReportStage::Logging(detail.deep_view()),
            ReportStage::Locating(detail) => ReportStage::Locating(detail.deep_view()),
            ReportStage::CreatingDir(detail) => ReportStage::CreatingDir(detail.deep_view()),
            ReportStage::Appending(line) => ReportStage::Appending(line.deep_view()),
        }
    }
}

/// [`ReportStage`] over plain values.
pub type ReportStageView = ReportStage<Seq<char>>;

impl Dialogue for ReportStageView {
    type Output = ();

    open spec fn asks(self) -> RequestView {
        match self {
            ReportStage::Logging(detail) => RequestView::Log(
                Level::Error,
                failure_entry_of(detail),
            ),
            ReportStage::Locating(_) => RequestView::LogHasParent,
            ReportStage::CreatingDir(_) => RequestView::CreateLogDir,
            ReportStage::Appending(line) => RequestView::AppendLog(line),
        }
    }

    open spec fn hears(self, reply: ReplyView) -> Turn<Self, (), Seq<char>> {
        match (self, reply) {
            (ReportStage::Logging(detail), ReplyView::Done) => Turn::Ask(
                ReportStage::Locating(detail),
            ),
            (ReportStage::Locating(detail), ReplyView::Flag(has_parent)) => if has_parent {
                Turn::Ask(ReportStage::CreatingDir(detail))
            } else {
                Turn::Return(())
            },
            (ReportStage::CreatingDir(detail), ReplyView::Outcome(created)) => if created is Ok {
                Turn::Ask(ReportStage::Appending(failure_entry_of(detail) + "\n"@))
            } else {
                Turn::Return(())
            },
            (ReportStage::Appending(_), ReplyView::Outcome(_)) => Turn::Return(()),
            _ => Turn::Ask(self),
        }
    }

    open spec fn left(self) -> nat {
        match self {
            ReportStage::Logging(_) => 4,
            ReportStage::Locating(_) => 3,
            ReportStage::CreatingDir(_) => 2,
            ReportStage::Appending(_) => 1,
        }
    }

    proof fn progress(self, reply: ReplyView) {
    }

    proof fn patience(self, reply: ReplyView) {
    }
}

impl ReportStage<String> {
    /// The request of this stage.
    pub fn request(&self) -> (request: Request<'_>)
        ensures
            request.deep_view() == self.deep_view().asks(),
    {
        match self {
            ReportStage::Logging(detail) => Request::Log(
                Level::Error,
                failure_entry(detail.as_str()),
            ),
            ReportStage::Locating(_) => Request::LogHasParent,
            ReportStage::CreatingDir(_) => Request::CreateLogDir,
            ReportStage::Appending(line) => Request::AppendLog(line.as_str()),
        }
    }
}

/// Reports a failed injection of the window drag bridge: the entry goes to the log of the
/// application, and then to the service log. A service log that cannot be written is no
/// error.
pub fn report_window_drag_injection_failure(
    stage: ReportStage<String>,
    reply: Reply,
) -> (turn: Turn<ReportStage<String>, (), String>)
    ensures
        turn.deep_view() == stage.deep_view().hears(reply.deep_view()),
{
    match (stage, reply) {
        (ReportStage::Logging(detail), Reply::Done) => Turn::Ask(ReportStage::Locating(detail)),
        (ReportStage::Locating(detail), Reply::Flag(has_parent)) => if has_parent {
            Turn::Ask(ReportStage::CreatingDir(detail))
        } else {
            Turn::Return(())
        },
        (ReportStage::CreatingDir(detail), Reply::Outcome(created)) => if created.is_ok() {
            let entry = failure_entry(detail.as_str());
            Turn::Ask(ReportStage::Appending(joined(entry.as_str(), "\n")))
        } else {
            Turn::Return(())
        },
        (ReportStage::Appending(_), Reply::Outcome(_)) => Turn::Return(()),
        (stage, _) => Turn::Ask(stage),
    }
}

/// How much of the log is read where the caller does not say: 64 KiB.
pub const DEFAULT_LOG_BYTES: usize = 65536;

/// The number of bytes to read at most.
pub open spec fn byte_limit(max_bytes: Option<usize>) -> nat {
    match max_bytes {
        Some(max) => max as nat,
        None => DEFAULT_LOG_BYTES as nat,
    }
}

/// The number of bytes to read at most.
fn limit_of(max_bytes: Option<usize>) -> (limit: usize)
    ensures
        limit == byte_limit(max_bytes),
{
    match max_bytes {
        Some(max) => max,
        None => DEFAULT_LOG_BYTES,
    }
}

/// A stage of reading the log: it starts at `Checking` with the number of bytes to read at
/// most, if the caller sets one.
#[derive(Clone, Copy, Debug, PartialEq, Eq, Structural)]
pub enum ReadLogStage {
    Checking(Option<usize>),
    Reading(Option<usize>),
}

impl DeepView for ReadLogStage {
    type V = ReadLogStage;

    open spec fn deep_view(&self) -> ReadLogStage {
        *self
    }
}

impl Dialogue for ReadLogStage {
    /// The end of the log.
    type Output = Seq<char>;

    open spec fn asks(self) -> RequestView {
        match self {
            ReadLogStage::Checking(_) => RequestView::LogExists,
            ReadLogStage::Reading(_) => RequestView::ReadLog,
        }
    }

    open spec fn hears(self, reply: ReplyView) -> Turn<ReadLogStage, Seq<char>, Seq<char>> {
        match (self, reply) {
            (ReadLogStage::Checking(max_bytes), ReplyView::Flag(exists)) => if exists {
                Turn::Ask(ReadLogStage::Reading(max_bytes))
            } else {
                Turn::Return(Seq::empty())
            },
            (ReadLogStage::Reading(max_bytes), ReplyView::TextOutcome(content)) => match content {
                Ok(text) => Turn::Return(last_bytes(text, byte_limit(max_bytes))),
                Err(message) => Turn::Fail(message),
            },
            _ => Turn::Ask(self),
        }
    }

    open spec fn left(self) -> nat {
        match self {
            ReadLogStage::Checking(_) => 2,
            ReadLogStage::Reading(_) => 1,
        }
    }

    proof fn progress(self, reply: ReplyView) {
    }

    proof fn patience(self, reply: ReplyView) {
    }
}

impl ReadLogStage {
    /// Whether the end of the log that is to be returned starts between two characters.
    pub open spec fn admits(self, reply: ReplyView) -> bool {
        match (self, reply) {
            (ReadLogStage::Reading(max_bytes), ReplyView::TextOutcome(Ok(text))) =>
                cuts_between_chars(text, byte_limit(max_bytes)),
            _ => true,
        }
    }

    /// The request of this stage.
    pub fn request(&self) -> (request: Request<'_>)
        ensures
            request.deep_view() == self.deep_view().asks(),
    {
        match self {
            ReadLogStage::Checking(_) => Request::LogExists,
            ReadLogStage::Reading(_) => Request::ReadLog,
        }
    }

    /// Whether [`read_service_logs`] can go on with this reply: the end of the log that it
    /// would return must not start inside a character.
    pub fn can_go_on(&self, reply: &Reply) -> (can: bool)
        ensures
            can == self.admits(reply.deep_view()),
    {
        match (self, reply) {
            (ReadLogStage::Reading(max_bytes), Reply::TextOutcome(Ok(text))) => cut_is_clean(
                text.as_str(),
                limit_of(*max_bytes),
            ),
            _ => true,
        }
    }
}

/// Returns the end of the service log; a log that does not exist reads as empty.
pub fn read_service_logs(stage: ReadLogStage, reply: Reply) -> (turn: Turn<
    ReadLogStage,
    String,
    String,
>)
    requires
        stage.admits(reply.deep_view()),
    ensures
        turn.deep_view() == stage.deep_view().hears(reply.deep_view()),
{
    match (stage, reply) {
        (ReadLogStage::Checking(max_bytes), Reply::Flag(exists)) => if exists {
            Turn::Ask(ReadLogStage::Reading(max_bytes))
        } else {
            Turn::Return(String::new())
        },
        (ReadLogStage::Reading(max_bytes), Reply::TextOutcome(content)) => match content {
            Ok(text) => Turn::Return(keep_last_bytes(text, limit_of(max_bytes))),
            Err(message) => Turn::Fail(message),
        },
        (stage, _) => Turn::Ask(stage),
    }
}

/// [`read_service_logs`] for any reply: `None` where the end of the log that is to be
/// returned would start inside a character.
pub fn try_read_service_logs(stage: ReadLogStage, reply: Reply) -> (turn: Option<
    Turn<ReadLogStage, String, String>,
>)
    ensures
        turn is Some <==> stage.admits(reply.deep_view()),
        turn matches Some(turn) ==> turn.deep_view() == stage.deep_view().hears(
            reply.deep_view(),
        ),
{
    if stage.can_go_on(&reply) {
        Some(read_service_logs(stage, reply))
    } else {
        None
    }
}

/// The one stage of emptying the log.
#[derive(Clone, Copy, Debug, PartialEq, Eq, Structural)]
pub enum ClearLogStage {
    Clearing,
}

impl DeepView for ClearLogStage {
    type V = ClearLogStage;

    open spec fn deep_view(&self) -> ClearLogStage {
        *self
    }
}

impl Dialogue for ClearLogStage {
    type Output = ();

    open spec fn asks(self) -> RequestView {
        RequestView::WriteLog(Seq::empty())
    }

    open spec fn hears(self, reply: ReplyView) -> Turn<ClearLogStage, (), Seq<char>> {
        match reply {
            ReplyView::Outcome(Ok(_)) => Turn::Return(()),
            ReplyView::Outcome(Err(message)) => Turn::Fail(message),
            _ => Turn::Ask(self),
        }
    }

    open spec fn left(self) -> nat {
        1
    }

    proof fn progress(self, reply: ReplyView) {
    }

    proof fn patience(self, reply: ReplyView) {
    }
}

impl ClearLogStage {
    /// The request of this stage.
    pub fn request(&self) -> (request: Request<'_>)
        ensures
            request.deep_view() == self.deep_view().asks(),
    {
        proof {
            reveal_strlit("");
            assert(""@ =~= Seq::empty());
        }
        Request::WriteLog("")
    }
}

/// Empties the service log.
pub fn clear_service_logs(stage: ClearLogStage, reply: Reply) -> (turn: Turn<
    ClearLogStage,
    (),
    String,
>)
    ensures
        turn.deep_view() == stage.deep_view().hears(reply.deep_view()),
{
    match reply {
        Reply::Outcome(Ok(_)) => Turn::Return(()),
        Reply::Outcome(Err(message)) => Turn::Fail(message),
        _ => Turn::Ask(stage),
    }
}

} // verus!
