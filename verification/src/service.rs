//! Commands on the running Harness service: its health and its address.
use vstd::prelude::*;

use crate::dialogue::Dialogue;
use crate::host::{Reply, ReplyView, Request, RequestView, Turn};

verus! {

/// A stage of the health check: it starts at `Reading`.
#[derive(Clone, Copy, Debug, PartialEq, Eq, Structural)]
pub enum HealthStage {
    Reading,
    /// Asking the service on this port.
    Checking(u16),
}

impl DeepView for HealthStage {
    type V = HealthStage;

    open spec fn deep_view(&self) -> HealthStage {
        *self
    }
}

impl Dialogue for HealthStage {
    /// What the service says of itself.
    type Output = Seq<char>;

    open spec fn asks(self) -> RequestView {
        match self {
            HealthStage::Reading => RequestView::ReadSetting,
            HealthStage::Checking(port) => RequestView::HealthCheck(port),
        }
    }

    open spec fn hears(self, reply: ReplyView) -> Turn<HealthStage, Seq<char>, Seq<char>> {
        match (self, reply) {
            (HealthStage::Reading, ReplyView::Setting(setting)) => Turn::Ask(
                HealthStage::Checking(setting.port),
            ),
            (HealthStage::Checking(_), ReplyView::TextOutcome(outcome)) => match outcome {
                Ok(text) => Turn::Return(text),
                Err(message) => Turn::Fail(message),
            },
            _ => Turn::Ask(self),
        }
    }

    open spec fn left(self) -> nat {
        match self {
            HealthStage::Reading => 2,
            HealthStage::Checking(_) => 1,
        }
    }

    proof fn progress(self, reply: ReplyView) {
    }

    proof fn patience(self, reply: ReplyView) {
    }
}

impl HealthStage {
    /// The request of this stage.
    pub fn request(&self) -> (request: Request<'_>)
        ensures
            request.deep_view() == self.deep_view().asks(),
    {
        match self {
            HealthStage::Reading => Request::ReadSetting,
            HealthStage::Checking(port) => Request::HealthCheck(*port),
        }
    }
}

/// Asks the service on the configured port for its health and hands its answer on.
pub fn proxy_health_check(stage: HealthStage, reply: Reply) -> (turn: Turn<
    HealthStage,
    String,
    String,
>)
    ensures
        turn.deep_view() == stage.deep_view().hears(reply.deep_view()),
{
    match (stage, reply) {
        (HealthStage::Reading, Reply::Setting(setting)) => Turn::Ask(
            HealthStage::Checking(setting.port),
        ),
        (HealthStage::Checking(_), Reply::TextOutcome(outcome)) => match outcome {
            Ok(text) => Turn::Return(text),
            Err(message) => Turn::Fail(message),
        },
        (stage, _) => Turn::Ask(stage),
    }
}

/// The one stage of finding the port that runtime information is gathered for.
#[derive(Clone, Copy, Debug, PartialEq, Eq, Structural)]
pub enum RuntimeStage {
    Reading,
}

impl DeepView for RuntimeStage {
    type V = RuntimeStage;

    open spec fn deep_view(&self) -> RuntimeStage {
        *self
    }
}

impl Dialogue for RuntimeStage {
    /// The port of the service.
    type Output = u16;

    open spec fn asks(self) -> RequestView {
        RequestView::ReadSetting
    }

    open spec fn hears(self, reply: ReplyView) -> Turn<RuntimeStage, u16, Seq<char>> {
        match reply {
            ReplyView::Setting(setting) => Turn::Return(setting.port),
            _ => Turn::Ask(self),
        }
    }

    open spec fn left(self) -> nat {
        1
    }

    proof fn progress(self, reply: ReplyView) {
    }

    proof fn patience(self, reply: ReplyView) {
    }
}

impl RuntimeStage {
    /// The request of this stage.
    pub fn request(&self) -> (request: Request<'_>)
        ensures
            request.deep_view() == self.deep_view().asks(),
    {
        Request::ReadSetting
    }
}

/// Returns the configured port, which the runtime and version information is gathered for.
pub fn get_runtime_info(stage: RuntimeStage, reply: Reply) -> (turn: Turn<
    RuntimeStage,
    u16,
    String,
>)
    ensures
        turn.deep_view() == stage.deep_view().hears(reply.deep_view()),
{
    match reply {
        Reply::Setting(setting) => Turn::Return(setting.port),
        _ => Turn::Ask(stage),
    }
}

/// A stage of opening the interface: it starts at `Reading`. `T` stands for a text.
#[derive(Debug, PartialEq, Eq)]
pub enum BrowserStage<T> {
    Reading,
    /// Finding the address of the service on this port.
    Addressing(u16),
    /// Opening this address.
    Opening(T),
}

impl<T: DeepView> DeepView for BrowserStage<T> {
    type V = BrowserStage<T::V>;

    open spec fn deep_view(&self) -> BrowserStage<T::V> {
        match *self {
            BrowserStage::Reading => BrowserStage::Reading,
            BrowserStage::Addressing(port) => BrowserStage::Addressing(port),
            BrowserStage::Opening(url) => BrowserStage::Opening(url.deep_view()),
        }
    }
}

/// [`BrowserStage`] over plain values.
pub type BrowserStageView = BrowserStage<Seq<char>>;

impl Dialogue for BrowserStageView {
    type Output = ();

    open spec fn asks(self) -> RequestView {
        match self {
            BrowserStage::Reading => RequestView::ReadSetting,
            BrowserStage::Addressing(port) => RequestView::ServiceUrl(port),
            BrowserStage::Opening(url) => RequestView::OpenUrl(url),
        }
    }

    open spec fn hears(self, reply: ReplyView) -> Turn<Self, (), Seq<char>> {
        match (self, reply) {
            (BrowserStage::Reading, ReplyView::Setting(setting)) => Turn::Ask(
                BrowserStage::Addressing(setting.port),
            ),
            (BrowserStage::Addressing(_), ReplyView::Text(url)) => Turn::Ask(
                BrowserStage::Opening(url),
            ),
            (BrowserStage::Opening(_), ReplyView::Outcome(outcome)) => match outcome {
                Ok(_) => Turn::Return(()),
                Err(message) => Turn::Fail(message),
            },
            _ => Turn::Ask(self),
        }
    }

    open spec fn left(self) -> nat {
        match self {
            BrowserStage::Reading => 3,
            BrowserStage::Addressing(_) => 2,
            BrowserStage::Opening(_) => 1,
        }
    }

    proof fn progress(self, reply: ReplyView) {
    }

    proof fn patience(self, reply: ReplyView) {
    }
}

impl BrowserStage<String> {
    /// The request of this stage.
    pub fn request(&self) -> (request: Request<'_>)
        ensures
            request.deep_view() == self.deep_view().asks(),
    {
        match self {
            BrowserStage::Reading => Request::ReadSetting,
            BrowserStage::Addressing(port) => Request::ServiceUrl(*port),
            BrowserStage::Opening(url) => Request::OpenUrl(url.as_str()),
        }
    }
}

/// Opens the interface of the Harness in the system browser.
pub fn open_in_browser(stage: BrowserStage<String>, reply: Reply) -> (turn: Turn<
    BrowserStage<String>,
    (),
    String,
>)
    ensures
        turn.deep_view() == stage.deep_view().hears(reply.deep_view()),
{
    match (stage, reply) {
        (BrowserStage::Reading, Reply::Setting(setting)) => Turn::Ask(
            BrowserStage::Addressing(setting.port),
        ),
        (BrowserStage::Addressing(_), Reply::Text(url)) => Turn::Ask(BrowserStage::Opening(url)),
        (BrowserStage::Opening(_), Reply::Outcome(outcome)) => match outcome {
            Ok(_) => Turn::Return(()),
            Err(message) => Turn::Fail(message),
        },
        (stage, _) => Turn::Ask(stage),
    }
}

/// A stage of copying the address of the service: it starts at `Reading`. `T` stands for a
/// text.
#[derive(Debug, PartialEq, Eq)]
pub enum CopyStage<T> {
    Reading,
    /// Finding the address of the service on this port.
    Addressing(u16),
    /// Copying this address.
    Copying(T),
}

impl<T: DeepView> DeepView for CopyStage<T> {
    type V = CopyStage<T::V>;

    open spec fn deep_view(&self) -> CopyStage<T::V> {
        match *self {
            CopyStage::Reading => CopyStage::Reading,
            CopyStage::Addressing(port) => CopyStage::Addressing(port),
            CopyStage::Copying(url) => CopyStage::Copying(url.deep_view()),
        }
    }
}

/// [`CopyStage`] over plain values.
pub type CopyStageView = CopyStage<Seq<char>>;

impl Dialogue for CopyStageView {
    type Output = ();

    open spec fn asks(self) -> RequestView {
        match self {
            CopyStage::Reading => RequestView::ReadSetting,
            CopyStage::Addressing(port) => RequestView::ServiceUrl(port),
            CopyStage::Copying(url) => RequestView::WriteClipboard(url),
        }
    }

    open spec fn hears(self, reply: ReplyView) -> Turn<Self, (), Seq<char>> {
        match (self, reply) {
            (CopyStage::Reading, ReplyView::Setting(setting)) => Turn::Ask(
                CopyStage::Addressing(setting.port),
            ),
            (CopyStage::Addressing(_), ReplyView::Text(url)) => Turn::Ask(CopyStage::Copying(url)),
            (CopyStage::Copying(_), ReplyView::Outcome(outcome)) => match outcome {
                Ok(_) => Turn::Return(()),
                Err(message) => Turn::Fail(message),
            },
            _ => Turn::Ask(self),
        }
    }

    open spec fn left(self) -> nat {
        match self {
            CopyStage::Reading => 3,
            CopyStage::Addressing(_) => 2,
            CopyStage::Copying(_) => 1,
        }
    }

    proof fn progress(self, reply: ReplyView) {
    }

    proof fn patience(self, reply: ReplyView) {
    }
}

impl CopyStage<String> {
    /// The request of this stage.
    pub fn request(&self) -> (request: Request<'_>)
        ensures
            request.deep_view() == self.deep_view().asks(),
    {
        match self {
            CopyStage::Reading => Request::ReadSetting,
            CopyStage::Addressing(port) => Request::ServiceUrl(*port),
            CopyStage::Copying(url) => Request::WriteClipboard(url.as_str()),
        }
    }
}

/// Copies the address of the service to the clipboard.
pub fn copy_service_url(stage: CopyStage<String>, reply: Reply) -> (turn: Turn<
    CopyStage<String>,
    (),
    String,
>)
    ensures
        turn.deep_view() == stage.deep_view().hears(reply.deep_view()),
{
    match (stage, reply) {
        (CopyStage::Reading, Reply::Setting(setting)) => Turn::Ask(
            CopyStage::Addressing(setting.port),
        ),
        (CopyStage::Addressing(_), Reply::Text(url)) => Turn::Ask(CopyStage::Copying(url)),
        (CopyStage::Copying(_), Reply::Outcome(outcome)) => match outcome {
            Ok(_) => Turn::Return(()),
            Err(message) => Turn::Fail(message),
        },
        (stage, _) => Turn::Ask(stage),
    }
}

} // verus!
