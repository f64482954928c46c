//! Background tasks, cut into steps.
//!
//! A task is long-running work meant for a thread of its own. The calls that
//! may block (the network, the disk) are not made here: a task names each as a
//! [`Request`], its runner performs it and hands the [`Reply`] back. Between
//! two calls a task only decides, and what it decides is stated exactly.

use vstd::prelude::*;

use crate::config::{
    Bridge, BridgeConfig, BridgeConfigView, BridgeView, ClientError, ClientErrorKind, Config,
    ConfigView, UnauthBridge,
};
use crate::widgets::log_block::{event_views, LogEvent, LogEventView};

verus! {

/// How long a runner waits before it performs a request that is a retry.
pub const RETRY_BACKOFF_MILLIS: u64 = 500;

/// A blocking call that a task wants made.
#[derive(Debug)]
pub enum Request {
    /// Search the network for a bridge.
    Discover,
    /// Ask the bridge to register this client under the device type.
    Register { bridge: UnauthBridge, device_type: String },
    /// List the lights of the bridge, with the credential in the handle.
    ListLights { handle: Bridge },
    /// Write the record to the store.
    Save { config: BridgeConfig },
    /// Read the stored settings.
    Load,
}

/// A request as plain values.
pub enum RequestView {
    Discover,
    Register { bridge: UnauthBridge, device_type: Seq<char> },
    ListLights { handle: BridgeView },
    Save { config: BridgeConfigView },
    Load,
}

impl View for Request {
    type V = RequestView;

    open spec fn view(&self) -> RequestView {
        match self {
            Request::Discover => RequestView::Discover,
            Request::Register { bridge, device_type } => RequestView::Register {
                bridge: *bridge,
                device_type: device_type@,
            },
            Request::ListLights { handle } => RequestView::ListLights { handle: handle@ },
            Request::Save { config } => RequestView::Save { config: config@ },
            Request::Load => RequestView::Load,
        }
    }
}

/// A failure of the bridge client as plain values.
pub struct ClientErrorView {
    pub kind: ClientErrorKind,
    pub cause: Seq<char>,
}

impl View for ClientError {
    type V = ClientErrorView;

    open spec fn view(&self) -> ClientErrorView {
        ClientErrorView { kind: self.kind, cause: self.cause@ }
    }
}

/// What came back from a request.
#[derive(Debug)]
pub enum Reply {
    /// The bridge that the search found, if it found one.
    Discovered(Option<UnauthBridge>),
    /// The handle with the new credential, or why there is none.
    Registered(Result<Bridge, ClientError>),
    /// How many lights the bridge listed, or why it listed none.
    Listed(Result<usize, ClientError>),
    /// Whether the record was written; if not, why.
    Saved(Result<(), String>),
    /// The stored settings, or why they could not be read.
    Loaded(Result<Config, String>),
}

/// A reply as plain values.
pub enum ReplyView {
    Discovered(Option<UnauthBridge>),
    Registered(Result<BridgeView, ClientErrorView>),
    Listed(Result<usize, ClientErrorView>),
    Saved(Result<(), Seq<char>>),
    Loaded(Result<ConfigView, Seq<char>>),
}

impl View for Reply {
    type V = ReplyView;

    open spec fn view(&self) -> ReplyView {
        match self {
            Reply::Discovered(found) => ReplyView::Discovered(*found),
            Reply::Registered(Ok(bridge)) => ReplyView::Registered(Ok(bridge@)),
            Reply::Registered(Err(error)) => ReplyView::Registered(Err(error@)),
            Reply::Listed(Ok(count)) => ReplyView::Listed(Ok(*count)),
            Reply::Listed(Err(error)) => ReplyView::Listed(Err(error@)),
            Reply::Saved(Ok(())) => ReplyView::Saved(Ok(())),
            Reply::Saved(Err(cause)) => ReplyView::Saved(Err(cause@)),
            Reply::Loaded(Ok(config)) => ReplyView::Loaded(Ok(config@)),
            Reply::Loaded(Err(cause)) => ReplyView::Loaded(Err(cause@)),
        }
    }
}

/// How a task goes on after a step.
#[derive(Debug)]
pub enum Next<T> {
    /// Perform the request and resume the task with the reply.
    Call(Request),
    /// The same, after waiting `RETRY_BACKOFF_MILLIS`.
    Retry(Request),
    /// The task is over, with this result or the cause of its failure.
    Done(Result<T, String>),
}

/// The continuation of a task as plain values.
pub enum NextView<V> {
    Call(RequestView),
    Retry(RequestView),
    Done(Result<V, Seq<char>>),
}

impl<T: View> View for Next<T> {
    type V = NextView<T::V>;

    open spec fn view(&self) -> NextView<T::V> {
        match self {
            Next::Call(request) => NextView::Call(request@),
            Next::Retry(request) => NextView::Retry(request@),
            Next::Done(Ok(value)) => NextView::Done(Ok(value@)),
            Next::Done(Err(cause)) => NextView::Done(Err(cause@)),
        }
    }
}

/// One step of a task: the log events to send, in this order, and how the
/// task goes on.
#[derive(Debug)]
pub struct Step<T> {
    pub events: Vec<LogEvent>,
    pub next: Next<T>,
}

/// A step as plain values.
pub struct StepView<V> {
    pub events: Seq<LogEventView>,
    pub next: NextView<V>,
}

impl<T: View> View for Step<T> {
    type V = StepView<T::V>;

    open spec fn view(&self) -> StepView<T::V> {
        StepView { events: event_views(self.events@), next: self.next@ }
    }
}

/// Work for a thread of its own: it begins, is resumed with the reply to each
/// request it makes, and ends in a step whose continuation is `Done`. The
/// runner then hands the result to `on_complete`, on that same thread.
pub trait Task: Sized {
    type Result;

    type OnCompleteParams;

    /// The first step of the task.
    fn begin(&mut self) -> Step<Self::Result>;

    /// The step that follows `reply`, the answer to the request that the step
    /// before asked for.
    fn resume(&mut self, reply: Reply) -> Step<Self::Result>;

    /// Delivers the result of the task. Where it does not get through, the
    /// side that should take it is gone, and what was to be delivered comes
    /// back.
    fn on_complete(r: Result<Self::Result, String>, p: Self::OnCompleteParams) -> Result<
        (),
        Self::Result,
    >;
}

} // verus!
