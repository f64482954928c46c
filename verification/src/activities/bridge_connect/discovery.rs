//! The search for a bridge.

use crossbeam_channel::Sender;
use vstd::prelude::*;

use crate::activities::bridge_connect::{
    on_complete_default, result_view, settled, stray_reply_text, State, StateView, STRAY_REPLY,
};
use crate::config::{is_device_type, BridgeConfig};
use crate::random::{is_token, random_token};
use crate::tasks::{Next, NextView, Reply, ReplyView, Request, RequestView, Step, StepView, Task};
use crate::widgets::log_block::{LogEvent, LogEventView, LogItem, LogItemView, LogVariant, ID_LEN};

verus! {

/// The line logged while the search for a bridge runs.
pub const DISCOVERING: &'static str = "Discovering Philips Hue bridge...";

/// The line logged while the search for a bridge runs.
pub open spec fn discovering_text() -> Seq<char> {
    DISCOVERING@
}

/// The line logged when the search found nothing.
pub const NO_BRIDGE: &'static str =
    "Failed to discover bridge. Enter the bridge's IP address manually.";

/// The line logged when the search found nothing.
pub open spec fn no_bridge_text() -> Seq<char> {
    NO_BRIDGE@
}

/// The search for a bridge. It holds what it drew at random when it was made:
/// the ids of its two log items and the device type that registration will
/// use if a bridge is found.
#[derive(Debug)]
pub struct DiscoverBridgeTask {
    waiting_id: String,
    notice_id: String,
    device_type: String,
}

/// A discovery task as plain values.
pub struct DiscoverBridgeTaskView {
    pub waiting_id: Seq<char>,
    pub notice_id: Seq<char>,
    pub device_type: Seq<char>,
}

impl View for DiscoverBridgeTask {
    type V = DiscoverBridgeTaskView;

    closed spec fn view(&self) -> DiscoverBridgeTaskView {
        DiscoverBridgeTaskView {
            waiting_id: self.waiting_id@,
            notice_id: self.notice_id@,
            device_type: self.device_type@,
        }
    }
}

/// The first step of discovery: log the waiting line, then search.
pub open spec fn discovery_begun(task: DiscoverBridgeTaskView) -> StepView<StateView> {
    StepView {
        events: seq![
            LogEventView::PushItem(
                LogItemView {
                    message: discovering_text(),
                    variant: LogVariant::TaskWaiting,
                    id: task.waiting_id,
                },
            ),
        ],
        next: NextView::Call(RequestView::Discover),
    }
}

/// The last step of discovery. A bridge found: the waiting line becomes
/// complete and the workflow goes on to registration under the task's device
/// type. None found: the waiting line becomes failed, a notice is logged and
/// the workflow goes to manual entry, with no attempt made and nothing typed.
pub open spec fn discovery_resumed(task: DiscoverBridgeTaskView, reply: ReplyView) -> StepView<
    StateView,
> {
    match reply {
        ReplyView::Discovered(Some(bridge)) => StepView {
            events: seq![LogEventView::SetVariant(task.waiting_id, LogVariant::TaskComplete)],
            next: NextView::Done(
                Ok(StateView::RegisteringClient { device_type: task.device_type, bridge }),
            ),
        },
        ReplyView::Discovered(None) => StepView {
            events: seq![
                LogEventView::SetVariant(task.waiting_id, LogVariant::TaskFailed),
                LogEventView::PushItem(
                    LogItemView {
                        message: no_bridge_text(),
                        variant: LogVariant::Info,
                        id: task.notice_id,
                    },
                ),
            ],
            next: NextView::Done(
                Ok(StateView::ManualEntry { attempts: 0, current_entry: Seq::empty() }),
            ),
        },
        _ => StepView {
            events: seq![LogEventView::SetVariant(task.waiting_id, LogVariant::TaskFailed)],
            next: NextView::Done(Err(stray_reply_text())),
        },
    }
}

impl DiscoverBridgeTask {
    /// A discovery task with fresh ids and a fresh device type.
    pub fn new() -> (task: Self)
        ensures
            is_token(task@.waiting_id, ID_LEN as nat),
            is_token(task@.notice_id, ID_LEN as nat),
            is_device_type(task@.device_type),
    {
        DiscoverBridgeTask {
            waiting_id: random_token(ID_LEN),
            notice_id: random_token(ID_LEN),
            device_type: BridgeConfig::generate_device_type(),
        }
    }

    /// A discovery task with the ids and the device type given.
    pub fn with_marks(waiting_id: String, notice_id: String, device_type: String) -> (task: Self)
        ensures
            task@ == (DiscoverBridgeTaskView {
                waiting_id: waiting_id@,
                notice_id: notice_id@,
                device_type: device_type@,
            }),
    {
        DiscoverBridgeTask { waiting_id, notice_id, device_type }
    }

    /// The device type that registration will use if a bridge is found.
    pub fn device_type(&self) -> (device_type: &String)
        ensures
            device_type@ == self@.device_type,
    {
        &self.device_type
    }
}

impl Task for DiscoverBridgeTask {
    type Result = State;

    type OnCompleteParams = Sender<State>;

    fn begin(&mut self) -> (step: Step<State>)
        ensures
            step@ == discovery_begun(old(self)@),
            final(self)@ == old(self)@,
    {
        let item = LogItem::with_id(
            DISCOVERING,
            LogVariant::TaskWaiting,
            self.waiting_id.clone(),
        );
        let mut events: Vec<LogEvent> = Vec::new();
        events.push(LogEvent::PushItem(item));
        let step = Step { events, next: Next::Call(Request::Discover) };
        assert(step@.events =~= discovery_begun(self@).events);
        step
    }

    fn resume(&mut self, reply: Reply) -> (step: Step<State>)
        ensures
            step@ == discovery_resumed(old(self)@, reply@),
            final(self)@ == old(self)@,
    {
        let mut events: Vec<LogEvent> = Vec::new();
        let step = match reply {
            Reply::Discovered(Some(bridge)) => {
                events.push(
                    LogEvent::SetVariant(self.waiting_id.clone(), LogVariant::TaskComplete),
                );
                Step {
                    events,
                    next: Next::Done(
                        Ok(
                            State::RegisteringClient {
                                device_type: self.device_type.clone(),
                                bridge,
                            },
                        ),
                    ),
                }
            },
            Reply::Discovered(None) => {
                events.push(LogEvent::SetVariant(self.waiting_id.clone(), LogVariant::TaskFailed));
                events.push(
                    LogEvent::PushItem(
                        LogItem::with_id(
                            NO_BRIDGE,
                            LogVariant::Info,
                            self.notice_id.clone(),
                        ),
                    ),
                );
                Step {
                    events,
                    next: Next::Done(
                        Ok(State::ManualEntry { attempts: 0, current_entry: String::new() }),
                    ),
                }
            },
            _ => {
                events.push(LogEvent::SetVariant(self.waiting_id.clone(), LogVariant::TaskFailed));
                Step {
                    events,
                    next: Next::Done(
                        Err(STRAY_REPLY.to_owned()),
                    ),
                }
            },
        };
        assert(step@.events =~= discovery_resumed(self@, reply@).events);
        step
    }

    fn on_complete(r: Result<State, String>, p: Sender<State>) -> (delivered: Result<(), State>)
        ensures
            delivered matches Err(state) ==> state@ == settled(result_view(r)),
    {
        on_complete_default(r, p)
    }
}

} // verus!
