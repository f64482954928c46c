//! The registration of this client with a bridge that was found.

use crossbeam_channel::Sender;
use vstd::prelude::*;

use crate::activities::bridge_connect::validation::{
    done_text, found_lights_text, marks_are_tokens, saving_text, validating_text, validation_begun,
    validation_of, validation_resumed, ValidateConfigTask, ValidateConfigTaskView, ValidateMarks,
    ValidateMarksView,
};
use crate::activities::bridge_connect::{
    advanced, handed_in, is_terminal, on_complete_default, result_view, settled, stray_reply_text,
    JobView, State, StateView, STRAY_REPLY,
};
use crate::config::{
    is_pending, BridgeConfig, BridgeConfigView, BridgeView, ClientErrorKind, UnauthBridge,
};
use crate::random::{is_token, random_token};
use crate::tasks::{
    ClientErrorView, Next, NextView, Reply, ReplyView, Request, RequestView, Step, StepView, Task,
};
use crate::widgets::log_block::{
    applied_all, lemma_apply_one_more, LogEvent, LogEventView, LogItem, LogItemView, LogVariant,
    ID_LEN,
};

verus! {

/// The line logged while registration waits for the button on the bridge.
pub const REGISTERING: &'static str =
    "Registering client. Press the button on your bridge to continue.";

/// The line logged while registration waits for the button on the bridge.
pub open spec fn registering_text() -> Seq<char> {
    REGISTERING@
}

/// How far a registration task has come.
#[derive(Debug)]
pub enum RegisterPhase {
    /// The bridge has not let the client in yet.
    Handshake,
    /// The bridge gave a credential; the validation inside tries it out and
    /// writes the record.
    Validating(ValidateConfigTask),
    /// The task ended in the handshake.
    Finished,
}

/// The phase of a registration task as plain values.
pub enum RegisterPhaseView {
    Handshake,
    Validating(ValidateConfigTaskView),
    Finished,
}

impl View for RegisterPhase {
    type V = RegisterPhaseView;

    open spec fn view(&self) -> RegisterPhaseView {
        match self {
            RegisterPhase::Handshake => RegisterPhaseView::Handshake,
            RegisterPhase::Validating(validation) => RegisterPhaseView::Validating(validation@),
            RegisterPhase::Finished => RegisterPhaseView::Finished,
        }
    }
}

/// The registration of this client with a bridge that was found: the
/// handshake, repeated for as long as the bridge only waits for its button,
/// then the validation of the credential, which ends in the writing of the
/// record. It holds the ids that it drew when it was made.
#[derive(Debug)]
pub struct RegisterClientTask {
    device_type: String,
    unauth_bridge: UnauthBridge,
    handshake_id: String,
    marks: ValidateMarks,
    phase: RegisterPhase,
}

/// A registration task as plain values.
pub struct RegisterClientTaskView {
    pub device_type: Seq<char>,
    pub unauth_bridge: UnauthBridge,
    pub handshake_id: Seq<char>,
    pub marks: ValidateMarksView,
    pub phase: RegisterPhaseView,
}

impl View for RegisterClientTask {
    type V = RegisterClientTaskView;

    closed spec fn view(&self) -> RegisterClientTaskView {
        RegisterClientTaskView {
            device_type: self.device_type@,
            unauth_bridge: self.unauth_bridge,
            handshake_id: self.handshake_id@,
            marks: self.marks@,
            phase: self.phase@,
        }
    }
}

/// The handshake request of a task: always for the same bridge under the same
/// device type.
pub open spec fn handshake_request(task: RegisterClientTaskView) -> RequestView {
    RequestView::Register { bridge: task.unauth_bridge, device_type: task.device_type }
}

/// The record that a task writes for the bridge that let it in.
pub open spec fn record_for(task: RegisterClientTaskView, bridge: BridgeView) -> BridgeConfigView {
    BridgeConfigView {
        device_type: task.device_type,
        bridge_ip: bridge.ip,
        bridge_username: bridge.username,
    }
}

/// The first step of registration: log the waiting line, then try the
/// handshake.
pub open spec fn registration_begun(task: RegisterClientTaskView) -> (
    RegisterClientTaskView,
    StepView<StateView>,
) {
    (
        RegisterClientTaskView { phase: RegisterPhaseView::Handshake, ..task },
        StepView {
            events: seq![
                LogEventView::PushItem(
                    LogItemView {
                        message: registering_text(),
                        variant: LogVariant::TaskWaiting,
                        id: task.handshake_id,
                    },
                ),
            ],
            next: NextView::Call(handshake_request(task)),
        },
    )
}

/// The step that ends the task in its handshake: the waiting line becomes
/// failed and the cause is handed on.
pub open spec fn handshake_failed(task: RegisterClientTaskView, cause: Seq<char>) -> (
    RegisterClientTaskView,
    StepView<StateView>,
) {
    (
        RegisterClientTaskView { phase: RegisterPhaseView::Finished, ..task },
        StepView {
            events: seq![LogEventView::SetVariant(task.handshake_id, LogVariant::TaskFailed)],
            next: NextView::Done(Err(cause)),
        },
    )
}

/// The step of registration that follows `reply`.
///
/// In the handshake a failure that only means "not confirmed yet" changes
/// nothing and logs nothing: the same request is to be retried. Any other
/// failure ends the task. Success flips the waiting line to complete and
/// begins the validation of the record for the bridge that let the client in;
/// from then on every reply goes to that validation, and the task ends as it
/// ends.
pub open spec fn registration_resumed(task: RegisterClientTaskView, reply: ReplyView) -> (
    RegisterClientTaskView,
    StepView<StateView>,
) {
    match task.phase {
        RegisterPhaseView::Handshake => match reply {
            ReplyView::Registered(Ok(bridge)) => {
                let begun = validation_begun(validation_of(record_for(task, bridge), task.marks));
                (
                    RegisterClientTaskView {
                        phase: RegisterPhaseView::Validating(begun.0),
                        ..task
                    },
                    StepView {
                        events: seq![
                            LogEventView::SetVariant(task.handshake_id, LogVariant::TaskComplete),
                        ] + begun.1.events,
                        next: begun.1.next,
                    },
                )
            },
            ReplyView::Registered(Err(error)) => if is_pending(error.kind) {
                (
                    task,
                    StepView {
                        events: Seq::empty(),
                        next: NextView::Retry(handshake_request(task)),
                    },
                )
            } else {
                handshake_failed(task, error.cause)
            },
            _ => handshake_failed(task, stray_reply_text()),
        },
        RegisterPhaseView::Validating(validation) => {
            let resumed = validation_resumed(validation, reply);
            (
                RegisterClientTaskView {
                    phase: RegisterPhaseView::Validating(resumed.0),
                    ..task
                },
                resumed.1,
            )
        },
        RegisterPhaseView::Finished => (
            task,
            StepView { events: Seq::empty(), next: NextView::Done(Err(stray_reply_text())) },
        ),
    }
}

impl RegisterClientTask {
    /// A registration task for the bridge, with fresh ids for its log items.
    pub fn new(device_type: String, unauth_bridge: UnauthBridge) -> (task: Self)
        ensures
            task@.device_type == device_type@,
            task@.unauth_bridge == unauth_bridge,
            task@.phase == RegisterPhaseView::Handshake,
            is_token(task@.handshake_id, ID_LEN as nat),
            marks_are_tokens(task@.marks),
    {
        Self::with_marks(device_type, unauth_bridge, random_token(ID_LEN), ValidateMarks::new())
    }

    /// A registration task for the bridge, with the ids given: that of the
    /// waiting line of the handshake, and those of the validation.
    pub fn with_marks(
        device_type: String,
        unauth_bridge: UnauthBridge,
        handshake_id: String,
        marks: ValidateMarks,
    ) -> (task: Self)
        ensures
            task@ == (RegisterClientTaskView {
                device_type: device_type@,
                unauth_bridge,
                handshake_id: handshake_id@,
                marks: marks@,
                phase: RegisterPhaseView::Handshake,
            }),
    {
        RegisterClientTask {
            device_type,
            unauth_bridge,
            handshake_id,
            marks,
            phase: RegisterPhase::Handshake,
        }
    }

    /// The device type under which the task registers, whatever the attempt.
    pub fn device_type(&self) -> (device_type: &String)
        ensures
            device_type@ == self@.device_type,
    {
        &self.device_type
    }

    pub fn phase(&self) -> (phase: &RegisterPhase)
        ensures
            phase@ == self@.phase,
    {
        &self.phase
    }

    fn handshake(&self) -> (request: Request)
        ensures
            request@ == handshake_request(self@),
    {
        Request::Register { bridge: self.unauth_bridge, device_type: self.device_type.clone() }
    }

    fn fail(&mut self, cause: String) -> (step: Step<State>)
        ensures
            (final(self)@, step@) == handshake_failed(old(self)@, cause@),
    {
        self.phase = RegisterPhase::Finished;
        let mut events: Vec<LogEvent> = Vec::new();
        events.push(LogEvent::SetVariant(self.handshake_id.clone(), LogVariant::TaskFailed));
        let step = Step { events, next: Next::Done(Err(cause)) };
        assert(step@.events =~= handshake_failed(old(self)@, cause@).1.events);
        step
    }
}

impl Task for RegisterClientTask {
    type Result = State;

    type OnCompleteParams = Sender<State>;

    fn begin(&mut self) -> (step: Step<State>)
        ensures
            (final(self)@, step@) == registration_begun(old(self)@),
    {
        self.phase = RegisterPhase::Handshake;
        let mut events: Vec<LogEvent> = Vec::new();
        events.push(
            LogEvent::PushItem(
                LogItem::with_id(REGISTERING, LogVariant::TaskWaiting, self.handshake_id.clone()),
            ),
        );
        let step = Step { events, next: Next::Call(self.handshake()) };
        assert(step@.events =~= registration_begun(old(self)@).1.events);
        step
    }

    fn resume(&mut self, reply: Reply) -> (step: Step<State>)
        ensures
            (final(self)@, step@) == registration_resumed(old(self)@, reply@),
    {
        let ghost before = self@;
        let ghost answer = reply@;
        let mut phase = RegisterPhase::Finished;
        core::mem::swap(&mut self.phase, &mut phase);
        let step = match phase {
            RegisterPhase::Handshake => match reply {
                Reply::Registered(Ok(bridge)) => {
                    let config = BridgeConfig::from_parts(
                        self.device_type.clone(),
                        bridge.ip,
                        bridge.username,
                    );
                    let mut validation = ValidateConfigTask::with_marks(config, self.marks.clone());
                    let begun = validation.begin();
                    let mut events: Vec<LogEvent> = Vec::new();
                    events.push(
                        LogEvent::SetVariant(self.handshake_id.clone(), LogVariant::TaskComplete),
                    );
                    let mut rest = begun.events;
                    events.append(&mut rest);
                    let step = Step { events, next: begun.next };
                    self.phase = RegisterPhase::Validating(validation);
                    step
                },
                Reply::Registered(Err(error)) => {
                    if error.is_pending() {
                        self.phase = RegisterPhase::Handshake;
                        Step { events: Vec::new(), next: Next::Retry(self.handshake()) }
                    } else {
                        self.fail(error.cause)
                    }
                },
                _ => self.fail(STRAY_REPLY.to_owned()),
            },
            RegisterPhase::Validating(mut validation) => {
                let step = validation.resume(reply);
                self.phase = RegisterPhase::Validating(validation);
                step
            },
            RegisterPhase::Finished => Step {
                events: Vec::new(),
                next: Next::Done(Err(STRAY_REPLY.to_owned())),
            },
        };
        assert(step@.events =~= registration_resumed(before, answer).1.events);
        step
    }

    fn on_complete(r: Result<State, String>, p: Sender<State>) -> (delivered: Result<(), State>)
        ensures
            delivered matches Err(state) ==> state@ == settled(result_view(r)),
    {
        on_complete_default(r, p)
    }
}

/// A registration that is refused for good fails the workflow with the cause
/// that the bridge client gave, and that state is terminal.
pub proof fn lemma_rejection_fails_with_its_cause(
    task: RegisterClientTaskView,
    kind: ClientErrorKind,
    cause: Seq<char>,
)
    requires
        task.phase is Handshake,
        !is_pending(kind),
    ensures
        handed_in(
            registration_resumed(
                task,
                ReplyView::Registered(Err(ClientErrorView { kind, cause })),
            ).1.next,
        ) == Some(StateView::Failed(cause)),
        is_terminal(StateView::Failed(cause)),
        advanced(StateView::Failed(cause)) == (StateView::Failed(cause), None::<JobView>),
{
}

/// A registration task after `begin` and then one `resume` for each reply,
/// with all the log events of those steps in the order they were made.
pub open spec fn registration_ran(task: RegisterClientTaskView, replies: Seq<ReplyView>) -> (
    RegisterClientTaskView,
    Seq<LogEventView>,
)
    decreases replies.len(),
{
    if replies.len() == 0 {
        (registration_begun(task).0, registration_begun(task).1.events)
    } else {
        let (before, events) = registration_ran(task, replies.drop_last());
        let (after, step) = registration_resumed(before, replies.last());
        (after, events + step.events)
    }
}

/// Whether every reply is a registration that failed only because it has not
/// been confirmed yet.
pub open spec fn all_pending(replies: Seq<ReplyView>) -> bool {
    forall|i: int|
        0 <= i < replies.len() ==> match #[trigger] replies[i] {
            ReplyView::Registered(Err(error)) => is_pending(error.kind),
            _ => false,
        }
}

/// Retrying happens inside the task. However often the bridge answers "not
/// confirmed yet", the task stays in its handshake with the same device type
/// and bridge, has logged its one waiting line and nothing else, and each of
/// those answers is followed by a retry of the very same request.
pub proof fn lemma_pending_replies_only_retry(
    task: RegisterClientTaskView,
    replies: Seq<ReplyView>,
)
    requires
        all_pending(replies),
    ensures
        registration_ran(task, replies) == (
            registration_begun(task).0,
            registration_begun(task).1.events,
        ),
        registration_ran(task, replies).0.phase is Handshake,
        registration_ran(task, replies).0.device_type == task.device_type,
        forall|i: int|
            0 <= i < replies.len() ==> (#[trigger] registration_resumed(
                registration_begun(task).0,
                replies[i],
            )).1.next == NextView::<StateView>::Retry(handshake_request(task)),
    decreases replies.len(),
{
    let begun = registration_begun(task);
    if replies.len() > 0 {
        let earlier = replies.drop_last();
        assert(all_pending(earlier)) by {
            assert forall|i: int| 0 <= i < earlier.len() implies match #[trigger] earlier[i] {
                ReplyView::Registered(Err(error)) => is_pending(error.kind),
                _ => false,
            } by {
                assert(earlier[i] == replies[i]);
            }
        }
        lemma_pending_replies_only_retry(task, earlier);
        let last = replies.last();
        assert(last == replies[replies.len() - 1]);
        assert(registration_resumed(begun.0, last).1.events =~= Seq::<LogEventView>::empty());
        assert(begun.1.events + Seq::<LogEventView>::empty() =~= begun.1.events);
    }
    assert forall|i: int| 0 <= i < replies.len() implies (#[trigger] registration_resumed(
        begun.0,
        replies[i],
    )).1.next == NextView::<StateView>::Retry(handshake_request(task)) by {
        let reply = replies[i];
        assert(match reply {
            ReplyView::Registered(Err(error)) => is_pending(error.kind),
            _ => false,
        });
    }
}

/// The events of a registration that goes through: the waiting line of each
/// phase is pushed once and flipped to complete by its own id.
pub open spec fn registration_success_events(
    task: RegisterClientTaskView,
    count: usize,
) -> Seq<LogEventView> {
    seq![
        LogEventView::PushItem(
            LogItemView {
                message: registering_text(),
                variant: LogVariant::TaskWaiting,
                id: task.handshake_id,
            },
        ),
        LogEventView::SetVariant(task.handshake_id, LogVariant::TaskComplete),
        LogEventView::PushItem(
            LogItemView {
                message: validating_text(),
                variant: LogVariant::TaskWaiting,
                id: task.marks.validation,
            },
        ),
        LogEventView::SetVariant(task.marks.validation, LogVariant::TaskComplete),
        LogEventView::PushItem(
            LogItemView {
                message: found_lights_text(count),
                variant: LogVariant::Info,
                id: task.marks.found,
            },
        ),
        LogEventView::PushItem(
            LogItemView {
                message: saving_text(),
                variant: LogVariant::TaskWaiting,
                id: task.marks.saving,
            },
        ),
        LogEventView::SetVariant(task.marks.saving, LogVariant::TaskComplete),
        LogEventView::PushItem(
            LogItemView { message: done_text(), variant: LogVariant::Info, id: task.marks.done },
        ),
    ]
}

/// A bridge that answers "not confirmed yet" any number of times and then lets
/// the client in: the one task, never started again, ends in `Complete` with
/// the record of that bridge under the task's device type, once the listing
/// and the writing have succeeded; and its log events are those of a
/// registration that went through at the first attempt.
pub proof fn lemma_registration_completes_after_retries(
    task: RegisterClientTaskView,
    pending: Seq<ReplyView>,
    bridge: BridgeView,
    count: usize,
)
    requires
        all_pending(pending),
    ensures
        ({
            let confirmed = pending.push(ReplyView::Registered(Ok(bridge)));
            let listed = confirmed.push(ReplyView::Listed(Ok(count)));
            let saved = listed.push(ReplyView::Saved(Ok(())));
            let last = registration_resumed(
                registration_ran(task, listed).0,
                ReplyView::Saved(Ok(())),
            );
            &&& handed_in(last.1.next) == Some(
                StateView::Complete(record_for(task, bridge), bridge),
            )
            &&& registration_ran(task, saved).1 == registration_success_events(task, count)
            &&& registration_ran(task, saved).0.phase matches RegisterPhaseView::Validating(v)
            &&& v.phase is Finished
        }),
{
    let confirmed = pending.push(ReplyView::Registered(Ok(bridge)));
    let listed = confirmed.push(ReplyView::Listed(Ok(count)));
    let saved = listed.push(ReplyView::Saved(Ok(())));
    lemma_pending_replies_only_retry(task, pending);
    assert(confirmed.drop_last() =~= pending);
    assert(listed.drop_last() =~= confirmed);
    assert(saved.drop_last() =~= listed);
    let r0 = registration_ran(task, pending);
    let r1 = registration_ran(task, confirmed);
    let r2 = registration_ran(task, listed);
    let r3 = registration_ran(task, saved);
    assert(r1 == (
        registration_resumed(r0.0, confirmed.last()).0,
        r0.1 + registration_resumed(r0.0, confirmed.last()).1.events,
    ));
    assert(r2 == (
        registration_resumed(r1.0, listed.last()).0,
        r1.1 + registration_resumed(r1.0, listed.last()).1.events,
    ));
    assert(r3 == (
        registration_resumed(r2.0, saved.last()).0,
        r2.1 + registration_resumed(r2.0, saved.last()).1.events,
    ));
    assert(r3.1 =~= registration_success_events(task, count));
}

/// What an empty log shows of a registration that went through. The waiting
/// line of the handshake is there once, as the oldest line, and has become
/// complete, whatever ids the task drew; above it stand the lines of the
/// validation. Only an id shared by the line that counts the lights and the
/// waiting line of the writing would change another line.
pub proof fn lemma_registration_log(task: RegisterClientTaskView, count: usize)
    ensures
        ({
            let first = applied_all(
                Seq::<LogItemView>::empty(),
                registration_begun(task).1.events,
            );
            let log = applied_all(
                Seq::<LogItemView>::empty(),
                registration_success_events(task, count),
            );
            &&& first == seq![
                LogItemView {
                    message: registering_text(),
                    variant: LogVariant::TaskWaiting,
                    id: task.handshake_id,
                },
            ]
            &&& log.len() == 5
            &&& log[4] == (LogItemView {
                message: registering_text(),
                variant: LogVariant::TaskComplete,
                id: task.handshake_id,
            })
            &&& log[3] == (LogItemView {
                message: validating_text(),
                variant: LogVariant::TaskComplete,
                id: task.marks.validation,
            })
            &&& log[2].message == found_lights_text(count)
            &&& task.marks.found != task.marks.saving ==> log[2].variant == LogVariant::Info
            &&& log[1] == (LogItemView {
                message: saving_text(),
                variant: LogVariant::TaskComplete,
                id: task.marks.saving,
            })
            &&& log[0] == (LogItemView {
                message: done_text(),
                variant: LogVariant::Info,
                id: task.marks.done,
            })
        }),
{
    let none = Seq::<LogEventView>::empty();
    let empty = Seq::<LogItemView>::empty();
    let events = registration_success_events(task, count);
    let e0 = none.push(events[0]);
    let e1 = e0.push(events[1]);
    let e2 = e1.push(events[2]);
    let e3 = e2.push(events[3]);
    let e4 = e3.push(events[4]);
    let e5 = e4.push(events[5]);
    let e6 = e5.push(events[6]);
    let e7 = e6.push(events[7]);
    lemma_apply_one_more(empty, none, events[0]);
    lemma_apply_one_more(empty, e0, events[1]);
    lemma_apply_one_more(empty, e1, events[2]);
    lemma_apply_one_more(empty, e2, events[3]);
    lemma_apply_one_more(empty, e3, events[4]);
    lemma_apply_one_more(empty, e4, events[5]);
    lemma_apply_one_more(empty, e5, events[6]);
    lemma_apply_one_more(empty, e6, events[7]);
    assert(e7 =~= events);
    assert(e0 =~= registration_begun(task).1.events);
    let l0 = applied_all(empty, e0);
    assert(l0 =~= seq![
        LogItemView {
            message: registering_text(),
            variant: LogVariant::TaskWaiting,
            id: task.handshake_id,
        },
    ]);
    let l1 = applied_all(empty, e1);
    assert(l1.len() == 1 && l1[0].variant == LogVariant::TaskComplete);
    let l2 = applied_all(empty, e2);
    assert(l2.len() == 2 && l2[1] == l1[0]);
    let l3 = applied_all(empty, e3);
    assert(l3.len() == 2 && l3[1] == l1[0] && l3[0].variant == LogVariant::TaskComplete);
    let l4 = applied_all(empty, e4);
    assert(l4.len() == 3 && l4[2] == l3[1] && l4[1] == l3[0]);
    let l5 = applied_all(empty, e5);
    assert(l5.len() == 4 && l5[3] == l3[1] && l5[2] == l3[0] && l5[1] == l4[0]);
    let l6 = applied_all(empty, e6);
    assert(l6.len() == 4 && l6[3] == l3[1] && l6[2] == l3[0] && l6[1].message == l4[0].message);
    let l7 = applied_all(empty, e7);
    assert(l7.len() == 5 && l7[4] == l6[3] && l7[3] == l6[2] && l7[2] == l6[1] && l7[1] == l6[0]);
}

} // verus!
