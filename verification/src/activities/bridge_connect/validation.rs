//! The trial of a credential and the writing of the record it belongs to.

use crossbeam_channel::Sender;
use vstd::prelude::*;
use vstd::string::StringExecFns;

use crate::activities::bridge_connect::{
    on_complete_default, result_view, settled, stray_reply_text, State, StateView, STRAY_REPLY,
};
use crate::config::{BridgeConfig, BridgeConfigView, BridgeView, ValidatedBridge};
use crate::random::{is_token, random_token};
use crate::tasks::{Next, NextView, Reply, ReplyView, Request, RequestView, Step, StepView, Task};
use crate::text::{decimal, push_decimal};
use crate::widgets::log_block::{LogEvent, LogEventView, LogItem, LogItemView, LogVariant, ID_LEN};

verus! {

/// The line logged while the credential is tried out.
pub const VALIDATING: &'static str = "Validating bridge config... ";

/// The line logged while the credential is tried out.
pub open spec fn validating_text() -> Seq<char> {
    VALIDATING@
}

/// The line logged when the bridge has listed `count` lights.
pub open spec fn found_lights_text(count: usize) -> Seq<char> {
    "Found "@ + decimal(count as nat) + " lights"@
}

/// The lines logged when the bridge does not answer under the credential.
pub const UNREACHABLE_LINES: &'static str =
    "Couldn't communicate with bridge.\n\
     Make sure your bridge is plugged in and try again.\n\
     If you've manually entered the bridge's IP, its DHCP lease may have expired.\n\
     For now you'll need to delete or edit config.toml and try again.";

/// The lines logged when the bridge does not answer under the credential.
pub open spec fn unreachable_text() -> Seq<char> {
    UNREACHABLE_LINES@
}

/// The line logged while the record is written.
pub const SAVING: &'static str = "Saving config... ";

/// The line logged while the record is written.
pub open spec fn saving_text() -> Seq<char> {
    SAVING@
}

/// The line logged when the pairing is done.
pub const DONE: &'static str = "Done :)";

/// The line logged when the pairing is done.
pub open spec fn done_text() -> Seq<char> {
    DONE@
}

/// The ids of the log items that a validation may push, drawn when the task
/// is made.
#[derive(Debug)]
pub struct ValidateMarks {
    pub validation: String,
    pub found: String,
    pub trouble: String,
    pub saving: String,
    pub done: String,
}

/// The ids of a validation as plain values.
pub struct ValidateMarksView {
    pub validation: Seq<char>,
    pub found: Seq<char>,
    pub trouble: Seq<char>,
    pub saving: Seq<char>,
    pub done: Seq<char>,
}

impl View for ValidateMarks {
    type V = ValidateMarksView;

    open spec fn view(&self) -> ValidateMarksView {
        ValidateMarksView {
            validation: self.validation@,
            found: self.found@,
            trouble: self.trouble@,
            saving: self.saving@,
            done: self.done@,
        }
    }
}

impl Clone for ValidateMarks {
    fn clone(&self) -> (copy: Self)
        ensures
            copy@ == self@,
    {
        ValidateMarks {
            validation: self.validation.clone(),
            found: self.found.clone(),
            trouble: self.trouble.clone(),
            saving: self.saving.clone(),
            done: self.done.clone(),
        }
    }
}

/// Whether each id is a token of the usual length.
pub open spec fn marks_are_tokens(marks: ValidateMarksView) -> bool {
    &&& is_token(marks.validation, ID_LEN as nat)
    &&& is_token(marks.found, ID_LEN as nat)
    &&& is_token(marks.trouble, ID_LEN as nat)
    &&& is_token(marks.saving, ID_LEN as nat)
    &&& is_token(marks.done, ID_LEN as nat)
}

impl ValidateMarks {
    /// Five fresh ids.
    pub fn new() -> (marks: Self)
        ensures
            marks_are_tokens(marks@),
    {
        ValidateMarks {
            validation: random_token(ID_LEN),
            found: random_token(ID_LEN),
            trouble: random_token(ID_LEN),
            saving: random_token(ID_LEN),
            done: random_token(ID_LEN),
        }
    }
}

/// How far a validation has come.
#[derive(Debug)]
pub enum ValidatePhase {
    /// The credential is being tried out.
    Validating,
    /// The credential works; the record is being written.
    Saving { validated: ValidatedBridge },
    /// The task is over.
    Finished,
}

/// The phase of a validation as plain values.
pub enum ValidatePhaseView {
    Validating,
    Saving { validated: BridgeView },
    Finished,
}

impl View for ValidatePhase {
    type V = ValidatePhaseView;

    open spec fn view(&self) -> ValidatePhaseView {
        match self {
            ValidatePhase::Validating => ValidatePhaseView::Validating,
            ValidatePhase::Saving { validated } => ValidatePhaseView::Saving {
                validated: validated@,
            },
            ValidatePhase::Finished => ValidatePhaseView::Finished,
        }
    }
}

/// The trial of the credential in a record, by one listing of the bridge's
/// lights, and then the writing of the record.
#[derive(Debug)]
pub struct ValidateConfigTask {
    config: BridgeConfig,
    marks: ValidateMarks,
    phase: ValidatePhase,
}

/// A validation as plain values.
pub struct ValidateConfigTaskView {
    pub config: BridgeConfigView,
    pub marks: ValidateMarksView,
    pub phase: ValidatePhaseView,
}

impl View for ValidateConfigTask {
    type V = ValidateConfigTaskView;

    closed spec fn view(&self) -> ValidateConfigTaskView {
        ValidateConfigTaskView { config: self.config@, marks: self.marks@, phase: self.phase@ }
    }
}

/// The handle of the bridge that a record names.
pub open spec fn handle_of(config: BridgeConfigView) -> BridgeView {
    BridgeView { ip: config.bridge_ip, username: config.bridge_username }
}

/// A validation of this record under these ids, at its start.
pub open spec fn validation_of(config: BridgeConfigView, marks: ValidateMarksView)
    -> ValidateConfigTaskView {
    ValidateConfigTaskView { config, marks, phase: ValidatePhaseView::Validating }
}

/// The first step of a validation: log the waiting line, then list the lights.
pub open spec fn validation_begun(task: ValidateConfigTaskView) -> (
    ValidateConfigTaskView,
    StepView<StateView>,
) {
    (
        ValidateConfigTaskView { phase: ValidatePhaseView::Validating, ..task },
        StepView {
            events: seq![
                LogEventView::PushItem(
                    LogItemView {
                        message: validating_text(),
                        variant: LogVariant::TaskWaiting,
                        id: task.marks.validation,
                    },
                ),
            ],
            next: NextView::Call(RequestView::ListLights { handle: handle_of(task.config) }),
        },
    )
}

/// A step that ends a validation in failure: the waiting line of the phase
/// becomes failed, after it come the `extra` events, and the cause is handed
/// on.
pub open spec fn validation_failed(
    task: ValidateConfigTaskView,
    waiting_id: Seq<char>,
    extra: Seq<LogEventView>,
    cause: Seq<char>,
) -> (ValidateConfigTaskView, StepView<StateView>) {
    (
        ValidateConfigTaskView { phase: ValidatePhaseView::Finished, ..task },
        StepView {
            events: seq![LogEventView::SetVariant(waiting_id, LogVariant::TaskFailed)] + extra,
            next: NextView::Done(Err(cause)),
        },
    )
}

/// The step of a validation that follows `reply`.
///
/// A listing that succeeds moves on to the writing of the record; one that
/// fails ends the task and is not tried again. Only when the record is written
/// does the task end in `Complete`, with the record and the bridge that
/// answered; a failure to write ends the task. Each phase flips its own
/// waiting line and pushes no second line for the same work.
pub open spec fn validation_resumed(task: ValidateConfigTaskView, reply: ReplyView) -> (
    ValidateConfigTaskView,
    StepView<StateView>,
) {
    match (task.phase, reply) {
        (ValidatePhaseView::Validating, ReplyView::Listed(Ok(count))) => (
            ValidateConfigTaskView {
                phase: ValidatePhaseView::Saving { validated: handle_of(task.config) },
                ..task
            },
            StepView {
                events: seq![
                    LogEventView::SetVariant(task.marks.validation, LogVariant::TaskComplete),
                    LogEventView::PushItem(
                        LogItemView {
                            message: found_lights_text(count),
                            variant: LogVariant::Info,
                            id: task.marks.found,
                        },
                    ),
                    LogEventView::PushItem(
                        LogItemView {
                            message: saving_text(),
                            variant: LogVariant::TaskWaiting,
                            id: task.marks.saving,
                        },
                    ),
                ],
                next: NextView::Call(RequestView::Save { config: task.config }),
            },
        ),
        (ValidatePhaseView::Validating, ReplyView::Listed(Err(error))) => validation_failed(
            task,
            task.marks.validation,
            seq![
                LogEventView::PushItem(
                    LogItemView {
                        message: unreachable_text(),
                        variant: LogVariant::Error,
                        id: task.marks.trouble,
                    },
                ),
            ],
            error.cause,
        ),
        (ValidatePhaseView::Saving { validated }, ReplyView::Saved(Ok(_))) => (
            ValidateConfigTaskView { phase: ValidatePhaseView::Finished, ..task },
            StepView {
                events: seq![
                    LogEventView::SetVariant(task.marks.saving, LogVariant::TaskComplete),
                    LogEventView::PushItem(
                        LogItemView {
                            message: done_text(),
                            variant: LogVariant::Info,
                            id: task.marks.done,
                        },
                    ),
                ],
                next: NextView::Done(Ok(StateView::Complete(task.config, validated))),
            },
        ),
        (ValidatePhaseView::Saving { validated }, ReplyView::Saved(Err(cause))) => {
            validation_failed(task, task.marks.saving, Seq::empty(), cause)
        },
        (ValidatePhaseView::Validating, _) => validation_failed(
            task,
            task.marks.validation,
            Seq::empty(),
            stray_reply_text(),
        ),
        (ValidatePhaseView::Saving { validated }, _) => validation_failed(
            task,
            task.marks.saving,
            Seq::empty(),
            stray_reply_text(),
        ),
        (ValidatePhaseView::Finished, _) => (
            task,
            StepView { events: Seq::empty(), next: NextView::Done(Err(stray_reply_text())) },
        ),
    }
}

impl ValidateConfigTask {
    /// A validation of the record, with fresh ids for its log items.
    pub fn new(config: BridgeConfig) -> (task: Self)
        ensures
            task@.config == config@,
            task@.phase == ValidatePhaseView::Validating,
            marks_are_tokens(task@.marks),
    {
        Self::with_marks(config, ValidateMarks::new())
    }

    /// A validation of the record, with the ids given.
    pub fn with_marks(config: BridgeConfig, marks: ValidateMarks) -> (task: Self)
        ensures
            task@ == validation_of(config@, marks@),
    {
        ValidateConfigTask { config, marks, phase: ValidatePhase::Validating }
    }

    pub fn config(&self) -> (config: &BridgeConfig)
        ensures
            config@ == self@.config,
    {
        &self.config
    }

    pub fn phase(&self) -> (phase: &ValidatePhase)
        ensures
            phase@ == self@.phase,
    {
        &self.phase
    }

    fn fail(&mut self, waiting_id: String, extra: Option<LogEvent>, cause: String) -> (step: Step<
        State,
    >)
        ensures
            (final(self)@, step@) == validation_failed(
                old(self)@,
                waiting_id@,
                match extra {
                    Some(event) => seq![event@],
                    None => Seq::empty(),
                },
                cause@,
            ),
    {
        self.phase = ValidatePhase::Finished;
        let mut events: Vec<LogEvent> = Vec::new();
        events.push(LogEvent::SetVariant(waiting_id, LogVariant::TaskFailed));
        match extra {
            Some(event) => {
                events.push(event);
            },
            None => {},
        }
        let step = Step { events, next: Next::Done(Err(cause)) };
        assert(step@.events =~= seq![
            LogEventView::SetVariant(waiting_id@, LogVariant::TaskFailed),
        ] + match extra {
            Some(event) => seq![event@],
            None => Seq::empty(),
        });
        step
    }

    fn found_lights(count: usize) -> (line: String)
        ensures
            line@ == found_lights_text(count),
    {
        let mut line = "Found ".to_owned();
        push_decimal(&mut line, count);
        line.append(" lights");
        line
    }
}

impl Task for ValidateConfigTask {
    type Result = State;

    type OnCompleteParams = Sender<State>;

    fn begin(&mut self) -> (step: Step<State>)
        ensures
            (final(self)@, step@) == validation_begun(old(self)@),
    {
        self.phase = ValidatePhase::Validating;
        let mut events: Vec<LogEvent> = Vec::new();
        events.push(
            LogEvent::PushItem(
                LogItem::with_id(
                    VALIDATING,
                    LogVariant::TaskWaiting,
                    self.marks.validation.clone(),
                ),
            ),
        );
        let step = Step {
            events,
            next: Next::Call(Request::ListLights { handle: self.config.bridge() }),
        };
        assert(step@.events =~= validation_begun(old(self)@).1.events);
        step
    }

    fn resume(&mut self, reply: Reply) -> (step: Step<State>)
        ensures
            (final(self)@, step@) == validation_resumed(old(self)@, reply@),
    {
        let ghost before = self@;
        let ghost answer = reply@;
        let mut phase = ValidatePhase::Finished;
        core::mem::swap(&mut self.phase, &mut phase);
        let step = match phase {
            ValidatePhase::Validating => match reply {
                Reply::Listed(Ok(count)) => {
                    let validated = ValidatedBridge::from_listing(self.config.bridge(), count);
                    let mut events: Vec<LogEvent> = Vec::new();
                    events.push(
                        LogEvent::SetVariant(
                            self.marks.validation.clone(),
                            LogVariant::TaskComplete,
                        ),
                    );
                    events.push(
                        LogEvent::PushItem(
                            LogItem::with_id(
                                Self::found_lights(count).as_str(),
                                LogVariant::Info,
                                self.marks.found.clone(),
                            ),
                        ),
                    );
                    events.push(
                        LogEvent::PushItem(
                            LogItem::with_id(
                                SAVING,
                                LogVariant::TaskWaiting,
                                self.marks.saving.clone(),
                            ),
                        ),
                    );
                    let next = Next::Call(Request::Save { config: self.config.clone() });
                    self.phase = ValidatePhase::Saving { validated };
                    Step { events, next }
                },
                Reply::Listed(Err(error)) => {
                    let trouble = LogEvent::PushItem(
                        LogItem::with_id(
                            UNREACHABLE_LINES,
                            LogVariant::Error,
                            self.marks.trouble.clone(),
                        ),
                    );
                    self.fail(self.marks.validation.clone(), Some(trouble), error.cause)
                },
                _ => self.fail(self.marks.validation.clone(), None, STRAY_REPLY.to_owned()),
            },
            ValidatePhase::Saving { validated } => match reply {
                Reply::Saved(Ok(())) => {
                    let mut events: Vec<LogEvent> = Vec::new();
                    events.push(
                        LogEvent::SetVariant(self.marks.saving.clone(), LogVariant::TaskComplete),
                    );
                    events.push(
                        LogEvent::PushItem(
                            LogItem::with_id(DONE, LogVariant::Info, self.marks.done.clone()),
                        ),
                    );
                    Step {
                        events,
                        next: Next::Done(Ok(State::Complete(self.config.clone(), validated))),
                    }
                },
                Reply::Saved(Err(cause)) => self.fail(self.marks.saving.clone(), None, cause),
                _ => self.fail(self.marks.saving.clone(), None, STRAY_REPLY.to_owned()),
            },
            ValidatePhase::Finished => Step {
                events: Vec::new(),
                next: Next::Done(Err(STRAY_REPLY.to_owned())),
            },
        };
        assert(step@.events =~= validation_resumed(before, answer).1.events);
        step
    }

    fn on_complete(r: Result<State, String>, p: Sender<State>) -> (delivered: Result<(), State>)
        ensures
            delivered matches Err(state) ==> state@ == settled(result_view(r)),
    {
        on_complete_default(r, p)
    }
}

} // verus!
