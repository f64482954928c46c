//! The reading of the stored settings, for a program that may have been paired
//! before.

use crossbeam_channel::Sender;
use vstd::prelude::*;

use crate::activities::bridge_connect::validation::{
    marks_are_tokens, validation_begun, validation_of, validation_resumed, ValidateConfigTask,
    ValidateConfigTaskView, ValidateMarks, ValidateMarksView,
};
use crate::activities::bridge_connect::{
    advanced, handed_in, on_complete_default, result_view, settled, stray_reply_text, JobView,
    State, StateView, STRAY_REPLY,
};
use crate::random::{is_token, random_token};
use crate::tasks::{Next, NextView, Reply, ReplyView, Request, RequestView, Step, StepView, Task};
use crate::widgets::log_block::{LogEvent, LogEventView, LogItem, LogItemView, LogVariant, ID_LEN};

verus! {

/// The line logged while the stored settings are read.
pub const READING: &'static str = "Reading config file... ";

/// The line logged while the stored settings are read.
pub open spec fn reading_text() -> Seq<char> {
    READING@
}

/// How far a reading task has come.
#[derive(Debug)]
pub enum ReadPhase {
    /// The settings have not come back from the store yet.
    Loading,
    /// The settings held a bridge record; the validation inside tries its
    /// credential out.
    Validating(ValidateConfigTask),
    /// The task ended with the reading.
    Finished,
}

/// The phase of a reading task as plain values.
pub enum ReadPhaseView {
    Loading,
    Validating(ValidateConfigTaskView),
    Finished,
}

impl View for ReadPhase {
    type V = ReadPhaseView;

    open spec fn view(&self) -> ReadPhaseView {
        match self {
            ReadPhase::Loading => ReadPhaseView::Loading,
            ReadPhase::Validating(validation) => ReadPhaseView::Validating(validation@),
            ReadPhase::Finished => ReadPhaseView::Finished,
        }
    }
}

/// The reading of the stored settings. A bridge record found in them is
/// validated; without one, or without settings that can be read, the workflow
/// is to search for a bridge.
#[derive(Debug)]
pub struct ReadConfigTask {
    reading_id: String,
    marks: ValidateMarks,
    phase: ReadPhase,
}

/// A reading task as plain values.
pub struct ReadConfigTaskView {
    pub reading_id: Seq<char>,
    pub marks: ValidateMarksView,
    pub phase: ReadPhaseView,
}

impl View for ReadConfigTask {
    type V = ReadConfigTaskView;

    closed spec fn view(&self) -> ReadConfigTaskView {
        ReadConfigTaskView {
            reading_id: self.reading_id@,
            marks: self.marks@,
            phase: self.phase@,
        }
    }
}

/// The first step of reading: log the waiting line, then ask the store.
pub open spec fn reading_begun(task: ReadConfigTaskView) -> (
    ReadConfigTaskView,
    StepView<StateView>,
) {
    (
        ReadConfigTaskView { phase: ReadPhaseView::Loading, ..task },
        StepView {
            events: seq![
                LogEventView::PushItem(
                    LogItemView {
                        message: reading_text(),
                        variant: LogVariant::TaskWaiting,
                        id: task.reading_id,
                    },
                ),
            ],
            next: NextView::Call(RequestView::Load),
        },
    )
}

/// The step that ends the task with the reading: the waiting line gets the
/// variant and the result is handed on.
pub open spec fn reading_ended(
    task: ReadConfigTaskView,
    variant: LogVariant,
    result: Result<StateView, Seq<char>>,
) -> (ReadConfigTaskView, StepView<StateView>) {
    (
        ReadConfigTaskView { phase: ReadPhaseView::Finished, ..task },
        StepView {
            events: seq![LogEventView::SetVariant(task.reading_id, variant)],
            next: NextView::Done(result),
        },
    )
}

/// The step of reading that follows `reply`.
///
/// Settings that cannot be read are no settings: the waiting line becomes
/// failed and the workflow is to search for a bridge. Settings without a
/// bridge record lead there too. A bridge record begins its validation; from
/// then on every reply goes to that validation, and the task ends as it ends.
pub open spec fn reading_resumed(task: ReadConfigTaskView, reply: ReplyView) -> (
    ReadConfigTaskView,
    StepView<StateView>,
) {
    match task.phase {
        ReadPhaseView::Loading => match reply {
            ReplyView::Loaded(Ok(config)) => match config.bridge_config {
                Some(record) => {
                    let begun = validation_begun(validation_of(record, task.marks));
                    (
                        ReadConfigTaskView { phase: ReadPhaseView::Validating(begun.0), ..task },
                        StepView {
                            events: seq![
                                LogEventView::SetVariant(
                                    task.reading_id,
                                    LogVariant::TaskComplete,
                                ),
                            ] + begun.1.events,
                            next: begun.1.next,
                        },
                    )
                },
                None => reading_ended(
                    task,
                    LogVariant::TaskComplete,
                    Ok(StateView::DiscoveringBridge),
                ),
            },
            ReplyView::Loaded(Err(cause)) => reading_ended(
                task,
                LogVariant::TaskFailed,
                Ok(StateView::DiscoveringBridge),
            ),
            _ => reading_ended(task, LogVariant::TaskFailed, Err(stray_reply_text())),
        },
        ReadPhaseView::Validating(validation) => {
            let resumed = validation_resumed(validation, reply);
            (ReadConfigTaskView { phase: ReadPhaseView::Validating(resumed.0), ..task }, resumed.1)
        },
        ReadPhaseView::Finished => (
            task,
            StepView { events: Seq::empty(), next: NextView::Done(Err(stray_reply_text())) },
        ),
    }
}

impl ReadConfigTask {
    /// A reading task with fresh ids for its log items.
    pub fn new() -> (task: Self)
        ensures
            task@.phase == ReadPhaseView::Loading,
            is_token(task@.reading_id, ID_LEN as nat),
            marks_are_tokens(task@.marks),
    {
        Self::with_marks(random_token(ID_LEN), ValidateMarks::new())
    }

    /// A reading task with the ids given: that of the waiting line of the
    /// reading, and those of the validation.
    pub fn with_marks(reading_id: String, marks: ValidateMarks) -> (task: Self)
        ensures
            task@ == (ReadConfigTaskView {
                reading_id: reading_id@,
                marks: marks@,
                phase: ReadPhaseView::Loading,
            }),
    {
        ReadConfigTask { reading_id, marks, phase: ReadPhase::Loading }
    }

    pub fn phase(&self) -> (phase: &ReadPhase)
        ensures
            phase@ == self@.phase,
    {
        &self.phase
    }

    fn end(&mut self, variant: LogVariant, result: Result<State, String>) -> (step: Step<State>)
        ensures
            (final(self)@, step@) == reading_ended(
                old(self)@,
                variant,
                match result {
                    Ok(state) => Ok(state@),
                    Err(cause) => Err(cause@),
                },
            ),
    {
        self.phase = ReadPhase::Finished;
        let mut events: Vec<LogEvent> = Vec::new();
        events.push(LogEvent::SetVariant(self.reading_id.clone(), variant));
        let step = Step { events, next: Next::Done(result) };
        assert(step@.events =~= seq![LogEventView::SetVariant(old(self)@.reading_id, variant)]);
        step
    }
}

impl Task for ReadConfigTask {
    type Result = State;

    type OnCompleteParams = Sender<State>;

    fn begin(&mut self) -> (step: Step<State>)
        ensures
            (final(self)@, step@) == reading_begun(old(self)@),
    {
        self.phase = ReadPhase::Loading;
        let mut events: Vec<LogEvent> = Vec::new();
        events.push(
            LogEvent::PushItem(
                LogItem::with_id(READING, LogVariant::TaskWaiting, self.reading_id.clone()),
            ),
        );
        let step = Step { events, next: Next::Call(Request::Load) };
        assert(step@.events =~= reading_begun(old(self)@).1.events);
        step
    }

    fn resume(&mut self, reply: Reply) -> (step: Step<State>)
        ensures
            (final(self)@, step@) == reading_resumed(old(self)@, reply@),
    {
        let ghost before = self@;
        let ghost answer = reply@;
        let mut phase = ReadPhase::Finished;
        core::mem::swap(&mut self.phase, &mut phase);
        let step = match phase {
            ReadPhase::Loading => match reply {
                Reply::Loaded(Ok(config)) => match config.into_bridge_config() {
                    Some(record) => {
                        let mut validation = ValidateConfigTask::with_marks(
                            record,
                            self.marks.clone(),
                        );
                        let begun = validation.begin();
                        let mut events: Vec<LogEvent> = Vec::new();
                        events.push(
                            LogEvent::SetVariant(
                                self.reading_id.clone(),
                                LogVariant::TaskComplete,
                            ),
                        );
                        let mut rest = begun.events;
                        events.append(&mut rest);
                        let step = Step { events, next: begun.next };
                        self.phase = ReadPhase::Validating(validation);
                        step
                    },
                    None => self.end(LogVariant::TaskComplete, Ok(State::DiscoveringBridge)),
                },
                Reply::Loaded(Err(_)) => self.end(
                    LogVariant::TaskFailed,
                    Ok(State::DiscoveringBridge),
                ),
                _ => self.end(LogVariant::TaskFailed, Err(STRAY_REPLY.to_owned())),
            },
            ReadPhase::Validating(mut validation) => {
                let step = validation.resume(reply);
                self.phase = ReadPhase::Validating(validation);
                step
            },
            ReadPhase::Finished => Step {
                events: Vec::new(),
                next: Next::Done(Err(STRAY_REPLY.to_owned())),
            },
        };
        assert(step@.events =~= reading_resumed(before, answer).1.events);
        step
    }

    fn on_complete(r: Result<State, String>, p: Sender<State>) -> (delivered: Result<(), State>)
        ensures
            delivered matches Err(state) ==> state@ == settled(result_view(r)),
    {
        on_complete_default(r, p)
    }
}

/// Settings that cannot be read are treated as none: whatever the cause, the
/// task hands in `DiscoveringBridge`, and the advance of that state starts
/// the search for a bridge from the beginning.
pub proof fn lemma_failed_load_falls_back_to_discovery(task: ReadConfigTaskView, cause: Seq<char>)
    ensures
        handed_in(
            reading_resumed(reading_begun(task).0, ReplyView::Loaded(Err(cause))).1.next,
        ) == Some(StateView::DiscoveringBridge),
        advanced(StateView::DiscoveringBridge).1 == Some(JobView::Discover),
{
}

} // verus!
