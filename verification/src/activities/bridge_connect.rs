//! Pairing with a bridge: the workflow state machine, the screen that owns it,
//! and a model of the two together with the tasks on their way.

pub mod discovery;
pub mod reading;
pub mod registration;
pub mod validation;

pub use self::discovery::DiscoverBridgeTask;
pub use self::reading::{ReadConfigTask, ReadPhase};
pub use self::registration::{RegisterClientTask, RegisterPhase};
pub use self::validation::{ValidateConfigTask, ValidateMarks, ValidatePhase};

use crossbeam_channel::{Receiver, Sender};
use vstd::prelude::*;
use vstd::string::StringExecFns;

use crate::activities::bridge_connect::discovery::{discovery_resumed, DiscoverBridgeTaskView};
use crate::channel::{another_sender, open_channel, send, try_receive};
use crate::config::{BridgeConfig, BridgeConfigView, BridgeView, UnauthBridge, ValidatedBridge};
use crate::tasks::{NextView, ReplyView};
use crate::text::{decimal, push_decimal};
use crate::widgets::log_block::{applied_all, Log, LogEvent, LogEventView, LogItemView};
use crate::widgets::rainbow_border::RainbowBorderWidget;
use crate::widgets::{center_rect, centered, Rect};

verus! {

/// Where the pairing stands.
#[derive(Debug)]
pub enum State {
    /// The search for a bridge is about to begin.
    DiscoveringBridge,
    /// A bridge was found; registration under `device_type` is about to begin.
    RegisteringClient { device_type: String, bridge: UnauthBridge },
    /// No bridge was found: the user is to type an address.
    ManualEntry { attempts: u32, current_entry: String },
    /// A task for the state inside has been started and has not answered yet.
    Waiting(Box<State>),
    /// The pairing failed for the cause given. Nothing follows.
    Failed(String),
    /// The pairing is done: the record has been stored and the bridge has
    /// answered under the credential at least once. Nothing follows.
    Complete(BridgeConfig, ValidatedBridge),
}

/// A state as plain values.
pub enum StateView {
    DiscoveringBridge,
    RegisteringClient { device_type: Seq<char>, bridge: UnauthBridge },
    ManualEntry { attempts: u32, current_entry: Seq<char> },
    Waiting(Box<StateView>),
    Failed(Seq<char>),
    Complete(BridgeConfigView, BridgeView),
}

impl View for State {
    type V = StateView;

    open spec fn view(&self) -> StateView
        decreases self,
    {
        match self {
            State::DiscoveringBridge => StateView::DiscoveringBridge,
            State::RegisteringClient { device_type, bridge } => StateView::RegisteringClient {
                device_type: device_type@,
                bridge: *bridge,
            },
            State::ManualEntry { attempts, current_entry } => StateView::ManualEntry {
                attempts: *attempts,
                current_entry: current_entry@,
            },
            State::Waiting(inner) => StateView::Waiting(Box::new((**inner)@)),
            State::Failed(cause) => StateView::Failed(cause@),
            State::Complete(config, bridge) => StateView::Complete(config@, bridge@),
        }
    }
}

/// A task that is to be started on a thread of its own.
#[derive(Debug)]
pub enum Job {
    /// Search for a bridge.
    Discover,
    /// Register with the bridge under the device type.
    Register { device_type: String, bridge: UnauthBridge },
    /// Read the stored settings. The workflow never asks for this itself: it
    /// is how a screen made by `init_stored` begins.
    ReadConfig,
}

/// A job as plain values.
pub enum JobView {
    Discover,
    Register { device_type: Seq<char>, bridge: UnauthBridge },
    ReadConfig,
}

impl View for Job {
    type V = JobView;

    open spec fn view(&self) -> JobView {
        match self {
            Job::Discover => JobView::Discover,
            Job::ReadConfig => JobView::ReadConfig,
            Job::Register { device_type, bridge } => JobView::Register {
                device_type: device_type@,
                bridge: *bridge,
            },
        }
    }
}

/// The view of a job that may be absent.
pub open spec fn job_view(job: Option<Job>) -> Option<JobView> {
    match job {
        Some(job) => Some(job@),
        None => None,
    }
}

/// The view of a state that may be absent.
pub open spec fn state_view(state: Option<State>) -> Option<StateView> {
    match state {
        Some(state) => Some(state@),
        None => None,
    }
}

/// Whether nothing follows the state.
pub open spec fn is_terminal(state: StateView) -> bool {
    state is Failed || state is Complete
}

/// One advance of the workflow: a state that has a task to run becomes
/// `Waiting` around itself and names the task; every other state stays as it
/// is and starts nothing.
pub open spec fn advanced(state: StateView) -> (StateView, Option<JobView>) {
    match state {
        StateView::DiscoveringBridge => (
            StateView::Waiting(Box::new(state)),
            Some(JobView::Discover),
        ),
        StateView::RegisteringClient { device_type, bridge } => (
            StateView::Waiting(Box::new(state)),
            Some(JobView::Register { device_type, bridge }),
        ),
        _ => (state, None),
    }
}

/// The view of a task's result.
pub open spec fn result_view(r: Result<State, String>) -> Result<StateView, Seq<char>> {
    match r {
        Ok(state) => Ok(state@),
        Err(cause) => Err(cause@),
    }
}

/// What a task's result makes of the workflow: the state it computed, or
/// `Failed` with the cause.
pub open spec fn settled(r: Result<StateView, Seq<char>>) -> StateView {
    match r {
        Ok(state) => state,
        Err(cause) => StateView::Failed(cause),
    }
}

impl State {
    /// Advances the workflow by one tick. The job returned, if any, is to be
    /// started by the caller.
    pub fn update(self) -> (out: (State, Option<Job>))
        ensures
            (out.0@, job_view(out.1)) == advanced(self@),
    {
        match self {
            State::DiscoveringBridge => (State::Waiting(Box::new(self)), Some(Job::Discover)),
            State::RegisteringClient { device_type, bridge } => {
                let job = Job::Register { device_type: device_type.clone(), bridge };
                (
                    State::Waiting(Box::new(State::RegisteringClient { device_type, bridge })),
                    Some(job),
                )
            },
            _ => (self, None),
        }
    }

    /// The state that a task's result stands for.
    pub fn settle(r: Result<State, String>) -> (state: State)
        ensures
            state@ == settled(result_view(r)),
    {
        match r {
            Ok(state) => state,
            Err(cause) => State::Failed(cause),
        }
    }
}

/// Sends the state that `r` stands for to the owner of the workflow. Whether
/// it gets through is for the channel to say; where it does not, that state
/// comes back.
pub fn on_complete_default(r: Result<State, String>, p: Sender<State>) -> (delivered: Result<
    (),
    State,
>)
    ensures
        delivered matches Err(state) ==> state@ == settled(result_view(r)),
{
    let state = State::settle(r);
    match send(&p, state) {
        None => Ok(()),
        Some(undelivered) => Err(undelivered),
    }
}

/// The cause given when a task is resumed with a reply to a request that it
/// did not make.
pub const STRAY_REPLY: &'static str = "The reply does not answer the request that was made.";

/// The cause given when a task is resumed with a reply to a request that it
/// did not make.
pub open spec fn stray_reply_text() -> Seq<char> {
    STRAY_REPLY@
}

/// The title of the wizard's log.
pub const WELCOME: &'static str = " welcome to twitchbrite ";

/// The title of the wizard's log.
pub open spec fn welcome_text() -> Seq<char> {
    WELCOME@
}

/// What one tick makes of the workflow. A state that has arrived is advanced
/// at once and takes the place of the current one; with none arrived, nothing
/// changes and nothing is started.
pub open spec fn ticked(state: Option<StateView>, received: Option<StateView>) -> (
    Option<StateView>,
    Option<JobView>,
) {
    match received {
        Some(arrived) => (Some(advanced(arrived).0), advanced(arrived).1),
        None => (state, None),
    }
}

/// The pairing screen: the workflow, its log, and the channel on which tasks
/// hand in the next state of the workflow. Until its first tick it also holds
/// the state with which the workflow begins.
pub struct BridgeConnect {
    state: Option<State>,
    first: Option<State>,
    log: Log,
    state_ch: (Sender<State>, Receiver<State>),
}

/// Whether `after` and `job` can come of one tick of the screen `before`.
/// The state with which the workflow begins, while the screen still holds it,
/// is what arrives at that tick; after it, for some state arrived on the
/// channel, or none, the state and the job are what `ticked` says. The log has
/// counted one tick, kept its title and margin, and applied some list of
/// events to its items. Both channels are the ones they were.
pub open spec fn screen_ticked(before: BridgeConnect, after: BridgeConnect, job: Option<JobView>)
    -> bool {
    &&& after.first_view() is None
    &&& match before.first_view() {
        Some(first) => ticked(before.state_view(), Some(first)) == (after.state_view(), job),
        None => exists|received: Option<StateView>| #[trigger]
            ticked(before.state_view(), received) == (after.state_view(), job),
    }
    &&& after.log_view().ticks_view() == before.log_view().ticks_view() + 1
    &&& after.log_view().title_view() == before.log_view().title_view()
    &&& after.log_view().margin_view() == before.log_view().margin_view()
    &&& after.log_view().sender_view() == before.log_view().sender_view()
    &&& after.state_sender_view() == before.state_sender_view()
    &&& exists|events: Seq<LogEventView>| #[trigger]
        applied_all(before.log_view().items(), events) == after.log_view().items()
}

impl BridgeConnect {
    /// The state of the workflow; none before the first tick.
    pub closed spec fn state_view(&self) -> Option<StateView> {
        state_view(self.state)
    }

    /// The state with which the workflow begins, until the first tick takes
    /// it.
    pub closed spec fn first_view(&self) -> Option<StateView> {
        state_view(self.first)
    }

    /// The log of the screen.
    pub closed spec fn log_view(&self) -> Log {
        self.log
    }

    /// Whether the screen is as `init` makes it: an empty log at tick zero
    /// under the wizard's title, no state yet, and `DiscoveringBridge` held
    /// for the first tick.
    pub open spec fn is_fresh(&self) -> bool {
        &&& self.log_view().title_view() == welcome_text()
        &&& self.log_view().items() == Seq::<LogItemView>::empty()
        &&& self.log_view().ticks_view() == 0
        &&& self.state_view() is None
        &&& self.first_view() == Some(StateView::DiscoveringBridge)
    }

    /// The screen at the start: an empty log under the wizard's title, no
    /// state yet, and `DiscoveringBridge` for the first tick to take in.
    pub fn init() -> (screen: Self)
        ensures
            screen.is_fresh(),
    {
        let mut log = Log::default();
        log.set_title(WELCOME.to_owned());
        let state_ch = open_channel();
        BridgeConnect { state: None, first: Some(State::DiscoveringBridge), log, state_ch }
    }

    /// The screen of a program that may have been paired before: an empty log
    /// under the wizard's title, no state, and none held for the first tick.
    /// It begins with the reading of the stored settings, the job returned,
    /// which the caller is to start.
    pub fn init_stored() -> (out: (Self, Job))
        ensures
            out.0.log_view().title_view() == welcome_text(),
            out.0.log_view().items() == Seq::<LogItemView>::empty(),
            out.0.log_view().ticks_view() == 0,
            out.0.state_view() is None,
            out.0.first_view() is None,
            out.1@ == JobView::ReadConfig,
    {
        let mut log = Log::default();
        log.set_title(WELCOME.to_owned());
        let state_ch = open_channel();
        (BridgeConnect { state: None, first: None, log, state_ch }, Job::ReadConfig)
    }

    /// The sending end of the channel on which tasks hand in states.
    pub closed spec fn state_sender_view(&self) -> Sender<State> {
        self.state_ch.0
    }

    /// Another sending end of the channel on which tasks hand in states.
    pub fn state_sender(&self) -> (tx: Sender<State>)
        ensures
            tx == self.state_sender_view(),
    {
        another_sender(&self.state_ch.0)
    }

    /// Another sending end of the log's channel.
    pub fn log_sender(&self) -> (tx: Sender<LogEvent>)
        ensures
            tx == self.log_view().sender_view(),
    {
        self.log.sender()
    }

    pub fn state(&self) -> (state: &Option<State>)
        ensures
            state_view(*state) == self.state_view(),
    {
        &self.state
    }

    pub fn log(&self) -> (log: &Log)
        ensures
            *log == self.log_view(),
    {
        &self.log
    }

    /// Whether the screen can have another tick: its count of ticks has not
    /// reached the largest number it can hold.
    pub open spec fn can_tick(&self) -> bool {
        self.log_view().ticks_view() < u64::MAX
    }

    pub fn ready(&self) -> (ready: bool)
        ensures
            ready == self.can_tick(),
    {
        self.log.history().ticks() < u64::MAX
    }

    /// Takes in the state that arrived at this tick, if one did. The job
    /// returned, if any, is to be started by the caller. Nothing else of the
    /// screen is touched.
    pub fn accept(&mut self, received: Option<State>) -> (job: Option<Job>)
        ensures
            (final(self).state_view(), job_view(job)) == ticked(
                old(self).state_view(),
                state_view(received),
            ),
            final(self).log_view() == old(self).log_view(),
            final(self).first_view() == old(self).first_view(),
            final(self).state_sender_view() == old(self).state_sender_view(),
    {
        match received {
            Some(arrived) => {
                let (next, job) = arrived.update();
                self.state = Some(next);
                job
            },
            None => None,
        }
    }

    /// One tick of the screen: one state is accepted, the one with which the
    /// workflow begins if the screen still holds it, else at most one taken
    /// from the channel, without waiting; then the log has its tick. What
    /// arrives on the channel is the tasks' doing: whatever it is, the new
    /// state and the job follow from it as `ticked` says.
    pub fn update(&mut self, _ticks: u64) -> (job: Option<Job>)
        requires
            old(self).can_tick(),
        ensures
            screen_ticked(*old(self), *final(self), job_view(job)),
    {
        let held = self.first.take();
        let received = match held {
            Some(first) => Some(first),
            None => try_receive(&self.state_ch.1),
        };
        let ghost arrived = state_view(received);
        let job = self.accept(received);
        assert(ticked(old(self).state_view(), arrived) == (self.state_view(), job_view(job)));
        self.log.update();
        job
    }
}

/// The first tick of a screen fresh from `init` starts the search for a bridge
/// and leaves the screen waiting for it, whatever is on the channel.
pub proof fn lemma_first_tick_starts_discovery(
    before: BridgeConnect,
    after: BridgeConnect,
    job: Option<JobView>,
)
    requires
        before.is_fresh(),
        screen_ticked(before, after, job),
    ensures
        job == Some(JobView::Discover),
        after.state_view() == Some(
            StateView::Waiting(Box::new(StateView::DiscoveringBridge)),
        ),
        after.first_view() is None,
{
}

/// The workflow together with what is on its way: a model of one pairing
/// screen and the tasks it has started.
pub struct Flow {
    /// The state that the screen holds.
    pub state: Option<StateView>,
    /// The states waiting in the channel, oldest first.
    pub queued: Seq<StateView>,
    /// The number of tasks that were started and have not handed in a state.
    pub running: nat,
}

/// What can happen to a flow.
pub enum FlowEvent {
    /// The screen has its tick.
    Tick,
    /// A running task ends and hands in this state.
    Resolved(StateView),
}

/// The flow of a screen fresh from `init`: the state with which the workflow
/// begins counts as the first in the queue.
pub open spec fn flow_start() -> Flow {
    Flow { state: None, queued: seq![StateView::DiscoveringBridge], running: 0 }
}

/// The flow after one event. A tick takes the oldest queued state, if there is
/// one, and starts the job that the advance names. A task can only end while
/// one is running; its state joins the queue.
pub open spec fn flow_step(flow: Flow, event: FlowEvent) -> Flow {
    match event {
        FlowEvent::Tick => if flow.queued.len() > 0 {
            let (state, job) = ticked(flow.state, Some(flow.queued[0]));
            Flow {
                state,
                queued: flow.queued.drop_first(),
                running: if job is Some {
                    flow.running + 1
                } else {
                    flow.running
                },
            }
        } else {
            flow
        },
        FlowEvent::Resolved(state) => if flow.running > 0 {
            Flow {
                state: flow.state,
                queued: flow.queued.push(state),
                running: (flow.running - 1) as nat,
            }
        } else {
            flow
        },
    }
}

/// The flow after a list of events, first to last.
pub open spec fn flow_run(flow: Flow, events: Seq<FlowEvent>) -> Flow
    decreases events.len(),
{
    if events.len() == 0 {
        flow
    } else {
        flow_step(flow_run(flow, events.drop_last()), events.last())
    }
}

/// The flow of a screen fresh from `init_stored`, with the reading task
/// started.
pub open spec fn flow_start_stored() -> Flow {
    Flow { state: None, queued: Seq::empty(), running: 1 }
}

/// At most one thing is on its way, a running task or the state it handed in;
/// and while a task runs the screen holds a `Waiting` state, or none yet.
pub open spec fn single_flight(flow: Flow) -> bool {
    &&& flow.running + flow.queued.len() <= 1
    &&& flow.running == 1 ==> (flow.state matches Some(state) ==> state is Waiting)
}

/// Nothing is on its way: no task runs and no state is queued.
pub open spec fn at_rest(flow: Flow) -> bool {
    flow.running == 0 && flow.queued.len() == 0
}

/// The state that a task's last step hands in; none while the task goes on.
pub open spec fn handed_in(next: NextView<StateView>) -> Option<StateView> {
    match next {
        NextView::Done(r) => Some(settled(r)),
        _ => None,
    }
}

/// A job is started exactly for the two states that have work to do, and the
/// state that starts one becomes `Waiting` around itself; `Waiting`, manual
/// entry and the two terminal states start nothing and stay as they are.
pub proof fn lemma_advance_starts_at_most_once(state: StateView)
    ensures
        advanced(state).1 is Some <==> (state is DiscoveringBridge || state is RegisteringClient),
        advanced(state).1 != Some(JobView::ReadConfig),
        advanced(state).1 is Some ==> advanced(state).0 == StateView::Waiting(Box::new(state)),
        advanced(state).1 is None ==> advanced(state).0 == state,
        advanced(advanced(state).0).1 is None,
        advanced(advanced(state).0).0 == advanced(state).0,
{
}

/// The single-flight property holds at either start and is kept by every
/// event. The advance never asks for the reading of the settings.
pub proof fn lemma_single_flight_step(flow: Flow, event: FlowEvent)
    requires
        single_flight(flow),
    ensures
        single_flight(flow_start()),
        single_flight(flow_start_stored()),
        single_flight(flow_step(flow, event)),
{
}

/// Whatever happens to a flow in which at most one thing is on its way, in
/// whatever order, that stays so.
pub proof fn lemma_single_flight_is_kept(flow: Flow, events: Seq<FlowEvent>)
    requires
        single_flight(flow),
    ensures
        single_flight(flow_run(flow, events)),
        flow_run(flow, events).running <= 1,
    decreases events.len(),
{
    if events.len() > 0 {
        lemma_single_flight_is_kept(flow, events.drop_last());
        lemma_single_flight_step(flow_run(flow, events.drop_last()), events.last());
    }
}

/// Whatever happens to a screen after `init` or `init_stored`, in whatever
/// order, never more than one task is running, and none is while a state
/// waits to be taken in.
pub proof fn lemma_single_flight(events: Seq<FlowEvent>)
    ensures
        single_flight(flow_run(flow_start(), events)),
        flow_run(flow_start(), events).running <= 1,
        single_flight(flow_run(flow_start_stored(), events)),
        flow_run(flow_start_stored(), events).running <= 1,
{
    lemma_single_flight_step(flow_start(), FlowEvent::Tick);
    lemma_single_flight_is_kept(flow_start(), events);
    lemma_single_flight_is_kept(flow_start_stored(), events);
}

/// A flow at rest stays exactly as it is, whatever is tried on it: no state
/// changes and no task is ever started again.
pub proof fn lemma_rest_is_final(flow: Flow, events: Seq<FlowEvent>)
    requires
        at_rest(flow),
    ensures
        flow_run(flow, events) == flow,
    decreases events.len(),
{
    if events.len() > 0 {
        lemma_rest_is_final(flow, events.drop_last());
    }
}

/// A task that hands in a state which has no work to do ends the flow: the
/// next tick makes that state the state of the screen and starts nothing, and
/// from then on nothing changes again. Manual entry, `Failed` and `Complete`
/// are such states.
pub proof fn lemma_resting_state_ends_the_flow(flow: Flow, state: StateView, later: Seq<FlowEvent>)
    requires
        single_flight(flow),
        flow.running == 1,
        advanced(state).1 is None,
    ensures
        ({
            let shown = flow_step(flow_step(flow, FlowEvent::Resolved(state)), FlowEvent::Tick);
            &&& shown.state == Some(state)
            &&& at_rest(shown)
            &&& flow_run(shown, later) == shown
        }),
{
    let resolved = flow_step(flow, FlowEvent::Resolved(state));
    assert(resolved.queued =~= seq![state]);
    let shown = flow_step(resolved, FlowEvent::Tick);
    assert(shown.queued =~= Seq::<StateView>::empty());
    lemma_rest_is_final(shown, later);
}

/// Discovery that finds no bridge: the task hands in manual entry with no
/// attempt made and nothing typed; the next tick makes that the state of
/// the screen and starts no task; and from then on nothing changes again, so
/// the transition happens once and registration is never started.
pub proof fn lemma_no_bridge_leads_to_manual_entry(
    task: DiscoverBridgeTaskView,
    flow: Flow,
    later: Seq<FlowEvent>,
)
    requires
        single_flight(flow),
        flow.running == 1,
    ensures
        handed_in(discovery_resumed(task, ReplyView::Discovered(None)).next) == Some(
            StateView::ManualEntry { attempts: 0, current_entry: Seq::empty() },
        ),
        ({
            let entry = StateView::ManualEntry { attempts: 0, current_entry: Seq::empty() };
            let shown = flow_step(flow_step(flow, FlowEvent::Resolved(entry)), FlowEvent::Tick);
            &&& shown.state == Some(entry)
            &&& at_rest(shown)
            &&& flow_run(shown, later) == shown
        }),
{
    let entry = StateView::ManualEntry { attempts: 0, current_entry: Seq::empty() };
    lemma_resting_state_ends_the_flow(flow, entry, later);
}

/// Discovery that finds a bridge hands in `RegisteringClient` under the device
/// type that the task was made with; the advance of that state names a job
/// with the same device type and bridge.
pub proof fn lemma_found_bridge_leads_to_registration(
    task: DiscoverBridgeTaskView,
    bridge: UnauthBridge,
)
    ensures
        handed_in(discovery_resumed(task, ReplyView::Discovered(Some(bridge))).next) == Some(
            StateView::RegisteringClient { device_type: task.device_type, bridge },
        ),
        advanced(StateView::RegisteringClient { device_type: task.device_type, bridge }).1
            == Some(JobView::Register { device_type: task.device_type, bridge }),
{
}

/// Width of the panel in the middle of the pairing screen.
pub const PANEL_WIDTH: u16 = 72;

/// Height of the panel in the middle of the pairing screen.
pub const PANEL_HEIGHT: u16 = 20;

/// The border of the pairing screen.
#[derive(Debug, Copy, Clone, PartialEq, Eq, Structural)]
pub struct BridgeConnectWidget {
    pub border_animated: bool,
    pub ticks: u64,
}

impl BridgeConnectWidget {
    /// The border that this widget draws.
    pub fn border(&self) -> (border: RainbowBorderWidget)
        ensures
            border == (RainbowBorderWidget {
                edge_animated: self.border_animated,
                ticks: self.ticks,
            }),
    {
        RainbowBorderWidget { edge_animated: self.border_animated, ticks: self.ticks }
    }
}

/// What the pairing screen shows in its panel.
#[derive(Debug)]
pub enum Panel {
    /// Nothing: the workflow has no state yet.
    Empty,
    /// The frame for typing an address, under this title.
    Prompt { title: String },
    /// The log.
    Log,
}

/// A panel as plain values.
pub enum PanelView {
    Empty,
    Prompt { title: Seq<char> },
    Log,
}

impl View for Panel {
    type V = PanelView;

    open spec fn view(&self) -> PanelView {
        match self {
            Panel::Empty => PanelView::Empty,
            Panel::Prompt { title } => PanelView::Prompt { title: title@ },
            Panel::Log => PanelView::Log,
        }
    }
}

/// The title of the frame for typing an address, after `attempts` attempts.
pub open spec fn prompt_title(attempts: u32) -> Seq<char> {
    " oog! : "@ + decimal(attempts as nat) + " "@
}

/// The panel for a state: manual entry has the prompt, every other state the
/// log, and no state nothing.
pub open spec fn panel_of(state: Option<StateView>) -> PanelView {
    match state {
        None => PanelView::Empty,
        Some(StateView::ManualEntry { attempts, current_entry }) => PanelView::Prompt {
            title: prompt_title(attempts),
        },
        Some(_) => PanelView::Log,
    }
}

impl BridgeConnect {
    /// The border of the screen at a tick: it does not move.
    pub fn widget(&self, ticks: u64) -> (widget: BridgeConnectWidget)
        ensures
            widget == (BridgeConnectWidget { border_animated: false, ticks }),
    {
        BridgeConnectWidget { border_animated: false, ticks }
    }

    /// Where the panel goes on a screen of this size.
    pub fn panel_area(size: Rect) -> (area: Rect)
        ensures
            area == centered(size, PANEL_WIDTH, PANEL_HEIGHT),
    {
        center_rect(size, PANEL_WIDTH, PANEL_HEIGHT)
    }

    /// What the panel shows.
    pub fn panel(&self) -> (panel: Panel)
        ensures
            panel@ == panel_of(self.state_view()),
    {
        match &self.state {
            None => Panel::Empty,
            Some(State::ManualEntry { attempts, .. }) => {
                let mut title = " oog! : ".to_owned();
                push_decimal(&mut title, *attempts as usize);
                title.append(" ");
                Panel::Prompt { title }
            },
            Some(_) => Panel::Log,
        }
    }
}

} // verus!
