//! Pairing wizard for a networked lighting bridge: the workflow state machine,
//! the steps of its background tasks and the event log they report to.

pub mod activities;
pub mod channel;
pub mod config;
pub mod random;
pub mod tasks;
pub mod text;
pub mod widgets;

use crossbeam_channel::{Receiver, Sender};
use vstd::prelude::*;

use crate::activities::bridge_connect::{job_view, screen_ticked, BridgeConnect, Job};
use crate::channel::{another_sender, open_channel, try_receive};

verus! {

/// What the whole program keeps from tick to tick.
#[derive(Debug, Copy, Clone, PartialEq, Eq, Structural)]
pub struct GlobalState {
    pub ticks: u64,
    pub should_stop: bool,
    pub edge_animated: bool,
}

/// What a screen may ask of the program.
#[derive(Debug, Copy, Clone, PartialEq, Eq, Structural)]
pub enum AppMsg {
    /// Go on to the next screen.
    Next,
}

/// What the user did since the last tick, as far as the program cares.
#[derive(Debug, Copy, Clone, PartialEq, Eq, Structural)]
pub enum Input {
    /// The escape key: leave the program.
    Escape,
    /// Anything else.
    Other,
}

/// The number of screens that the setup begins with.
pub const SETUP_SCREENS: usize = 3;

/// What the program is doing, with the screens still to come, next first.
pub enum Mode {
    Setup { activities: Vec<BridgeConnect> },
}

impl Mode {
    /// The screens still to come, next first.
    pub open spec fn upcoming(self) -> Seq<BridgeConnect> {
        match self {
            Mode::Setup { activities } => activities@,
        }
    }

    /// The setup, with its three pairing screens, each fresh from `init`.
    pub fn init_setup() -> (mode: Mode)
        ensures
            mode.upcoming().len() == SETUP_SCREENS,
            forall|i: int|
                0 <= i < mode.upcoming().len() ==> (#[trigger] mode.upcoming()[i]).is_fresh(),
    {
        let mut activities: Vec<BridgeConnect> = Vec::new();
        activities.push(BridgeConnect::init());
        activities.push(BridgeConnect::init());
        activities.push(BridgeConnect::init());
        Mode::Setup { activities }
    }
}

/// The program between two redraws: the screen that is up, the screens to
/// come, and the channel on which screens ask for the next one.
pub struct TwitchBrite {
    activity: BridgeConnect,
    state: GlobalState,
    channel: (Sender<AppMsg>, Receiver<AppMsg>),
    mode: Mode,
}

/// What `Next` makes of the screen that is up and those to come: the first of
/// those to come is up and leaves the queue; with none to come nothing
/// changes.
pub open spec fn after_next(current: BridgeConnect, upcoming: Seq<BridgeConnect>) -> (
    BridgeConnect,
    Seq<BridgeConnect>,
) {
    if upcoming.len() > 0 {
        (upcoming[0], upcoming.drop_first())
    } else {
        (current, upcoming)
    }
}

/// Whether `current` and `upcoming` can come of one tick of the program in
/// which the screen that was up became `ticked` and `msg` was taken from the
/// channel.
pub open spec fn program_ticked(
    ticked: BridgeConnect,
    msg: Option<AppMsg>,
    before: Seq<BridgeConnect>,
    current: BridgeConnect,
    upcoming: Seq<BridgeConnect>,
) -> bool {
    (current, upcoming) == match msg {
        Some(AppMsg::Next) => after_next(ticked, before),
        None => (ticked, before),
    }
}

impl TwitchBrite {
    /// The screen that is up.
    pub closed spec fn current(&self) -> BridgeConnect {
        self.activity
    }

    /// The screens to come, next first.
    pub closed spec fn upcoming(&self) -> Seq<BridgeConnect> {
        self.mode.upcoming()
    }

    pub closed spec fn global(&self) -> GlobalState {
        self.state
    }

    /// Whether the program can have another tick: neither its own count of
    /// ticks nor that of the screen that is up has reached the largest number
    /// it can hold.
    pub open spec fn can_tick(&self) -> bool {
        self.global().ticks < u64::MAX && self.current().can_tick()
    }

    /// The program at its start: tick zero, not stopping, the edge animated,
    /// the first screen of the setup up and the other two to come.
    pub fn new() -> (app: Self)
        ensures
            app.global() == (GlobalState { ticks: 0, should_stop: false, edge_animated: true }),
            app.current().is_fresh(),
            app.upcoming().len() == SETUP_SCREENS - 1,
            forall|i: int|
                0 <= i < app.upcoming().len() ==> (#[trigger] app.upcoming()[i]).is_fresh(),
            app.can_tick(),
    {
        let channel = open_channel();
        let mode = Mode::init_setup();
        let mut activities = match mode {
            Mode::Setup { activities } => activities,
        };
        let activity = activities.remove(0);
        TwitchBrite {
            activity,
            state: GlobalState { ticks: 0, should_stop: false, edge_animated: true },
            channel,
            mode: Mode::Setup { activities },
        }
    }

    /// The sending end of the channel on which screens ask for the next.
    pub closed spec fn sender_view(&self) -> Sender<AppMsg> {
        self.channel.0
    }

    /// Another sending end of the channel on which screens ask for the next.
    pub fn sender(&self) -> (tx: Sender<AppMsg>)
        ensures
            tx == self.sender_view(),
    {
        another_sender(&self.channel.0)
    }

    pub fn ready(&self) -> (ready: bool)
        ensures
            ready == self.can_tick(),
    {
        self.state.ticks < u64::MAX && self.activity.ready()
    }

    pub fn state(&self) -> (state: GlobalState)
        ensures
            state == self.global(),
    {
        self.state
    }

    pub fn should_stop(&self) -> (stop: bool)
        ensures
            stop == self.global().should_stop,
    {
        self.state.should_stop
    }

    pub fn activity(&self) -> (activity: &BridgeConnect)
        ensures
            *activity == self.current(),
    {
        &self.activity
    }

    /// Takes in what the user did: escape asks the program to stop, anything
    /// else changes nothing.
    pub fn deliver(&mut self, input: Input)
        ensures
            final(self).global() == (GlobalState {
                should_stop: old(self).global().should_stop || input == Input::Escape,
                ..old(self).global()
            }),
            final(self).current() == old(self).current(),
            final(self).upcoming() == old(self).upcoming(),
            final(self).sender_view() == old(self).sender_view(),
    {
        match input {
            Input::Escape => {
                self.state.should_stop = true;
            },
            Input::Other => {},
        }
    }

    /// Acts on a message from a screen.
    pub fn handle_message(&mut self, msg: AppMsg)
        ensures
            (final(self).current(), final(self).upcoming()) == after_next(
                old(self).current(),
                old(self).upcoming(),
            ),
            final(self).global() == old(self).global(),
            final(self).sender_view() == old(self).sender_view(),
    {
        match msg {
            AppMsg::Next => {
                match &mut self.mode {
                    Mode::Setup { activities } => {
                        if activities.len() > 0 {
                            self.activity = activities.remove(0);
                        }
                    },
                }
            },
        }
    }

    /// One tick of the program: the count goes up by one, the screen that is
    /// up has its tick, and then at most one message is taken from the
    /// channel, without waiting, and acted on. The job returned, if any, was
    /// asked for by the screen that was up and is to be started by the caller.
    pub fn update(&mut self) -> (job: Option<Job>)
        requires
            old(self).can_tick(),
        ensures
            final(self).global() == (GlobalState {
                ticks: (old(self).global().ticks + 1) as u64,
                ..old(self).global()
            }),
            exists|ticked: BridgeConnect, msg: Option<AppMsg>|
                screen_ticked(old(self).current(), ticked, job_view(job))
                    && #[trigger] program_ticked(
                    ticked,
                    msg,
                    old(self).upcoming(),
                    final(self).current(),
                    final(self).upcoming(),
                ),
            final(self).sender_view() == old(self).sender_view(),
    {
        self.state.ticks = self.state.ticks + 1;
        let job = self.activity.update(self.state.ticks);
        let ghost ticked = self.activity;
        let received = try_receive(&self.channel.1);
        match received {
            Some(msg) => {
                self.handle_message(msg);
            },
            None => {},
        }
        assert(program_ticked(
            ticked,
            received,
            old(self).upcoming(),
            self.current(),
            self.upcoming(),
        ));
        job
    }
}

} // verus!
