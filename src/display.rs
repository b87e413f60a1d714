//! The display state machine: which screen is shown, and the timed,
//! idempotent transitions between screens.
//!
//! Every method that may change the screen takes the current monotonic time
//! in microseconds and returns whether a transition happened, that is,
//! whether the renderer must clear the screen.

use vstd::prelude::*;
use crate::events::UserInputEvent;
use crate::motion::{sat_inc, MotionState};

verus! {

/// Orchestrator ticks in the error screen before it returns to the welcome
/// screen: 3 s at one tick per 50 ms.
pub const ERROR_TIMEOUT_TICKS: u32 = 60;

/// Time the dizziness screen must stay before it may be left: 3 s.
pub const MIN_DIZZINESS_DURATION_US: u64 = 3_000_000;

/// The orchestrator's tick period.
pub const TICK_PERIOD_MS: u32 = 50;

/// The screen shown.
#[derive(Clone, Debug)]
pub enum DisplayState {
    Welcome,
    /// The home screen.
    Main,
    Settings,
    Thinking,
    /// Shown while the device is shaken.
    Dizziness,
    /// Shown while the device is tilted.
    Tilting,
    /// A fault, with its message.
    Error(String),
}

/// [`DisplayState`] with the message as a sequence of characters.
pub enum DisplayStateView {
    Welcome,
    Main,
    Settings,
    Thinking,
    Dizziness,
    Tilting,
    Error(Seq<char>),
}

impl View for DisplayState {
    type V = DisplayStateView;

    open spec fn view(&self) -> DisplayStateView {
        match self {
            DisplayState::Welcome => DisplayStateView::Welcome,
            DisplayState::Main => DisplayStateView::Main,
            DisplayState::Settings => DisplayStateView::Settings,
            DisplayState::Thinking => DisplayStateView::Thinking,
            DisplayState::Dizziness => DisplayStateView::Dizziness,
            DisplayState::Tilting => DisplayStateView::Tilting,
            DisplayState::Error(m) => DisplayStateView::Error(m@),
        }
    }
}

impl PartialEq for DisplayState {
    fn eq(&self, other: &DisplayState) -> (r: bool)
        ensures
            r == (self@ == other@),
    {
        match (self, other) {
            (DisplayState::Welcome, DisplayState::Welcome) => true,
            (DisplayState::Main, DisplayState::Main) => true,
            (DisplayState::Settings, DisplayState::Settings) => true,
            (DisplayState::Thinking, DisplayState::Thinking) => true,
            (DisplayState::Dizziness, DisplayState::Dizziness) => true,
            (DisplayState::Tilting, DisplayState::Tilting) => true,
            (DisplayState::Error(a), DisplayState::Error(b)) => String::eq(a, b),
            _ => false,
        }
    }
}

impl vstd::std_specs::cmp::PartialEqSpecImpl for DisplayState {
    open spec fn obeys_eq_spec() -> bool {
        true
    }

    open spec fn eq_spec(&self, other: &DisplayState) -> bool {
        self@ == other@
    }
}

/// Microseconds from `since` to `now`; 0 if the clock reads earlier.
pub open spec fn elapsed_us(since: u64, now: u64) -> int {
    if now >= since {
        now - since
    } else {
        0
    }
}

/// The abstract state of a [`Display`]: the screen, the ticks since it was
/// entered, and the time it was entered.
pub struct DisplayView {
    pub state: DisplayStateView,
    pub ticks: u32,
    pub entered_at: u64,
}

impl DisplayView {
    /// Moves to `target`; moving to the current screen changes nothing (no
    /// reset of the tick count or entry time, no redraw).
    pub open spec fn goto(self, target: DisplayStateView, now: u64) -> DisplayView {
        if self.state == target {
            self
        } else {
            DisplayView { state: target, ticks: 0, entered_at: now }
        }
    }

    /// The dizziness screen has been shown for the minimum duration.
    pub open spec fn can_exit_dizziness(self, now: u64) -> bool {
        &&& self.state is Dizziness
        &&& elapsed_us(self.entered_at, now) >= MIN_DIZZINESS_DURATION_US
    }

    /// Leaves the dizziness screen for home once the minimum duration has passed.
    pub open spec fn exit_dizziness(self, now: u64) -> DisplayView {
        if self.can_exit_dizziness(now) {
            self.goto(DisplayStateView::Main, now)
        } else {
            self
        }
    }

    /// A motion event: any input leaves the welcome screen for home;
    /// shaking shows dizziness from home, settings or tilt; tilting shows
    /// tilt from home or settings; stillness returns home from tilt, and
    /// from dizziness once its minimum duration has passed.
    pub open spec fn on_motion(self, m: MotionState, now: u64) -> DisplayView {
        match self.state {
            DisplayStateView::Welcome => self.goto(DisplayStateView::Main, now),
            DisplayStateView::Main | DisplayStateView::Settings => match m {
                MotionState::Shaking => self.goto(DisplayStateView::Dizziness, now),
                MotionState::Tilting => self.goto(DisplayStateView::Tilting, now),
                MotionState::Still => self,
            },
            DisplayStateView::Tilting => match m {
                MotionState::Shaking => self.goto(DisplayStateView::Dizziness, now),
                MotionState::Still => self.goto(DisplayStateView::Main, now),
                MotionState::Tilting => self,
            },
            DisplayStateView::Dizziness => match m {
                MotionState::Still => self.exit_dizziness(now),
                _ => self,
            },
            _ => self,
        }
    }

    /// The user's "back": home from welcome, settings and tilt, and from
    /// dizziness once its minimum duration has passed.
    pub open spec fn on_back(self, now: u64) -> DisplayView {
        match self.state {
            DisplayStateView::Welcome => self.goto(DisplayStateView::Main, now),
            DisplayStateView::Settings => self.goto(DisplayStateView::Main, now),
            DisplayStateView::Tilting => self.goto(DisplayStateView::Main, now),
            DisplayStateView::Dizziness => self.exit_dizziness(now),
            _ => self,
        }
    }

    /// A user input: any input leaves the welcome screen; "settings" opens
    /// settings from home; "back" as in [`DisplayView::on_back`].
    pub open spec fn on_user_input(self, input: UserInputEvent, now: u64) -> DisplayView {
        if self.state is Welcome {
            self.goto(DisplayStateView::Main, now)
        } else {
            match input {
                UserInputEvent::Back => self.on_back(now),
                UserInputEvent::Settings => if self.state is Main {
                    self.goto(DisplayStateView::Settings, now)
                } else {
                    self
                },
                _ => self,
            }
        }
    }

    /// A fault: the error screen with `message`, from any screen.
    pub open spec fn on_fault(self, message: Seq<char>, now: u64) -> DisplayView {
        self.goto(DisplayStateView::Error(message), now)
    }

    /// One orchestrator tick: the tick count grows, and the error screen
    /// gives way to the welcome screen once it reaches the timeout.
    pub open spec fn tick(self, now: u64) -> DisplayView {
        let t = DisplayView { ticks: sat_inc(self.ticks), ..self };
        if self.state is Error && t.ticks >= ERROR_TIMEOUT_TICKS {
            t.goto(DisplayStateView::Welcome, now)
        } else {
            t
        }
    }
}

/// Phase of the thinking screen's dot cycle: a new phase every 10 ticks,
/// four phases.
pub open spec fn thinking_phase(ticks: u32) -> u32 {
    ((ticks / 10) % 4) as u32
}

/// Phase of the dizziness screen's caption: a new phase every 5 ticks,
/// three phases.
pub open spec fn dizziness_phase(ticks: u32) -> u32 {
    ((ticks / 5) % 3) as u32
}

/// The dots of the thinking screen after `ticks` ticks.
pub fn thinking_dots(ticks: u32) -> (r: &'static str)
    ensures
        r@ == match thinking_phase(ticks) {
            0u32 => "   "@,
            1u32 => ".  "@,
            2u32 => ".. "@,
            _ => "..."@,
        },
{
    match (ticks / 10) % 4 {
        0 => "   ",
        1 => ".  ",
        2 => ".. ",
        _ => "...",
    }
}

/// The caption of the dizziness screen after `ticks` ticks.
pub fn dizziness_caption(ticks: u32) -> (r: &'static str)
    ensures
        r@ == match dizziness_phase(ticks) {
            0u32 => "Shaking..."@,
            1u32 => "Spinning..."@,
            _ => "Feeling dizzy..."@,
        },
{
    match (ticks / 5) % 3 {
        0 => "Shaking...",
        1 => "Spinning...",
        _ => "Feeling dizzy...",
    }
}

/// Applies one tick per entry of `times`, in order.
pub open spec fn tick_run(v: DisplayView, times: Seq<u64>) -> DisplayView
    decreases times.len(),
{
    if times.len() == 0 {
        v
    } else {
        tick_run(v, times.drop_last()).tick(times.last())
    }
}

/// The display state machine.
pub struct Display {
    state: DisplayState,
    state_timer: u32,
    entered_at: u64,
}

impl View for Display {
    type V = DisplayView;

    closed spec fn view(&self) -> DisplayView {
        DisplayView { state: self.state@, ticks: self.state_timer, entered_at: self.entered_at }
    }
}

impl Display {
    /// A display on the home screen, entered at `now`.
    pub fn new(now: u64) -> (r: Display)
        ensures
            r@ == (DisplayView { state: DisplayStateView::Main, ticks: 0, entered_at: now }),
    {
        Display { state: DisplayState::Main, state_timer: 0, entered_at: now }
    }

    /// One orchestrator tick; returns whether the screen changed.
    pub fn update(&mut self, now: u64) -> (r: bool)
        ensures
            final(self)@ == old(self)@.tick(now),
            r == (final(self)@.state != old(self)@.state),
    {
        if self.state_timer < u32::MAX {
            self.state_timer = self.state_timer + 1;
        }
        let is_error = match &self.state {
            DisplayState::Error(_) => true,
            _ => false,
        };
        if is_error && self.state_timer >= ERROR_TIMEOUT_TICKS {
            self.transition_to(DisplayState::Welcome, now)
        } else {
            false
        }
    }

    /// The user's "back" input; returns whether the screen changed.
    pub fn back(&mut self, now: u64) -> (r: bool)
        ensures
            final(self)@ == old(self)@.on_back(now),
            r == (final(self)@.state != old(self)@.state),
    {
        match &self.state {
            DisplayState::Welcome => self.enter_main(now),
            DisplayState::Settings => self.enter_main(now),
            DisplayState::Tilting => self.enter_main(now),
            DisplayState::Dizziness => self.exit_diszziness(now),
            _ => false,
        }
    }

    /// A user input; returns whether the screen changed.
    pub fn on_user_input(&mut self, input: UserInputEvent, now: u64) -> (r: bool)
        ensures
            final(self)@ == old(self)@.on_user_input(input, now),
            r == (final(self)@.state != old(self)@.state),
    {
        let is_welcome = match &self.state {
            DisplayState::Welcome => true,
            _ => false,
        };
        if is_welcome {
            return self.enter_main(now);
        }
        match input {
            UserInputEvent::Back => self.back(now),
            UserInputEvent::Settings => {
                let is_main = match &self.state {
                    DisplayState::Main => true,
                    _ => false,
                };
                if is_main {
                    self.enter_settings(now)
                } else {
                    false
                }
            },
            _ => false,
        }
    }

    /// Moves to `new_state`, resetting the tick count and entry time, unless
    /// it is the current screen; returns whether it moved.
    fn transition_to(&mut self, new_state: DisplayState, now: u64) -> (r: bool)
        ensures
            final(self)@ == old(self)@.goto(new_state@, now),
            r == (old(self)@.state != new_state@),
    {
        if self.state == new_state {
            return false;
        }
        self.state = new_state;
        self.state_timer = 0;
        self.entered_at = now;
        true
    }

    /// The screen shown.
    pub fn get_state(&self) -> (r: &DisplayState)
        ensures
            r@ == self@.state,
    {
        &self.state
    }

    /// Orchestrator ticks since the screen was entered.
    pub fn ticks_since_entry(&self) -> (r: u32)
        ensures
            r == self@.ticks,
    {
        self.state_timer
    }

    /// When the screen was entered, in microseconds.
    pub fn entered_at(&self) -> (r: u64)
        ensures
            r == self@.entered_at,
    {
        self.entered_at
    }

    pub fn enter_welcome(&mut self, now: u64) -> (r: bool)
        ensures
            final(self)@ == old(self)@.goto(DisplayStateView::Welcome, now),
            r == (final(self)@.state != old(self)@.state),
    {
        self.transition_to(DisplayState::Welcome, now)
    }

    pub fn enter_main(&mut self, now: u64) -> (r: bool)
        ensures
            final(self)@ == old(self)@.goto(DisplayStateView::Main, now),
            r == (final(self)@.state != old(self)@.state),
    {
        self.transition_to(DisplayState::Main, now)
    }

    pub fn enter_settings(&mut self, now: u64) -> (r: bool)
        ensures
            final(self)@ == old(self)@.goto(DisplayStateView::Settings, now),
            r == (final(self)@.state != old(self)@.state),
    {
        self.transition_to(DisplayState::Settings, now)
    }

    pub fn enter_thinking(&mut self, now: u64) -> (r: bool)
        ensures
            final(self)@ == old(self)@.goto(DisplayStateView::Thinking, now),
            r == (final(self)@.state != old(self)@.state),
    {
        self.transition_to(DisplayState::Thinking, now)
    }

    /// Shows the dizziness screen; already there, nothing changes, so the
    /// minimum-duration clock keeps running from the first entry.
    pub fn enter_dizziness(&mut self, now: u64) -> (r: bool)
        ensures
            final(self)@ == old(self)@.goto(DisplayStateView::Dizziness, now),
            r == (final(self)@.state != old(self)@.state),
    {
        self.transition_to(DisplayState::Dizziness, now)
    }

    /// Shows the tilt screen, except over the dizziness screen, which takes
    /// priority.
    pub fn enter_tilting(&mut self, now: u64) -> (r: bool)
        ensures
            final(self)@ == if old(self)@.state is Dizziness {
                old(self)@
            } else {
                old(self)@.goto(DisplayStateView::Tilting, now)
            },
            r == (final(self)@.state != old(self)@.state),
    {
        let is_dizzy = match &self.state {
            DisplayState::Dizziness => true,
            _ => false,
        };
        if is_dizzy {
            return false;
        }
        self.transition_to(DisplayState::Tilting, now)
    }

    /// Shows the error screen with `error_msg`, from any screen.
    pub fn enter_error(&mut self, error_msg: String, now: u64) -> (r: bool)
        ensures
            final(self)@ == old(self)@.on_fault(error_msg@, now),
            final(self)@.state == DisplayStateView::Error(error_msg@),
            r == (final(self)@.state != old(self)@.state),
    {
        self.transition_to(DisplayState::Error(error_msg), now)
    }

    /// Whether the dizziness screen is shown and has been for the minimum
    /// duration.
    pub fn can_exit_dizziness(&self, now: u64) -> (r: bool)
        ensures
            r == self@.can_exit_dizziness(now),
    {
        let is_dizzy = match &self.state {
            DisplayState::Dizziness => true,
            _ => false,
        };
        if !is_dizzy {
            return false;
        }
        let elapsed = now.saturating_sub(self.entered_at);
        elapsed >= MIN_DIZZINESS_DURATION_US
    }

    /// Leaves the dizziness screen for home if the minimum duration has
    /// passed; otherwise nothing changes.
    pub fn exit_diszziness(&mut self, now: u64) -> (r: bool)
        ensures
            final(self)@ == old(self)@.exit_dizziness(now),
            r == (final(self)@.state != old(self)@.state),
    {
        if self.can_exit_dizziness(now) {
            self.enter_main(now)
        } else {
            false
        }
    }

    /// A motion event from the classifier; returns whether the screen changed.
    pub fn on_motion(&mut self, state: MotionState, now: u64) -> (r: bool)
        ensures
            final(self)@ == old(self)@.on_motion(state, now),
            r == (final(self)@.state != old(self)@.state),
    {
        match &self.state {
            DisplayState::Welcome => self.enter_main(now),
            DisplayState::Main | DisplayState::Settings => match state {
                MotionState::Shaking => self.enter_dizziness(now),
                MotionState::Tilting => self.enter_tilting(now),
                MotionState::Still => false,
            },
            DisplayState::Tilting => match state {
                MotionState::Shaking => self.enter_dizziness(now),
                MotionState::Still => self.enter_main(now),
                MotionState::Tilting => false,
            },
            DisplayState::Dizziness => match state {
                MotionState::Still => self.exit_diszziness(now),
                _ => false,
            },
            _ => false,
        }
    }
}


/// A fault shows the error screen with its message, whatever was shown.
pub proof fn lemma_fault_always_shows_error(v: DisplayView, message: Seq<char>, now: u64)
    ensures
        v.on_fault(message, now).state == DisplayStateView::Error(message),
{
}

/// A freshly entered error screen stays, untouched but for its tick count,
/// through fewer than `ERROR_TIMEOUT_TICKS` ticks, and gives way to the
/// welcome screen on exactly the `ERROR_TIMEOUT_TICKS`-th.
pub proof fn lemma_error_recovers_on_timeout(v: DisplayView, times: Seq<u64>)
    requires
        v.state is Error,
        v.ticks == 0,
        times.len() <= ERROR_TIMEOUT_TICKS,
    ensures
        times.len() < ERROR_TIMEOUT_TICKS ==> tick_run(v, times) == (DisplayView {
            ticks: times.len() as u32,
            ..v
        }),
        times.len() == ERROR_TIMEOUT_TICKS ==> tick_run(v, times).state
            == DisplayStateView::Welcome,
    decreases times.len(),
{
    if times.len() > 0 {
        lemma_error_recovers_on_timeout(v, times.drop_last());
    }
}

/// On the dizziness screen, stillness or "back" leaves for home exactly
/// when the minimum duration has passed since entry, and shaking or tilting
/// never leave it.
pub proof fn lemma_dizziness_min_dwell(v: DisplayView, now: u64)
    requires
        v.state is Dizziness,
    ensures
        v.on_motion(MotionState::Still, now).state == if elapsed_us(v.entered_at, now)
            >= MIN_DIZZINESS_DURATION_US {
            DisplayStateView::Main
        } else {
            DisplayStateView::Dizziness
        },
        v.on_back(now).state == v.on_motion(MotionState::Still, now).state,
        elapsed_us(v.entered_at, now) < MIN_DIZZINESS_DURATION_US ==> v.on_motion(
            MotionState::Still,
            now,
        ) == v,
        v.on_motion(MotionState::Shaking, now) == v,
        v.on_motion(MotionState::Tilting, now) == v,
{
}

/// Entering the screen already shown changes nothing, neither the tick
/// count nor the entry time: tilt while tilted, shaking while dizzy, the
/// same fault while its error is shown, or any direct move.
pub proof fn lemma_reentry_is_noop(v: DisplayView, now: u64)
    ensures
        v.goto(v.state, now) == v,
        v.state is Tilting ==> v.on_motion(MotionState::Tilting, now) == v,
        v.state is Dizziness ==> v.on_motion(MotionState::Shaking, now) == v,
        v.state matches DisplayStateView::Error(m) ==> v.on_fault(m, now) == v,
{
}

/// Shaking from home, settings or tilt at `t0` shows dizziness; stillness
/// one tick later leaves it untouched; stillness once the minimum duration
/// has passed (60 ticks of 50 ms) returns home with a fresh tick count.
pub proof fn lemma_dizziness_dwell_scenario(v: DisplayView, t0: u64)
    requires
        v.state is Main || v.state is Settings || v.state is Tilting,
        t0 + MIN_DIZZINESS_DURATION_US <= u64::MAX,
    ensures
        ({
            let d = v.on_motion(MotionState::Shaking, t0);
            &&& d.state is Dizziness
            &&& d.entered_at == t0
            &&& d.on_motion(MotionState::Still, (t0 + TICK_PERIOD_MS * 1000) as u64) == d
            &&& d.on_motion(MotionState::Still, (t0 + MIN_DIZZINESS_DURATION_US) as u64) == (
            DisplayView {
                state: DisplayStateView::Main,
                ticks: 0,
                entered_at: (t0 + MIN_DIZZINESS_DURATION_US) as u64,
            })
        }),
        MIN_DIZZINESS_DURATION_US == 60 * TICK_PERIOD_MS * 1000,
{
}

} // verus!
