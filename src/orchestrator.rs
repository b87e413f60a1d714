//! The orchestrator: turns each event from the bus into a display
//! transition.

use vstd::prelude::*;
use vstd::string::StringExecFns;
use crate::display::{Display, DisplayView};
use crate::events::{AppEvent, SystemEvent, TimerEvent};
use crate::text::join;
use crate::wifi::WifiEvent;

verus! {

/// Messages shown for system faults and network failures.
pub const LOW_BATTERY: &'static str = "电量不足";
pub const LOW_MEMORY: &'static str = "内存不足";
pub const HARDWARE_ERROR: &'static str = "硬件错误: ";
pub const NETWORK_ERROR: &'static str = "WiFi连接失败: ";

/// The error message a system event raises, if any.
pub open spec fn system_fault_message(e: SystemEvent) -> Option<Seq<char>> {
    match e {
        SystemEvent::LowBattery => Some(LOW_BATTERY@),
        SystemEvent::LowMemory => Some(LOW_MEMORY@),
        SystemEvent::HardwareError(detail) => Some(HARDWARE_ERROR@ + detail@),
        SystemEvent::Shutdown => None,
    }
}

/// The error message a network event raises, if any: only a failed
/// connection does.
pub open spec fn wifi_fault_message(e: WifiEvent) -> Option<Seq<char>> {
    match e {
        WifiEvent::ConnectionFailed(detail) => Some(NETWORK_ERROR@ + detail@),
        _ => None,
    }
}

/// The display after one event: motion and user input drive the screens,
/// a main-loop timer ticks, and faults show the error screen.
pub open spec fn on_event(v: DisplayView, e: AppEvent, now: u64) -> DisplayView {
    match e {
        AppEvent::Motion(m) => v.on_motion(m, now),
        AppEvent::UserInput(i) => v.on_user_input(i, now),
        AppEvent::Timer(t) => match t {
            TimerEvent::MainLoop => v.tick(now),
            _ => v,
        },
        AppEvent::Wifi(w) => match wifi_fault_message(w) {
            Some(m) => v.on_fault(m, now),
            None => v,
        },
        AppEvent::System(s) => match system_fault_message(s) {
            Some(m) => v.on_fault(m, now),
            None => v,
        },
    }
}

/// The orchestrator's state: the display it drives.
pub struct App {
    display: Display,
}

impl View for App {
    type V = DisplayView;

    closed spec fn view(&self) -> DisplayView {
        self.display@
    }
}

impl App {
    pub fn new(display: Display) -> (r: App)
        ensures
            r@ == display@,
    {
        App { display }
    }

    pub fn display(&self) -> (r: &Display)
        ensures
            r@ == self@,
    {
        &self.display
    }

    /// Handles one event at `now`; returns whether the screen changed, so
    /// the renderer must clear it.
    pub fn handle_event(&mut self, event: AppEvent, now: u64) -> (r: bool)
        ensures
            final(self)@ == on_event(old(self)@, event, now),
            r == (final(self)@.state != old(self)@.state),
    {
        match event {
            AppEvent::Motion(m) => self.handle_motion(m, now),
            AppEvent::UserInput(i) => self.display.on_user_input(i, now),
            AppEvent::Timer(t) => match t {
                TimerEvent::MainLoop => self.display.update(now),
                _ => false,
            },
            AppEvent::Wifi(w) => self.handle_wifi(w, now),
            AppEvent::System(s) => self.handle_system(s, now),
        }
    }

    /// One orchestrator tick.
    pub fn update(&mut self, now: u64) -> (r: bool)
        ensures
            final(self)@ == old(self)@.tick(now),
            r == (final(self)@.state != old(self)@.state),
    {
        self.display.update(now)
    }

    fn handle_motion(&mut self, motion_state: crate::motion::MotionState, now: u64) -> (r: bool)
        ensures
            final(self)@ == old(self)@.on_motion(motion_state, now),
            r == (final(self)@.state != old(self)@.state),
    {
        self.display.on_motion(motion_state, now)
    }

    fn handle_wifi(&mut self, wifi_event: WifiEvent, now: u64) -> (r: bool)
        ensures
            final(self)@ == match wifi_fault_message(wifi_event) {
                Some(m) => old(self)@.on_fault(m, now),
                None => old(self)@,
            },
            r == (final(self)@.state != old(self)@.state),
    {
        match wifi_event {
            WifiEvent::ConnectionFailed(error) => {
                let message = join(NETWORK_ERROR, error.as_str());
                self.display.enter_error(message, now)
            },
            _ => false,
        }
    }

    fn handle_system(&mut self, system_event: SystemEvent, now: u64) -> (r: bool)
        ensures
            final(self)@ == match system_fault_message(system_event) {
                Some(m) => old(self)@.on_fault(m, now),
                None => old(self)@,
            },
            r == (final(self)@.state != old(self)@.state),
    {
        match system_event {
            SystemEvent::LowBattery => self.display.enter_error(String::from_str(LOW_BATTERY), now),
            SystemEvent::LowMemory => self.display.enter_error(String::from_str(LOW_MEMORY), now),
            SystemEvent::HardwareError(error) => {
                let message = join(HARDWARE_ERROR, error.as_str());
                self.display.enter_error(message, now)
            },
            SystemEvent::Shutdown => false,
        }
    }
}

} // verus!
