//! The events that actors publish and the orchestrator consumes.

use vstd::prelude::*;
use crate::channel::{self, ChannelError, ChannelReceiver, ChannelSender};
use crate::motion::MotionState;
use crate::wifi::WifiEvent;

verus! {

/// Input from the user.
#[derive(Clone, Copy, Debug, PartialEq, Eq, Structural)]
pub enum UserInputEvent {
    ButtonPress,
    Confirm,
    Cancel,
    Settings,
    Back,
}

/// Periodic timer events.
#[derive(Clone, Copy, Debug, PartialEq, Eq, Structural)]
pub enum TimerEvent {
    /// One orchestrator tick.
    MainLoop,
    StateTimeout,
    AnimationFrame,
}

/// System-level conditions.
#[derive(Clone, Debug)]
pub enum SystemEvent {
    LowBattery,
    LowMemory,
    HardwareError(String),
    Shutdown,
}

/// One event on the bus, moved from the actor that observed it to the
/// orchestrator.
#[derive(Clone, Debug)]
pub enum AppEvent {
    Motion(MotionState),
    Wifi(WifiEvent),
    UserInput(UserInputEvent),
    Timer(TimerEvent),
    System(SystemEvent),
}

/// The producing end of the bus; each actor holds its own clone.
pub type EventSender = ChannelSender<AppEvent>;

/// The consuming end of the bus, owned by the orchestrator alone.
pub type EventReceiver = ChannelReceiver<AppEvent>;

/// The event bus: any number of senders, one receiver. The receiver is
/// never cloned; the bus hands out senders only.
pub struct EventBus {
    sender: EventSender,
    receiver: EventReceiver,
}

impl EventBus {
    /// The channel the bus hands out senders into.
    pub closed spec fn sender_channel(&self) -> int {
        self.sender.channel_id()
    }

    /// The channel the bus receives from.
    pub closed spec fn receiver_channel(&self) -> int {
        self.receiver.channel_id()
    }

    /// A bus whose senders and receiver are the two ends of one channel.
    pub fn new() -> (r: EventBus)
        ensures
            r.sender_channel() == r.receiver_channel(),
    {
        let (sender, receiver) = channel::channel();
        EventBus { sender, receiver }
    }

    /// A new sender into the bus, with nothing sent yet.
    pub fn get_sender(&self) -> (r: EventSender)
        ensures
            r.channel_id() == self.sender_channel(),
            r.log() == Seq::<AppEvent>::empty(),
    {
        channel::clone_sender(&self.sender)
    }

    /// The next waiting event, without blocking.
    pub fn try_recv(&self) -> (r: Result<AppEvent, ChannelError>)
        ensures
            r matches Err(e) ==> e is Empty || e is Disconnected,
    {
        channel::try_recv(&self.receiver)
    }

    /// The next event, waiting for one.
    pub fn recv(&self) -> (r: Result<AppEvent, ChannelError>)
        ensures
            r matches Err(e) ==> e is Disconnected,
    {
        channel::recv(&self.receiver)
    }
}

/// Publishes a motion state on `sender`; a failed send returns the event.
pub fn send_motion_event(sender: &mut EventSender, motion_state: MotionState) -> (r: Result<(), AppEvent>)
    ensures
        final(sender).channel_id() == old(sender).channel_id(),
        final(sender).log() == old(sender).log().push(AppEvent::Motion(motion_state)),
        r matches Err(e) ==> e == AppEvent::Motion(motion_state),
{
    channel::send(sender, AppEvent::Motion(motion_state))
}

/// Publishes a network event on `sender`; a failed send returns the event.
pub fn send_wifi_event(sender: &mut EventSender, wifi_event: WifiEvent) -> (r: Result<(), AppEvent>)
    ensures
        final(sender).channel_id() == old(sender).channel_id(),
        final(sender).log() == old(sender).log().push(AppEvent::Wifi(wifi_event)),
        r matches Err(e) ==> e == AppEvent::Wifi(wifi_event),
{
    channel::send(sender, AppEvent::Wifi(wifi_event))
}

/// Publishes a user input on `sender`; a failed send returns the event.
pub fn send_user_input_event(sender: &mut EventSender, user_input: UserInputEvent) -> (r: Result<(), AppEvent>)
    ensures
        final(sender).channel_id() == old(sender).channel_id(),
        final(sender).log() == old(sender).log().push(AppEvent::UserInput(user_input)),
        r matches Err(e) ==> e == AppEvent::UserInput(user_input),
{
    channel::send(sender, AppEvent::UserInput(user_input))
}

/// Publishes a timer event on `sender`; a failed send returns the event.
pub fn send_timer_event(sender: &mut EventSender, timer_event: TimerEvent) -> (r: Result<(), AppEvent>)
    ensures
        final(sender).channel_id() == old(sender).channel_id(),
        final(sender).log() == old(sender).log().push(AppEvent::Timer(timer_event)),
        r matches Err(e) ==> e == AppEvent::Timer(timer_event),
{
    channel::send(sender, AppEvent::Timer(timer_event))
}

/// Publishes a system event on `sender`; a failed send returns the event.
pub fn send_system_event(sender: &mut EventSender, system_event: SystemEvent) -> (r: Result<(), AppEvent>)
    ensures
        final(sender).channel_id() == old(sender).channel_id(),
        final(sender).log() == old(sender).log().push(AppEvent::System(system_event)),
        r matches Err(e) ==> e == AppEvent::System(system_event),
{
    channel::send(sender, AppEvent::System(system_event))
}

} // verus!
