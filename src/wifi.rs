//! Network actor: its configuration, the commands it takes, the events it
//! publishes, and the decisions it makes around each network operation.
//!
//! The network operations themselves (connect, disconnect, scan, the
//! connectivity poll) are performed by the caller, which hands their outcome
//! to the matching method here and publishes the events it returns.

use vstd::prelude::*;
use vstd::string::StringExecFns;
use vstd::string::StrSliceExecFns;
use vstd::utf8::encode_utf8;
use crate::channel::{self, ChannelError, ChannelReceiver, ChannelSender};
use crate::text::join;

verus! {

/// Credentials and policy for joining a network.
#[derive(Clone, Debug)]
pub struct WifiConfig {
    pub ssid: String,
    pub password: String,
    pub auto_connect: bool,
}

/// Why a [`WifiConfig`] was refused.
#[derive(Clone, Copy, Debug, PartialEq, Eq, Structural)]
pub enum WifiConfigError {
    EmptySsid,
    /// The password's UTF-8 encoding is shorter than [`MIN_PASSWORD_LEN`] bytes.
    PasswordTooShort,
}

/// Shortest accepted password, in bytes of UTF-8.
pub const MIN_PASSWORD_LEN: usize = 8;

impl WifiConfig {
    /// A configuration that connects automatically.
    pub fn new(ssid: &str, password: &str) -> (r: WifiConfig)
        ensures
            r.ssid@ == ssid@,
            r.password@ == password@,
            r.auto_connect,
    {
        WifiConfig { ssid: String::from_str(ssid), password: String::from_str(password), auto_connect: true }
    }

    /// Refuses an empty SSID, then a password shorter than eight bytes.
    pub fn validate(&self) -> (r: Result<(), WifiConfigError>)
        ensures
            r == if self.ssid@.len() == 0 {
                Err(WifiConfigError::EmptySsid)
            } else if (encode_utf8(self.password@).len() as usize) < MIN_PASSWORD_LEN {
                Err(WifiConfigError::PasswordTooShort)
            } else {
                Ok::<(), WifiConfigError>(())
            },
    {
        if self.ssid.as_str().unicode_len() == 0 {
            return Err(WifiConfigError::EmptySsid);
        }
        let password = self.password.as_str();
        let bytes = password.len();
        if bytes < MIN_PASSWORD_LEN {
            return Err(WifiConfigError::PasswordTooShort);
        }
        Ok(())
    }
}

/// The SSID and password alone.
#[derive(Clone, Debug)]
pub struct WifiCredentials {
    pub ssid: String,
    pub password: String,
}

impl WifiCredentials {
    pub fn new(ssid: &str, password: &str) -> (r: WifiCredentials)
        ensures
            r.ssid@ == ssid@,
            r.password@ == password@,
    {
        WifiCredentials { ssid: String::from_str(ssid), password: String::from_str(password) }
    }
}

impl From<WifiConfig> for WifiCredentials {
    fn from(config: WifiConfig) -> (r: WifiCredentials)
        ensures
            r.ssid == config.ssid,
            r.password == config.password,
    {
        WifiCredentials { ssid: config.ssid, password: config.password }
    }
}

impl vstd::std_specs::convert::FromSpecImpl<WifiConfig> for WifiCredentials {
    open spec fn obeys_from_spec() -> bool {
        true
    }

    open spec fn from_spec(config: WifiConfig) -> WifiCredentials {
        WifiCredentials { ssid: config.ssid, password: config.password }
    }
}

/// A request to the network actor; each yields events ending in a status.
#[derive(Clone, Debug)]
pub enum WifiCommand {
    Connect(WifiConfig),
    Disconnect,
    GetStatus,
    Scan,
}

/// The network actor's connection status.
#[derive(Clone, Debug)]
pub enum WifiStatus {
    Connected,
    Disconnected,
    Connecting,
    Scanning,
    Error(String),
}

impl WifiStatus {
    /// A copy of this status.
    pub fn duplicate(&self) -> (r: WifiStatus)
        ensures
            r == *self,
    {
        match self {
            WifiStatus::Connected => WifiStatus::Connected,
            WifiStatus::Disconnected => WifiStatus::Disconnected,
            WifiStatus::Connecting => WifiStatus::Connecting,
            WifiStatus::Scanning => WifiStatus::Scanning,
            WifiStatus::Error(m) => WifiStatus::Error(m.clone()),
        }
    }
}

/// What the network actor publishes.
#[derive(Clone, Debug)]
pub enum WifiEvent {
    /// Connected, with the address obtained.
    Connected(String),
    Disconnected,
    ConnectionFailed(String),
    StatusUpdate(WifiStatus),
    /// The names of the networks found.
    ScanResult(Vec<String>),
}

/// Reported as the address when it could not be read after connecting.
pub const UNKNOWN_IP: &'static str = "Unknown IP";

/// Prefixes of the messages the actor builds from a failure.
pub const CONNECT_FAILED: &'static str = "WiFi connection failed: ";
pub const DISCONNECT_FAILED: &'static str = "WiFi disconnect failed: ";
pub const SCAN_FAILED: &'static str = "WiFi scan failed: ";

/// The status that a connectivity reading stands for.
pub open spec fn link_status(is_connected: bool) -> WifiStatus {
    if is_connected {
        WifiStatus::Connected
    } else {
        WifiStatus::Disconnected
    }
}

/// The network actor's decisions; its one piece of state is the status.
pub struct WifiActor {
    current_status: WifiStatus,
}

impl WifiActor {
    /// An actor that is not connected.
    pub fn new() -> (r: WifiActor)
        ensures
            r.status() is Disconnected,
    {
        WifiActor { current_status: WifiStatus::Disconnected }
    }

    pub closed spec fn status(&self) -> WifiStatus {
        self.current_status
    }

    pub fn current_status(&self) -> (r: &WifiStatus)
        ensures
            *r == self.status(),
    {
        &self.current_status
    }

    /// Before a connection attempt: the status becomes `Connecting`, and so
    /// is announced.
    pub fn begin_connect(&mut self) -> (r: Vec<WifiEvent>)
        ensures
            final(self).status() is Connecting,
            r@ == seq![WifiEvent::StatusUpdate(WifiStatus::Connecting)],
    {
        self.current_status = WifiStatus::Connecting;
        let mut events: Vec<WifiEvent> = Vec::new();
        events.push(WifiEvent::StatusUpdate(WifiStatus::Connecting));
        events
    }

    /// After a connection attempt. On success (`Ok` with the address, if it
    /// could be read) the status becomes `Connected` and the address, or
    /// "Unknown IP", is published before the status. On failure the status
    /// becomes an error with the prefixed message, and the failure is
    /// published, then `Disconnected`.
    pub fn finish_connect(&mut self, outcome: Result<Option<String>, String>) -> (r: Vec<WifiEvent>)
        ensures
            r.len() == 2,
            match outcome {
                Ok(ip) => {
                    &&& final(self).status() is Connected
                    &&& r@[0] matches WifiEvent::Connected(a) && a@ == match ip {
                        Some(s) => s@,
                        None => UNKNOWN_IP@,
                    }
                    &&& r@[1] == WifiEvent::StatusUpdate(WifiStatus::Connected)
                },
                Err(e) => {
                    &&& final(self).status() matches WifiStatus::Error(m) && m@ == CONNECT_FAILED@
                        + e@
                    &&& r@[0] matches WifiEvent::ConnectionFailed(m) && m@ == CONNECT_FAILED@ + e@
                    &&& r@[1] == WifiEvent::StatusUpdate(WifiStatus::Disconnected)
                },
            },
    {
        let mut events: Vec<WifiEvent> = Vec::new();
        match outcome {
            Ok(ip) => {
                self.current_status = WifiStatus::Connected;
                let address = match ip {
                    Some(s) => s,
                    None => String::from_str(UNKNOWN_IP),
                };
                events.push(WifiEvent::Connected(address));
                events.push(WifiEvent::StatusUpdate(WifiStatus::Connected));
            },
            Err(e) => {
                let message = join(CONNECT_FAILED, e.as_str());
                self.current_status = WifiStatus::Error(join(CONNECT_FAILED, e.as_str()));
                events.push(WifiEvent::ConnectionFailed(message));
                events.push(WifiEvent::StatusUpdate(WifiStatus::Disconnected));
            },
        }
        events
    }

    /// After a disconnect: on success the status becomes `Disconnected` and
    /// both the event and the status are published; on failure the status
    /// becomes an error with the prefixed message, which is published.
    pub fn finish_disconnect(&mut self, outcome: Result<(), String>) -> (r: Vec<WifiEvent>)
        ensures
            match outcome {
                Ok(()) => {
                    &&& final(self).status() is Disconnected
                    &&& r@ == seq![
                        WifiEvent::Disconnected,
                        WifiEvent::StatusUpdate(WifiStatus::Disconnected),
                    ]
                },
                Err(e) => {
                    &&& final(self).status() matches WifiStatus::Error(m) && m@
                        == DISCONNECT_FAILED@ + e@
                    &&& r.len() == 1
                    &&& r@[0] matches WifiEvent::StatusUpdate(WifiStatus::Error(m)) && m@
                        == DISCONNECT_FAILED@ + e@
                },
            },
    {
        let mut events: Vec<WifiEvent> = Vec::new();
        match outcome {
            Ok(()) => {
                self.current_status = WifiStatus::Disconnected;
                events.push(WifiEvent::Disconnected);
                events.push(WifiEvent::StatusUpdate(WifiStatus::Disconnected));
            },
            Err(e) => {
                let message = join(DISCONNECT_FAILED, e.as_str());
                self.current_status = WifiStatus::Error(join(DISCONNECT_FAILED, e.as_str()));
                events.push(WifiEvent::StatusUpdate(WifiStatus::Error(message)));
            },
        }
        events
    }

    /// Before a scan: the status becomes `Scanning`, and so is announced.
    pub fn begin_scan(&mut self) -> (r: Vec<WifiEvent>)
        ensures
            final(self).status() is Scanning,
            r@ == seq![WifiEvent::StatusUpdate(WifiStatus::Scanning)],
    {
        self.current_status = WifiStatus::Scanning;
        let mut events: Vec<WifiEvent> = Vec::new();
        events.push(WifiEvent::StatusUpdate(WifiStatus::Scanning));
        events
    }

    /// After a scan: the network names, or the prefixed error, are
    /// published; then the status returns to what the connectivity reading
    /// says, and is published.
    pub fn finish_scan(&mut self, outcome: Result<Vec<String>, String>, is_connected: bool) -> (r:
        Vec<WifiEvent>)
        ensures
            final(self).status() == link_status(is_connected),
            r.len() == 2,
            r@[1] == WifiEvent::StatusUpdate(link_status(is_connected)),
            match outcome {
                Ok(names) => r@[0] == WifiEvent::ScanResult(names),
                Err(e) => r@[0] matches WifiEvent::StatusUpdate(WifiStatus::Error(m)) && m@
                    == SCAN_FAILED@ + e@,
            },
    {
        let mut events: Vec<WifiEvent> = Vec::new();
        match outcome {
            Ok(names) => {
                events.push(WifiEvent::ScanResult(names));
            },
            Err(e) => {
                let message = join(SCAN_FAILED, e.as_str());
                events.push(WifiEvent::StatusUpdate(WifiStatus::Error(message)));
            },
        }
        let (status, announced) = if is_connected {
            (WifiStatus::Connected, WifiStatus::Connected)
        } else {
            (WifiStatus::Disconnected, WifiStatus::Disconnected)
        };
        self.current_status = status;
        events.push(WifiEvent::StatusUpdate(announced));
        events
    }

    /// The answer to `GetStatus`: the current status.
    pub fn report_status(&self) -> (r: Vec<WifiEvent>)
        ensures
            r.len() == 1,
            r@[0] matches WifiEvent::StatusUpdate(s) && s == self.status(),
    {
        let mut events: Vec<WifiEvent> = Vec::new();
        events.push(WifiEvent::StatusUpdate(self.current_status.duplicate()));
        events
    }

    /// A connectivity reading taken while idle. A lost link sets
    /// `Disconnected` and publishes it twice over (event, then status); a
    /// restored link sets `Connected` and publishes the address, if one
    /// could be read, then the status. Otherwise nothing changes.
    pub fn check_connection_status(&mut self, is_connected: bool, ip: Option<String>) -> (r: Vec<
        WifiEvent,
    >)
        ensures
            (old(self).status() is Connected && !is_connected) ==> {
                &&& final(self).status() is Disconnected
                &&& r@ == seq![
                    WifiEvent::Disconnected,
                    WifiEvent::StatusUpdate(WifiStatus::Disconnected),
                ]
            },
            (old(self).status() is Disconnected && is_connected) ==> {
                &&& final(self).status() is Connected
                &&& r@ == match ip {
                    Some(a) => seq![
                        WifiEvent::Connected(a),
                        WifiEvent::StatusUpdate(WifiStatus::Connected),
                    ],
                    None => seq![WifiEvent::StatusUpdate(WifiStatus::Connected)],
                }
            },
            !(old(self).status() is Connected && !is_connected) && !(old(self).status() is Disconnected
                && is_connected) ==> final(self).status() == old(self).status() && r@.len() == 0,
    {
        let mut events: Vec<WifiEvent> = Vec::new();
        let was_connected = match &self.current_status {
            WifiStatus::Connected => true,
            _ => false,
        };
        let was_disconnected = match &self.current_status {
            WifiStatus::Disconnected => true,
            _ => false,
        };
        if was_connected && !is_connected {
            self.current_status = WifiStatus::Disconnected;
            events.push(WifiEvent::Disconnected);
            events.push(WifiEvent::StatusUpdate(WifiStatus::Disconnected));
        } else if was_disconnected && is_connected {
            self.current_status = WifiStatus::Connected;
            if let Some(a) = ip {
                events.push(WifiEvent::Connected(a));
            }
            events.push(WifiEvent::StatusUpdate(WifiStatus::Connected));
        }
        events
    }
}

/// The caller's side of the network actor: commands go out, events come
/// back.
pub struct WifiActorManager {
    command_sender: ChannelSender<WifiCommand>,
    event_receiver: ChannelReceiver<WifiEvent>,
}

/// The actor thread's side: commands come in, events go out.
pub struct WifiActorEndpoint {
    command_receiver: ChannelReceiver<WifiCommand>,
    event_sender: ChannelSender<WifiEvent>,
}

impl WifiActorManager {
    pub closed spec fn command_channel(&self) -> int {
        self.command_sender.channel_id()
    }

    pub closed spec fn event_channel(&self) -> int {
        self.event_receiver.channel_id()
    }

    /// Every command handed to the actor, in order.
    pub closed spec fn commands_sent(&self) -> Seq<WifiCommand> {
        self.command_sender.log()
    }

    /// The two channels joining a caller to a network actor, as the
    /// caller's end and the end to move into the actor's thread.
    pub fn new() -> (r: (WifiActorManager, WifiActorEndpoint))
        ensures
            r.0.command_channel() == r.1.command_channel(),
            r.0.event_channel() == r.1.event_channel(),
            r.0.commands_sent() == Seq::<WifiCommand>::empty(),
            r.1.events_sent() == Seq::<WifiEvent>::empty(),
    {
        let (command_sender, command_receiver) = channel::channel();
        let (event_sender, event_receiver) = channel::channel();
        (
            WifiActorManager { command_sender, event_receiver },
            WifiActorEndpoint { command_receiver, event_sender },
        )
    }

    fn send_command(&mut self, command: WifiCommand) -> (r: Result<(), WifiCommand>)
        ensures
            final(self).command_channel() == old(self).command_channel(),
            final(self).event_channel() == old(self).event_channel(),
            final(self).commands_sent() == old(self).commands_sent().push(command),
            r matches Err(c) ==> c == command,
    {
        channel::send(&mut self.command_sender, command)
    }

    /// Asks the actor to connect; if the actor is gone the command comes back.
    pub fn connect(&mut self, config: WifiConfig) -> (r: Result<(), WifiCommand>)
        ensures
            final(self).command_channel() == old(self).command_channel(),
            final(self).event_channel() == old(self).event_channel(),
            final(self).commands_sent() == old(self).commands_sent().push(WifiCommand::Connect(config)),
            r matches Err(c) ==> c == WifiCommand::Connect(config),
    {
        self.send_command(WifiCommand::Connect(config))
    }

    /// Asks the actor to disconnect; if the actor is gone the command comes back.
    pub fn disconnect(&mut self) -> (r: Result<(), WifiCommand>)
        ensures
            final(self).command_channel() == old(self).command_channel(),
            final(self).event_channel() == old(self).event_channel(),
            final(self).commands_sent() == old(self).commands_sent().push(WifiCommand::Disconnect),
            r matches Err(c) ==> c is Disconnect,
    {
        self.send_command(WifiCommand::Disconnect)
    }

    /// Asks the actor for its status; if the actor is gone the command comes back.
    pub fn get_status(&mut self) -> (r: Result<(), WifiCommand>)
        ensures
            final(self).command_channel() == old(self).command_channel(),
            final(self).event_channel() == old(self).event_channel(),
            final(self).commands_sent() == old(self).commands_sent().push(WifiCommand::GetStatus),
            r matches Err(c) ==> c is GetStatus,
    {
        self.send_command(WifiCommand::GetStatus)
    }

    /// Asks the actor to scan; if the actor is gone the command comes back.
    pub fn scan_networks(&mut self) -> (r: Result<(), WifiCommand>)
        ensures
            final(self).command_channel() == old(self).command_channel(),
            final(self).event_channel() == old(self).event_channel(),
            final(self).commands_sent() == old(self).commands_sent().push(WifiCommand::Scan),
            r matches Err(c) ==> c is Scan,
    {
        self.send_command(WifiCommand::Scan)
    }

    /// The next event from the actor, without blocking.
    pub fn try_recv_event(&self) -> (r: Result<WifiEvent, ChannelError>)
        ensures
            r matches Err(e) ==> e is Empty || e is Disconnected,
    {
        channel::try_recv(&self.event_receiver)
    }

    /// The next event from the actor, waiting for one.
    pub fn recv_event(&self) -> (r: Result<WifiEvent, ChannelError>)
        ensures
            r matches Err(e) ==> e is Disconnected,
    {
        channel::recv(&self.event_receiver)
    }

    /// The next event from the actor, waiting at most `timeout`.
    pub fn recv_event_timeout(&self, timeout: std::time::Duration) -> (r: Result<
        WifiEvent,
        ChannelError,
    >)
        ensures
            r matches Err(e) ==> e is Timeout || e is Disconnected,
    {
        channel::recv_timeout(&self.event_receiver, timeout)
    }
}

/// What the actor does after waiting for a command.
#[derive(Clone, Debug)]
pub enum WifiActorStep {
    /// Carry out the command that came.
    Handle(WifiCommand),
    /// Nothing came in time: poll connectivity.
    Poll,
    /// Every commander is gone: stop.
    Stop,
}

/// The step for what a wait for a command returned.
pub fn next_step(received: Result<WifiCommand, ChannelError>) -> (r: WifiActorStep)
    ensures
        match received {
            Ok(c) => r == WifiActorStep::Handle(c),
            Err(ChannelError::Disconnected) => r is Stop,
            Err(_) => r is Poll,
        },
{
    match received {
        Ok(c) => WifiActorStep::Handle(c),
        Err(ChannelError::Disconnected) => WifiActorStep::Stop,
        Err(_) => WifiActorStep::Poll,
    }
}

/// How long the actor waits for a command before polling connectivity.
pub const COMMAND_TIMEOUT_MS: u64 = 1000;

impl WifiActorEndpoint {
    pub closed spec fn command_channel(&self) -> int {
        self.command_receiver.channel_id()
    }

    pub closed spec fn event_channel(&self) -> int {
        self.event_sender.channel_id()
    }

    /// Every event handed out by the actor, in order.
    pub closed spec fn events_sent(&self) -> Seq<WifiEvent> {
        self.event_sender.log()
    }

    /// The next command, waiting at most `timeout`; on `Timeout` the actor
    /// polls connectivity, on `Disconnected` it stops.
    pub fn next_command(&self, timeout: std::time::Duration) -> (r: Result<WifiCommand, ChannelError>)
        ensures
            r matches Err(e) ==> e is Timeout || e is Disconnected,
    {
        channel::recv_timeout(&self.command_receiver, timeout)
    }

    /// Publishes `events` in order, stopping at the first that cannot be
    /// delivered, which is returned.
    pub fn publish(&mut self, events: Vec<WifiEvent>) -> (r: Result<(), WifiEvent>)
        ensures
            final(self).command_channel() == old(self).command_channel(),
            final(self).event_channel() == old(self).event_channel(),
            events@.len() == 0 ==> r is Ok,
            r is Ok ==> final(self).events_sent() == old(self).events_sent() + events@,
            r matches Err(e) ==> exists|k: int|
                0 <= k < events@.len() && e == events@[k] && final(self).events_sent()
                    == old(self).events_sent() + events@.subrange(0, k + 1),
    {
        let mut rest = events;
        let ghost k: int = 0;
        while rest.len() > 0
            invariant
                0 <= k <= events@.len(),
                rest@ == events@.subrange(k, events@.len() as int),
                self.command_channel() == old(self).command_channel(),
                self.event_channel() == old(self).event_channel(),
                self.events_sent() == old(self).events_sent() + events@.subrange(0, k),
            decreases rest.len(),
        {
            let e = rest.remove(0);
            assert(e == events@[k]);
            assert(events@.subrange(0, k + 1) =~= events@.subrange(0, k).push(e));
            let sent = channel::send(&mut self.event_sender, e);
            proof {
                assert(self.events_sent() =~= old(self).events_sent() + events@.subrange(0, k + 1));
                k = k + 1;
            }
            match sent {
                Ok(()) => {},
                Err(back) => {
                    return Err(back);
                },
            }
        }
        assert(events@.subrange(0, k) =~= events@);
        Ok(())
    }
}

} // verus!
