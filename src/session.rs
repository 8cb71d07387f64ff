//! The session with the one peripheral this process serves.
//!
//! A [`Session`] owns the session state, the pending notification text and
//! the identity of its target. Each [`Event`] is handed to
//! [`Session::handle`], which updates the session and returns the
//! [`Action`]s that the caller is to perform, in order. Where an action
//! can fail or produces a result, the caller reports back with a further
//! event.
use vstd::prelude::*;
use vstd::utf8::encode_utf8;
use crate::decoder::{decoded_as, feed_spec, process_device_notification, DecodedLine};

verus! {

/// A six-byte hardware address, most significant byte first.
#[derive(Debug, Clone, Copy, PartialEq, Eq, Structural)]
pub struct PeripheralAddress(pub u8, pub u8, pub u8, pub u8, pub u8, pub u8);

/// Where the session stands.
#[derive(Debug, Clone, Copy, PartialEq, Eq, Structural)]
pub enum SessionState {
    /// Created; nothing has been asked of the radio yet.
    Idle,
    /// Scanning for the target.
    Discovering,
    /// A connection to the target has been asked for.
    Connecting,
    /// Connected; the target characteristic is being looked up.
    CharacteristicsResolving,
    /// Connected without a subscription: the characteristic was not found,
    /// or resolving or subscribing failed.
    Connected,
    /// Subscribed to the target characteristic's notifications.
    Subscribed,
    /// A connection attempt failed; the next discovery or disconnection of
    /// the target starts another.
    Disconnected,
}

/// Everything the session can be told.
#[derive(Debug)]
pub enum Event {
    /// The process has started.
    Startup,
    DeviceDiscovered(PeripheralAddress),
    DeviceConnected(PeripheralAddress),
    DeviceDisconnected(PeripheralAddress),
    /// The short identifiers of the characteristics found on the target.
    CharacteristicsDiscovered(Vec<u16>),
    /// A connection attempt failed.
    ConnectFailed,
    /// Discovering characteristics or subscribing failed.
    ResolutionFailed,
    /// Text pushed by the peripheral.
    DeviceNotification(String),
    /// A line typed by the operator.
    OperatorCommand(String),
}

/// Work the session asks of its caller.
#[derive(Debug)]
pub enum Action {
    StartScan,
    Connect(PeripheralAddress),
    DiscoverCharacteristics(PeripheralAddress),
    /// Subscribe to the characteristic with this short identifier.
    Subscribe(u16),
    /// Tell the operator that the target characteristic was not found.
    ReportCharacteristicMissing,
    /// Log each line, then report it, alert, or fail as its verdict says.
    Deliver(Vec<DecodedLine>),
    /// Log an operator command.
    LogCommand(String),
    /// Write these bytes to the characteristic with this short identifier.
    Write { characteristic: u16, bytes: Vec<u8> },
}

/// The session with the target peripheral.
#[derive(Debug)]
pub struct Session {
    pub target: PeripheralAddress,
    /// Short identifier of the characteristic that carries the protocol.
    pub characteristic: u16,
    pub state: SessionState,
    /// Notification text after the last completed line.
    pub pending: String,
}

/// Whether operator input holds nothing but line-end characters.
pub open spec fn is_blank(text: Seq<char>) -> bool {
    forall|i: int| 0 <= i < text.len() ==> #[trigger] text[i] == '\n' || text[i] == '\r'
}

fn blank(text: &str) -> (r: bool)
    ensures
        r == is_blank(text@),
{
    let n = text.unicode_len();
    let mut i: usize = 0;
    while i < n
        invariant
            n == text@.len(),
            i <= n,
            forall|k: int| 0 <= k < i ==> #[trigger] text@[k] == '\n' || text@[k] == '\r',
        decreases n - i,
    {
        let c = text.get_char(i);
        if c != '\n' && c != '\r' {
            return false;
        }
        i = i + 1;
    }
    true
}

/// Whether `ids` holds `id`.
pub fn holds_identifier(ids: &Vec<u16>, id: u16) -> (r: bool)
    ensures
        r == ids@.contains(id),
{
    let mut i: usize = 0;
    while i < ids.len()
        invariant
            i <= ids@.len(),
            forall|k: int| 0 <= k < i ==> ids@[k] != id,
        decreases ids.len() - i,
    {
        if ids[i] == id {
            assert(ids@[i as int] == id);
            return true;
        }
        i = i + 1;
    }
    false
}

impl Session {
    /// A session for `target`, speaking through the characteristic
    /// `characteristic`, before startup.
    pub fn new(target: PeripheralAddress, characteristic: u16) -> (r: Session)
        ensures
            r.target == target,
            r.characteristic == characteristic,
            r.state == SessionState::Idle,
            r.pending@.len() == 0,
    {
        Session { target, characteristic, state: SessionState::Idle, pending: String::new() }
    }

    /// Takes in one event; returns what the caller is to do, in order.
    pub fn handle(&mut self, event: Event) -> (r: Vec<Action>)
        ensures
            final(self).target == old(self).target,
            final(self).characteristic == old(self).characteristic,
            match event {
                Event::Startup => if old(self).state == SessionState::Idle {
                    &&& final(self).state == SessionState::Discovering
                    &&& final(self).pending == old(self).pending
                    &&& r@ == seq![Action::StartScan]
                } else {
                    &&& *final(self) == *old(self)
                    &&& r@.len() == 0
                },
                Event::DeviceDiscovered(a) => if a == old(self).target && (old(self).state
                    == SessionState::Discovering || old(self).state
                    == SessionState::Disconnected) {
                    &&& final(self).state == SessionState::Connecting
                    &&& final(self).pending == old(self).pending
                    &&& r@ == seq![Action::Connect(a)]
                } else {
                    &&& *final(self) == *old(self)
                    &&& r@.len() == 0
                },
                Event::DeviceConnected(a) => if a == old(self).target {
                    &&& final(self).state == SessionState::CharacteristicsResolving
                    &&& final(self).pending == old(self).pending
                    &&& r@ == seq![Action::DiscoverCharacteristics(a)]
                } else {
                    &&& *final(self) == *old(self)
                    &&& r@.len() == 0
                },
                Event::DeviceDisconnected(a) => if a == old(self).target {
                    &&& final(self).state == SessionState::Connecting
                    &&& final(self).pending@.len() == 0
                    &&& r@ == seq![Action::Connect(a)]
                } else {
                    &&& *final(self) == *old(self)
                    &&& r@.len() == 0
                },
                Event::CharacteristicsDiscovered(ids) => if old(self).state
                    == SessionState::CharacteristicsResolving {
                    if ids@.contains(old(self).characteristic) {
                        &&& final(self).state == SessionState::Subscribed
                        &&& final(self).pending@.len() == 0
                        &&& r@ == seq![Action::Subscribe(old(self).characteristic)]
                    } else {
                        &&& final(self).state == SessionState::Connected
                        &&& final(self).pending == old(self).pending
                        &&& r@ == seq![Action::ReportCharacteristicMissing]
                    }
                } else {
                    &&& *final(self) == *old(self)
                    &&& r@.len() == 0
                },
                Event::ConnectFailed => if old(self).state == SessionState::Connecting {
                    &&& final(self).state == SessionState::Disconnected
                    &&& final(self).pending == old(self).pending
                    &&& r@.len() == 0
                } else {
                    &&& *final(self) == *old(self)
                    &&& r@.len() == 0
                },
                Event::ResolutionFailed => if old(self).state
                    == SessionState::CharacteristicsResolving || old(self).state
                    == SessionState::Subscribed {
                    &&& final(self).state == SessionState::Connected
                    &&& final(self).pending@.len() == 0
                    &&& r@.len() == 0
                } else {
                    &&& *final(self) == *old(self)
                    &&& r@.len() == 0
                },
                Event::DeviceNotification(text) => if old(self).state
                    == SessionState::Subscribed {
                    &&& final(self).state == SessionState::Subscribed
                    &&& final(self).pending@ == feed_spec(old(self).pending@, text@).1
                    &&& r@.len() == 1
                    &&& r@[0] matches Action::Deliver(lines) && decoded_as(
                        lines@,
                        feed_spec(old(self).pending@, text@).0,
                    )
                } else {
                    &&& *final(self) == *old(self)
                    &&& r@.len() == 0
                },
                Event::OperatorCommand(text) => {
                    &&& *final(self) == *old(self)
                    &&& if is_blank(text@) {
                        r@.len() == 0
                    } else if old(self).state == SessionState::Subscribed {
                        &&& r@.len() == 2
                        &&& r@[0] matches Action::LogCommand(logged) && logged@ == text@
                        &&& r@[1] matches Action::Write { characteristic, bytes } && characteristic
                            == old(self).characteristic && bytes@ == encode_utf8(text@)
                    } else {
                        &&& r@.len() == 1
                        &&& r@[0] matches Action::LogCommand(logged) && logged@ == text@
                    }
                },
            },
    {
        match event {
            Event::Startup => {
                if self.state == SessionState::Idle {
                    self.state = SessionState::Discovering;
                    vec![Action::StartScan]
                } else {
                    Vec::new()
                }
            },
            Event::DeviceDiscovered(a) => {
                if a == self.target && (self.state == SessionState::Discovering || self.state
                    == SessionState::Disconnected) {
                    self.state = SessionState::Connecting;
                    vec![Action::Connect(a)]
                } else {
                    Vec::new()
                }
            },
            Event::DeviceConnected(a) => {
                if a == self.target {
                    self.state = SessionState::CharacteristicsResolving;
                    vec![Action::DiscoverCharacteristics(a)]
                } else {
                    Vec::new()
                }
            },
            Event::DeviceDisconnected(a) => {
                if a == self.target {
                    self.state = SessionState::Connecting;
                    self.pending = String::new();
                    vec![Action::Connect(a)]
                } else {
                    Vec::new()
                }
            },
            Event::CharacteristicsDiscovered(ids) => {
                if self.state == SessionState::CharacteristicsResolving {
                    if holds_identifier(&ids, self.characteristic) {
                        self.state = SessionState::Subscribed;
                        self.pending = String::new();
                        vec![Action::Subscribe(self.characteristic)]
                    } else {
                        self.state = SessionState::Connected;
                        vec![Action::ReportCharacteristicMissing]
                    }
                } else {
                    Vec::new()
                }
            },
            Event::ConnectFailed => {
                if self.state == SessionState::Connecting {
                    self.state = SessionState::Disconnected;
                }
                Vec::new()
            },
            Event::ResolutionFailed => {
                if self.state == SessionState::CharacteristicsResolving || self.state
                    == SessionState::Subscribed {
                    self.state = SessionState::Connected;
                    self.pending = String::new();
                }
                Vec::new()
            },
            Event::DeviceNotification(text) => {
                if self.state == SessionState::Subscribed {
                    let lines = process_device_notification(text.as_str(), &mut self.pending);
                    vec![Action::Deliver(lines)]
                } else {
                    Vec::new()
                }
            },
            Event::OperatorCommand(text) => {
                if blank(text.as_str()) {
                    Vec::new()
                } else if self.state == SessionState::Subscribed {
                    let bytes = text.as_str().as_bytes_vec();
                    vec![
                        Action::LogCommand(text),
                        Action::Write { characteristic: self.characteristic, bytes },
                    ]
                } else {
                    vec![Action::LogCommand(text)]
                }
            },
        }
    }
}

} // verus!
