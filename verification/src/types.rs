//! Plain values shared by the state machines.

use vstd::prelude::*;
use vstd::std_specs::cmp::PartialEqSpecImpl;

verus! {

/// The device address of a peer: six bytes, compared as a whole. Before a link
/// has a handle, the address is what requests and notifications are matched by.
#[derive(Clone, Copy, Debug, Eq, Hash)]
pub struct Address {
    pub bytes: [u8; 6],
}

impl PartialEq for Address {
    fn eq(&self, other: &Self) -> (same: bool) {
        let same = self.bytes[0] == other.bytes[0] && self.bytes[1] == other.bytes[1]
            && self.bytes[2] == other.bytes[2] && self.bytes[3] == other.bytes[3]
            && self.bytes[4] == other.bytes[4] && self.bytes[5] == other.bytes[5];
        proof {
            if same {
                assert(self.bytes =~= other.bytes);
            }
        }
        same
    }
}

impl PartialEqSpecImpl for Address {
    open spec fn obeys_eq_spec() -> bool {
        true
    }

    open spec fn eq_spec(&self, other: &Self) -> bool {
        *self == *other
    }
}

/// The part the local device plays on a link.
#[derive(Clone, Copy, Debug, PartialEq, Eq, Hash, Structural)]
pub enum Role {
    /// The link was asked for locally.
    Central,
    /// The link was asked for by the peer.
    Peripheral,
}

/// The status byte by which the controller reports how an operation ended.
/// The library passes it on and reads one thing from it: whether it is the
/// code for success.
#[derive(Clone, Copy, Debug, PartialEq, Eq, Hash, Structural)]
pub struct ErrorCode {
    pub code: u8,
}

/// The status byte that stands for success.
pub const SUCCESS: u8 = 0x00;

impl ErrorCode {
    /// Whether this status reports success.
    pub open spec fn succeeded(self) -> bool {
        self.code == SUCCESS
    }

    /// Whether this status reports success.
    pub fn is_success(&self) -> (yes: bool)
        ensures
            yes == self.succeeded(),
    {
        self.code == SUCCESS
    }
}

/// The reason byte that the host gives the controller when it ends a link.
/// The library passes it on unread.
#[derive(Clone, Copy, Debug, PartialEq, Eq, Hash, Structural)]
pub struct DisconnectReason {
    pub code: u8,
}

/// A link that has come up, as the coordinator made it out from the
/// completion of an attempt: the peer, the handle that the controller gave
/// the link, and the role that follows from who asked for it. Only the
/// coordinator makes one, and it can be entered in the registry once.
#[non_exhaustive]
#[derive(Debug, PartialEq, Eq)]
pub struct Link {
    pub addr: Address,
    pub handle: u16,
    pub role: Role,
}

/// A condition after which the state machine that met it cannot go on: what
/// the controller reported no longer fits what the host has recorded.
#[derive(Clone, Copy, Debug, PartialEq, Eq)]
pub enum Fatal {
    /// A connection completed for an address for which no attempt is pending.
    NoPriorRequest { addr: Address },
    /// A connection completed with a handle that a live connection holds.
    HandleInUse { handle: u16 },
    /// A notification of a kind that its receiver takes no part in.
    UnexpectedEvent,
}

/// The kinds of notification that the state machines know by name.
#[derive(Clone, Copy, Debug, PartialEq, Eq)]
pub enum EventCode {
    ConnectionComplete,
    ConnectionRequest,
    DisconnectionComplete,
    AuthenticationComplete,
}

/// What the controller notifies the host of, reduced to the fields that the
/// state machines read.
#[derive(Clone, Copy, Debug, PartialEq, Eq)]
pub enum HciEvent {
    /// An attempt, of either direction, has ended.
    ConnectionComplete { status: ErrorCode, connection_handle: u16, bd_addr: Address },
    /// A peer asks for a link.
    ConnectionRequest { bd_addr: Address },
    /// Authentication on an established link has ended.
    AuthenticationComplete { connection_handle: u16 },
    /// An established link has gone down.
    DisconnectionComplete { reason: ErrorCode },
    /// Any other notification.
    Other,
}

impl HciEvent {
    /// The kind of this notification, where it has a name here.
    pub open spec fn code(self) -> Option<EventCode> {
        match self {
            HciEvent::ConnectionComplete { .. } => Some(EventCode::ConnectionComplete),
            HciEvent::ConnectionRequest { .. } => Some(EventCode::ConnectionRequest),
            HciEvent::AuthenticationComplete { .. } => Some(EventCode::AuthenticationComplete),
            HciEvent::DisconnectionComplete { .. } => Some(EventCode::DisconnectionComplete),
            HciEvent::Other => None,
        }
    }
}

} // verus!
