//! One established connection: the state machine that lives as long as the
//! link does.

use vstd::prelude::*;
use crate::command::Command;
use crate::registry::{ConnectionInternal, Registry};
use crate::types::{Address, DisconnectReason, ErrorCode, Fatal, HciEvent, Link, Role};

verus! {

/// An established connection. There is one for each entry of the registry,
/// made together with the entry; the connection ends by taking its entry out.
#[non_exhaustive]
#[derive(Debug, PartialEq, Eq)]
pub struct Connection {
    pub addr: Address,
    pub handle: u16,
    pub role: Role,
}

/// What a connection tells its owner.
#[derive(Clone, Copy, Debug, PartialEq, Eq)]
pub enum ConnectionEvent {
    /// The link has gone down, for the reason that the controller gave.
    Disconnected(ErrorCode),
    /// Authentication on the link has ended.
    AuthenticationComplete,
}

/// The outcome of one notification on a connection.
#[derive(Debug, PartialEq, Eq)]
pub struct Progress {
    /// What the owner is to be told.
    pub event: ConnectionEvent,
    /// The connection as it goes on, or `None` where this notification ended it.
    pub connection: Option<Connection>,
}

/// What one notification does to a connection and to the registry: the
/// registry afterwards and the outcome, or the condition that stops the
/// connection. A disconnection takes the connection's own entry out and ends
/// it; the end of authentication is passed on and changes nothing; the
/// connection takes no part in anything else.
pub open spec fn connection_step<T>(
    connection: Connection,
    connections: Map<u16, ConnectionInternal<T>>,
    event: HciEvent,
) -> Result<(Map<u16, ConnectionInternal<T>>, Progress), Fatal> {
    match event {
        HciEvent::DisconnectionComplete { reason } => Ok(
            (
                connections.remove(connection.handle),
                Progress { event: ConnectionEvent::Disconnected(reason), connection: None },
            ),
        ),
        HciEvent::AuthenticationComplete { .. } => Ok(
            (
                connections,
                Progress {
                    event: ConnectionEvent::AuthenticationComplete,
                    connection: Some(connection),
                },
            ),
        ),
        _ => Err(Fatal::UnexpectedEvent),
    }
}

impl Connection {
    /// The connection that goes with a newly established link.
    pub open spec fn of(link: Link) -> Connection {
        Connection { addr: link.addr, handle: link.handle, role: link.role }
    }

    /// Makes the connection of a link that is being entered in the registry.
    pub(crate) fn open(link: Link) -> (connection: Connection)
        ensures
            connection == Connection::of(link),
    {
        Connection { addr: link.addr, handle: link.handle, role: link.role }
    }

    /// The command that ends this link for `reason`. The request counts as
    /// received once the command is handed over; that the link is down is
    /// learned later, from a notification.
    pub fn disconnect(&self, reason: DisconnectReason) -> (command: Command)
        ensures
            command == (Command::Disconnect { connection_handle: self.handle, reason }),
    {
        Command::Disconnect { connection_handle: self.handle, reason }
    }

    /// Takes one notification that was routed to this connection.
    pub fn on_event<T>(self, registry: &mut Registry<T>, event: HciEvent) -> (step: Result<
        Progress,
        Fatal,
    >)
        ensures
            match connection_step(self, old(registry)@, event) {
                Ok((connections, progress)) => {
                    &&& step == Ok::<Progress, Fatal>(progress)
                    &&& final(registry)@ == connections
                },
                Err(fatal) => {
                    &&& step == Err::<Progress, Fatal>(fatal)
                    &&& final(registry)@ == old(registry)@
                },
            },
    {
        match event {
            HciEvent::DisconnectionComplete { reason } => {
                registry.remove(self.handle);
                Ok(Progress { event: ConnectionEvent::Disconnected(reason), connection: None })
            },
            HciEvent::AuthenticationComplete { .. } => Ok(
                Progress { event: ConnectionEvent::AuthenticationComplete, connection: Some(self) },
            ),
            _ => Err(Fatal::UnexpectedEvent),
        }
    }
}

} // verus!
