//! The coordinator: the single pending attempt, the queue behind it, and what
//! each request and each notification does to them.
//!
//! The controller takes one attempt at a time. So the coordinator keeps one
//! slot for the attempt that is under way and a queue for the addresses that
//! were asked for meanwhile. An address stays in the queue until it is
//! cancelled: the end of an attempt empties the slot and starts nothing.

use vstd::prelude::*;
use crate::command::{
    build_create_connection, create_connection, AcceptConnectionRequestRole, Command,
    RejectConnectionReason,
};
use crate::connection::Connection;
use crate::registry::{addresses_of, ConnectionInternal, Registry};
use crate::types::{Address, ErrorCode, EventCode, Fatal, HciEvent, Link, Role};

verus! {

/// What the coordinator tells the caller.
#[derive(Debug, PartialEq, Eq)]
pub enum Event {
    /// A link is up; here is its connection.
    ConnectSuccess(Connection),
    /// An attempt has failed, for the reason that the controller gave.
    ConnectFail { addr: Address, reason: ErrorCode },
}

/// The attempt that is under way, if any. Being one value, it never holds an
/// outgoing and an incoming attempt at once.
#[derive(Clone, Copy, Debug, PartialEq, Eq)]
pub enum PendingConnect {
    /// The local device asked for a link to this peer.
    Outgoing(Address),
    /// This peer asked for a link.
    Incoming(Address),
    /// No attempt is under way.
    Idle,
}

impl PendingConnect {
    /// The role that the local device gets when an attempt with `addr`
    /// completes: central where it asked itself, peripheral where the peer
    /// asked, and none where the attempt under way is not one with `addr`.
    pub open spec fn role_for(self, addr: Address) -> Option<Role> {
        match self {
            PendingConnect::Outgoing(peer) if peer == addr => Some(Role::Central),
            PendingConnect::Incoming(peer) if peer == addr => Some(Role::Peripheral),
            _ => None,
        }
    }

    /// Hands out the attempt and leaves the slot empty.
    pub fn take(&mut self) -> (taken: Self)
        ensures
            taken == *old(self),
            *final(self) == PendingConnect::Idle,
    {
        let mut taken = PendingConnect::Idle;
        core::mem::swap(self, &mut taken);
        taken
    }

    /// The role that the local device gets when an attempt with `addr`
    /// completes, or `None` where this is not an attempt with `addr`.
    pub fn resolve(self, addr: Address) -> (role: Option<Role>)
        ensures
            role == self.role_for(addr),
    {
        match self {
            PendingConnect::Outgoing(peer) => if peer == addr {
                Some(Role::Central)
            } else {
                None
            },
            PendingConnect::Incoming(peer) => if peer == addr {
                Some(Role::Peripheral)
            } else {
                None
            },
            PendingConnect::Idle => None,
        }
    }
}

/// What became of a request to connect.
#[derive(Clone, Copy, Debug, PartialEq, Eq)]
pub enum ConnectOutcome {
    /// A connection to the address is live: the request is dropped.
    AlreadyConnected,
    /// The attempt starts now, with this command.
    Attempt(Command),
    /// Another attempt is under way: the address waits in the queue.
    Queued,
}

/// What a notification asks the caller to do.
#[derive(Debug, PartialEq, Eq)]
pub enum Reaction {
    /// A link is up: open its transport, then enter it in the registry.
    Establish(Link),
    /// Tell the caller.
    Notify(Event),
    /// Send this command to the controller.
    Send(Command),
    /// Forward the notification to the connection that holds this handle.
    Dispatch(u16),
}

/// The kinds of notification that the coordinator takes, in the order in
/// which it subscribes to them.
pub open spec fn subscribed() -> Seq<EventCode> {
    seq![
        EventCode::ConnectionComplete,
        EventCode::ConnectionRequest,
        EventCode::AuthenticationComplete,
    ]
}

/// The predicate that holds of every address but `addr`.
pub open spec fn other_than(addr: Address) -> spec_fn(Address) -> bool {
    |queued: Address| queued != addr
}

/// The coordinator's state as a plain value: the slot and the queue, newest
/// entry first.
pub struct ManagerState {
    pub pending: PendingConnect,
    pub queue: Seq<Address>,
}

impl ManagerState {
    /// The peer of the outgoing attempt under way.
    pub open spec fn outgoing(self) -> Option<Address> {
        match self.pending {
            PendingConnect::Outgoing(addr) => Some(addr),
            _ => None,
        }
    }

    /// The peer of the incoming attempt under way.
    pub open spec fn incoming(self) -> Option<Address> {
        match self.pending {
            PendingConnect::Incoming(addr) => Some(addr),
            _ => None,
        }
    }

    /// The state at the start: nothing under way, nothing queued.
    pub open spec fn idle() -> ManagerState {
        ManagerState { pending: PendingConnect::Idle, queue: Seq::empty() }
    }

    /// A request to connect to `addr`, with `connected` the peers that a
    /// connection is live to. It is dropped where `addr` is among them; it
    /// starts an attempt where none is under way; else it is queued, in front.
    pub open spec fn connect(self, connected: Set<Address>, addr: Address) -> (
        ManagerState,
        ConnectOutcome,
    ) {
        if connected.contains(addr) {
            (self, ConnectOutcome::AlreadyConnected)
        } else if self.pending is Idle {
            (
                ManagerState { pending: PendingConnect::Outgoing(addr), queue: self.queue },
                ConnectOutcome::Attempt(create_connection(addr)),
            )
        } else {
            (
                ManagerState { pending: self.pending, queue: seq![addr] + self.queue },
                ConnectOutcome::Queued,
            )
        }
    }

    /// A request to cancel the connecting to `addr`. Every queued entry for
    /// `addr` leaves the queue. Where the outgoing attempt under way is the
    /// one to `addr`, the controller is asked to give it up; the slot stays as
    /// it is, since the attempt still ends with a notification.
    pub open spec fn cancel_connect(self, addr: Address) -> (ManagerState, Option<Command>) {
        (
            ManagerState { pending: self.pending, queue: self.queue.filter(other_than(addr)) },
            if self.pending == PendingConnect::Outgoing(addr) {
                Some(Command::CreateConnectionCancel { bd_addr: addr })
            } else {
                None
            },
        )
    }

    /// The end of an attempt with `addr`. It must be the attempt under way;
    /// the slot is then empty, whatever the status. Success yields the link,
    /// with the role that the direction of the attempt gives; anything else is
    /// a failure to report.
    pub open spec fn connection_complete(self, status: ErrorCode, handle: u16, addr: Address)
        -> Result<(ManagerState, Reaction), Fatal> {
        match self.pending.role_for(addr) {
            Some(role) => Ok(
                (
                    ManagerState { pending: PendingConnect::Idle, queue: self.queue },
                    if status.succeeded() {
                        Reaction::Establish(Link { addr, handle, role })
                    } else {
                        Reaction::Notify(Event::ConnectFail { addr, reason: status })
                    },
                ),
            ),
            None => Err(Fatal::NoPriorRequest { addr }),
        }
    }

    /// A peer's request for a link. It takes the slot, whatever was in it. A
    /// peer that a connection is live to is turned down; any other is
    /// accepted.
    pub open spec fn connection_request(self, connected: Set<Address>, addr: Address) -> (
        ManagerState,
        Command,
    ) {
        (
            ManagerState { pending: PendingConnect::Incoming(addr), queue: self.queue },
            if connected.contains(addr) {
                Command::RejectConnectionRequest {
                    bd_addr: addr,
                    reason: RejectConnectionReason::UnacceptableBdAddr,
                }
            } else {
                Command::AcceptConnectionRequest {
                    bd_addr: addr,
                    role: AcceptConnectionRequestRole::BecomeCentral,
                }
            },
        )
    }

    /// One notification from the controller: the state afterwards and what
    /// is to be done, or the condition that stops the coordinator.
    pub open spec fn on_event(self, connected: Set<Address>, event: HciEvent) -> Result<
        (ManagerState, Reaction),
        Fatal,
    > {
        match event {
            HciEvent::ConnectionComplete { status, connection_handle, bd_addr } => {
                self.connection_complete(status, connection_handle, bd_addr)
            },
            HciEvent::ConnectionRequest { bd_addr } => {
                let (state, command) = self.connection_request(connected, bd_addr);
                Ok((state, Reaction::Send(command)))
            },
            HciEvent::AuthenticationComplete { connection_handle } => Ok(
                (self, Reaction::Dispatch(connection_handle)),
            ),
            _ => Err(Fatal::UnexpectedEvent),
        }
    }
}

/// What entering a link that has come up does to the registry: the registry
/// afterwards and the event for the caller, or the refusal of a link whose
/// handle a live connection holds.
pub open spec fn established<T>(
    connections: Map<u16, ConnectionInternal<T>>,
    link: Link,
    hci_evt_tx: T,
) -> Result<(Map<u16, ConnectionInternal<T>>, Event), Fatal> {
    if connections.contains_key(link.handle) {
        Err(Fatal::HandleInUse { handle: link.handle })
    } else {
        Ok(
            (
                connections.insert(
                    link.handle,
                    ConnectionInternal { addr: link.addr, role: link.role, hci_evt_tx },
                ),
                Event::ConnectSuccess(Connection::of(link)),
            ),
        )
    }
}

/// The coordinator.
#[derive(Debug)]
pub struct AclManager {
    pending: PendingConnect,
    connect_queue: Vec<Address>,
}

impl View for AclManager {
    type V = ManagerState;

    closed spec fn view(&self) -> ManagerState {
        ManagerState { pending: self.pending, queue: self.connect_queue@ }
    }
}

impl AclManager {
    /// A coordinator with nothing under way and nothing queued.
    pub fn new() -> (manager: Self)
        ensures
            manager@ == ManagerState::idle(),
    {
        AclManager { pending: PendingConnect::Idle, connect_queue: Vec::new() }
    }

    /// The kinds of notification to subscribe the coordinator to.
    pub fn subscriptions() -> (codes: Vec<EventCode>)
        ensures
            codes@ == subscribed(),
    {
        let mut codes: Vec<EventCode> = Vec::new();
        codes.push(EventCode::ConnectionComplete);
        codes.push(EventCode::ConnectionRequest);
        codes.push(EventCode::AuthenticationComplete);
        codes
    }

    /// The attempt that is under way.
    pub fn pending(&self) -> (pending: PendingConnect)
        ensures
            pending == self@.pending,
    {
        self.pending
    }

    /// The addresses that wait, newest first.
    pub fn queue(&self) -> (queue: &Vec<Address>)
        ensures
            queue@ == self@.queue,
    {
        &self.connect_queue
    }

    /// Connects to `addr`, or queues it where an attempt is under way; a
    /// request for a peer that a connection is live to is dropped.
    pub fn connect<T>(&mut self, registry: &Registry<T>, addr: Address) -> (outcome:
        ConnectOutcome)
        ensures
            (final(self)@, outcome) == old(self)@.connect(addresses_of(registry@), addr),
    {
        if registry.has_address(addr) {
            return ConnectOutcome::AlreadyConnected;
        }
        match self.pending {
            PendingConnect::Idle => {
                self.pending = PendingConnect::Outgoing(addr);
                ConnectOutcome::Attempt(build_create_connection(addr))
            },
            _ => {
                self.connect_queue.insert(0, addr);
                assert(self.connect_queue@ == seq![addr] + old(self).connect_queue@);
                ConnectOutcome::Queued
            },
        }
    }

    /// Cancels the connecting to `addr`: takes it out of the queue and, where
    /// the outgoing attempt under way is the one to `addr`, hands back the
    /// command that asks the controller to give it up. The request counts as
    /// done when this returns.
    pub fn cancel_connect(&mut self, addr: Address) -> (command: Option<Command>)
        ensures
            (final(self)@, command) == old(self)@.cancel_connect(addr),
    {
        let mut kept: Vec<Address> = Vec::new();
        let mut i: usize = 0;
        while i < self.connect_queue.len()
            invariant
                i <= self.connect_queue.len(),
                *self == *old(self),
                kept@ == self.connect_queue@.take(i as int).filter(other_than(addr)),
            decreases self.connect_queue.len() - i,
        {
            let queued = self.connect_queue[i];
            proof {
                let seen = self.connect_queue@.take(i as int);
                assert(self.connect_queue@.take(i + 1) == seen.push(queued));
                seen.lemma_filter_push(queued, other_than(addr));
            }
            if queued != addr {
                kept.push(queued);
            }
            i += 1;
        }
        assert(self.connect_queue@.take(i as int) == self.connect_queue@);
        self.connect_queue = kept;
        match self.pending {
            PendingConnect::Outgoing(peer) => if peer == addr {
                Some(Command::CreateConnectionCancel { bd_addr: addr })
            } else {
                None
            },
            _ => None,
        }
    }

    /// Takes the end of an attempt with `addr`.
    pub fn on_connection_complete(
        self,
        status: ErrorCode,
        handle: u16,
        addr: Address,
    ) -> (out: Result<(AclManager, Reaction), Fatal>)
        ensures
            match self@.connection_complete(status, handle, addr) {
                Ok((state, reaction)) => out matches Ok((manager, asked)) && manager@ == state
                    && asked == reaction,
                Err(fatal) => out matches Err(raised) && raised == fatal,
            },
    {
        let mut manager = self;
        let role = match manager.pending.take().resolve(addr) {
            Some(role) => role,
            None => {
                return Err(Fatal::NoPriorRequest { addr });
            },
        };
        if status.is_success() {
            Ok((manager, Reaction::Establish(Link { addr, handle, role })))
        } else {
            Ok((manager, Reaction::Notify(Event::ConnectFail { addr, reason: status })))
        }
    }

    /// Takes a peer's request for a link and hands back the answer for the
    /// controller.
    pub fn on_connection_request<T>(&mut self, registry: &Registry<T>, addr: Address) -> (command:
        Command)
        ensures
            (final(self)@, command) == old(self)@.connection_request(
                addresses_of(registry@),
                addr,
            ),
    {
        self.pending = PendingConnect::Incoming(addr);
        if registry.has_address(addr) {
            Command::RejectConnectionRequest {
                bd_addr: addr,
                reason: RejectConnectionReason::UnacceptableBdAddr,
            }
        } else {
            Command::AcceptConnectionRequest {
                bd_addr: addr,
                role: AcceptConnectionRequestRole::BecomeCentral,
            }
        }
    }

    /// Enters a link that has come up, with the endpoint `hci_evt_tx` that
    /// its transport has, and makes the link's connection. Entry and
    /// connection come about in one step: there is no moment at which the
    /// handle can be found and its connection is not there. A link whose
    /// handle a live connection holds is fatal, and the registry stays as it
    /// was.
    pub fn establish<T>(self, registry: &mut Registry<T>, link: Link, hci_evt_tx: T) -> (out:
        Result<(AclManager, Event), Fatal>)
        ensures
            match established(old(registry)@, link, hci_evt_tx) {
                Ok((connections, emitted)) => {
                    &&& out matches Ok((manager, event)) && manager@ == self@ && event == emitted
                    &&& final(registry)@ == connections
                },
                Err(fatal) => {
                    &&& out matches Err(raised) && raised == fatal
                    &&& final(registry)@ == old(registry)@
                },
            },
    {
        if registry.contains(link.handle) {
            return Err(Fatal::HandleInUse { handle: link.handle });
        }
        registry.insert(
            link.handle,
            ConnectionInternal { addr: link.addr, role: link.role, hci_evt_tx },
        );
        Ok((self, Event::ConnectSuccess(Connection::open(link))))
    }

    /// Takes one notification from the controller. After a fatal condition
    /// there is no coordinator left to go on with.
    pub fn on_event<T>(self, registry: &Registry<T>, event: HciEvent) -> (out: Result<
        (AclManager, Reaction),
        Fatal,
    >)
        ensures
            match self@.on_event(addresses_of(registry@), event) {
                Ok((state, reaction)) => out matches Ok((manager, asked)) && manager@ == state
                    && asked == reaction,
                Err(fatal) => out matches Err(raised) && raised == fatal,
            },
    {
        match event {
            HciEvent::ConnectionComplete { status, connection_handle, bd_addr } => {
                self.on_connection_complete(status, connection_handle, bd_addr)
            },
            HciEvent::ConnectionRequest { bd_addr } => {
                let mut manager = self;
                let command = manager.on_connection_request(registry, bd_addr);
                Ok((manager, Reaction::Send(command)))
            },
            HciEvent::AuthenticationComplete { connection_handle } => Ok(
                (self, Reaction::Dispatch(connection_handle)),
            ),
            _ => Err(Fatal::UnexpectedEvent),
        }
    }
}

} // verus!
