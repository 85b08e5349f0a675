//! The layer as a whole: the coordinator, the registry and the connections
//! that run, put together as one value that moves by one input at a time.
//!
//! The value moves by the same functions over plain values that the
//! contracts of the executable functions are written in. What is proved of
//! every state that it can reach therefore holds of every run that puts
//! those functions together in this way.

use vstd::prelude::*;
use crate::connection::{connection_step, Connection};
use crate::manager::{established, ManagerState, Reaction};
use crate::registry::{addresses_of, ConnectionInternal};
use crate::types::{Address, DisconnectReason, HciEvent};

verus! {

/// The state of the layer.
pub struct World<T> {
    /// The coordinator.
    pub manager: ManagerState,
    /// The registry.
    pub connections: Map<u16, ConnectionInternal<T>>,
    /// The connections that run, each under its handle.
    pub running: Map<u16, Connection>,
}

/// What can happen to the layer.
pub enum Input<T> {
    /// The caller asks for a link.
    Connect(Address),
    /// The caller takes the request back.
    CancelConnect(Address),
    /// The controller notifies the coordinator. Should a link come up,
    /// `hci_evt_tx` is the endpoint that its transport has.
    Notified { event: HciEvent, hci_evt_tx: T },
    /// A notification reaches the connection that holds `handle`.
    Routed { handle: u16, event: HciEvent },
    /// The owner of the connection that holds `handle` asks to end the link.
    Disconnect { handle: u16, reason: DisconnectReason },
}

impl<T> World<T> {
    /// The layer at the start.
    pub open spec fn initial() -> World<T> {
        World { manager: ManagerState::idle(), connections: Map::empty(), running: Map::empty() }
    }

    /// The layer after one input; `None` where the input meets a fatal
    /// condition or is meant for a connection that does not run.
    pub open spec fn step(self, input: Input<T>) -> Option<World<T>> {
        match input {
            Input::Connect(addr) => Some(
                World {
                    manager: self.manager.connect(addresses_of(self.connections), addr).0,
                    ..self
                },
            ),
            Input::CancelConnect(addr) => Some(
                World { manager: self.manager.cancel_connect(addr).0, ..self },
            ),
            Input::Notified { event, hci_evt_tx } => {
                match self.manager.on_event(addresses_of(self.connections), event) {
                    Ok((manager, Reaction::Establish(link))) => {
                        match established(self.connections, link, hci_evt_tx) {
                            Ok((connections, _)) => Some(
                                World {
                                    manager,
                                    connections,
                                    running: self.running.insert(
                                        link.handle,
                                        Connection::of(link),
                                    ),
                                },
                            ),
                            Err(_) => None,
                        }
                    },
                    Ok((manager, _)) => Some(World { manager, ..self }),
                    Err(_) => None,
                }
            },
            Input::Routed { handle, event } => {
                if self.running.contains_key(handle) {
                    match connection_step(self.running[handle], self.connections, event) {
                        Ok((connections, progress)) => Some(
                            World {
                                manager: self.manager,
                                connections,
                                running: match progress.connection {
                                    Some(connection) => self.running.insert(handle, connection),
                                    None => self.running.remove(handle),
                                },
                            },
                        ),
                        Err(_) => None,
                    }
                } else {
                    None
                }
            },
            Input::Disconnect { handle, reason } => {
                if self.running.contains_key(handle) {
                    Some(self)
                } else {
                    None
                }
            },
        }
    }

    /// The registry and the running connections agree: a handle has an entry
    /// if and only if its connection runs, and the two tell the same of the
    /// link.
    pub open spec fn consistent(self) -> bool {
        &&& self.connections.dom() == self.running.dom()
        &&& forall|handle: u16| #[trigger]
            self.running.contains_key(handle) ==> {
                &&& self.running[handle].handle == handle
                &&& self.running[handle].addr == self.connections[handle].addr
                &&& self.running[handle].role == self.connections[handle].role
            }
    }

    /// The layer after a run of inputs, or `None` where one of them could
    /// not be taken.
    pub open spec fn run(self, inputs: Seq<Input<T>>) -> Option<World<T>>
        decreases inputs.len(),
    {
        if inputs.len() == 0 {
            Some(self)
        } else {
            match self.run(inputs.drop_last()) {
                Some(world) => world.step(inputs.last()),
                None => None,
            }
        }
    }
}

} // verus!
