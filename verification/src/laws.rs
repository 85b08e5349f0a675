//! What holds of the state machines whatever the inputs are.

use vstd::prelude::*;
use crate::command::{
    create_connection, AcceptConnectionRequestRole, Command, RejectConnectionReason,
};
use crate::connection::{connection_step, Connection, ConnectionEvent, Progress};
use crate::manager::{
    established, other_than, subscribed, ConnectOutcome, Event, ManagerState, PendingConnect,
    Reaction,
};
use crate::model::{Input, World};
use crate::registry::{addresses_of, dispatch_target, ConnectionInternal};
use crate::types::{
    Address, DisconnectReason, ErrorCode, EventCode, Fatal, HciEvent, Link, Role,
};

verus! {

/// In no state are an outgoing and an incoming attempt under way together.
pub proof fn law_one_attempt_at_a_time(state: ManagerState)
    ensures
        !(state.outgoing() is Some && state.incoming() is Some),
{
}

/// An attempt starts only from an empty slot, and only for the address that
/// the request names.
pub proof fn law_attempt_needs_empty_slot(
    state: ManagerState,
    connected: Set<Address>,
    addr: Address,
)
    ensures
        state.connect(connected, addr).1 matches ConnectOutcome::Attempt(command) ==> {
            &&& state.pending is Idle
            &&& !connected.contains(addr)
            &&& command == create_connection(addr)
            &&& state.connect(connected, addr).0.pending == PendingConnect::Outgoing(addr)
        },
{
}

/// No request empties the slot or puts another attempt in place of the one
/// that is under way.
pub proof fn law_requests_keep_attempt(state: ManagerState, connected: Set<Address>, addr: Address)
    requires
        !(state.pending is Idle),
    ensures
        state.connect(connected, addr).0.pending == state.pending,
        state.cancel_connect(addr).0.pending == state.pending,
{
}

/// An outgoing attempt leaves the slot in two ways only: by its own
/// completion, which empties the slot, or by a peer's request, which takes
/// the slot over.
pub proof fn law_attempt_ends_by_completion(
    state: ManagerState,
    connected: Set<Address>,
    addr: Address,
    event: HciEvent,
)
    requires
        state.pending == PendingConnect::Outgoing(addr),
        state.on_event(connected, event) is Ok,
    ensures
        ({
            let next = state.on_event(connected, event)->Ok_0.0;
            ||| next.pending == state.pending
            ||| (event matches HciEvent::ConnectionComplete { bd_addr, .. } && bd_addr == addr
                && next.pending is Idle)
            ||| (event matches HciEvent::ConnectionRequest { bd_addr } && next.pending
                == PendingConnect::Incoming(bd_addr))
        }),
{
}

/// A completion is fatal if and only if the attempt under way is not one
/// with its address.
pub proof fn law_unmatched_completion_is_fatal(
    state: ManagerState,
    status: ErrorCode,
    handle: u16,
    addr: Address,
)
    ensures
        state.connection_complete(status, handle, addr) is Err <==> state.pending
            != PendingConnect::Outgoing(addr) && state.pending != PendingConnect::Incoming(addr),
        state.connection_complete(status, handle, addr) matches Err(fatal) ==> fatal
            == (Fatal::NoPriorRequest { addr }),
{
}

/// An attempt is resolved once: its completion empties the slot, so that a
/// further completion, for whichever address, finds no attempt and is fatal.
pub proof fn law_completion_resolves_once(
    state: ManagerState,
    status: ErrorCode,
    handle: u16,
    addr: Address,
    later_status: ErrorCode,
    later_handle: u16,
    later_addr: Address,
)
    requires
        state.connection_complete(status, handle, addr) is Ok,
    ensures
        ({
            let resolved = state.connection_complete(status, handle, addr)->Ok_0.0;
            &&& resolved.pending is Idle
            &&& resolved.queue == state.queue
            &&& resolved.connection_complete(later_status, later_handle, later_addr) == Err::<
                (ManagerState, Reaction),
                Fatal,
            >(Fatal::NoPriorRequest { addr: later_addr })
        }),
{
}

/// While an attempt is under way, a request to connect starts nothing: its
/// address goes to the front of the queue, the attempt stays, and no entry
/// of the queue is lost.
pub proof fn law_connect_while_pending_queues(
    state: ManagerState,
    connected: Set<Address>,
    addr: Address,
)
    requires
        !(state.pending is Idle),
        !connected.contains(addr),
    ensures
        state.connect(connected, addr) == (
            ManagerState { pending: state.pending, queue: seq![addr] + state.queue },
            ConnectOutcome::Queued,
        ),
        state.connect(connected, addr).0.queue.contains(addr),
        forall|queued: Address|
            state.queue.contains(queued) ==> state.connect(connected, addr).0.queue.contains(
                queued,
            ),
{
    let queue = state.connect(connected, addr).0.queue;
    assert(queue[0] == addr);
    assert forall|queued: Address| state.queue.contains(queued) implies queue.contains(
        queued,
    ) by {
        let i = choose|i: int| 0 <= i < state.queue.len() && state.queue[i] == queued;
        assert(queue[i + 1] == queued);
    }
}

/// Two requests in a row while nothing is under way: the first is
/// attempted, the second waits in the queue and starts nothing.
pub proof fn law_connect_twice(
    state: ManagerState,
    connected: Set<Address>,
    first: Address,
    second: Address,
)
    requires
        state.pending is Idle,
        !connected.contains(first),
        !connected.contains(second),
    ensures
        ({
            let (attempting, started) = state.connect(connected, first);
            let (waiting, queued) = attempting.connect(connected, second);
            &&& started == ConnectOutcome::Attempt(create_connection(first))
            &&& queued == ConnectOutcome::Queued
            &&& waiting.pending == PendingConnect::Outgoing(first)
            &&& waiting.queue == seq![second] + state.queue
        }),
{
}

/// Whether `input` ends an outgoing attempt to `addr` or takes the slot from
/// it: the completion for `addr`, or a peer's request.
pub open spec fn displaces<T>(input: Input<T>, addr: Address) -> bool {
    input matches Input::Notified { event, .. } && ((event matches HciEvent::ConnectionComplete {
        bd_addr,
        ..
    } && bd_addr == addr) || event is ConnectionRequest)
}

/// As long as the attempt to `first` has not completed and no peer has taken
/// the slot, the attempt stays under way whatever else happens, and a
/// request to connect to any `second` starts nothing.
pub proof fn law_outstanding_attempt_blocks_others<T>(
    world: World<T>,
    inputs: Seq<Input<T>>,
    first: Address,
    second: Address,
)
    requires
        world.manager.pending == PendingConnect::Outgoing(first),
        world.run(inputs) is Some,
        forall|i: int| 0 <= i < inputs.len() ==> !displaces(#[trigger] inputs[i], first),
    ensures
        world.run(inputs)->0.manager.pending == PendingConnect::Outgoing(first),
        !(world.run(inputs)->0.manager.connect(
            addresses_of(world.run(inputs)->0.connections),
            second,
        ).1 is Attempt),
    decreases inputs.len(),
{
    if inputs.len() > 0 {
        law_outstanding_attempt_blocks_others(world, inputs.drop_last(), first, second);
    }
}

/// The queue starts nothing: which command goes out on a request, and what
/// a notification asks for, are the same whatever waits in the queue.
pub proof fn law_queue_starts_nothing(
    state: ManagerState,
    queue: Seq<Address>,
    connected: Set<Address>,
    addr: Address,
    event: HciEvent,
)
    ensures
        ({
            let other = ManagerState { pending: state.pending, queue };
            &&& other.connect(connected, addr).1 == state.connect(connected, addr).1
            &&& other.cancel_connect(addr).1 == state.cancel_connect(addr).1
            &&& match (other.on_event(connected, event), state.on_event(connected, event)) {
                (Ok((_, asked)), Ok((_, reaction))) => asked == reaction,
                (Err(raised), Err(fatal)) => raised == fatal,
                _ => false,
            }
        }),
{
}

/// An address leaves the queue by being cancelled and in no other way.
pub proof fn law_queued_address_stays<T>(world: World<T>, input: Input<T>, addr: Address)
    requires
        world.manager.queue.contains(addr),
        world.step(input) is Some,
        input != Input::<T>::CancelConnect(addr),
    ensures
        world.step(input)->0.manager.queue.contains(addr),
{
    let queue = world.manager.queue;
    let i = choose|i: int| 0 <= i < queue.len() && queue[i] == addr;
    match input {
        Input::Connect(other) => {
            let next = world.step(input)->0.manager.queue;
            if next != queue {
                assert(next[i + 1] == addr);
            }
        },
        Input::CancelConnect(other) => {
            lemma_filtered_queue(queue, other);
        },
        _ => {},
    }
}

/// The coordinator takes every notification of a kind that it subscribes
/// to, and no other.
pub proof fn law_subscribed_events_are_taken(
    state: ManagerState,
    connected: Set<Address>,
    event: HciEvent,
)
    ensures
        (event.code() matches Some(code) && subscribed().contains(code)) <==> state.on_event(
            connected,
            event,
        ) != Err::<(ManagerState, Reaction), Fatal>(Fatal::UnexpectedEvent),
{
}

/// Cancelling an address that waits in the queue while the attempt under way
/// is not the one to it: no command goes out, the address is in the queue no
/// more, the other entries keep their order, and the slot is untouched.
pub proof fn law_cancel_queued(state: ManagerState, addr: Address)
    requires
        state.queue.contains(addr),
        state.pending != PendingConnect::Outgoing(addr),
    ensures
        state.cancel_connect(addr).1 is None,
        state.cancel_connect(addr).0.pending == state.pending,
        state.cancel_connect(addr).0.queue == state.queue.filter(other_than(addr)),
        !state.cancel_connect(addr).0.queue.contains(addr),
        forall|queued: Address|
            queued != addr && state.queue.contains(queued) ==> state.cancel_connect(
                addr,
            ).0.queue.contains(queued),
{
    lemma_filtered_queue(state.queue, addr);
}

/// What a queue holds once `addr` is taken out: every other entry that it
/// held, and `addr` no more.
pub proof fn lemma_filtered_queue(queue: Seq<Address>, addr: Address)
    ensures
        !queue.filter(other_than(addr)).contains(addr),
        forall|queued: Address|
            queued != addr && queue.contains(queued) ==> queue.filter(other_than(addr)).contains(
                queued,
            ),
        forall|queued: Address|
            queue.filter(other_than(addr)).contains(queued) ==> queue.contains(queued),
        queue.filter(other_than(addr)).len() <= queue.len(),
{
    broadcast use vstd::seq_lib::group_filter_ensures;

    assert forall|queued: Address|
        queue.filter(other_than(addr)).contains(queued) implies queue.contains(queued) by {
        queue.lemma_filter_contains_rev(other_than(addr), queued);
    }
}

/// Cancelling the outgoing attempt under way: the command that gives it up
/// goes out and the slot stays as it is. The attempt then ends with the
/// completion for its address, once: after that one the slot is empty, and a
/// further completion for the address is fatal.
pub proof fn law_cancel_pending(
    state: ManagerState,
    addr: Address,
    status: ErrorCode,
    handle: u16,
    later_status: ErrorCode,
    later_handle: u16,
)
    requires
        state.pending == PendingConnect::Outgoing(addr),
    ensures
        ({
            let (cancelled, command) = state.cancel_connect(addr);
            &&& command == Some(Command::CreateConnectionCancel { bd_addr: addr })
            &&& cancelled.pending == PendingConnect::Outgoing(addr)
            &&& cancelled.connection_complete(status, handle, addr) is Ok
            &&& cancelled.connection_complete(status, handle, addr)->Ok_0.0.pending is Idle
            &&& cancelled.connection_complete(status, handle, addr)->Ok_0.0.connection_complete(
                later_status,
                later_handle,
                addr,
            ) == Err::<(ManagerState, Reaction), Fatal>(Fatal::NoPriorRequest { addr })
        }),
{
}

/// A peer that a connection is live to asks for a link: it is turned down
/// as an unacceptable address.
pub proof fn law_request_from_connected_peer<T>(
    state: ManagerState,
    connections: Map<u16, ConnectionInternal<T>>,
    addr: Address,
)
    requires
        addresses_of(connections).contains(addr),
    ensures
        state.on_event(addresses_of(connections), HciEvent::ConnectionRequest { bd_addr: addr })
            == Ok::<(ManagerState, Reaction), Fatal>(
            (
                ManagerState { pending: PendingConnect::Incoming(addr), queue: state.queue },
                Reaction::Send(
                    Command::RejectConnectionRequest {
                        bd_addr: addr,
                        reason: RejectConnectionReason::UnacceptableBdAddr,
                    },
                ),
            ),
        ),
{
}

/// No request and no notification to the coordinator other than a
/// successful completion changes the registry or the connections that run.
pub proof fn law_registry_changes_on_success_only<T>(world: World<T>, input: Input<T>)
    requires
        world.step(input) is Some,
        !(input is Routed),
        !(input matches Input::Notified { event, .. } && (event matches HciEvent::ConnectionComplete {
            status,
            ..
        } && status.succeeded())),
    ensures
        world.step(input)->0.connections == world.connections,
        world.step(input)->0.running == world.running,
{
}

/// A peer that no connection is live to asks for a link and the link comes
/// up: the request is accepted, the completion yields the link with the
/// local device as peripheral, and entering it gives a connection and an
/// entry that say so.
pub proof fn law_incoming_link_is_peripheral<T>(
    state: ManagerState,
    connections: Map<u16, ConnectionInternal<T>>,
    addr: Address,
    status: ErrorCode,
    handle: u16,
    hci_evt_tx: T,
)
    requires
        !addresses_of(connections).contains(addr),
        status.succeeded(),
    ensures
        ({
            let link = Link { addr, handle, role: Role::Peripheral };
            let (asked, answer) = state.connection_request(addresses_of(connections), addr);
            &&& answer == Command::AcceptConnectionRequest {
                bd_addr: addr,
                role: AcceptConnectionRequestRole::BecomeCentral,
            }
            &&& asked.connection_complete(status, handle, addr) == Ok::<
                (ManagerState, Reaction),
                Fatal,
            >(
                (
                    ManagerState { pending: PendingConnect::Idle, queue: state.queue },
                    Reaction::Establish(link),
                ),
            )
            &&& !connections.contains_key(handle) ==> established(connections, link, hci_evt_tx)
                == Ok::<(Map<u16, ConnectionInternal<T>>, Event), Fatal>(
                (
                    connections.insert(
                        handle,
                        ConnectionInternal { addr, role: Role::Peripheral, hci_evt_tx },
                    ),
                    Event::ConnectSuccess(Connection { addr, handle, role: Role::Peripheral }),
                ),
            )
        }),
{
}

/// A request to connect that is attempted and whose link comes up: the
/// completion empties the slot and yields the link with the local device as
/// central; entering it gives the one event of success and one entry more
/// in the registry, under the link's handle.
pub proof fn law_outgoing_link_is_central<T>(
    state: ManagerState,
    connections: Map<u16, ConnectionInternal<T>>,
    addr: Address,
    status: ErrorCode,
    handle: u16,
    hci_evt_tx: T,
)
    requires
        state.pending is Idle,
        !addresses_of(connections).contains(addr),
        status.succeeded(),
        !connections.contains_key(handle),
    ensures
        ({
            let link = Link { addr, handle, role: Role::Central };
            let (attempting, started) = state.connect(addresses_of(connections), addr);
            let entered = connections.insert(
                handle,
                ConnectionInternal { addr, role: Role::Central, hci_evt_tx },
            );
            &&& started == ConnectOutcome::Attempt(create_connection(addr))
            &&& attempting.connection_complete(status, handle, addr) == Ok::<
                (ManagerState, Reaction),
                Fatal,
            >((state, Reaction::Establish(link)))
            &&& established(connections, link, hci_evt_tx) == Ok::<
                (Map<u16, ConnectionInternal<T>>, Event),
                Fatal,
            >((entered, Event::ConnectSuccess(Connection { addr, handle, role: Role::Central })))
            &&& entered.dom() == connections.dom().insert(handle)
            &&& entered.remove(handle) == connections
        }),
{
}

/// A request to connect that is attempted and fails: the completion yields
/// the one event of failure, with the address and the controller's status,
/// and leaves the coordinator as it was before the request. Nothing is
/// entered in the registry.
pub proof fn law_failed_attempt<T>(
    world: World<T>,
    addr: Address,
    status: ErrorCode,
    handle: u16,
    hci_evt_tx: T,
)
    requires
        world.manager.pending is Idle,
        !addresses_of(world.connections).contains(addr),
        !status.succeeded(),
    ensures
        ({
            let (attempting, started) = world.manager.connect(
                addresses_of(world.connections),
                addr,
            );
            &&& started == ConnectOutcome::Attempt(create_connection(addr))
            &&& attempting.connection_complete(status, handle, addr) == Ok::<
                (ManagerState, Reaction),
                Fatal,
            >((world.manager, Reaction::Notify(Event::ConnectFail { addr, reason: status })))
        }),
        ({
            let completion = Input::Notified {
                event: HciEvent::ConnectionComplete {
                    status,
                    connection_handle: handle,
                    bd_addr: addr,
                },
                hci_evt_tx,
            };
            world.step(Input::Connect(addr))->0.step(completion) == Some(world)
        }),
{
}

/// A handle has an entry in the registry if and only if its connection
/// runs: this holds at the start and after every input.
pub proof fn law_registry_tracks_running<T>(world: World<T>, input: Input<T>)
    requires
        world.consistent(),
        world.step(input) is Some,
    ensures
        World::<T>::initial().consistent(),
        world.step(input)->0.consistent(),
        forall|handle: u16|
            world.step(input)->0.connections.contains_key(handle) <==> world.step(
                input,
            )->0.running.contains_key(handle),
{
    let next = world.step(input)->0;
    assert(next.connections.dom() =~= next.running.dom());
}

/// The same of every run of inputs from the start.
pub proof fn law_registry_tracks_running_always<T>(inputs: Seq<Input<T>>)
    requires
        World::<T>::initial().run(inputs) is Some,
    ensures
        World::<T>::initial().run(inputs)->0.consistent(),
    decreases inputs.len(),
{
    if inputs.len() > 0 {
        law_registry_tracks_running_always(inputs.drop_last());
        law_registry_tracks_running(
            World::<T>::initial().run(inputs.drop_last())->0,
            inputs.last(),
        );
    }
}

/// The link of a connection goes down: the connection takes its own entry
/// out of the registry, tells its owner once, with the controller's reason,
/// and is over. From then on nothing is forwarded to its handle.
pub proof fn law_disconnection<T>(
    connection: Connection,
    connections: Map<u16, ConnectionInternal<T>>,
    reason: ErrorCode,
)
    ensures
        ({
            let after = connections.remove(connection.handle);
            &&& connection_step(
                connection,
                connections,
                HciEvent::DisconnectionComplete { reason },
            ) == Ok::<(Map<u16, ConnectionInternal<T>>, Progress), Fatal>(
                (
                    after,
                    Progress { event: ConnectionEvent::Disconnected(reason), connection: None },
                ),
            )
            &&& !after.contains_key(connection.handle)
            &&& dispatch_target(connection.handle, after) is None
            &&& after.remove(connection.handle) == after
        }),
{
}

/// A notification to a connection changes no entry of the registry but the
/// connection's own, no connection but itself, and nothing in the
/// coordinator.
pub proof fn law_connection_keeps_to_itself<T>(
    world: World<T>,
    handle: u16,
    event: HciEvent,
    other: u16,
)
    requires
        world.consistent(),
        world.step(Input::Routed { handle, event }) is Some,
        other != handle,
    ensures
        ({
            let next = world.step(Input::Routed { handle, event })->0;
            &&& next.manager == world.manager
            &&& next.connections.contains_key(other) == world.connections.contains_key(other)
            &&& next.connections.contains_key(other) ==> next.connections[other]
                == world.connections[other]
            &&& next.running.contains_key(other) == world.running.contains_key(other)
            &&& next.running.contains_key(other) ==> next.running[other] == world.running[other]
        }),
{
}

/// In the layer as a whole: once the link of a running connection has gone
/// down, the connection runs no more, its handle has no entry, and no
/// further input can reach it.
pub proof fn law_nothing_after_disconnection<T>(
    world: World<T>,
    handle: u16,
    reason: ErrorCode,
    event: HciEvent,
    later_reason: DisconnectReason,
)
    requires
        world.consistent(),
        world.running.contains_key(handle),
    ensures
        ({
            let down = world.step(
                Input::Routed { handle, event: HciEvent::DisconnectionComplete { reason } },
            );
            &&& down is Some
            &&& down->0.connections == world.connections.remove(handle)
            &&& down->0.running == world.running.remove(handle)
            &&& dispatch_target(handle, down->0.connections) is None
            &&& down->0.step(Input::Routed { handle, event }) is None
            &&& down->0.step(Input::Disconnect { handle, reason: later_reason }) is None
        }),
{
}

/// A request to end the link changes nothing in the layer: the connection
/// runs on and keeps its entry, so that the request is done with before,
/// and whether or not, the link goes down.
pub proof fn law_disconnect_request_changes_nothing<T>(
    world: World<T>,
    handle: u16,
    reason: DisconnectReason,
)
    requires
        world.running.contains_key(handle),
    ensures
        world.step(Input::Disconnect { handle, reason }) == Some(world),
{
}

} // verus!
