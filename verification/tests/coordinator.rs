use classic_acl::command::{
    build_create_connection, AcceptConnectionRequestRole, ClockOffsetValid, Command,
    CreateConnectionRoleSwitch, PageScanRepetitionMode, RejectConnectionReason,
};
use classic_acl::manager::{AclManager, ConnectOutcome, Event, PendingConnect, Reaction};
use classic_acl::registry::{dispatch_to, Registry};
use classic_acl::types::{Address, ErrorCode, Fatal, HciEvent, Link, Role};

fn addr(last: u8) -> Address {
    Address { bytes: [0x00, 0x1a, 0x7d, 0xda, 0x71, last] }
}

fn success() -> ErrorCode {
    ErrorCode { code: 0x00 }
}

fn page_timeout() -> ErrorCode {
    ErrorCode { code: 0x04 }
}

fn complete(status: ErrorCode, handle: u16, peer: Address) -> HciEvent {
    HciEvent::ConnectionComplete { status, connection_handle: handle, bd_addr: peer }
}

fn link_of(reaction: Reaction) -> Link {
    match reaction {
        Reaction::Establish(link) => link,
        other => panic!("{:?}", other),
    }
}

fn registry_with(handle: u16, peer: Address, role: Role, endpoint: u32) -> Registry<u32> {
    let mut registry = Registry::new();
    let mut manager = AclManager::new();
    match role {
        Role::Central => {
            manager.connect(&registry, peer);
        }
        Role::Peripheral => {
            manager.on_connection_request(&registry, peer);
        }
    }
    let (manager, reaction) = manager.on_connection_complete(success(), handle, peer).unwrap();
    manager.establish(&mut registry, link_of(reaction), endpoint).unwrap();
    registry
}

#[test]
fn new_manager_is_idle_with_empty_queue() {
    let manager = AclManager::new();
    assert_eq!(manager.pending(), PendingConnect::Idle);
    assert!(manager.queue().is_empty());
}

#[test]
fn create_connection_command_has_the_fixed_parameters() {
    let command = build_create_connection(addr(1));
    assert_eq!(
        command,
        Command::CreateConnection {
            bd_addr: addr(1),
            packet_type: 0xcc18,
            page_scan_repetition_mode: PageScanRepetitionMode::R1,
            clock_offset: 0,
            clock_offset_valid: ClockOffsetValid::Invalid,
            allow_role_switch: CreateConnectionRoleSwitch::AllowRoleSwitch,
        }
    );
}

#[test]
fn connect_from_idle_starts_the_attempt() {
    let registry: Registry<u32> = Registry::new();
    let mut manager = AclManager::new();
    let outcome = manager.connect(&registry, addr(1));
    assert_eq!(outcome, ConnectOutcome::Attempt(build_create_connection(addr(1))));
    assert_eq!(manager.pending(), PendingConnect::Outgoing(addr(1)));
    assert!(manager.queue().is_empty());
}

#[test]
fn connect_while_outstanding_is_queued_not_dropped() {
    let registry: Registry<u32> = Registry::new();
    let mut manager = AclManager::new();
    manager.connect(&registry, addr(1));
    let outcome = manager.connect(&registry, addr(2));
    assert_eq!(outcome, ConnectOutcome::Queued);
    assert_eq!(manager.pending(), PendingConnect::Outgoing(addr(1)));
    assert_eq!(manager.queue(), &vec![addr(2)]);
}

#[test]
fn later_requests_go_to_the_front_of_the_queue() {
    let registry: Registry<u32> = Registry::new();
    let mut manager = AclManager::new();
    manager.connect(&registry, addr(1));
    manager.connect(&registry, addr(2));
    manager.connect(&registry, addr(3));
    manager.connect(&registry, addr(4));
    assert_eq!(manager.queue(), &vec![addr(4), addr(3), addr(2)]);
}

#[test]
fn repeated_request_is_queued_again() {
    let registry: Registry<u32> = Registry::new();
    let mut manager = AclManager::new();
    manager.connect(&registry, addr(1));
    assert_eq!(manager.connect(&registry, addr(1)), ConnectOutcome::Queued);
    assert_eq!(manager.connect(&registry, addr(2)), ConnectOutcome::Queued);
    assert_eq!(manager.connect(&registry, addr(2)), ConnectOutcome::Queued);
    assert_eq!(manager.queue(), &vec![addr(2), addr(2), addr(1)]);
}

#[test]
fn connect_to_a_connected_peer_is_dropped() {
    let registry = registry_with(0x0042, addr(1), Role::Central, 7);
    let mut manager = AclManager::new();
    assert_eq!(manager.connect(&registry, addr(1)), ConnectOutcome::AlreadyConnected);
    assert_eq!(manager.pending(), PendingConnect::Idle);
    assert!(manager.queue().is_empty());

    manager.connect(&registry, addr(2));
    assert_eq!(manager.connect(&registry, addr(1)), ConnectOutcome::AlreadyConnected);
    assert_eq!(manager.pending(), PendingConnect::Outgoing(addr(2)));
    assert!(manager.queue().is_empty());
}

#[test]
fn queued_address_waits_while_incoming_attempt_is_pending() {
    let registry: Registry<u32> = Registry::new();
    let manager = AclManager::new();
    let (mut manager, _) =
        manager.on_event(&registry, HciEvent::ConnectionRequest { bd_addr: addr(9) }).unwrap();
    assert_eq!(manager.connect(&registry, addr(1)), ConnectOutcome::Queued);
    assert_eq!(manager.pending(), PendingConnect::Incoming(addr(9)));
    assert_eq!(manager.queue(), &vec![addr(1)]);
}

#[test]
fn completion_leaves_the_queue_and_starts_nothing() {
    let registry: Registry<u32> = Registry::new();
    let mut manager = AclManager::new();
    manager.connect(&registry, addr(1));
    manager.connect(&registry, addr(2));
    let (mut manager, reaction) =
        manager.on_event(&registry, complete(page_timeout(), 0, addr(1))).unwrap();
    assert_eq!(
        reaction,
        Reaction::Notify(Event::ConnectFail { addr: addr(1), reason: page_timeout() })
    );
    assert_eq!(manager.pending(), PendingConnect::Idle);
    assert_eq!(manager.queue(), &vec![addr(2)]);

    let outcome = manager.connect(&registry, addr(3));
    assert_eq!(outcome, ConnectOutcome::Attempt(build_create_connection(addr(3))));
    assert_eq!(manager.queue(), &vec![addr(2)]);
}

#[test]
fn cancel_of_a_queued_address_sends_nothing() {
    let registry: Registry<u32> = Registry::new();
    let mut manager = AclManager::new();
    manager.connect(&registry, addr(1));
    manager.connect(&registry, addr(2));
    assert_eq!(manager.cancel_connect(addr(2)), None);
    assert_eq!(manager.pending(), PendingConnect::Outgoing(addr(1)));
    assert!(manager.queue().is_empty());
}

#[test]
fn cancel_takes_out_every_entry_and_keeps_the_order_of_the_rest() {
    let registry: Registry<u32> = Registry::new();
    let mut manager = AclManager::new();
    manager.connect(&registry, addr(1));
    manager.connect(&registry, addr(2));
    manager.connect(&registry, addr(3));
    manager.connect(&registry, addr(2));
    manager.connect(&registry, addr(4));
    manager.connect(&registry, addr(2));
    assert_eq!(manager.cancel_connect(addr(2)), None);
    assert_eq!(manager.queue(), &vec![addr(4), addr(3)]);
}

#[test]
fn cancel_of_the_pending_outgoing_attempt_sends_the_cancel_command() {
    let registry: Registry<u32> = Registry::new();
    let mut manager = AclManager::new();
    manager.connect(&registry, addr(1));
    assert_eq!(
        manager.cancel_connect(addr(1)),
        Some(Command::CreateConnectionCancel { bd_addr: addr(1) })
    );
    assert_eq!(manager.pending(), PendingConnect::Outgoing(addr(1)));
}

#[test]
fn cancelled_attempt_still_resolves_once() {
    let registry: Registry<u32> = Registry::new();
    let mut manager = AclManager::new();
    manager.connect(&registry, addr(1));
    manager.cancel_connect(addr(1));
    let unknown_connection = ErrorCode { code: 0x02 };
    let (manager, reaction) =
        manager.on_event(&registry, complete(unknown_connection, 0, addr(1))).unwrap();
    assert_eq!(
        reaction,
        Reaction::Notify(Event::ConnectFail { addr: addr(1), reason: unknown_connection })
    );
    assert_eq!(manager.pending(), PendingConnect::Idle);
    let again = manager.on_event(&registry, complete(unknown_connection, 0, addr(1)));
    assert_eq!(again.unwrap_err(), Fatal::NoPriorRequest { addr: addr(1) });
}

#[test]
fn cancel_of_pending_also_clears_queued_duplicates() {
    let registry: Registry<u32> = Registry::new();
    let mut manager = AclManager::new();
    manager.connect(&registry, addr(1));
    manager.connect(&registry, addr(1));
    manager.connect(&registry, addr(2));
    assert_eq!(
        manager.cancel_connect(addr(1)),
        Some(Command::CreateConnectionCancel { bd_addr: addr(1) })
    );
    assert_eq!(manager.queue(), &vec![addr(2)]);
}

#[test]
fn cancel_of_an_unknown_address_changes_nothing() {
    let registry: Registry<u32> = Registry::new();
    let mut manager = AclManager::new();
    assert_eq!(manager.cancel_connect(addr(5)), None);
    manager.connect(&registry, addr(1));
    manager.connect(&registry, addr(2));
    assert_eq!(manager.cancel_connect(addr(5)), None);
    assert_eq!(manager.pending(), PendingConnect::Outgoing(addr(1)));
    assert_eq!(manager.queue(), &vec![addr(2)]);
}

#[test]
fn cancel_of_an_incoming_attempt_sends_nothing() {
    let registry: Registry<u32> = Registry::new();
    let mut manager = AclManager::new();
    manager.on_connection_request(&registry, addr(1));
    assert_eq!(manager.cancel_connect(addr(1)), None);
    assert_eq!(manager.pending(), PendingConnect::Incoming(addr(1)));
}

#[test]
fn request_from_a_new_peer_is_accepted() {
    let registry = registry_with(0x0042, addr(1), Role::Central, 7);
    let manager = AclManager::new();
    let (manager, reaction) =
        manager.on_event(&registry, HciEvent::ConnectionRequest { bd_addr: addr(2) }).unwrap();
    assert_eq!(
        reaction,
        Reaction::Send(Command::AcceptConnectionRequest {
            bd_addr: addr(2),
            role: AcceptConnectionRequestRole::BecomeCentral,
        })
    );
    assert_eq!(manager.pending(), PendingConnect::Incoming(addr(2)));
}

#[test]
fn request_from_a_connected_peer_is_rejected() {
    let registry = registry_with(0x0042, addr(1), Role::Central, 7);
    let manager = AclManager::new();
    let (manager, reaction) =
        manager.on_event(&registry, HciEvent::ConnectionRequest { bd_addr: addr(1) }).unwrap();
    assert_eq!(
        reaction,
        Reaction::Send(Command::RejectConnectionRequest {
            bd_addr: addr(1),
            reason: RejectConnectionReason::UnacceptableBdAddr,
        })
    );
    assert_eq!(manager.pending(), PendingConnect::Incoming(addr(1)));
    assert_eq!(registry.len(), 1);
    assert_eq!(registry.get(0x0042).unwrap().addr, addr(1));
    assert_eq!(registry.get(0x0042).unwrap().role, Role::Central);
}

#[test]
fn request_takes_the_slot_from_an_outgoing_attempt() {
    let registry: Registry<u32> = Registry::new();
    let mut manager = AclManager::new();
    manager.connect(&registry, addr(1));
    let (manager, _) =
        manager.on_event(&registry, HciEvent::ConnectionRequest { bd_addr: addr(2) }).unwrap();
    assert_eq!(manager.pending(), PendingConnect::Incoming(addr(2)));
    let late = manager.on_event(&registry, complete(success(), 0x0001, addr(1)));
    assert_eq!(late.unwrap_err(), Fatal::NoPriorRequest { addr: addr(1) });
}

#[test]
fn outgoing_success_makes_the_local_device_central() {
    let mut registry: Registry<u32> = Registry::new();
    let mut manager = AclManager::new();
    manager.connect(&registry, addr(1));
    let (manager, reaction) =
        manager.on_event(&registry, complete(success(), 0x0042, addr(1))).unwrap();
    let link = link_of(reaction);
    assert_eq!(link.addr, addr(1));
    assert_eq!(link.handle, 0x0042);
    assert_eq!(link.role, Role::Central);
    assert_eq!(manager.pending(), PendingConnect::Idle);
    assert_eq!(registry.len(), 0);

    let (manager, event) = manager.establish(&mut registry, link, 7).unwrap();
    match event {
        Event::ConnectSuccess(connection) => {
            assert_eq!(connection.addr, addr(1));
            assert_eq!(connection.handle, 0x0042);
            assert_eq!(connection.role, Role::Central);
        }
        other => panic!("{:?}", other),
    }
    assert_eq!(manager.pending(), PendingConnect::Idle);
    assert_eq!(registry.len(), 1);
    let entry = registry.get(0x0042).unwrap();
    assert_eq!(entry.addr, addr(1));
    assert_eq!(entry.role, Role::Central);
    assert_eq!(entry.hci_evt_tx, 7);
}

#[test]
fn incoming_success_makes_the_local_device_peripheral() {
    let mut registry: Registry<u32> = Registry::new();
    let manager = AclManager::new();
    let (manager, _) =
        manager.on_event(&registry, HciEvent::ConnectionRequest { bd_addr: addr(2) }).unwrap();
    let (manager, reaction) =
        manager.on_event(&registry, complete(success(), 0x0007, addr(2))).unwrap();
    let link = link_of(reaction);
    assert_eq!(link.addr, addr(2));
    assert_eq!(link.handle, 0x0007);
    assert_eq!(link.role, Role::Peripheral);
    assert_eq!(manager.pending(), PendingConnect::Idle);
    match manager.establish(&mut registry, link, 3).unwrap() {
        (_, Event::ConnectSuccess(connection)) => assert_eq!(connection.role, Role::Peripheral),
        other => panic!("{:?}", other),
    }
    assert_eq!(registry.get(0x0007).unwrap().role, Role::Peripheral);
}

#[test]
fn establish_leaves_the_coordinator_as_it_was() {
    let mut registry: Registry<u32> = Registry::new();
    let mut manager = AclManager::new();
    manager.connect(&registry, addr(1));
    manager.connect(&registry, addr(2));
    let (mut manager, reaction) =
        manager.on_event(&registry, complete(success(), 1, addr(1))).unwrap();
    manager.connect(&registry, addr(3));
    let (manager, _) = manager.establish(&mut registry, link_of(reaction), 1).unwrap();
    assert_eq!(manager.pending(), PendingConnect::Outgoing(addr(3)));
    assert_eq!(manager.queue(), &vec![addr(2)]);
}

#[test]
fn failed_attempt_is_reported_once_and_enters_nothing() {
    let registry: Registry<u32> = Registry::new();
    let mut manager = AclManager::new();
    manager.connect(&registry, addr(1));
    let (manager, reaction) =
        manager.on_event(&registry, complete(page_timeout(), 0x0042, addr(1))).unwrap();
    assert_eq!(
        reaction,
        Reaction::Notify(Event::ConnectFail { addr: addr(1), reason: page_timeout() })
    );
    assert_eq!(manager.pending(), PendingConnect::Idle);
    assert_eq!(registry.len(), 0);
    assert!(!registry.contains(0x0042));
}

#[test]
fn failed_incoming_attempt_is_reported_too() {
    let registry: Registry<u32> = Registry::new();
    let mut manager = AclManager::new();
    manager.on_connection_request(&registry, addr(2));
    let (manager, reaction) =
        manager.on_connection_complete(page_timeout(), 0, addr(2)).unwrap();
    assert_eq!(
        reaction,
        Reaction::Notify(Event::ConnectFail { addr: addr(2), reason: page_timeout() })
    );
    assert_eq!(manager.pending(), PendingConnect::Idle);
}

#[test]
fn completion_without_an_attempt_is_fatal() {
    let registry: Registry<u32> = Registry::new();
    let manager = AclManager::new();
    let out = manager.on_event(&registry, complete(success(), 0x0001, addr(1)));
    assert_eq!(out.unwrap_err(), Fatal::NoPriorRequest { addr: addr(1) });
}

#[test]
fn completion_for_another_address_is_fatal() {
    let registry: Registry<u32> = Registry::new();
    let mut manager = AclManager::new();
    manager.connect(&registry, addr(1));
    let out = manager.on_event(&registry, complete(success(), 0x0001, addr(2)));
    assert_eq!(out.unwrap_err(), Fatal::NoPriorRequest { addr: addr(2) });

    let mut manager = AclManager::new();
    manager.on_connection_request(&registry, addr(1));
    let out = manager.on_connection_complete(page_timeout(), 0x0001, addr(2));
    assert_eq!(out.unwrap_err(), Fatal::NoPriorRequest { addr: addr(2) });
}

#[test]
fn addresses_differing_in_one_byte_do_not_match() {
    let registry: Registry<u32> = Registry::new();
    let mut manager = AclManager::new();
    let near = Address { bytes: [0x01, 0x1a, 0x7d, 0xda, 0x71, 0x01] };
    manager.connect(&registry, addr(1));
    assert_eq!(manager.cancel_connect(near), None);
    let out = manager.on_event(&registry, complete(success(), 0x0001, near));
    assert_eq!(out.unwrap_err(), Fatal::NoPriorRequest { addr: near });
}

#[test]
fn authentication_complete_is_dispatched_by_handle() {
    let registry = registry_with(0x0042, addr(1), Role::Central, 7);
    let mut manager = AclManager::new();
    manager.connect(&registry, addr(2));
    let (manager, reaction) = manager
        .on_event(&registry, HciEvent::AuthenticationComplete { connection_handle: 0x0042 })
        .unwrap();
    assert_eq!(reaction, Reaction::Dispatch(0x0042));
    assert_eq!(manager.pending(), PendingConnect::Outgoing(addr(2)));
    assert_eq!(dispatch_to(0x0042, &registry), Some(&7));
}

#[test]
fn notification_for_an_unknown_handle_is_dropped() {
    let registry = registry_with(0x0042, addr(1), Role::Central, 7);
    assert_eq!(dispatch_to(0x0043, &registry), None);
    let empty: Registry<u32> = Registry::new();
    assert_eq!(dispatch_to(0x0042, &empty), None);
}

#[test]
fn coordinator_takes_no_other_notification() {
    let registry: Registry<u32> = Registry::new();
    let out = AclManager::new().on_event(&registry, HciEvent::Other);
    assert_eq!(out.unwrap_err(), Fatal::UnexpectedEvent);
    let out = AclManager::new()
        .on_event(&registry, HciEvent::DisconnectionComplete { reason: ErrorCode { code: 0x13 } });
    assert_eq!(out.unwrap_err(), Fatal::UnexpectedEvent);
}

#[test]
fn take_hands_out_the_attempt_and_empties_the_slot() {
    let mut pending = PendingConnect::Outgoing(addr(1));
    assert_eq!(pending.take(), PendingConnect::Outgoing(addr(1)));
    assert_eq!(pending, PendingConnect::Idle);
    assert_eq!(pending.take(), PendingConnect::Idle);
    let mut pending = PendingConnect::Incoming(addr(2));
    assert_eq!(pending.take(), PendingConnect::Incoming(addr(2)));
    assert_eq!(pending, PendingConnect::Idle);
}

#[test]
fn role_follows_the_direction_of_the_attempt() {
    assert_eq!(PendingConnect::Outgoing(addr(1)).resolve(addr(1)), Some(Role::Central));
    assert_eq!(PendingConnect::Incoming(addr(1)).resolve(addr(1)), Some(Role::Peripheral));
    assert_eq!(PendingConnect::Outgoing(addr(1)).resolve(addr(2)), None);
    assert_eq!(PendingConnect::Incoming(addr(1)).resolve(addr(2)), None);
    assert_eq!(PendingConnect::Idle.resolve(addr(1)), None);
}

#[test]
fn only_status_zero_is_success() {
    assert!(ErrorCode { code: 0x00 }.is_success());
    assert!(!ErrorCode { code: 0x01 }.is_success());
    assert!(!ErrorCode { code: 0xff }.is_success());
}
