//! The commands that the state machines ask to have sent to the controller.

use vstd::prelude::*;
use crate::types::{Address, DisconnectReason};

verus! {

/// How often the peer is assumed to scan for pages.
#[derive(Clone, Copy, Debug, PartialEq, Eq)]
pub enum PageScanRepetitionMode {
    R0,
    R1,
    R2,
}

/// Whether the clock offset in a command is meaningful.
#[derive(Clone, Copy, Debug, PartialEq, Eq)]
pub enum ClockOffsetValid {
    Invalid,
    Valid,
}

/// Whether the peer may ask to swap roles while the link is set up.
#[derive(Clone, Copy, Debug, PartialEq, Eq)]
pub enum CreateConnectionRoleSwitch {
    RemainCentral,
    AllowRoleSwitch,
}

/// The role asked for when a peer's request is accepted.
#[derive(Clone, Copy, Debug, PartialEq, Eq)]
pub enum AcceptConnectionRequestRole {
    BecomeCentral,
    RemainPeripheral,
}

/// Why a peer's request is turned down.
#[derive(Clone, Copy, Debug, PartialEq, Eq)]
pub enum RejectConnectionReason {
    LimitedResources,
    InsufficientSecurity,
    UnacceptableBdAddr,
}

/// A command for the controller. Sending it is the caller's part; how it
/// ended is learned later, from a notification.
#[allow(inconsistent_fields)]
#[derive(Clone, Copy, Debug, PartialEq, Eq)]
pub enum Command {
    /// Page a peer and set up a link to it.
    CreateConnection {
        bd_addr: Address,
        packet_type: u16,
        page_scan_repetition_mode: PageScanRepetitionMode,
        clock_offset: u16,
        clock_offset_valid: ClockOffsetValid,
        allow_role_switch: CreateConnectionRoleSwitch,
    },
    /// Give up the attempt to reach a peer.
    CreateConnectionCancel { bd_addr: Address },
    /// Accept the link that a peer asks for.
    AcceptConnectionRequest { bd_addr: Address, role: AcceptConnectionRequestRole },
    /// Turn down the link that a peer asks for.
    RejectConnectionRequest { bd_addr: Address, reason: RejectConnectionReason },
    /// End an established link.
    Disconnect { connection_handle: u16, reason: DisconnectReason },
}

/// The packet types DM1, DM3 and DM5.
pub const PACKET_TYPES_DM: u16 = 0x4408;

/// The packet types DH1, DH3 and DH5.
pub const PACKET_TYPES_DH: u16 = 0x8810;

/// The command by which every outgoing attempt starts: all DM and DH packet
/// types, page scan mode R1, no clock offset, role switch allowed.
pub open spec fn create_connection(bd_addr: Address) -> Command {
    Command::CreateConnection {
        bd_addr,
        packet_type: 0xCC18,
        page_scan_repetition_mode: PageScanRepetitionMode::R1,
        clock_offset: 0,
        clock_offset_valid: ClockOffsetValid::Invalid,
        allow_role_switch: CreateConnectionRoleSwitch::AllowRoleSwitch,
    }
}

/// Builds the command that starts an attempt to reach `bd_addr`.
pub fn build_create_connection(bd_addr: Address) -> (command: Command)
    ensures
        command == create_connection(bd_addr),
{
    assert(PACKET_TYPES_DM | PACKET_TYPES_DH == 0xCC18) by (bit_vector);
    Command::CreateConnection {
        bd_addr,
        packet_type: PACKET_TYPES_DM | PACKET_TYPES_DH,
        page_scan_repetition_mode: PageScanRepetitionMode::R1,
        clock_offset: 0,
        clock_offset_valid: ClockOffsetValid::Invalid,
        allow_role_switch: CreateConnectionRoleSwitch::AllowRoleSwitch,
    }
}

} // verus!
