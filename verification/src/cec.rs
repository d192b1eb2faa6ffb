//! CEC frames for the television commands.
//!
//! The host speaks on the bus as the second playback device and addresses
//! every frame to all listeners. A physical address has four digits of four
//! bits each and travels as two bytes, the first digit in the high half of the
//! first byte. A digit above 15 is cut to its low four bits.

use vstd::prelude::*;
use crate::config::RemoteCommand;

verus! {

/// A participant on the CEC bus.
#[derive(Clone, Copy, Debug, PartialEq, Eq, Structural)]
pub enum LogicalAddress {
    /// The second playback device: the host.
    Playback2,
    /// As a destination: every device on the bus.
    UnregisteredBroadcast,
}

/// What a frame asks for.
#[derive(Clone, Copy, Debug, PartialEq, Eq, Structural)]
pub enum Opcode {
    ImageViewOn,
    ActiveSource,
    Standby,
}

/// One frame to transmit.
#[derive(Clone, Copy, Debug, PartialEq, Eq)]
pub struct CecFrame {
    pub source: LogicalAddress,
    pub destination: LogicalAddress,
    pub opcode: Opcode,
    /// The bytes after the opcode, for an opcode that takes any.
    pub payload: Option<[u8; 2]>,
}

/// Two digits of a physical address in one byte, each cut to four bits.
pub open spec fn pack_digits(high: u8, low: u8) -> u8 {
    ((high % 16) * 16 + low % 16) as u8
}

/// The two bytes that carry a physical address.
pub open spec fn packed_address(physical_address: [u8; 4]) -> [u8; 2] {
    [
        pack_digits(physical_address[0], physical_address[1]),
        pack_digits(physical_address[2], physical_address[3]),
    ]
}

/// The frame from the host to every device.
pub open spec fn broadcast(opcode: Opcode, payload: Option<[u8; 2]>) -> CecFrame {
    CecFrame {
        source: LogicalAddress::Playback2,
        destination: LogicalAddress::UnregisteredBroadcast,
        opcode,
        payload,
    }
}

/// The frame that carries out a command, for the commands that speak to the
/// bus.
pub open spec fn frame_of(command: RemoteCommand) -> Option<CecFrame> {
    match command {
        RemoteCommand::CecImageViewOn => Some(broadcast(Opcode::ImageViewOn, None)),
        RemoteCommand::CecActiveSourceSelf => Some(
            broadcast(Opcode::ActiveSource, Some([0x20u8, 0x00u8])),
        ),
        RemoteCommand::CecActiveSource { physical_address } => Some(
            broadcast(Opcode::ActiveSource, Some(packed_address(physical_address))),
        ),
        RemoteCommand::CecStandby => Some(broadcast(Opcode::Standby, None)),
        RemoteCommand::TrackpadMove { .. } => None,
        RemoteCommand::TrackpadClick { .. } => None,
        RemoteCommand::TrackpadScroll { .. } => None,
        RemoteCommand::MpdPlayPause => None,
        RemoteCommand::MpdNext => None,
        RemoteCommand::MpdPrevious => None,
    }
}

/// Packs two digits into one byte.
fn pack_pair(high: u8, low: u8) -> (byte: u8)
    ensures
        byte == pack_digits(high, low),
{
    assert(((high & 0xf) << 4) | (low & 0xf) == (high % 16) * 16 + low % 16) by (bit_vector);
    ((high & 0xf) << 4) | (low & 0xf)
}

/// Packs a physical address into the two bytes that carry it.
pub fn pack_physical_address(physical_address: [u8; 4]) -> (bytes: [u8; 2])
    ensures
        bytes == packed_address(physical_address),
{
    let first: u8 = pack_pair(physical_address[0], physical_address[1]);
    let second: u8 = pack_pair(physical_address[2], physical_address[3]);
    let bytes: [u8; 2] = [first, second];
    assert(bytes =~= packed_address(physical_address));
    bytes
}

/// Builds a frame from the host to every device.
fn broadcast_frame(opcode: Opcode, payload: Option<[u8; 2]>) -> (frame: CecFrame)
    ensures
        frame == broadcast(opcode, payload),
{
    CecFrame {
        source: LogicalAddress::Playback2,
        destination: LogicalAddress::UnregisteredBroadcast,
        opcode,
        payload,
    }
}

/// The frame that carries out `command`, or `None` for a command that does
/// not speak to the bus.
pub fn frame_for(command: RemoteCommand) -> (frame: Option<CecFrame>)
    ensures
        frame == frame_of(command),
{
    match command {
        RemoteCommand::CecImageViewOn => Some(broadcast_frame(Opcode::ImageViewOn, None)),
        RemoteCommand::CecActiveSourceSelf => {
            let own: [u8; 2] = [0x20, 0x00];
            assert(own =~= [0x20u8, 0x00u8]);
            Some(broadcast_frame(Opcode::ActiveSource, Some(own)))
        },
        RemoteCommand::CecActiveSource { physical_address } => {
            let bytes: [u8; 2] = pack_physical_address(physical_address);
            Some(broadcast_frame(Opcode::ActiveSource, Some(bytes)))
        },
        RemoteCommand::CecStandby => Some(broadcast_frame(Opcode::Standby, None)),
        RemoteCommand::TrackpadMove { .. } => None,
        RemoteCommand::TrackpadClick { .. } => None,
        RemoteCommand::TrackpadScroll { .. } => None,
        RemoteCommand::MpdPlayPause => None,
        RemoteCommand::MpdNext => None,
        RemoteCommand::MpdPrevious => None,
    }
}

/// Digits within range are packed as they are: the first is worth sixteen of
/// the second.
pub proof fn lemma_pack_digits_in_range(high: u8, low: u8)
    requires
        high <= 15,
        low <= 15,
    ensures
        pack_digits(high, low) == high * 16 + low,
{
}

/// Only the low four bits of a digit reach the bus.
pub proof fn lemma_pack_digits_masks(high: u8, low: u8)
    ensures
        pack_digits(high, low) == pack_digits((high % 16) as u8, (low % 16) as u8),
        pack_digits(high, low) / 16 == high % 16,
        pack_digits(high, low) % 16 == low % 16,
{
}

/// Making the host the active source names the physical address 2.0.0.0,
/// whatever was sent before.
pub proof fn lemma_active_source_self()
    ensures
        frame_of(RemoteCommand::CecActiveSourceSelf) == Some(
            broadcast(Opcode::ActiveSource, Some([0x20u8, 0x00u8])),
        ),
        frame_of(RemoteCommand::CecActiveSourceSelf) == frame_of(
            RemoteCommand::CecActiveSource { physical_address: [2u8, 0u8, 0u8, 0u8] },
        ),
{
    let own: [u8; 4] = [2u8, 0u8, 0u8, 0u8];
    assert(packed_address(own) =~= [0x20u8, 0x00u8]);
}

} // verus!
