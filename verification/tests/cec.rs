use dark_remote::cec::{frame_for, pack_physical_address, CecFrame, LogicalAddress, Opcode};
use dark_remote::config::{RemoteCommand, TrackpadButton};

fn broadcast(opcode: Opcode, payload: Option<[u8; 2]>) -> CecFrame {
    CecFrame {
        source: LogicalAddress::Playback2,
        destination: LogicalAddress::UnregisteredBroadcast,
        opcode,
        payload,
    }
}

#[test]
fn a_physical_address_is_packed_two_digits_to_a_byte() {
    assert_eq!(pack_physical_address([1, 2, 3, 4]), [0x12, 0x34]);
    assert_eq!(pack_physical_address([0, 0, 0, 0]), [0x00, 0x00]);
    assert_eq!(pack_physical_address([2, 0, 0, 0]), [0x20, 0x00]);
    assert_eq!(pack_physical_address([15, 15, 15, 15]), [0xff, 0xff]);
    assert_eq!(pack_physical_address([0, 1, 10, 0]), [0x01, 0xa0]);
}

#[test]
fn a_digit_above_fifteen_is_cut_to_four_bits() {
    assert_eq!(pack_physical_address([16, 0, 0, 0]), [0x00, 0x00]);
    assert_eq!(pack_physical_address([0x1f, 0xf2, 255, 16]), [0xf2, 0xf0]);
    assert_eq!(pack_physical_address([0x21, 0x32, 0x43, 0x54]), [0x12, 0x34]);
    for high in 0..=255u8 {
        for low in 0..=255u8 {
            let packed = pack_physical_address([high, low, low, high]);
            assert_eq!(packed, [(high % 16) * 16 + low % 16, (low % 16) * 16 + high % 16]);
        }
    }
}

#[test]
fn image_view_on_is_broadcast_without_payload() {
    assert_eq!(frame_for(RemoteCommand::CecImageViewOn), Some(broadcast(Opcode::ImageViewOn, None)));
}

#[test]
fn standby_is_broadcast_without_payload() {
    assert_eq!(frame_for(RemoteCommand::CecStandby), Some(broadcast(Opcode::Standby, None)));
}

#[test]
fn active_source_self_names_the_own_address() {
    let expected = Some(broadcast(Opcode::ActiveSource, Some([0x20, 0x00])));
    assert_eq!(frame_for(RemoteCommand::CecActiveSourceSelf), expected);
    let _ = frame_for(RemoteCommand::CecActiveSource { physical_address: [9, 9, 9, 9] });
    let _ = frame_for(RemoteCommand::CecStandby);
    assert_eq!(frame_for(RemoteCommand::CecActiveSourceSelf), expected);
    assert_eq!(
        frame_for(RemoteCommand::CecActiveSourceSelf),
        frame_for(RemoteCommand::CecActiveSource { physical_address: [2, 0, 0, 0] })
    );
}

#[test]
fn active_source_carries_the_packed_address() {
    assert_eq!(
        frame_for(RemoteCommand::CecActiveSource { physical_address: [1, 2, 3, 4] }),
        Some(broadcast(Opcode::ActiveSource, Some([0x12, 0x34])))
    );
    assert_eq!(
        frame_for(RemoteCommand::CecActiveSource { physical_address: [0, 0, 0, 0] }),
        Some(broadcast(Opcode::ActiveSource, Some([0x00, 0x00])))
    );
    assert_eq!(
        frame_for(RemoteCommand::CecActiveSource { physical_address: [3, 0, 0, 0] }),
        Some(broadcast(Opcode::ActiveSource, Some([0x30, 0x00])))
    );
}

#[test]
fn other_commands_have_no_frame() {
    let others = [
        RemoteCommand::TrackpadMove { delta_x: 1, delta_y: 1 },
        RemoteCommand::TrackpadClick { button: TrackpadButton::Left },
        RemoteCommand::TrackpadScroll { delta_x: 1, delta_y: 1 },
        RemoteCommand::MpdPlayPause,
        RemoteCommand::MpdNext,
        RemoteCommand::MpdPrevious,
    ];
    for command in others {
        assert_eq!(frame_for(command), None);
    }
}
