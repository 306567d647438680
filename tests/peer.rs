use enet::peer::{send_outcome, SendError, PACKET_LOSS_SCALE};
use enet::{Flags, Packet, PeerStatus, State};

fn all_states() -> Vec<State> {
    vec![
        State::Disconnected,
        State::Connecting,
        State::AcknowledgingConnect,
        State::ConnectionPending,
        State::ConnectionSucceeded,
        State::Connected,
        State::DisconnectLater,
        State::Disconnecting,
        State::AcknowledgingDisconnect,
        State::Zombie,
    ]
}

fn connected(channel_count: usize, maximum_packet_size: usize) -> PeerStatus {
    PeerStatus { state: State::Connected, channel_count, maximum_packet_size }
}

#[test]
fn state_numbers_match_engine() {
    for (n, s) in all_states().iter().enumerate() {
        assert_eq!(s.to_u32(), n as u32);
        assert_eq!(State::from_u32(n as u32), Some(*s));
    }
    assert_eq!(State::from_u32(10), None);
    assert_eq!(State::from_u32(u32::MAX), None);
}

#[test]
fn packet_loss_scale_value() {
    assert_eq!(PACKET_LOSS_SCALE, 65536);
}

#[test]
fn send_refused_when_not_connected() {
    let bytes = [1u8, 2, 3];
    for s in all_states().iter().filter(|s| **s != State::Connected) {
        let status = PeerStatus { state: *s, channel_count: 2, maximum_packet_size: 1000 };
        let p = Packet::Allocate { bytes: &bytes, flags: Flags::reliable() };
        assert_eq!(status.check_send(0, &p), Err(SendError::PeerNotConnected(*s)));
        // the state comes first, even before a bad channel or an empty packet
        let empty = Packet::Allocate { bytes: &[], flags: Flags::empty() };
        assert_eq!(status.check_send(9, &empty), Err(SendError::PeerNotConnected(*s)));
    }
}

#[test]
fn send_refused_on_unknown_channel_before_size() {
    let status = connected(2, 4);
    let big = [0u8; 10];
    let p = Packet::Allocate { bytes: &big, flags: Flags::empty() };
    assert_eq!(status.check_send(2, &p), Err(SendError::PeerNoChannelID(2)));
    let empty = Packet::Allocate { bytes: &[], flags: Flags::empty() };
    assert_eq!(status.check_send(255, &empty), Err(SendError::PeerNoChannelID(255)));
    let no_channels = connected(0, 4);
    assert_eq!(no_channels.check_send(0, &empty), Err(SendError::PeerNoChannelID(0)));
}

#[test]
fn send_refused_on_zero_length_whatever_the_flags() {
    let status = connected(1, 100);
    for bits in 0..16u32 {
        let flags = Flags::from_bits(bits).unwrap();
        let p = Packet::Allocate { bytes: &[], flags };
        assert_eq!(status.check_send(0, &p), Err(SendError::PacketCreateZeroLength));
    }
    let q = Packet::NoAllocate { bytes: &[], flags: Flags::reliable() };
    assert_eq!(status.check_send(0, &q), Err(SendError::PacketCreateZeroLength));
}

#[test]
fn send_refused_above_maximum_size() {
    let status = connected(1, 3);
    let bytes = [1u8, 2, 3, 4];
    let p = Packet::Allocate { bytes: &bytes, flags: Flags::reliable() };
    assert_eq!(status.check_send(0, &p), Err(SendError::PacketExceedsMaximumSize(4)));
    let exact = [1u8, 2, 3];
    let p = Packet::Allocate { bytes: &exact, flags: Flags::reliable() };
    assert_eq!(status.check_send(0, &p), Ok(1));
}

#[test]
fn send_refused_for_copying_packet_with_no_allocate() {
    let status = connected(1, 100);
    let bytes = [1u8];
    let p = Packet::Allocate { bytes: &bytes, flags: Flags::no_allocate() };
    assert_eq!(status.check_send(0, &p), Err(SendError::NoAllocateFlagOnAllocate));
}

#[test]
fn send_checks_pass_with_engine_flags() {
    let status = connected(2, 100);
    let bytes = [b'a', b'b', b'c'];
    let p = Packet::Allocate { bytes: &bytes, flags: Flags::reliable() };
    assert_eq!(status.check_send(1, &p), Ok(1));
    let q = Packet::NoAllocate { bytes: &[7, 8, 9], flags: Flags::unsequenced() };
    assert_eq!(status.check_send(0, &q), Ok(6));
}

#[test]
fn send_outcome_of_engine_results() {
    assert_eq!(send_outcome(false, 0), Err(SendError::PacketCreateMallocFailure));
    assert_eq!(send_outcome(false, -1), Err(SendError::PacketCreateMallocFailure));
    assert_eq!(send_outcome(true, -1), Err(SendError::Failure));
    assert_eq!(send_outcome(true, 0), Ok(()));
}
