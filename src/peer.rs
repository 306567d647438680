//! Peers: their connection state and the checks that precede a send.

use vstd::prelude::*;

use crate::packet::Packet;

verus! {

/// Scale of `packet_loss`: a loss ratio of one is this value (65536).
pub const PACKET_LOSS_SCALE: u32 = 65536;

/// Connection state of a peer, as the engine reports it.
///
/// A peer goes through these states in order: `Disconnected`, `Connecting`,
/// `AcknowledgingConnect`, `ConnectionPending`, `ConnectionSucceeded`,
/// `Connected`, then `DisconnectLater`, `Disconnecting`,
/// `AcknowledgingDisconnect`, and `Zombie` until the engine recycles the slot.
#[derive(Clone, Copy, Debug, PartialEq, Eq, Structural)]
pub enum State {
    Disconnected,
    Connecting,
    AcknowledgingConnect,
    ConnectionPending,
    ConnectionSucceeded,
    Connected,
    DisconnectLater,
    Disconnecting,
    AcknowledgingDisconnect,
    Zombie,
}

impl State {
    /// The engine's number for this state.
    pub open spec fn spec_to_u32(self) -> u32 {
        match self {
            State::Disconnected => 0,
            State::Connecting => 1,
            State::AcknowledgingConnect => 2,
            State::ConnectionPending => 3,
            State::ConnectionSucceeded => 4,
            State::Connected => 5,
            State::DisconnectLater => 6,
            State::Disconnecting => 7,
            State::AcknowledgingDisconnect => 8,
            State::Zombie => 9,
        }
    }

    /// The engine's number for this state.
    pub fn to_u32(self) -> (r: u32)
        ensures
            r == self.spec_to_u32(),
            r <= 9,
    {
        match self {
            State::Disconnected => 0,
            State::Connecting => 1,
            State::AcknowledgingConnect => 2,
            State::ConnectionPending => 3,
            State::ConnectionSucceeded => 4,
            State::Connected => 5,
            State::DisconnectLater => 6,
            State::Disconnecting => 7,
            State::AcknowledgingDisconnect => 8,
            State::Zombie => 9,
        }
    }

    /// The state the engine numbers `n`, or `None` if it numbers none.
    pub fn from_u32(n: u32) -> (r: Option<State>)
        ensures
            r is Some <==> n <= 9,
            r matches Some(s) ==> s.spec_to_u32() == n,
    {
        match n {
            0 => Some(State::Disconnected),
            1 => Some(State::Connecting),
            2 => Some(State::AcknowledgingConnect),
            3 => Some(State::ConnectionPending),
            4 => Some(State::ConnectionSucceeded),
            5 => Some(State::Connected),
            6 => Some(State::DisconnectLater),
            7 => Some(State::Disconnecting),
            8 => Some(State::AcknowledgingDisconnect),
            9 => Some(State::Zombie),
            _ => None,
        }
    }
}

/// Why a connection could not be started.
#[derive(Clone, Copy, Debug, PartialEq, Eq, Structural)]
pub enum ConnectError {
    /// Every peer slot of the host is in use.
    NoPeersAvailable,
    /// The engine could not allocate the connection's channels.
    Failure,
}

/// Why a packet was not queued.
#[derive(Clone, Copy, Debug, PartialEq, Eq, Structural)]
pub enum SendError {
    /// The peer is not connected; its state is given.
    PeerNotConnected(State),
    /// The channel id is not below the peer's channel count.
    PeerNoChannelID(u8),
    /// The packet holds no byte.
    PacketCreateZeroLength,
    /// The engine could not allocate the packet.
    PacketCreateMallocFailure,
    /// The packet is longer than the host's maximum packet size; its length
    /// is given.
    PacketExceedsMaximumSize(usize),
    /// The engine could not queue the packet (allocation, or too many
    /// fragments).
    Failure,
    /// A copying packet carries the no-allocate flag.
    NoAllocateFlagOnAllocate,
}

/// What the engine reports of a peer that a send depends on.
#[derive(Clone, Copy, Debug, PartialEq, Eq, Structural)]
pub struct PeerStatus {
    /// The peer's connection state.
    pub state: State,
    /// The number of channels negotiated for the connection.
    pub channel_count: usize,
    /// The largest packet, in bytes, that the peer's host accepts.
    pub maximum_packet_size: usize,
}

/// The outcome of the checks that precede a send: the first condition
/// violated, in the order state, channel, length, flags; or else the flag
/// word to create the packet with.
pub open spec fn send_check(status: PeerStatus, channel_id: u8, packet: Packet) -> Result<u32, SendError> {
    let len = packet.spec_bytes().len();
    if status.state != State::Connected {
        Err(SendError::PeerNotConnected(status.state))
    } else if channel_id as usize >= status.channel_count {
        Err(SendError::PeerNoChannelID(channel_id))
    } else if len == 0 {
        Err(SendError::PacketCreateZeroLength)
    } else if len > status.maximum_packet_size {
        Err(SendError::PacketExceedsMaximumSize(len as usize))
    } else if packet.is_contradictory() {
        Err(SendError::NoAllocateFlagOnAllocate)
    } else {
        Ok(packet.spec_engine_flags())
    }
}

impl PeerStatus {
    /// Checks a send of `packet` on `channel_id` to this peer before any
    /// engine call, and gives the flag word to create the packet with.
    ///
    /// The first condition violated is the one reported: the state, then the
    /// channel id, then the length, then the flags.
    pub fn check_send(&self, channel_id: u8, packet: &Packet) -> (r: Result<u32, SendError>)
        ensures
            r == send_check(*self, channel_id, *packet),
            self.state != State::Connected ==> r == Err::<u32, SendError>(
                SendError::PeerNotConnected(self.state),
            ),
            self.state == State::Connected && channel_id as usize >= self.channel_count ==> r
                == Err::<u32, SendError>(SendError::PeerNoChannelID(channel_id)),
            self.state == State::Connected && (channel_id as usize) < self.channel_count
                && packet.spec_bytes().len() == 0 ==> r == Err::<u32, SendError>(
                SendError::PacketCreateZeroLength,
            ),
            r is Ok ==> 0 < packet.spec_bytes().len() <= self.maximum_packet_size,
    {
        if self.state != State::Connected {
            return Err(SendError::PeerNotConnected(self.state));
        }
        if channel_id as usize >= self.channel_count {
            return Err(SendError::PeerNoChannelID(channel_id));
        }
        let len = packet.len();
        if len == 0 {
            return Err(SendError::PacketCreateZeroLength);
        }
        if len > self.maximum_packet_size {
            return Err(SendError::PacketExceedsMaximumSize(len));
        }
        match packet.engine_flags() {
            Some(w) => Ok(w),
            None => Err(SendError::NoAllocateFlagOnAllocate),
        }
    }
}

/// The outcome of a send once the checks have passed: whether the engine
/// created the packet, and the status with which it queued it (negative on
/// failure; not read when no packet was created).
pub fn send_outcome(packet_created: bool, queue_status: i32) -> (r: Result<(), SendError>)
    ensures
        !packet_created ==> r == Err::<(), SendError>(SendError::PacketCreateMallocFailure),
        packet_created && queue_status < 0 ==> r == Err::<(), SendError>(SendError::Failure),
        packet_created && queue_status >= 0 ==> r == Ok::<(), SendError>(()),
{
    if !packet_created {
        Err(SendError::PacketCreateMallocFailure)
    } else if queue_status < 0 {
        Err(SendError::Failure)
    } else {
        Ok(())
    }
}

} // verus!
