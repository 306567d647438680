//! Events: what one service or dispatch step of a host reports.

use vstd::prelude::*;

verus! {

/// Engine event type: nothing happened.
pub const EVENT_NONE: u32 = 0;

/// Engine event type: a connection was established.
pub const EVENT_CONNECT: u32 = 1;

/// Engine event type: a peer disconnected or timed out.
pub const EVENT_DISCONNECT: u32 = 2;

/// Engine event type: a packet arrived.
pub const EVENT_RECEIVE: u32 = 3;

/// The plain fields of an engine event record.
#[derive(Clone, Copy, Debug, PartialEq, Eq, Structural)]
pub struct EventRecord {
    /// The engine's event type.
    pub kind: u32,
    /// The data word that came with a connect or a disconnect.
    pub data: u32,
    /// The channel a packet arrived on.
    pub channel_id: u8,
}

/// One event of a host, carrying a handle `P` of the peer it concerns and,
/// for a received packet, a handle `R` of the packet.
#[derive(Debug)]
pub enum Event<P, R> {
    Connect { peer: P, data: u32 },
    Disconnect { peer: P, data: u32 },
    Receive { peer: P, channel_id: u8, packet: R },
}

impl<P, R> Event<P, R> {
    /// What `from_ll` gives for `record`, `peer` and `packet`: no event, or
    /// the event of the record's type with the record's fields, the given
    /// peer, and for a received packet a handle that `packet` returned.
    pub open spec fn from_ll_ensures<F: FnOnce() -> R>(
        record: EventRecord,
        peer: P,
        packet: F,
        r: Option<Event<P, R>>,
    ) -> bool {
        &&& record.kind == EVENT_NONE ==> r is None
        &&& record.kind == EVENT_CONNECT ==> r == Some((Event::<P, R>::Connect { peer, data: record.data }))
        &&& record.kind == EVENT_DISCONNECT ==> r == Some(
            (Event::<P, R>::Disconnect { peer, data: record.data }),
        )
        &&& record.kind == EVENT_RECEIVE ==> exists|p: R|
            packet.ensures((), p) && r == Some(
                (Event::<P, R>::Receive { peer, channel_id: record.channel_id, packet: p }),
            )
    }

    /// Decodes an engine record. `peer` is a fresh handle of the record's peer;
    /// `packet` makes the handle of the record's packet, and is called only for
    /// a received packet (no other record carries one).
    ///
    /// The engine's event types are closed: a record of another type breaks
    /// the engine's contract and is not accepted.
    pub fn from_ll<F: FnOnce() -> R>(record: EventRecord, peer: P, packet: F) -> (r: Option<
        Event<P, R>,
    >)
        requires
            record.kind <= EVENT_RECEIVE,
            record.kind == EVENT_RECEIVE ==> packet.requires(()),
        ensures
            Self::from_ll_ensures(record, peer, packet, r),
    {
        if record.kind == EVENT_NONE {
            None
        } else if record.kind == EVENT_CONNECT {
            Some(Event::Connect { peer, data: record.data })
        } else if record.kind == EVENT_DISCONNECT {
            Some(Event::Disconnect { peer, data: record.data })
        } else {
            let p = packet();
            Some(Event::Receive { peer, channel_id: record.channel_id, packet: p })
        }
    }

    /// The peer the event concerns.
    pub open spec fn spec_peer(&self) -> P {
        match self {
            Event::Connect { peer, .. } => *peer,
            Event::Disconnect { peer, .. } => *peer,
            Event::Receive { peer, .. } => *peer,
        }
    }

    /// The peer the event concerns.
    pub fn peer(&self) -> (r: &P)
        ensures
            *r == self.spec_peer(),
    {
        match self {
            Event::Connect { peer, .. } => peer,
            Event::Disconnect { peer, .. } => peer,
            Event::Receive { peer, .. } => peer,
        }
    }
}

} // verus!
