//! Hosts: the limits checked when one is created, and the decisions taken
//! around its engine calls.

use vstd::prelude::*;

use crate::address::Address;
use crate::event::{Event, EventRecord, EVENT_RECEIVE, EVENT_NONE};
use crate::packet::Packet;
use crate::peer::{ConnectError, SendError};
use crate::{MAX_CHANNEL_COUNT, MAX_PEERS};

verus! {

/// Failure of a service or dispatch step.
#[derive(Clone, Copy, Debug, PartialEq, Eq, Structural)]
pub enum Error {
    /// The engine failed while servicing the host.
    ServiceError,
    /// The engine failed while dispatching queued events.
    DispatchError,
}

/// Why a host was not created.
#[derive(Clone, Copy, Debug, PartialEq, Eq, Structural)]
pub enum CreateError {
    /// The peer count given exceeds `MAX_PEERS`.
    TooManyPeers(u32),
    /// The channel limit given exceeds `MAX_CHANNEL_COUNT`.
    TooManyChannels(u32),
    /// The engine could not create the host (memory, or binding the socket).
    ReturnedNull,
}

/// The value an absent bandwidth or channel limit is given to the engine as:
/// zero, which the engine reads as "no limit".
pub open spec fn or_zero(v: Option<u32>) -> u32 {
    match v {
        Some(x) => x,
        None => 0,
    }
}

/// The parameters of a host, checked against the engine's limits and ready
/// to be handed to it.
#[derive(Clone, Copy, Debug, PartialEq, Eq, Structural)]
pub struct HostConfig {
    address: Option<Address>,
    peer_count: u32,
    channel_limit: u32,
    incoming_bandwidth: u32,
    outgoing_bandwidth: u32,
}

impl HostConfig {
    /// The address to bind, or `None` for a host that only connects out.
    pub closed spec fn spec_address(&self) -> Option<Address> {
        self.address
    }

    /// The number of peer slots.
    pub closed spec fn spec_peer_count(&self) -> u32 {
        self.peer_count
    }

    /// The channel limit; zero means the engine's maximum.
    pub closed spec fn spec_channel_limit(&self) -> u32 {
        self.channel_limit
    }

    /// Incoming bandwidth in bytes per second; zero means unlimited.
    pub closed spec fn spec_incoming_bandwidth(&self) -> u32 {
        self.incoming_bandwidth
    }

    /// Outgoing bandwidth in bytes per second; zero means unlimited.
    pub closed spec fn spec_outgoing_bandwidth(&self) -> u32 {
        self.outgoing_bandwidth
    }

    /// The counts are within the engine's limits.
    pub open spec fn wf(&self) -> bool {
        &&& self.spec_peer_count() <= MAX_PEERS
        &&& self.spec_channel_limit() <= MAX_CHANNEL_COUNT
    }

    /// Checks the parameters of a host before the engine is asked for it.
    ///
    /// `address` is `None` for a host that only connects out. An absent
    /// channel limit or bandwidth is given to the engine as zero. The peer
    /// count is checked first, then the channel limit.
    pub fn new(
        address: Option<Address>,
        peer_count: u32,
        channel_limit: Option<u32>,
        incoming_bandwidth: Option<u32>,
        outgoing_bandwidth: Option<u32>,
    ) -> (r: Result<HostConfig, CreateError>)
        ensures
            peer_count > MAX_PEERS ==> r == Err::<HostConfig, CreateError>(
                CreateError::TooManyPeers(peer_count),
            ),
            peer_count <= MAX_PEERS && or_zero(channel_limit) > MAX_CHANNEL_COUNT ==> r == Err::<
                HostConfig,
                CreateError,
            >(CreateError::TooManyChannels(or_zero(channel_limit))),
            r is Ok <==> peer_count <= MAX_PEERS && or_zero(channel_limit) <= MAX_CHANNEL_COUNT,
            r matches Ok(c) ==> {
                &&& c.wf()
                &&& c.spec_address() == address
                &&& c.spec_peer_count() == peer_count
                &&& c.spec_channel_limit() == or_zero(channel_limit)
                &&& c.spec_incoming_bandwidth() == or_zero(incoming_bandwidth)
                &&& c.spec_outgoing_bandwidth() == or_zero(outgoing_bandwidth)
            },
    {
        if peer_count > MAX_PEERS {
            return Err(CreateError::TooManyPeers(peer_count));
        }
        let channel_limit = match channel_limit {
            Some(c) => c,
            None => 0,
        };
        if channel_limit > MAX_CHANNEL_COUNT {
            return Err(CreateError::TooManyChannels(channel_limit));
        }
        let incoming_bandwidth = match incoming_bandwidth {
            Some(b) => b,
            None => 0,
        };
        let outgoing_bandwidth = match outgoing_bandwidth {
            Some(b) => b,
            None => 0,
        };
        Ok(
            HostConfig {
                address,
                peer_count,
                channel_limit,
                incoming_bandwidth,
                outgoing_bandwidth,
            },
        )
    }

    /// The address to bind, or `None` for a host that only connects out.
    pub fn address(&self) -> (r: Option<Address>)
        ensures
            r == self.spec_address(),
    {
        self.address
    }

    /// The number of peer slots.
    pub fn peer_count(&self) -> (r: u32)
        ensures
            r == self.spec_peer_count(),
    {
        self.peer_count
    }

    /// The channel limit; zero means the engine's maximum.
    pub fn channel_limit(&self) -> (r: u32)
        ensures
            r == self.spec_channel_limit(),
    {
        self.channel_limit
    }

    /// Incoming bandwidth in bytes per second; zero means unlimited.
    pub fn incoming_bandwidth(&self) -> (r: u32)
        ensures
            r == self.spec_incoming_bandwidth(),
    {
        self.incoming_bandwidth
    }

    /// Outgoing bandwidth in bytes per second; zero means unlimited.
    pub fn outgoing_bandwidth(&self) -> (r: u32)
        ensures
            r == self.spec_outgoing_bandwidth(),
    {
        self.outgoing_bandwidth
    }
}

/// The outcome of asking the engine for a host: whether it returned none.
pub fn create_outcome(returned_null: bool) -> (r: Result<(), CreateError>)
    ensures
        r == (if returned_null {
            Err::<(), CreateError>(CreateError::ReturnedNull)
        } else {
            Ok(())
        }),
{
    if returned_null {
        Err(CreateError::ReturnedNull)
    } else {
        Ok(())
    }
}

/// Checks, on the host's own counters, that a peer slot is free for a new
/// connection, before the engine is asked for one.
pub fn connect_check(peer_count: usize, connected_peers: usize) -> (r: Result<(), ConnectError>)
    ensures
        r == (if peer_count <= connected_peers {
            Err::<(), ConnectError>(ConnectError::NoPeersAvailable)
        } else {
            Ok(())
        }),
{
    if peer_count <= connected_peers {
        Err(ConnectError::NoPeersAvailable)
    } else {
        Ok(())
    }
}

/// The outcome of asking the engine to connect: whether it returned no peer.
pub fn connect_outcome(returned_null: bool) -> (r: Result<(), ConnectError>)
    ensures
        r == (if returned_null {
            Err::<(), ConnectError>(ConnectError::Failure)
        } else {
            Ok(())
        }),
{
    if returned_null {
        Err(ConnectError::Failure)
    } else {
        Ok(())
    }
}

/// The flag word to create a packet for a broadcast with, or the error if
/// the packet is contradictory. A broadcast checks no single peer.
pub fn broadcast_flags(packet: &Packet) -> (r: Result<u32, SendError>)
    ensures
        packet.is_contradictory() ==> r == Err::<u32, SendError>(
            SendError::NoAllocateFlagOnAllocate,
        ),
        !packet.is_contradictory() ==> r == Ok::<u32, SendError>(packet.spec_engine_flags()),
{
    match packet.engine_flags() {
        Some(w) => Ok(w),
        None => Err(SendError::NoAllocateFlagOnAllocate),
    }
}

/// The outcome of an engine step that reports an event: a negative status
/// fails with `failure`, else the record is decoded.
fn step_outcome<P, R, F: FnOnce() -> R>(
    status: i32,
    record: EventRecord,
    peer: P,
    packet: F,
    failure: Error,
) -> (r: Result<Option<Event<P, R>>, Error>)
    requires
        record.kind <= EVENT_RECEIVE,
        record.kind == EVENT_RECEIVE ==> packet.requires(()),
    ensures
        status < 0 ==> r == Err::<Option<Event<P, R>>, Error>(failure),
        status >= 0 ==> exists|e: Option<Event<P, R>>|
            r == Ok::<Option<Event<P, R>>, Error>(e) && Event::<P, R>::from_ll_ensures(
                record,
                peer,
                packet,
                e,
            ),
{
    if status < 0 {
        Err(failure)
    } else {
        Ok(Event::from_ll(record, peer, packet))
    }
}

/// The outcome of a service step of the engine, which ran for its timeout
/// and returned `status` with the event `record`.
///
/// A negative status is an engine failure. Otherwise the record is decoded:
/// a record of no event gives `Ok(None)`.
pub fn service_outcome<P, R, F: FnOnce() -> R>(
    status: i32,
    record: EventRecord,
    peer: P,
    packet: F,
) -> (r: Result<Option<Event<P, R>>, Error>)
    requires
        record.kind <= EVENT_RECEIVE,
        record.kind == EVENT_RECEIVE ==> packet.requires(()),
    ensures
        status < 0 ==> r == Err::<Option<Event<P, R>>, Error>(Error::ServiceError),
        status >= 0 && record.kind == EVENT_NONE ==> r == Ok::<Option<Event<P, R>>, Error>(None),
        status >= 0 ==> exists|e: Option<Event<P, R>>|
            r == Ok::<Option<Event<P, R>>, Error>(e) && Event::<P, R>::from_ll_ensures(
                record,
                peer,
                packet,
                e,
            ),
{
    step_outcome(status, record, peer, packet, Error::ServiceError)
}

/// The outcome of dispatching the events already queued on a host: the
/// engine returned `status` with the event `record`.
///
/// A negative status is an engine failure. Otherwise the record is decoded:
/// a record of no event gives `Ok(None)`.
pub fn dispatch_outcome<P, R, F: FnOnce() -> R>(
    status: i32,
    record: EventRecord,
    peer: P,
    packet: F,
) -> (r: Result<Option<Event<P, R>>, Error>)
    requires
        record.kind <= EVENT_RECEIVE,
        record.kind == EVENT_RECEIVE ==> packet.requires(()),
    ensures
        status < 0 ==> r == Err::<Option<Event<P, R>>, Error>(Error::DispatchError),
        status >= 0 && record.kind == EVENT_NONE ==> r == Ok::<Option<Event<P, R>>, Error>(None),
        status >= 0 ==> exists|e: Option<Event<P, R>>|
            r == Ok::<Option<Event<P, R>>, Error>(e) && Event::<P, R>::from_ll_ensures(
                record,
                peer,
                packet,
                e,
            ),
{
    step_outcome(status, record, peer, packet, Error::DispatchError)
}

} // verus!
