//! A session layer over the ENet reliable UDP engine.
//!
//! The engine itself (sockets, retransmission, sequencing) lives behind a
//! foreign interface. This crate holds the rules that are applied before and
//! after each engine call: the limits checked when a host is created, the
//! checks that precede a send, the decoding of engine records into typed
//! values, and the lifecycle of the process-wide engine context.

use vstd::prelude::*;

pub mod address;
pub mod event;
pub mod host;
pub mod packet;
pub mod peer;
pub mod version;

use self::host::CreateError;

pub use self::address::Address;
pub use self::event::Event;
pub use self::host::HostConfig;
pub use self::packet::{Flags, Packet};
pub use self::peer::{PeerStatus, State};
pub use self::version::Version;

verus! {

/// Largest peer count the engine accepts for one host (`0xFFF`).
pub const MAX_PEERS: u32 = 0xFFF;

/// Largest channel count the engine accepts (255).
pub const MAX_CHANNEL_COUNT: u32 = 255;

/// The message of the error returned when a context is already live.
pub const ALREADY_INITIALIZED: &'static str = "`Enet` cannot be initialized more than once";

/// The message of the error returned when the engine fails to start.
pub const ENGINE_INIT_FAILURE: &'static str = "`enet_initialize` returned an error";

/// Context errors.
#[derive(Clone, Debug)]
pub enum Error {
    /// The context could not be started; the message says why.
    Initialize(String),
    /// A listening host could not be created.
    ServerCreate(CreateError),
    /// A connecting host could not be created.
    ClientCreate(CreateError),
}

impl Error {
    /// A context was already live.
    pub open spec fn is_already_initialized(&self) -> bool {
        self matches Error::Initialize(m) && m@ == ALREADY_INITIALIZED@
    }

    /// The engine failed to start.
    pub open spec fn is_engine_init_failure(&self) -> bool {
        self matches Error::Initialize(m) && m@ == ENGINE_INIT_FAILURE@
    }
}

/// Whether an engine context is live in this process.
///
/// At most one context is live at a time. The flag is raised when a context
/// starts and lowered when the last owner of that context is gone.
#[derive(Debug)]
pub struct ContextFlag {
    alive: bool,
}

impl ContextFlag {
    /// Whether a context is live.
    pub closed spec fn is_alive(&self) -> bool {
        self.alive
    }

    /// A flag with no live context.
    pub fn new() -> (r: ContextFlag)
        ensures
            !r.is_alive(),
    {
        ContextFlag { alive: false }
    }

    /// Whether a context is live.
    pub fn alive(&self) -> (r: bool)
        ensures
            r == self.is_alive(),
    {
        self.alive
    }

    /// Claims the flag for a context that is about to start; fails if one is
    /// live already.
    pub fn claim(&mut self) -> (r: Result<(), Error>)
        ensures
            final(self).is_alive(),
            old(self).is_alive() ==> (r matches Err(e) && e.is_already_initialized()),
            !old(self).is_alive() ==> r is Ok,
    {
        if self.alive {
            return Err(Error::Initialize(ALREADY_INITIALIZED.to_owned()));
        }
        self.alive = true;
        Ok(())
    }

    /// Completes the start of a claimed context, given the status the
    /// engine's start returned: negative is a failure, which releases the
    /// flag.
    pub fn complete(&mut self, status: i32) -> (r: Result<Enet, Error>)
        requires
            old(self).is_alive(),
        ensures
            r is Ok <==> status >= 0,
            r matches Err(e) ==> e.is_engine_init_failure(),
            final(self).is_alive() == (status >= 0),
    {
        if status < 0 {
            self.alive = false;
            return Err(Error::Initialize(ENGINE_INIT_FAILURE.to_owned()));
        }
        Ok(Enet { status })
    }

    /// Lowers the flag when the last owner of the live context is gone, just
    /// before the engine is stopped. Releasing a flag that no context raised
    /// is a broken contract and is not accepted.
    pub fn release(&mut self)
        requires
            old(self).is_alive(),
        ensures
            !final(self).is_alive(),
    {
        self.alive = false;
    }
}

/// A live engine context: hosts are created through it.
#[derive(Clone, Debug)]
pub struct Enet {
    /// The status the engine's start returned.
    status: i32,
}

/// Whether the engine is started by `initialize`, given whether a context was
/// live and the status the engine's start would return.
pub open spec fn initialize_starts(alive: bool, status: i32) -> bool {
    !alive && status >= 0
}

/// Whether a context is live after `initialize`.
pub open spec fn alive_after_initialize(alive: bool, status: i32) -> bool {
    alive || status >= 0
}

/// One context at a time: once a start has succeeded, a second start fails
/// whatever the engine would return, and the context stays live; once the
/// context has been released, a start succeeds again if the engine starts.
pub proof fn lemma_one_live_context(first: i32, second: i32, again: i32)
    requires
        first >= 0,
        again >= 0,
    ensures
        initialize_starts(false, first),
        alive_after_initialize(false, first),
        !initialize_starts(alive_after_initialize(false, first), second),
        alive_after_initialize(alive_after_initialize(false, first), second),
        initialize_starts(false, again),
{
}

/// Starts the engine context.
///
/// Fails with the already-initialized error, and does not call
/// `engine_init`, if a context is live. Otherwise calls `engine_init`, which
/// starts the engine and returns its status, and fails with the engine error
/// if that status is negative.
pub fn initialize<F: FnOnce() -> i32>(flag: &mut ContextFlag, engine_init: F) -> (r: Result<
    Enet,
    Error,
>)
    requires
        engine_init.requires(()),
    ensures
        old(flag).is_alive() ==> (r matches Err(e) && e.is_already_initialized()),
        old(flag).is_alive() ==> final(flag).is_alive(),
        !old(flag).is_alive() ==> exists|status: i32|
            {
                &&& engine_init.ensures((), status)
                &&& r is Ok <==> initialize_starts(false, status)
                &&& r matches Err(e) ==> e.is_engine_init_failure()
                &&& final(flag).is_alive() == alive_after_initialize(false, status)
            },
{
    match flag.claim() {
        Err(e) => Err(e),
        Ok(()) => {
            let status = engine_init();
            let r = flag.complete(status);
            assert(r is Ok <==> initialize_starts(false, status));
            assert(flag.is_alive() == alive_after_initialize(false, status));
            r
        },
    }
}

impl Enet {
    /// Checks the parameters of a host that only connects out.
    pub fn client_host_create(
        &self,
        peer_count: u32,
        incoming_bandwidth: Option<u32>,
        outgoing_bandwidth: Option<u32>,
    ) -> (r: Result<HostConfig, Error>)
        ensures
            peer_count > MAX_PEERS ==> (r matches Err(Error::ClientCreate(e)) && e
                == CreateError::TooManyPeers(peer_count)),
            r is Ok <==> peer_count <= MAX_PEERS,
            r matches Ok(c) ==> {
                &&& c.wf()
                &&& c.spec_address() is None
                &&& c.spec_peer_count() == peer_count
                &&& c.spec_channel_limit() == 0
                &&& c.spec_incoming_bandwidth() == host::or_zero(incoming_bandwidth)
                &&& c.spec_outgoing_bandwidth() == host::or_zero(outgoing_bandwidth)
            },
    {
        match HostConfig::new(None, peer_count, None, incoming_bandwidth, outgoing_bandwidth) {
            Ok(c) => Ok(c),
            Err(e) => Err(Error::ClientCreate(e)),
        }
    }

    /// Checks the parameters of a host that listens on `address`.
    pub fn server_host_create(
        &self,
        address: Address,
        peer_count: u32,
        channel_limit: Option<u32>,
        incoming_bandwidth: Option<u32>,
        outgoing_bandwidth: Option<u32>,
    ) -> (r: Result<HostConfig, Error>)
        ensures
            peer_count > MAX_PEERS ==> (r matches Err(Error::ServerCreate(e)) && e
                == CreateError::TooManyPeers(peer_count)),
            peer_count <= MAX_PEERS && host::or_zero(channel_limit) > MAX_CHANNEL_COUNT ==> (r matches Err(
                Error::ServerCreate(e),
            ) && e == CreateError::TooManyChannels(host::or_zero(channel_limit))),
            r is Ok <==> peer_count <= MAX_PEERS && host::or_zero(channel_limit) <= MAX_CHANNEL_COUNT,
            r matches Ok(c) ==> {
                &&& c.wf()
                &&& c.spec_address() == Some(address)
                &&& c.spec_peer_count() == peer_count
                &&& c.spec_channel_limit() == host::or_zero(channel_limit)
                &&& c.spec_incoming_bandwidth() == host::or_zero(incoming_bandwidth)
                &&& c.spec_outgoing_bandwidth() == host::or_zero(outgoing_bandwidth)
            },
    {
        match HostConfig::new(
            Some(address),
            peer_count,
            channel_limit,
            incoming_bandwidth,
            outgoing_bandwidth,
        ) {
            Ok(c) => Ok(c),
            Err(e) => Err(Error::ServerCreate(e)),
        }
    }
}

} // verus!
