//! Network endpoints.

use vstd::prelude::*;

verus! {

/// The engine's host value for "any local interface" (0.0.0.0).
pub const HOST_ANY: u32 = 0;

/// The host value of 127.0.0.1: its bytes in memory order are the octets.
pub const HOST_LOCALHOST: u32 = 0x0100_007f;

/// The four bytes of `host` in memory order, lowest first. The engine keeps
/// an IPv4 host in network byte order, so these are its octets.
pub open spec fn octets(host: u32) -> Seq<u8> {
    seq![
        (host % 0x100) as u8,
        (host / 0x100 % 0x100) as u8,
        (host / 0x1_0000 % 0x100) as u8,
        (host / 0x100_0000) as u8,
    ]
}

/// A resolved endpoint: an IPv4 host and a port.
#[derive(Clone, Copy, Debug, PartialEq, Eq, Structural)]
pub struct Address {
    host: u32,
    port: u16,
}

impl Address {
    /// The host, as the engine stores it.
    pub closed spec fn spec_host(&self) -> u32 {
        self.host
    }

    /// The port.
    pub closed spec fn spec_port(&self) -> u16 {
        self.port
    }

    /// The endpoint of `host` (as the engine stores it) and `port`.
    pub fn new(host: u32, port: u16) -> (r: Address)
        ensures
            r.spec_host() == host,
            r.spec_port() == port,
    {
        Address { host, port }
    }

    /// 127.0.0.1 on `port`.
    pub fn localhost(port: u16) -> (r: Address)
        ensures
            r.spec_host() == HOST_LOCALHOST,
            octets(r.spec_host()) == seq![127u8, 0u8, 0u8, 1u8],
            r.spec_port() == port,
    {
        assert(octets(HOST_LOCALHOST) =~= seq![127u8, 0u8, 0u8, 1u8]);
        Address { host: HOST_LOCALHOST, port }
    }

    /// Any local interface (0.0.0.0) on `port`.
    pub fn any(port: u16) -> (r: Address)
        ensures
            r.spec_host() == HOST_ANY,
            r.spec_port() == port,
    {
        Address { host: HOST_ANY, port }
    }

    /// The host, as the engine stores it.
    pub fn host(self) -> (r: u32)
        ensures
            r == self.spec_host(),
    {
        self.host
    }

    /// The host's octets, in order.
    pub fn host_bytes(self) -> (r: [u8; 4])
        ensures
            r@ == octets(self.spec_host()),
    {
        let h = self.host;
        let r = [(h % 0x100) as u8, (h / 0x100 % 0x100) as u8, (h / 0x1_0000 % 0x100) as u8, (h
            / 0x100_0000) as u8];
        assert(r@ =~= octets(h));
        r
    }

    /// The port.
    pub fn port(self) -> (r: u16)
        ensures
            r == self.spec_port(),
    {
        self.port
    }
}

impl Default for Address {
    /// 127.0.0.1 on port 80.
    fn default() -> (r: Address)
        ensures
            r.spec_host() == HOST_LOCALHOST,
            r.spec_port() == 80,
    {
        Address::localhost(80)
    }
}

} // verus!
