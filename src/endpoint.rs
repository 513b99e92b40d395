//! Addresses, timestamps and the settings handed to transport construction.
use vstd::prelude::*;

verus! {

/// Protocol identifier shared by host and peer transports.
pub const PROTOCOL_ID: u64 = 0;

/// The well-known port that the host binds and peers target.
pub const HOST_PORT: u16 = 4000;

/// Port number that asks the system for an ephemeral port.
pub const EPHEMERAL_PORT: u16 = 0;

/// Number of peers a host accepts at the same time.
pub const MAX_CLIENTS: usize = 10;

/// An IPv4 socket address.
#[derive(Clone, Copy, Debug, PartialEq, Eq, Structural)]
pub struct Endpoint {
    pub a: u8,
    pub b: u8,
    pub c: u8,
    pub d: u8,
    pub port: u16,
}

/// Time since the Unix epoch, as whole seconds and the nanoseconds past them.
#[derive(Clone, Copy, Debug, PartialEq, Eq, Structural)]
pub struct Timestamp {
    pub secs: u64,
    pub nanos: u32,
}

/// How a transport authenticates its handshake. This design uses none.
#[derive(Clone, Copy, Debug, PartialEq, Eq, Structural)]
pub enum Authentication {
    Unsecure,
}

/// What the host transport is built from.
#[derive(Clone, Copy, Debug, PartialEq, Eq, Structural)]
pub struct ServerSettings {
    pub current_time: Timestamp,
    pub max_clients: usize,
    pub protocol_id: u64,
    pub authentication: Authentication,
    /// The one publicly reachable address: the bound host address.
    pub public_address: Endpoint,
}

/// What the peer transport is built from. It carries no user data.
#[derive(Clone, Copy, Debug, PartialEq, Eq, Structural)]
pub struct ClientSettings {
    pub current_time: Timestamp,
    pub client_id: u64,
    pub protocol_id: u64,
    pub authentication: Authentication,
    pub server_address: Endpoint,
}

/// The loopback address 127.0.0.1 with the given port.
pub open spec fn loopback_spec(port: u16) -> Endpoint {
    Endpoint { a: 127, b: 0, c: 0, d: 1, port }
}

/// Whole milliseconds in a timestamp.
pub open spec fn millis_of(t: Timestamp) -> int {
    t.secs as int * 1000 + t.nanos as int / 1_000_000
}

/// A client identifier: the timestamp's milliseconds, cut to 64 bits.
pub open spec fn client_id_spec(t: Timestamp) -> u64 {
    (millis_of(t) % 0x1_0000_0000_0000_0000) as u64
}

pub open spec fn server_settings_spec(now: Timestamp) -> ServerSettings {
    ServerSettings {
        current_time: now,
        max_clients: MAX_CLIENTS,
        protocol_id: PROTOCOL_ID,
        authentication: Authentication::Unsecure,
        public_address: loopback_spec(HOST_PORT),
    }
}

pub open spec fn client_settings_spec(now: Timestamp) -> ClientSettings {
    ClientSettings {
        current_time: now,
        client_id: client_id_spec(now),
        protocol_id: PROTOCOL_ID,
        authentication: Authentication::Unsecure,
        server_address: loopback_spec(HOST_PORT),
    }
}

/// The loopback address with the given port.
pub fn loopback(port: u16) -> (r: Endpoint)
    ensures
        r == loopback_spec(port),
{
    Endpoint { a: 127, b: 0, c: 0, d: 1, port }
}

/// The address the host binds and every peer connects to.
pub fn host_address() -> (r: Endpoint)
    ensures
        r == loopback_spec(HOST_PORT),
{
    loopback(HOST_PORT)
}

/// The local address a peer binds: loopback, with a port the system picks.
pub fn peer_local_address() -> (r: Endpoint)
    ensures
        r == loopback_spec(EPHEMERAL_PORT),
{
    loopback(EPHEMERAL_PORT)
}

/// Derives a client identifier from the current time in milliseconds.
/// Two peers started within the same millisecond get the same identifier.
pub fn client_id_from(now: Timestamp) -> (r: u64)
    ensures
        r == client_id_spec(now),
{
    let millis: u128 = now.secs as u128 * 1000 + (now.nanos / 1_000_000) as u128;
    let r = millis as u64;
    assert(r == (millis as int % 0x1_0000_0000_0000_0000) as u64) by (bit_vector)
        requires r == millis as u64;
    r
}

/// Settings for the host transport at time `now`.
pub fn server_settings(now: Timestamp) -> (r: ServerSettings)
    ensures
        r == server_settings_spec(now),
{
    ServerSettings {
        current_time: now,
        max_clients: MAX_CLIENTS,
        protocol_id: PROTOCOL_ID,
        authentication: Authentication::Unsecure,
        public_address: host_address(),
    }
}

/// Settings for the peer transport at time `now`.
pub fn client_settings(now: Timestamp) -> (r: ClientSettings)
    ensures
        r == client_settings_spec(now),
{
    ClientSettings {
        current_time: now,
        client_id: client_id_from(now),
        protocol_id: PROTOCOL_ID,
        authentication: Authentication::Unsecure,
        server_address: host_address(),
    }
}

/// Whether two transports can complete a handshake: their protocol
/// identifiers must be equal.
pub fn compatible(server: &ServerSettings, client: &ClientSettings) -> (r: bool)
    ensures
        r == (server.protocol_id == client.protocol_id),
{
    server.protocol_id == client.protocol_id
}

} // verus!
