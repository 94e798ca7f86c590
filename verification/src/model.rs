use vstd::prelude::*;
use crate::peer::{is_random_id, random_uuid, PeerId};

verus! {

/// The delivery guarantee a message asks of the data channel.
#[derive(Clone, Copy, Debug, PartialEq, Eq, Structural)]
pub enum Channel {
    Reliable,
    Unreliable,
    ReliableUnordered,
}

impl Default for Channel {
    fn default() -> (channel: Channel)
        ensures
            channel == Channel::Reliable,
    {
        Channel::Reliable
    }
}

/// A message of the user's own protocol.
pub trait AntennaMessage: Send + Sync + 'static {
    /// The delivery guarantee the message asks for.
    fn channel(&self) -> Channel;

    /// Whether the message is a remote call that waits for a response. By
    /// default it is not.
    fn is_rpc(&self) -> (rpc: bool)
        default_ensures
            !rpc,
    {
        false
    }
}

/// A 128-bit identifier of one remote call.
#[derive(Clone, Copy, Debug, PartialEq, Eq, Hash, Structural)]
pub struct RequestId(pub u128);

impl RequestId {
    /// A fresh random identifier.
    pub fn new() -> (id: RequestId)
        ensures
            is_random_id(id.0),
    {
        RequestId(random_uuid())
    }
}

/// A 128-bit identifier of a room.
#[derive(Clone, Copy, Debug, PartialEq, Eq, Hash, Structural)]
pub struct RoomId(pub u128);

impl RoomId {
    /// A fresh random identifier.
    pub fn new() -> (id: RoomId)
        ensures
            is_random_id(id.0),
    {
        RoomId(random_uuid())
    }
}

/// What the library itself says over the data channel.
#[derive(Clone, Copy, Debug, PartialEq, Eq, Structural)]
pub enum SystemMessage {
    Ping { timestamp: u64 },
    Pong { timestamp: u64 },
    PeerLeft(PeerId),
    PeerJoined(PeerId),
}

/// The envelope of everything that travels over the data channel.
#[derive(Debug, PartialEq, Eq)]
pub enum Packet<T> {
    /// A message of the library.
    System(SystemMessage),
    /// A message of the user's protocol.
    User(T),
    /// The response to a remote call.
    RpcResponse { req_id: RequestId, payload: Vec<u8>, is_error: bool },
}

/// Where a client finds its server and how it names itself there.
#[derive(Debug, PartialEq, Eq)]
pub struct EngineConfig {
    pub url: String,
    pub auth_token: String,
}

impl Clone for EngineConfig {
    fn clone(&self) -> (copy: EngineConfig)
        ensures
            copy.url@ == self.url@,
            copy.auth_token@ == self.auth_token@,
    {
        EngineConfig { url: self.url.clone(), auth_token: self.auth_token.clone() }
    }
}

/// How far a client has come in reaching its room.
#[derive(Clone, Copy, Debug, PartialEq, Eq, Structural)]
pub enum ConnectionState {
    Disconnected,
    Connecting,
    Connected,
}

} // verus!
