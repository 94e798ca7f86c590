use vstd::prelude::*;
use crate::peer::PeerId;
use crate::signaling::{copy_texts, text_of, texts_of};

verus! {

/// Stands for one peer transport that the driver holds. The driver picks the
/// number when it creates the transport and finds the transport again by it.
#[derive(Clone, Copy, Debug, PartialEq, Eq, Hash, Structural)]
pub struct TransportId(pub u64);

/// Stands for the outbound sink of one open data channel, held by the driver.
#[derive(Clone, Copy, Debug, PartialEq, Eq, Hash, Structural)]
pub struct ChannelId(pub u64);

/// What a peer transport reports to the room that owns it.
#[derive(Debug, PartialEq, Eq)]
pub enum TransportEvent {
    /// The data channel of the peer is open; the sink writes to it.
    DataChannelReady(PeerId, ChannelId),
    /// The transport failed, lost its connection or was closed.
    Disconnected(PeerId),
    /// A payload arrived on the data channel, byte for byte as the peer sent it.
    Message(PeerId, Vec<u8>),
    /// The transport found a local ICE candidate, given in its JSON form.
    CandidateGenerated(PeerId, String),
}

/// The outcome of one step that the room asked of a transport during a join.
#[derive(Debug, PartialEq, Eq)]
pub enum TransportReply {
    /// A transport was created for the peer (`Some`), or could not be.
    Created { peer_id: PeerId, created: Option<TransportId> },
    /// The client's offer was applied as the remote description, or refused.
    OfferApplied { transport: TransportId, accepted: bool },
    /// A local answer was generated and set (`Some`), or could not be.
    AnswerCreated { transport: TransportId, answer: Option<String> },
}

/// An event of a transport as a mathematical value.
pub enum Event {
    DataChannelReady(PeerId, ChannelId),
    Disconnected(PeerId),
    Message(PeerId, Seq<u8>),
    CandidateGenerated(PeerId, Seq<char>),
}

impl View for TransportEvent {
    type V = Event;

    open spec fn view(&self) -> Event {
        match *self {
            TransportEvent::DataChannelReady(peer_id, channel) => Event::DataChannelReady(
                peer_id,
                channel,
            ),
            TransportEvent::Disconnected(peer_id) => Event::Disconnected(peer_id),
            TransportEvent::Message(peer_id, data) => Event::Message(peer_id, data@),
            TransportEvent::CandidateGenerated(peer_id, candidate) => Event::CandidateGenerated(
                peer_id,
                candidate@,
            ),
        }
    }
}

/// The outcome of a step of a transport as a mathematical value.
pub enum Reply {
    Created { peer_id: PeerId, created: Option<TransportId> },
    OfferApplied { transport: TransportId, accepted: bool },
    AnswerCreated { transport: TransportId, answer: Option<Seq<char>> },
}

impl View for TransportReply {
    type V = Reply;

    open spec fn view(&self) -> Reply {
        match *self {
            TransportReply::Created { peer_id, created } => Reply::Created { peer_id, created },
            TransportReply::OfferApplied { transport, accepted } => Reply::OfferApplied {
                transport,
                accepted,
            },
            TransportReply::AnswerCreated { transport, answer } => Reply::AnswerCreated {
                transport,
                answer: text_of(answer),
            },
        }
    }
}

/// The states a peer connection goes through.
#[derive(Clone, Copy, Debug, PartialEq, Eq, Structural)]
pub enum ConnectionStatus {
    Unspecified,
    New,
    Connecting,
    Connected,
    Disconnected,
    Failed,
    Closed,
}

impl ConnectionStatus {
    /// Whether entering this state ends the peer's membership: the transport
    /// failed, lost its connection or was closed.
    pub open spec fn is_terminal(self) -> bool {
        self == ConnectionStatus::Failed || self == ConnectionStatus::Disconnected || self
            == ConnectionStatus::Closed
    }
}

/// The event, if any, that a transport owes its room when the connection of
/// `peer_id` enters `status`: one `Disconnected` for each terminal state and
/// nothing otherwise.
pub fn connection_state_event(peer_id: PeerId, status: ConnectionStatus) -> (event: Option<
    TransportEvent,
>)
    ensures
        status.is_terminal() ==> event == Some(TransportEvent::Disconnected(peer_id)),
        !status.is_terminal() ==> event is None,
{
    match status {
        ConnectionStatus::Failed | ConnectionStatus::Disconnected | ConnectionStatus::Closed => {
            Some(TransportEvent::Disconnected(peer_id))
        },
        _ => None,
    }
}

/// The ICE servers a new transport is configured with.
#[derive(Debug, PartialEq, Eq)]
pub struct TransportConfig {
    pub ice_servers: Vec<String>,
}

/// The public STUN server used where nothing else is configured.
pub open spec fn default_stun_url() -> Seq<char> {
    "stun:stun.l.google.com:19302"@
}

impl Clone for TransportConfig {
    fn clone(&self) -> (copy: TransportConfig)
        ensures
            texts_of(copy.ice_servers@) == texts_of(self.ice_servers@),
    {
        TransportConfig { ice_servers: copy_texts(&self.ice_servers) }
    }
}

impl Default for TransportConfig {
    fn default() -> (config: TransportConfig)
        ensures
            config.ice_servers@.len() == 1,
            config.ice_servers@[0]@ == default_stun_url(),
    {
        let mut ice_servers: Vec<String> = Vec::new();
        ice_servers.push("stun:stun.l.google.com:19302".to_owned());
        TransportConfig { ice_servers }
    }
}

} // verus!
