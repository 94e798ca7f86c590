use vstd::prelude::*;
use crate::peer::PeerId;
use crate::transport::TransportId;

verus! {

/// One thing the room wants done in the world. The driver performs the
/// actions of a step in the order given; the three that answer hand their
/// outcome back to the room as a `TransportReply`.
#[derive(Debug, PartialEq, Eq)]
pub enum RoomAction {
    /// Create a transport for the peer, wired to the room's event queue.
    /// Answered by `TransportReply::Created`.
    CreateTransport { peer_id: PeerId },
    /// Apply the client's SDP as the remote description of type offer.
    /// Answered by `TransportReply::OfferApplied`.
    SetRemoteOffer { transport: TransportId, sdp: String },
    /// Generate a local answer and set it as the local description.
    /// Answered by `TransportReply::AnswerCreated`.
    CreateAnswer { transport: TransportId },
    /// Parse and add one remote ICE candidate; a failure is logged.
    AddRemoteIce { transport: TransportId, candidate: String },
    /// Close the transport of a record that the room has removed.
    CloseTransport { transport: TransportId },
    /// Discard a transport whose handshake did not complete.
    DropTransport { transport: TransportId },
    /// Push an `Answer` frame to the peer's signalling socket.
    SendAnswer { peer_id: PeerId, sdp: String },
    /// Push an `IceCandidate` frame to the peer's signalling socket.
    SendIce { peer_id: PeerId, candidate: String },
    /// Invoke the room logic's `on_join` hook.
    Joined { peer_id: PeerId },
    /// Invoke the room logic's `on_message` hook.
    Message { peer_id: PeerId, data: Vec<u8> },
    /// Invoke the room logic's `on_leave` hook.
    Left { peer_id: PeerId },
}

/// An action of the room as a mathematical value.
pub enum Action {
    CreateTransport { peer_id: PeerId },
    SetRemoteOffer { transport: TransportId, sdp: Seq<char> },
    CreateAnswer { transport: TransportId },
    AddRemoteIce { transport: TransportId, candidate: Seq<char> },
    CloseTransport { transport: TransportId },
    DropTransport { transport: TransportId },
    SendAnswer { peer_id: PeerId, sdp: Seq<char> },
    SendIce { peer_id: PeerId, candidate: Seq<char> },
    Joined { peer_id: PeerId },
    Message { peer_id: PeerId, data: Seq<u8> },
    Left { peer_id: PeerId },
}

impl View for RoomAction {
    type V = Action;

    open spec fn view(&self) -> Action {
        match *self {
            RoomAction::CreateTransport { peer_id } => Action::CreateTransport { peer_id },
            RoomAction::SetRemoteOffer { transport, sdp } => Action::SetRemoteOffer {
                transport,
                sdp: sdp@,
            },
            RoomAction::CreateAnswer { transport } => Action::CreateAnswer { transport },
            RoomAction::AddRemoteIce { transport, candidate } => Action::AddRemoteIce {
                transport,
                candidate: candidate@,
            },
            RoomAction::CloseTransport { transport } => Action::CloseTransport { transport },
            RoomAction::DropTransport { transport } => Action::DropTransport { transport },
            RoomAction::SendAnswer { peer_id, sdp } => Action::SendAnswer { peer_id, sdp: sdp@ },
            RoomAction::SendIce { peer_id, candidate } => Action::SendIce {
                peer_id,
                candidate: candidate@,
            },
            RoomAction::Joined { peer_id } => Action::Joined { peer_id },
            RoomAction::Message { peer_id, data } => Action::Message { peer_id, data: data@ },
            RoomAction::Left { peer_id } => Action::Left { peer_id },
        }
    }
}

/// The actions as mathematical values, in order.
pub open spec fn actions_of(actions: Seq<RoomAction>) -> Seq<Action> {
    actions.map_values(|action: RoomAction| action@)
}

} // verus!
