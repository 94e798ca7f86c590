use vstd::prelude::*;
use crate::peer::PeerId;

verus! {

/// What the signalling side asks of a room.
#[derive(Debug, PartialEq, Eq)]
pub enum RoomCommand {
    /// A peer sent an SDP offer and wants to join.
    JoinRequest { peer_id: PeerId, offer: String },
    /// A peer trickled one ICE candidate.
    IceCandidate { peer_id: PeerId, candidate: String },
    /// The peer's signalling session ended.
    Disconnect { peer_id: PeerId },
}

/// A command as a mathematical value.
pub enum Command {
    JoinRequest { peer_id: PeerId, offer: Seq<char> },
    IceCandidate { peer_id: PeerId, candidate: Seq<char> },
    Disconnect { peer_id: PeerId },
}

impl View for RoomCommand {
    type V = Command;

    open spec fn view(&self) -> Command {
        match *self {
            RoomCommand::JoinRequest { peer_id, offer } => Command::JoinRequest {
                peer_id,
                offer: offer@,
            },
            RoomCommand::IceCandidate { peer_id, candidate } => Command::IceCandidate {
                peer_id,
                candidate: candidate@,
            },
            RoomCommand::Disconnect { peer_id } => Command::Disconnect { peer_id },
        }
    }
}

impl RoomCommand {
    /// The peer the command is about.
    pub open spec fn peer(self) -> PeerId {
        match self {
            RoomCommand::JoinRequest { peer_id, .. } => peer_id,
            RoomCommand::IceCandidate { peer_id, .. } => peer_id,
            RoomCommand::Disconnect { peer_id } => peer_id,
        }
    }

    /// The peer the command is about.
    pub fn peer_id(&self) -> (peer_id: PeerId)
        ensures
            peer_id == self.peer(),
    {
        match self {
            RoomCommand::JoinRequest { peer_id, .. } => *peer_id,
            RoomCommand::IceCandidate { peer_id, .. } => *peer_id,
            RoomCommand::Disconnect { peer_id } => *peer_id,
        }
    }
}

} // verus!
