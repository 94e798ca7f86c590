use vstd::prelude::*;
use crate::json::{parsed, printed, JsonTree, JsonValue};
use crate::peer::PeerId;
use crate::room_command::{Command, RoomCommand};
use crate::signaling::{member_of, object_of_one, object_of_two, read_required_text, required_text};

verus! {

/// A frame of the first version of the signalling protocol, from a client.
/// On the wire it is the object `{"type": .., "payload": ..}`.
#[derive(Debug, PartialEq, Eq)]
pub enum IncomingSignal {
    /// The client wants to join and sends its SDP offer.
    Join { offer: String },
    /// The client sends one ICE candidate.
    Ice { candidate: String },
}

/// A frame of the first version of the signalling protocol, to a client.
#[derive(Debug, PartialEq, Eq)]
pub enum OutgoingSignal {
    /// The server's SDP answer.
    Answer { sdp: String },
    /// One ICE candidate of the server.
    Ice { candidate: String },
}

/// An incoming frame as a mathematical value.
pub enum Incoming {
    Join { offer: Seq<char> },
    Ice { candidate: Seq<char> },
}

/// An outgoing frame as a mathematical value.
pub enum Outgoing {
    Answer { sdp: Seq<char> },
    Ice { candidate: Seq<char> },
}

impl View for IncomingSignal {
    type V = Incoming;

    open spec fn view(&self) -> Incoming {
        match *self {
            IncomingSignal::Join { offer } => Incoming::Join { offer: offer@ },
            IncomingSignal::Ice { candidate } => Incoming::Ice { candidate: candidate@ },
        }
    }
}

impl View for OutgoingSignal {
    type V = Outgoing;

    open spec fn view(&self) -> Outgoing {
        match *self {
            OutgoingSignal::Answer { sdp } => Outgoing::Answer { sdp: sdp@ },
            OutgoingSignal::Ice { candidate } => Outgoing::Ice { candidate: candidate@ },
        }
    }
}

impl Incoming {
    /// The command that the frame is to the room, coming from `peer_id`.
    pub open spec fn command(self, peer_id: PeerId) -> Command {
        match self {
            Incoming::Join { offer } => Command::JoinRequest { peer_id, offer },
            Incoming::Ice { candidate } => Command::IceCandidate { peer_id, candidate },
        }
    }

    /// The frame that a JSON document denotes: an object with `"join"` or
    /// `"ice"` under `"type"` and, under `"payload"`, an object with the
    /// string `"offer"` or `"candidate"`.
    pub open spec fn from_tree(tree: JsonTree) -> Option<Incoming> {
        match (tree.member("type"@), tree.member("payload"@)) {
            (Some(JsonTree::String(kind)), Some(payload)) => {
                if !(payload is Object) {
                    None
                } else if kind == "join"@ {
                    match required_text(payload, "offer"@) {
                        Some(offer) => Some(Incoming::Join { offer }),
                        None => None,
                    }
                } else if kind == "ice"@ {
                    match required_text(payload, "candidate"@) {
                        Some(candidate) => Some(Incoming::Ice { candidate }),
                        None => None,
                    }
                } else {
                    None
                }
            },
            _ => None,
        }
    }

    /// The frame that a JSON text denotes.
    pub open spec fn from_text(text: Seq<char>) -> Option<Incoming> {
        match parsed(text) {
            Some(tree) => Incoming::from_tree(tree),
            None => None,
        }
    }
}

impl Outgoing {
    /// The frame as a JSON document.
    pub open spec fn to_tree(self) -> JsonTree {
        match self {
            Outgoing::Answer { sdp } => JsonTree::Object(
                seq![
                    ("type"@, JsonTree::String("answer"@)),
                    ("payload"@, JsonTree::Object(seq![("sdp"@, JsonTree::String(sdp))])),
                ],
            ),
            Outgoing::Ice { candidate } => JsonTree::Object(
                seq![
                    ("type"@, JsonTree::String("ice"@)),
                    (
                        "payload"@,
                        JsonTree::Object(seq![("candidate"@, JsonTree::String(candidate))]),
                    ),
                ],
            ),
        }
    }

    /// The JSON text of the frame.
    pub open spec fn to_text(self) -> Option<Seq<char>> {
        printed(self.to_tree())
    }
}

impl IncomingSignal {
    /// Turns the frame into the command that it is to the room.
    pub fn into_command(self, peer_id: PeerId) -> (command: RoomCommand)
        ensures
            command@ == self@.command(peer_id),
    {
        match self {
            IncomingSignal::Join { offer } => RoomCommand::JoinRequest { peer_id, offer },
            IncomingSignal::Ice { candidate } => RoomCommand::IceCandidate { peer_id, candidate },
        }
    }

    /// Reads the frame that a JSON document denotes; `None` where it
    /// denotes none.
    pub fn from_tree(tree: &JsonValue) -> (signal: Option<IncomingSignal>)
        ensures
            match signal {
                Some(signal) => Incoming::from_tree(tree@) == Some(signal@),
                None => Incoming::from_tree(tree@) is None,
            },
    {
        let kind = match tree.member("type") {
            Some(JsonValue::String(kind)) => kind,
            _ => {
                return None;
            },
        };
        let payload = match tree.member("payload") {
            Some(payload) => payload,
            None => {
                return None;
            },
        };
        match payload {
            JsonValue::Object(_) => {},
            _ => {
                return None;
            },
        }
        if *kind == "join".to_owned() {
            match read_required_text(payload, "offer") {
                Some(offer) => Some(IncomingSignal::Join { offer }),
                None => None,
            }
        } else if *kind == "ice".to_owned() {
            match read_required_text(payload, "candidate") {
                Some(candidate) => Some(IncomingSignal::Ice { candidate }),
                None => None,
            }
        } else {
            None
        }
    }

    /// Reads a frame from a JSON text; `None` for a malformed frame.
    pub fn from_json(text: &str) -> (signal: Option<IncomingSignal>)
        ensures
            match signal {
                Some(signal) => Incoming::from_text(text@) == Some(signal@),
                None => Incoming::from_text(text@) is None,
            },
    {
        match JsonValue::parse(text) {
            Some(tree) => IncomingSignal::from_tree(&tree),
            None => None,
        }
    }
}

impl OutgoingSignal {
    /// Lays the frame out as a JSON document.
    pub fn to_tree(&self) -> (tree: JsonValue)
        ensures
            tree@ == self@.to_tree(),
    {
        match self {
            OutgoingSignal::Answer { sdp } => object_of_two(
                member_of("type", JsonValue::String("answer".to_owned())),
                member_of(
                    "payload",
                    object_of_one(member_of("sdp", JsonValue::String(sdp.clone()))),
                ),
            ),
            OutgoingSignal::Ice { candidate } => object_of_two(
                member_of("type", JsonValue::String("ice".to_owned())),
                member_of(
                    "payload",
                    object_of_one(member_of("candidate", JsonValue::String(candidate.clone()))),
                ),
            ),
        }
    }

    /// Writes the frame as a JSON text. `None` where the text cannot be
    /// written.
    pub fn to_json(&self) -> (text: Option<String>)
        ensures
            match text {
                Some(text) => self@.to_text() == Some(text@),
                None => self@.to_text() is None,
            },
    {
        self.to_tree().to_text()
    }
}

} // verus!
