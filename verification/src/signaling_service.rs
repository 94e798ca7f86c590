use vstd::prelude::*;
use dashmap::DashMap;
use crate::compat::OutgoingSignal;
use crate::peer::PeerId;
use crate::peer_map::{
    by_peer, group_keyed_maps, no_entries, peer_entries, peer_map_get, peer_map_insert,
    peer_map_new, peer_map_remove,
};
use crate::signaling::{copy_servers, servers_of, IceServer, IceServerConfig, SignalFrame, SignalMessage};

verus! {

broadcast use group_keyed_maps;

/// Stands for the writing half of one peer's signalling socket, held by the
/// driver.
#[derive(Clone, Copy, Debug, PartialEq, Eq, Hash, Structural)]
pub struct WriterId(pub u64);

/// A text frame on its way to the socket of one peer.
#[derive(Debug, PartialEq, Eq)]
pub struct OutboundFrame {
    pub writer: WriterId,
    pub text: String,
}

/// A number as the writer it stands for.
pub open spec fn as_writer() -> spec_fn(u64) -> WriterId {
    |number: u64| WriterId(number)
}

/// The bridge as a mathematical value: which writer serves which peer, and
/// the ICE servers that clients are told of.
pub struct BridgeState {
    pub writers: Map<PeerId, WriterId>,
    pub ice_servers: Seq<IceServer>,
}

impl BridgeState {
    /// The frame that reaches the writer of a peer, given the text that was
    /// written for it: none for a peer that is not registered, and none
    /// where no text could be written.
    pub open spec fn routed(self, peer_id: PeerId, text: Option<Seq<char>>) -> Option<
        (WriterId, Seq<char>),
    > {
        if self.writers.contains_key(peer_id) {
            match text {
                Some(text) => Some((self.writers[peer_id], text)),
                None => None,
            }
        } else {
            None
        }
    }
}

/// The writer and the text of a frame that may be absent.
pub open spec fn frame_of(frame: Option<OutboundFrame>) -> Option<(WriterId, Seq<char>)> {
    match frame {
        Some(frame) => Some((frame.writer, frame.text@)),
        None => None,
    }
}

/// Puts a text on its way to a writer: a frame where both are there, and
/// nothing where the peer has no writer or no text could be written.
pub fn frame_for(writer: Option<WriterId>, text: Option<String>) -> (frame: Option<OutboundFrame>)
    ensures
        frame_of(frame) == match (writer, text) {
            (Some(writer), Some(text)) => Some((writer, text@)),
            _ => None,
        },
{
    match (writer, text) {
        (Some(writer), Some(text)) => Some(OutboundFrame { writer, text }),
        _ => None,
    }
}

/// The signalling bridge: takes what a room has to say to a peer to the
/// writer of that peer's socket.
pub struct SignalingService {
    peers: DashMap<u128, u64>,
    ice_servers: Vec<IceServerConfig>,
}

impl View for SignalingService {
    type V = BridgeState;

    closed spec fn view(&self) -> BridgeState {
        BridgeState {
            writers: by_peer(peer_entries(self.peers), as_writer()),
            ice_servers: servers_of(self.ice_servers@),
        }
    }
}

impl SignalingService {
    /// A bridge without registered peers.
    pub fn new(ice_servers: Vec<IceServerConfig>) -> (service: SignalingService)
        ensures
            service@.writers == Map::<PeerId, WriterId>::empty(),
            service@.ice_servers == servers_of(ice_servers@),
    {
        SignalingService { peers: peer_map_new(), ice_servers }
    }

    /// A copy of the ICE servers, for the first frame of a session.
    pub fn get_ice_servers(&self) -> (ice_servers: Vec<IceServerConfig>)
        ensures
            servers_of(ice_servers@) == self@.ice_servers,
    {
        copy_servers(&self.ice_servers)
    }

    /// Registers the writer of a peer; an earlier writer of the same peer
    /// is replaced.
    pub fn add_peer(&mut self, peer_id: PeerId, writer: WriterId)
        ensures
            final(self)@.writers == old(self)@.writers.insert(peer_id, writer),
            final(self)@.ice_servers == old(self)@.ice_servers,
    {
        let _ = peer_map_insert(&mut self.peers, peer_id.0, writer.0);
    }

    /// Forgets the writer of a peer; nothing happens for a peer that is not
    /// registered.
    pub fn remove_peer(&mut self, peer_id: &PeerId)
        ensures
            final(self)@.writers == old(self)@.writers.remove(*peer_id),
            final(self)@.ice_servers == old(self)@.ice_servers,
    {
        let _ = peer_map_remove(&mut self.peers, peer_id.0);
    }

    /// The writer that serves a peer, if one is registered.
    pub fn writer_of(&self, peer_id: &PeerId) -> (writer: Option<WriterId>)
        ensures
            writer == (if self@.writers.contains_key(*peer_id) {
                Some(self@.writers[*peer_id])
            } else {
                None
            }),
    {
        match peer_map_get(&self.peers, peer_id.0) {
            Some(writer) => Some(WriterId(writer)),
            None => None,
        }
    }

    /// Writes a frame for a peer: its JSON text, addressed to the writer of
    /// the peer. Nothing for a peer that is not registered, and nothing
    /// where the text cannot be written.
    pub fn send_signal(&self, peer_id: PeerId, msg: SignalMessage) -> (frame: Option<OutboundFrame>)
        ensures
            frame_of(frame) == self@.routed(peer_id, msg@.to_text()),
    {
        match self.writer_of(&peer_id) {
            Some(writer) => frame_for(Some(writer), msg.to_json()),
            None => None,
        }
    }

    /// Writes the `Answer` frame that carries `sdp` for a peer.
    pub fn send_answer(&self, peer_id: PeerId, sdp: String) -> (frame: Option<OutboundFrame>)
        ensures
            frame_of(frame) == self@.routed(
                peer_id,
                (SignalFrame::Answer { sdp: sdp@ }).to_text(),
            ),
    {
        self.send_signal(peer_id, SignalMessage::Answer { sdp })
    }

    /// Writes the `IceCandidate` frame that carries `candidate` for a peer,
    /// with neither a media id nor a line index.
    pub fn send_ice(&self, peer_id: PeerId, candidate: String) -> (frame: Option<OutboundFrame>)
        ensures
            frame_of(frame) == self@.routed(
                peer_id,
                (SignalFrame::IceCandidate {
                    candidate: candidate@,
                    sdp_mid: None,
                    sdp_m_line_index: None,
                }).to_text(),
            ),
    {
        self.send_signal(
            peer_id,
            SignalMessage::IceCandidate { candidate, sdp_mid: None, sdp_m_line_index: None },
        )
    }

    /// Writes a frame of the first version of the protocol for a peer.
    /// Nothing for a peer that is not registered, and nothing where the
    /// text cannot be written.
    pub fn send_json(&self, peer_id: PeerId, msg: OutgoingSignal) -> (frame: Option<OutboundFrame>)
        ensures
            frame_of(frame) == self@.routed(peer_id, msg@.to_text()),
    {
        match self.writer_of(&peer_id) {
            Some(writer) => frame_for(Some(writer), msg.to_json()),
            None => None,
        }
    }
}

} // verus!
