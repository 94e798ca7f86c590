use vstd::prelude::*;
use crate::peer::PeerId;
use crate::room_command::{Command, RoomCommand};
use crate::room_manager::{RoomHandle, RoomManager};
use crate::signaling::{servers_of, SignalFrame, SignalMessage};
use crate::signaling_service::{frame_of, BridgeState, OutboundFrame, SignalingService, WriterId};

verus! {

/// What the reading half of a signalling socket hands over.
#[derive(Debug, PartialEq, Eq)]
pub enum SocketFrame {
    /// A text frame.
    Text(String),
    /// A close frame.
    Close,
    /// The stream ended or failed.
    Lost,
    /// Any other frame: binary, ping or pong.
    Other,
}

/// One thing a session wants done. The driver performs the actions of a
/// step in the order given.
#[derive(Debug, PartialEq, Eq)]
pub enum SessionAction {
    /// Write the frame to the socket it is addressed to.
    Write(OutboundFrame),
    /// Start the room that was just entered under this handle.
    StartRoom { room: RoomHandle },
    /// Put the command on the command queue of the room. Where
    /// `must_arrive` is set and the queue is closed, the driver reports
    /// `room_lost`; otherwise a failure is logged and passed over.
    Enqueue { room: RoomHandle, command: RoomCommand, must_arrive: bool },
}

/// An action of a session as a mathematical value.
pub enum SessionEffect {
    Write { writer: WriterId, text: Seq<char> },
    StartRoom { room: RoomHandle },
    Enqueue { room: RoomHandle, command: Command, must_arrive: bool },
}

impl View for SessionAction {
    type V = SessionEffect;

    open spec fn view(&self) -> SessionEffect {
        match *self {
            SessionAction::Write(frame) => SessionEffect::Write {
                writer: frame.writer,
                text: frame.text@,
            },
            SessionAction::StartRoom { room } => SessionEffect::StartRoom { room },
            SessionAction::Enqueue { room, command, must_arrive } => SessionEffect::Enqueue {
                room,
                command: command@,
                must_arrive,
            },
        }
    }
}

/// The actions as mathematical values, in order.
pub open spec fn effects_of(actions: Seq<SessionAction>) -> Seq<SessionEffect> {
    actions.map_values(|action: SessionAction| action@)
}

/// The write that puts a routed frame on its way, if there is one.
pub open spec fn written(route: Option<(WriterId, Seq<char>)>) -> Seq<SessionEffect> {
    match route {
        Some((writer, text)) => seq![SessionEffect::Write { writer, text }],
        None => seq![],
    }
}

/// One signalling session as a mathematical value.
pub struct SessionState {
    /// The peer of the session, as its path names it.
    pub peer_id: PeerId,
    /// The room of the latest `Join`, if there was one.
    pub current_room: Option<RoomHandle>,
    /// Whether the reader still takes frames.
    pub reading: bool,
}

/// What a step of a session comes to: the session and the rooms after it
/// and the actions it asks for, in order.
pub struct SessionStep {
    pub state: SessionState,
    pub rooms: Map<Seq<char>, RoomHandle>,
    pub effects: Seq<SessionEffect>,
}

impl SessionState {
    /// The session's answer to a frame that the peer sent.
    ///
    /// `Join` resolves the room, entering it under `fresh` if it is new,
    /// makes it the session's room and answers `Welcome`. `Offer` becomes a
    /// join request to the session's room, which must arrive. An
    /// `IceCandidate` is forwarded to the session's room. Without a room
    /// both are passed over, and so is every frame that only a server
    /// sends.
    pub open spec fn on_signal(
        self,
        signal: SignalFrame,
        bridge: BridgeState,
        rooms: Map<Seq<char>, RoomHandle>,
        fresh: RoomHandle,
    ) -> SessionStep {
        match signal {
            SignalFrame::Join { room, .. } => {
                let welcome = written(
                    bridge.routed(
                        self.peer_id,
                        (SignalFrame::Welcome { peer_id: self.peer_id }).to_text(),
                    ),
                );
                if rooms.contains_key(room) {
                    SessionStep {
                        state: SessionState {
                            peer_id: self.peer_id,
                            current_room: Some(rooms[room]),
                            reading: self.reading,
                        },
                        rooms,
                        effects: welcome,
                    }
                } else {
                    SessionStep {
                        state: SessionState {
                            peer_id: self.peer_id,
                            current_room: Some(fresh),
                            reading: self.reading,
                        },
                        rooms: rooms.insert(room, fresh),
                        effects: seq![SessionEffect::StartRoom { room: fresh }] + welcome,
                    }
                }
            },
            SignalFrame::Offer { sdp } => SessionStep {
                state: self,
                rooms,
                effects: match self.current_room {
                    Some(room) => seq![
                        SessionEffect::Enqueue {
                            room,
                            command: Command::JoinRequest { peer_id: self.peer_id, offer: sdp },
                            must_arrive: true,
                        },
                    ],
                    None => seq![],
                },
            },
            SignalFrame::IceCandidate { candidate, .. } => SessionStep {
                state: self,
                rooms,
                effects: match self.current_room {
                    Some(room) => seq![
                        SessionEffect::Enqueue {
                            room,
                            command: Command::IceCandidate { peer_id: self.peer_id, candidate },
                            must_arrive: false,
                        },
                    ],
                    None => seq![],
                },
            },
            _ => SessionStep { state: self, rooms, effects: seq![] },
        }
    }

    /// The session with its reader stopped.
    pub open spec fn stopped(self) -> SessionState {
        SessionState { peer_id: self.peer_id, current_room: self.current_room, reading: false }
    }

    /// The session's answer to what its socket hands over.
    ///
    /// A text frame is decoded and answered as `on_signal` says; a text
    /// that is no frame is dropped and the session goes on. A close frame
    /// or a lost stream stops the reader. Other frames are passed over, and
    /// so is everything once the reader has stopped.
    pub open spec fn on_frame(
        self,
        frame: SocketFrame,
        bridge: BridgeState,
        rooms: Map<Seq<char>, RoomHandle>,
        fresh: RoomHandle,
    ) -> SessionStep {
        if !self.reading {
            SessionStep { state: self, rooms, effects: seq![] }
        } else {
            match frame {
                SocketFrame::Text(text) => match SignalFrame::from_text(text@) {
                    Some(signal) => self.on_signal(signal, bridge, rooms, fresh),
                    None => SessionStep { state: self, rooms, effects: seq![] },
                },
                SocketFrame::Close => SessionStep { state: self.stopped(), rooms, effects: seq![] },
                SocketFrame::Lost => SessionStep { state: self.stopped(), rooms, effects: seq![] },
                SocketFrame::Other => SessionStep { state: self, rooms, effects: seq![] },
            }
        }
    }

    /// What the session leaves behind when it ends: a disconnect for its
    /// room, if it has one.
    pub open spec fn farewell(self) -> Seq<SessionEffect> {
        match self.current_room {
            Some(room) => seq![
                SessionEffect::Enqueue {
                    room,
                    command: Command::Disconnect { peer_id: self.peer_id },
                    must_arrive: false,
                },
            ],
            None => seq![],
        }
    }
}

/// One signalling session: the socket of one peer, from the upgrade to the
/// cleanup.
pub struct Session {
    peer_id: PeerId,
    current_room: Option<RoomHandle>,
    reading: bool,
}

impl View for Session {
    type V = SessionState;

    closed spec fn view(&self) -> SessionState {
        SessionState {
            peer_id: self.peer_id,
            current_room: self.current_room,
            reading: self.reading,
        }
    }
}

/// Opens the session of the peer that the path of the upgrade names.
///
/// A path that is no well-formed UUID ends the session at once: nothing is
/// registered. Otherwise the writer is registered with the bridge under the
/// peer, replacing an earlier one, and the first frame tells the client the
/// ICE servers.
pub fn ws_handler(peer_id: &str, writer: WriterId, service: &mut SignalingService) -> (opened:
    Option<(Session, Vec<SessionAction>)>)
    ensures
        final(service)@.ice_servers == old(service)@.ice_servers,
        match opened {
            None => PeerId::parse_spec(peer_id@) is None && final(service)@ == old(service)@,
            Some((session, actions)) => {
                &&& PeerId::parse_spec(peer_id@) == Some(session@.peer_id)
                &&& session@.current_room is None
                &&& session@.reading
                &&& final(service)@.writers == old(service)@.writers.insert(
                    session@.peer_id,
                    writer,
                )
                &&& effects_of(actions@) == written(
                    final(service)@.routed(
                        session@.peer_id,
                        (SignalFrame::IceConfig {
                            ice_servers: old(service)@.ice_servers,
                        }).to_text(),
                    ),
                )
            },
        },
{
    match PeerId::parse(peer_id) {
        None => None,
        Some(peer_id) => {
            service.add_peer(peer_id, writer);
            let ice_servers = service.get_ice_servers();
            let mut actions: Vec<SessionAction> = Vec::new();
            match service.send_signal(peer_id, SignalMessage::IceConfig { ice_servers }) {
                Some(frame) => {
                    actions.push(SessionAction::Write(frame));
                },
                None => {},
            }
            let session = Session { peer_id, current_room: None, reading: true };
            Some((session, actions))
        },
    }
}

impl Session {
    /// The peer of the session.
    pub fn peer_id(&self) -> (peer_id: PeerId)
        ensures
            peer_id == self@.peer_id,
    {
        self.peer_id
    }

    /// The room of the latest `Join`, if there was one.
    pub fn current_room(&self) -> (room: Option<RoomHandle>)
        ensures
            room == self@.current_room,
    {
        self.current_room
    }

    /// Whether the reader still takes frames.
    pub fn is_reading(&self) -> (reading: bool)
        ensures
            reading == self@.reading,
    {
        self.reading
    }

    /// Answers a frame that the peer sent, already decoded.
    pub fn handle_signal(
        &mut self,
        signal: SignalMessage,
        service: &SignalingService,
        rooms: &mut RoomManager,
        fresh: RoomHandle,
    ) -> (actions: Vec<SessionAction>)
        ensures
            final(self)@ == old(self)@.on_signal(signal@, service@, old(rooms)@, fresh).state,
            final(rooms)@ == old(self)@.on_signal(signal@, service@, old(rooms)@, fresh).rooms,
            effects_of(actions@) == old(self)@.on_signal(
                signal@,
                service@,
                old(rooms)@,
                fresh,
            ).effects,
    {
        let mut actions: Vec<SessionAction> = Vec::new();
        match signal {
            SignalMessage::Join { room, .. } => {
                let entry = rooms.get_room_sender(room.as_str(), fresh);
                self.current_room = Some(entry.handle);
                if entry.created {
                    actions.push(SessionAction::StartRoom { room: entry.handle });
                }
                let welcome = service.send_signal(
                    self.peer_id,
                    SignalMessage::Welcome { peer_id: self.peer_id },
                );
                match welcome {
                    Some(frame) => {
                        actions.push(SessionAction::Write(frame));
                    },
                    None => {},
                }
            },
            SignalMessage::Offer { sdp } => {
                match self.current_room {
                    Some(room) => {
                        actions.push(
                            SessionAction::Enqueue {
                                room,
                                command: RoomCommand::JoinRequest {
                                    peer_id: self.peer_id,
                                    offer: sdp,
                                },
                                must_arrive: true,
                            },
                        );
                    },
                    None => {},
                }
            },
            SignalMessage::IceCandidate { candidate, .. } => {
                match self.current_room {
                    Some(room) => {
                        actions.push(
                            SessionAction::Enqueue {
                                room,
                                command: RoomCommand::IceCandidate {
                                    peer_id: self.peer_id,
                                    candidate,
                                },
                                must_arrive: false,
                            },
                        );
                    },
                    None => {},
                }
            },
            _ => {},
        }
        actions
    }

    /// Answers what the socket hands over: the turn of the reader's loop.
    pub fn handle_socket(
        &mut self,
        frame: SocketFrame,
        service: &SignalingService,
        rooms: &mut RoomManager,
        fresh: RoomHandle,
    ) -> (actions: Vec<SessionAction>)
        ensures
            final(self)@ == old(self)@.on_frame(frame, service@, old(rooms)@, fresh).state,
            final(rooms)@ == old(self)@.on_frame(frame, service@, old(rooms)@, fresh).rooms,
            effects_of(actions@) == old(self)@.on_frame(
                frame,
                service@,
                old(rooms)@,
                fresh,
            ).effects,
    {
        if !self.reading {
            let actions: Vec<SessionAction> = Vec::new();
            return actions;
        }
        match frame {
            SocketFrame::Text(text) => match SignalMessage::from_json(text.as_str()) {
                Some(signal) => self.handle_signal(signal, service, rooms, fresh),
                None => {
                    let actions: Vec<SessionAction> = Vec::new();
                    actions
                },
            },
            SocketFrame::Close | SocketFrame::Lost => {
                self.reading = false;
                let actions: Vec<SessionAction> = Vec::new();
                actions
            },
            SocketFrame::Other => {
                let actions: Vec<SessionAction> = Vec::new();
                actions
            },
        }
    }

    /// Takes note that a command which had to arrive found the queue of its
    /// room closed: the room is gone, and the reader stops.
    pub fn room_lost(&mut self)
        ensures
            final(self)@ == old(self)@.stopped(),
    {
        self.reading = false;
    }

    /// Ends the session, whichever half stopped first: the room of the
    /// session, if it has one, is told that the peer disconnected, and the
    /// writer is taken out of the bridge.
    pub fn finish(self, service: &mut SignalingService) -> (actions: Vec<SessionAction>)
        ensures
            effects_of(actions@) == self@.farewell(),
            final(service)@.writers == old(service)@.writers.remove(self@.peer_id),
            final(service)@.ice_servers == old(service)@.ice_servers,
    {
        let mut actions: Vec<SessionAction> = Vec::new();
        match self.current_room {
            Some(room) => {
                actions.push(
                    SessionAction::Enqueue {
                        room,
                        command: RoomCommand::Disconnect { peer_id: self.peer_id },
                        must_arrive: false,
                    },
                );
            },
            None => {},
        }
        service.remove_peer(&self.peer_id);
        actions
    }
}

} // verus!
