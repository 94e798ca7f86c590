//! Antenna: rooms of peers that talk to a server over data channels.
//!
//! A browser negotiates a peer connection with the server over a signalling
//! socket and then exchanges binary payloads with the room it joined. This
//! library holds every decision of that system as verified code that does
//! no input or output of its own:
//!
//! - [`room`]: the single-writer state of one room. It takes commands,
//!   transport events and the outcomes of transport calls, and says which
//!   actions are to be performed: transport calls, signalling frames, and
//!   the hooks of the room logic. [`room_laws`] proves what holds of every
//!   run of a room.
//! - [`room_context`]: what the room logic may do while a hook runs.
//! - [`signaling`] and [`json`]: the frames of the signalling protocol and
//!   their JSON form.
//! - [`signaling_service`], [`session`] and [`room_manager`]: the bridge
//!   from rooms to sockets, the session of one socket, and the table of
//!   rooms.
//! - [`client`]: the decisions of the client in the browser.
//!
//! A driver owns the queues, sockets and transports. It hands the library
//! what arrives and performs the actions that the library returns, in the
//! order given.

pub mod client;
pub mod compat;
pub mod json;
pub mod logger;
pub mod model;
pub mod peer;
pub mod peer_map;
pub mod room;
pub mod room_action;
pub mod room_command;
pub mod room_context;
pub mod room_laws;
pub mod room_manager;
pub mod session;
pub mod signaling;
pub mod signaling_service;
pub mod transport;

pub use client::{AntennaEngine, EngineAction};
pub use compat::{IncomingSignal, OutgoingSignal};
pub use json::{JsonMember, JsonValue};
pub use logger::Logger;
pub use model::{
    AntennaMessage, Channel, ConnectionState, EngineConfig, Packet, RequestId, RoomId,
    SystemMessage,
};
pub use peer::PeerId;
pub use room::{Halt, Negotiation, Room, RoomInput, RunReport};
pub use room_action::RoomAction;
pub use room_command::RoomCommand;
pub use room_context::{Delivery, RoomContext};
pub use room_manager::{RoomEntry, RoomHandle, RoomManager};
pub use session::{ws_handler, Session, SessionAction, SocketFrame};
pub use signaling::{IceServerConfig, SignalMessage};
pub use signaling_service::{OutboundFrame, SignalingService, WriterId};
pub use transport::{
    ChannelId, ConnectionStatus, TransportConfig, TransportEvent, TransportId, TransportReply,
};
