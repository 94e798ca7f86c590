use vstd::prelude::*;
use vstd::string::StrSliceExecFns;
use crate::json::{parsed, JsonTree, JsonValue};
use crate::model::{ConnectionState, EngineConfig, Packet, SystemMessage};
use crate::signaling::{
    copy_servers, optional_index, optional_text, read_optional_index, read_optional_text,
    read_required_text, required_text, servers_of, text_of, IceServer, IceServerConfig,
    SignalFrame, SignalMessage,
};

verus! {

broadcast use {vstd::seq::group_seq_axioms, vstd::std_specs::vec::group_vec_axioms};

/// The states of a data channel as the browser reports them.
#[derive(Clone, Copy, Debug, PartialEq, Eq, Structural)]
pub enum ChannelStatus {
    Connecting,
    Open,
    Closing,
    Closed,
}

/// The states of the ICE agent as the browser reports them.
#[derive(Clone, Copy, Debug, PartialEq, Eq, Structural)]
pub enum IceStatus {
    New,
    Checking,
    Connected,
    Completed,
    Failed,
    Disconnected,
    Closed,
}

/// What the keep-alive timer of a client does when it fires.
#[derive(Clone, Copy, Debug, PartialEq, Eq, Structural)]
pub enum PingStep {
    /// Send this packet and wait for the next tick.
    Ping(SystemMessage),
    /// Send nothing and wait for the next tick.
    Wait,
    /// Stop the timer.
    Stop,
}

/// A remote ICE candidate as the browser takes it.
#[derive(Debug, PartialEq, Eq)]
pub struct IcePayload {
    pub candidate: String,
    pub sdp_mid: Option<String>,
    pub sdp_m_line_index: Option<u16>,
}

/// A remote ICE candidate as a mathematical value.
pub struct IceInit {
    pub candidate: Seq<char>,
    pub sdp_mid: Option<Seq<char>>,
    pub sdp_m_line_index: Option<u16>,
}

impl View for IcePayload {
    type V = IceInit;

    open spec fn view(&self) -> IceInit {
        IceInit {
            candidate: self.candidate@,
            sdp_mid: text_of(self.sdp_mid),
            sdp_m_line_index: self.sdp_m_line_index,
        }
    }
}

/// One thing the client engine wants done in the browser. The driver
/// performs the actions of a step in the order given.
#[derive(Debug, PartialEq, Eq)]
pub enum EngineAction {
    /// Write the frame to the signalling socket.
    Signal(SignalMessage),
    /// Create a peer connection for these ICE servers, open the data
    /// channel, create an offer and set it as the local description.
    /// Answered by `offer_created`.
    CreateOffer { ice_servers: Vec<IceServerConfig> },
    /// Create a peer connection for these ICE servers, apply the remote
    /// offer, create the answer and set it as the local description.
    /// Answered by `answer_created`.
    AcceptOffer { ice_servers: Vec<IceServerConfig>, sdp: String },
    /// Apply the server's answer as the remote description.
    ApplyAnswer { sdp: String },
    /// Add one remote ICE candidate.
    AddCandidate(IcePayload),
    /// Create an offer that restarts ICE and set it as the local
    /// description. Answered by `offer_created`.
    RestartIce,
    /// Write the payload to the data channel.
    Transmit(Vec<u8>),
}

/// An action of the client engine as a mathematical value.
pub enum EngineEffect {
    Signal(SignalFrame),
    CreateOffer { ice_servers: Seq<IceServer> },
    AcceptOffer { ice_servers: Seq<IceServer>, sdp: Seq<char> },
    ApplyAnswer { sdp: Seq<char> },
    AddCandidate(IceInit),
    RestartIce,
    Transmit(Seq<u8>),
}

impl View for EngineAction {
    type V = EngineEffect;

    open spec fn view(&self) -> EngineEffect {
        match *self {
            EngineAction::Signal(frame) => EngineEffect::Signal(frame@),
            EngineAction::CreateOffer { ice_servers } => EngineEffect::CreateOffer {
                ice_servers: servers_of(ice_servers@),
            },
            EngineAction::AcceptOffer { ice_servers, sdp } => EngineEffect::AcceptOffer {
                ice_servers: servers_of(ice_servers@),
                sdp: sdp@,
            },
            EngineAction::ApplyAnswer { sdp } => EngineEffect::ApplyAnswer { sdp: sdp@ },
            EngineAction::AddCandidate(payload) => EngineEffect::AddCandidate(payload@),
            EngineAction::RestartIce => EngineEffect::RestartIce,
            EngineAction::Transmit(data) => EngineEffect::Transmit(data@),
        }
    }
}

/// The actions as mathematical values, in order.
pub open spec fn engine_effects(actions: Seq<EngineAction>) -> Seq<EngineEffect> {
    actions.map_values(|action: EngineAction| action@)
}

/// The payloads as sequences of bytes, in order.
pub open spec fn payloads(queue: Seq<Vec<u8>>) -> Seq<Seq<u8>> {
    queue.map_values(|data: Vec<u8>| data@)
}

/// The room that a client joins.
pub open spec fn default_room() -> Seq<char> {
    "DEFAULT"@
}

/// What `str::trim` leaves of a text: the text without the white space at
/// its ends.
pub uninterp spec fn trimmed(text: Seq<char>) -> Seq<char>;

/// Calls `str::trim`, which hands back the text without leading and
/// trailing white space. The contract only gives the outcome its name.
#[verifier::external_body]
fn trim_text(text: &str) -> (rest: &str)
    ensures
        rest@ == trimmed(text@),
{
    text.trim()
}

/// Whether a candidate looks like a JSON object rather than a candidate
/// line: its first character after the white space is an opening brace.
pub open spec fn looks_like_object(candidate: Seq<char>) -> bool {
    trimmed(candidate).len() > 0 && trimmed(candidate)[0] == '{'
}

/// The candidate that a JSON document holds: an object with the string
/// `"candidate"` and, optionally, the string `"sdp_mid"` and the index
/// `"sdp_m_line_index"`.
pub open spec fn payload_from(tree: JsonTree) -> Option<IceInit> {
    match (
        required_text(tree, "candidate"@),
        optional_text(tree, "sdp_mid"@),
        optional_index(tree, "sdp_m_line_index"@),
    ) {
        (Some(candidate), Some(sdp_mid), Some(sdp_m_line_index)) => Some(
            IceInit { candidate, sdp_mid, sdp_m_line_index },
        ),
        _ => None,
    }
}

/// The candidate that a frame really carries. A server may send the whole
/// candidate as a JSON object inside the candidate string; where the string
/// looks like an object and reads as one, the object is taken, and the
/// members of the frame otherwise.
pub open spec fn resolved_candidate(outer: IceInit) -> IceInit {
    if looks_like_object(outer.candidate) {
        match parsed(outer.candidate) {
            Some(tree) => match payload_from(tree) {
                Some(inner) => inner,
                None => outer,
            },
            None => outer,
        }
    } else {
        outer
    }
}

fn read_payload(tree: &JsonValue) -> (payload: Option<IcePayload>)
    ensures
        match payload {
            Some(payload) => payload_from(tree@) == Some(payload@),
            None => payload_from(tree@) is None,
        },
{
    match (
        read_required_text(tree, "candidate"),
        read_optional_text(tree, "sdp_mid"),
        read_optional_index(tree, "sdp_m_line_index"),
    ) {
        (Some(candidate), Some(sdp_mid), Some(sdp_m_line_index)) => Some(
            IcePayload { candidate, sdp_mid, sdp_m_line_index },
        ),
        _ => None,
    }
}

/// Takes the candidate out of an `IceCandidate` frame, unwrapping a JSON
/// object that stands in the candidate string.
pub fn resolve_candidate(outer: IcePayload) -> (payload: IcePayload)
    ensures
        payload@ == resolved_candidate(outer@),
{
    let rest = trim_text(outer.candidate.as_str());
    if rest.unicode_len() > 0 && rest.get_char(0) == '{' {
        match JsonValue::parse(outer.candidate.as_str()) {
            Some(tree) => match read_payload(&tree) {
                Some(inner) => inner,
                None => outer,
            },
            None => outer,
        }
    } else {
        outer
    }
}

/// The client engine as a mathematical value.
pub struct EngineState {
    /// The token that the client names itself by.
    pub auth_token: Seq<char>,
    /// How far the client has come.
    pub state: ConnectionState,
    /// The ICE servers that the server told of, if it has.
    pub ice_servers: Option<Seq<IceServer>>,
    /// Whether a peer connection is in place.
    pub has_connection: bool,
    /// Whether events are handed to a handler.
    pub has_handler: bool,
    /// The payloads that wait for the data channel, oldest first.
    pub queue: Seq<Seq<u8>>,
}

/// What a step of the client engine comes to.
pub struct EngineStep {
    pub state: EngineState,
    pub effects: Seq<EngineEffect>,
}

impl EngineState {
    /// The ICE servers for a new peer connection: those that the server
    /// told of, or none.
    pub open spec fn servers(self) -> Seq<IceServer> {
        match self.ice_servers {
            Some(servers) => servers,
            None => Seq::empty(),
        }
    }

    /// The engine's answer to a frame of the server.
    ///
    /// `IceConfig` is kept for later. `Welcome` starts the connection with
    /// an offer of the client. An `Offer` of the server is accepted. An
    /// `Answer` and an `IceCandidate` go to the peer connection if there is
    /// one and are passed over otherwise, as is `Join`.
    pub open spec fn on_signal(self, signal: SignalFrame) -> EngineStep {
        match signal {
            SignalFrame::IceConfig { ice_servers } => EngineStep {
                state: EngineState {
                    auth_token: self.auth_token,
                    state: self.state,
                    ice_servers: Some(ice_servers),
                    has_connection: self.has_connection,
                    has_handler: self.has_handler,
                    queue: self.queue,
                },
                effects: seq![],
            },
            SignalFrame::Welcome { .. } => EngineStep {
                state: self,
                effects: seq![EngineEffect::CreateOffer { ice_servers: self.servers() }],
            },
            SignalFrame::Offer { sdp } => EngineStep {
                state: self,
                effects: seq![EngineEffect::AcceptOffer { ice_servers: self.servers(), sdp }],
            },
            SignalFrame::Answer { sdp } => EngineStep {
                state: self,
                effects: if self.has_connection {
                    seq![EngineEffect::ApplyAnswer { sdp }]
                } else {
                    seq![]
                },
            },
            SignalFrame::IceCandidate { candidate, sdp_mid, sdp_m_line_index } => EngineStep {
                state: self,
                effects: if self.has_connection {
                    seq![
                        EngineEffect::AddCandidate(
                            resolved_candidate(IceInit { candidate, sdp_mid, sdp_m_line_index }),
                        ),
                    ]
                } else {
                    seq![]
                },
            },
            SignalFrame::Join { .. } => EngineStep { state: self, effects: seq![] },
        }
    }

    /// The engine's answer to a text frame of the server: that to the frame
    /// it decodes to, and nothing for a text that is no frame.
    pub open spec fn on_text(self, text: Seq<char>) -> EngineStep {
        match SignalFrame::from_text(text) {
            Some(signal) => self.on_signal(signal),
            None => EngineStep { state: self, effects: seq![] },
        }
    }

    /// The engine with a peer connection in place.
    pub open spec fn connected(self) -> EngineState {
        EngineState {
            auth_token: self.auth_token,
            state: self.state,
            ice_servers: self.ice_servers,
            has_connection: true,
            has_handler: self.has_handler,
            queue: self.queue,
        }
    }

    /// The engine in another state of connection.
    pub open spec fn in_state(self, state: ConnectionState) -> EngineState {
        EngineState {
            auth_token: self.auth_token,
            state,
            ice_servers: self.ice_servers,
            has_connection: self.has_connection,
            has_handler: self.has_handler,
            queue: self.queue,
        }
    }

    /// The engine with other payloads waiting.
    pub open spec fn with_queue(self, queue: Seq<Seq<u8>>) -> EngineState {
        EngineState {
            auth_token: self.auth_token,
            state: self.state,
            ice_servers: self.ice_servers,
            has_connection: self.has_connection,
            has_handler: self.has_handler,
            queue,
        }
    }

    /// Sending a payload: it goes out at once over an open data channel and
    /// waits in the queue otherwise.
    pub open spec fn on_send(self, data: Seq<u8>, channel: Option<ChannelStatus>) -> EngineStep {
        if channel == Some(ChannelStatus::Open) {
            EngineStep { state: self, effects: seq![EngineEffect::Transmit(data)] }
        } else {
            EngineStep { state: self.with_queue(self.queue.push(data)), effects: seq![] }
        }
    }

    /// The data channel opened: the client is connected, and what waited
    /// goes out, oldest first.
    pub open spec fn on_channel_open(self) -> EngineStep {
        EngineStep {
            state: self.in_state(ConnectionState::Connected).with_queue(Seq::empty()),
            effects: self.queue.map_values(|data: Seq<u8>| EngineEffect::Transmit(data)),
        }
    }
}

/// What the keep-alive timer does for a data channel in a given state at a
/// given time: a ping with the time over an open channel, the end of the
/// timer where the channel is closed or missing, and nothing otherwise.
pub open spec fn ping_step(channel: Option<ChannelStatus>, now: u64) -> PingStep {
    match channel {
        Some(ChannelStatus::Open) => PingStep::Ping(SystemMessage::Ping { timestamp: now }),
        Some(ChannelStatus::Closed) => PingStep::Stop,
        Some(_) => PingStep::Wait,
        None => PingStep::Stop,
    }
}

/// Decides what the keep-alive timer does when it fires.
pub fn ping_due(channel: Option<ChannelStatus>, now: u64) -> (step: PingStep)
    ensures
        step == ping_step(channel, now),
{
    match channel {
        Some(ChannelStatus::Open) => PingStep::Ping(SystemMessage::Ping { timestamp: now }),
        Some(ChannelStatus::Closed) => PingStep::Stop,
        Some(_) => PingStep::Wait,
        None => PingStep::Stop,
    }
}

/// The event that a packet of the server is to the user: the message of a
/// `User` packet, and nothing for any other packet.
pub fn dispatch_event<T>(packet: Packet<T>) -> (event: Option<T>)
    ensures
        event == match packet {
            Packet::User(message) => Some(message),
            _ => None,
        },
{
    match packet {
        Packet::User(message) => Some(message),
        _ => None,
    }
}

/// The decisions of a client: what it says on the signalling socket, when
/// it builds its peer connection, and what it does with payloads while the
/// data channel is not open.
pub struct AntennaEngine {
    config: EngineConfig,
    state: ConnectionState,
    ice_servers: Option<Vec<IceServerConfig>>,
    has_connection: bool,
    has_handler: bool,
    message_queue: Vec<Vec<u8>>,
}

impl View for AntennaEngine {
    type V = EngineState;

    closed spec fn view(&self) -> EngineState {
        EngineState {
            auth_token: self.config.auth_token@,
            state: self.state,
            ice_servers: match self.ice_servers {
                Some(servers) => Some(servers_of(servers@)),
                None => None,
            },
            has_connection: self.has_connection,
            has_handler: self.has_handler,
            queue: payloads(self.message_queue@),
        }
    }
}

impl AntennaEngine {
    /// A client that has not yet reached its server.
    pub fn new(config: EngineConfig) -> (engine: AntennaEngine)
        ensures
            engine@ == (EngineState {
                auth_token: config.auth_token@,
                state: ConnectionState::Disconnected,
                ice_servers: None,
                has_connection: false,
                has_handler: false,
                queue: Seq::empty(),
            }),
    {
        let engine = AntennaEngine {
            config,
            state: ConnectionState::Disconnected,
            ice_servers: None,
            has_connection: false,
            has_handler: false,
            message_queue: Vec::new(),
        };
        assert(payloads(engine.message_queue@) =~= Seq::empty());
        engine
    }

    /// How far the client has come.
    pub fn state(&self) -> (state: ConnectionState)
        ensures
            state == self@.state,
    {
        self.state
    }

    /// How many payloads wait for the data channel.
    pub fn queued(&self) -> (count: usize)
        ensures
            count == self@.queue.len(),
    {
        self.message_queue.len()
    }

    /// Takes note that events are handed to a handler from now on.
    pub fn set_event_handler(&mut self)
        ensures
            final(self)@ == (EngineState {
                auth_token: old(self)@.auth_token,
                state: old(self)@.state,
                ice_servers: old(self)@.ice_servers,
                has_connection: old(self)@.has_connection,
                has_handler: true,
                queue: old(self)@.queue,
            }),
    {
        self.has_handler = true;
    }

    /// The event to hand to the handler for a packet of the server: the
    /// message of a `User` packet if there is a handler, and nothing
    /// otherwise.
    pub fn event_for<T>(&self, packet: Packet<T>) -> (event: Option<T>)
        ensures
            event == match packet {
                Packet::User(message) => if self@.has_handler {
                    Some(message)
                } else {
                    None
                },
                _ => None,
            },
    {
        if self.has_handler {
            dispatch_event(packet)
        } else {
            None
        }
    }

    /// The signalling socket opened: the client asks to join the default
    /// room under its token and is connecting from now on.
    pub fn ws_setup(&mut self) -> (actions: Vec<EngineAction>)
        ensures
            final(self)@ == old(self)@.in_state(ConnectionState::Connecting),
            engine_effects(actions@) == seq![
                EngineEffect::Signal(
                    SignalFrame::Join {
                        room: default_room(),
                        token: Some(old(self)@.auth_token),
                    },
                ),
            ],
    {
        let join = SignalMessage::Join {
            room: "DEFAULT".to_owned(),
            token: Some(self.config.auth_token.clone()),
        };
        self.state = ConnectionState::Connecting;
        let mut actions: Vec<EngineAction> = Vec::new();
        actions.push(EngineAction::Signal(join));
        actions
    }

    /// A copy of the ICE servers for a new peer connection.
    fn servers(&self) -> (servers: Vec<IceServerConfig>)
        ensures
            servers_of(servers@) == self@.servers(),
    {
        match &self.ice_servers {
            Some(servers) => copy_servers(servers),
            None => {
                let servers: Vec<IceServerConfig> = Vec::new();
                servers
            },
        }
    }

    /// Answers a frame of the server, already decoded.
    pub fn on_signal(&mut self, signal: SignalMessage) -> (actions: Vec<EngineAction>)
        ensures
            final(self)@ == old(self)@.on_signal(signal@).state,
            engine_effects(actions@) == old(self)@.on_signal(signal@).effects,
    {
        let mut actions: Vec<EngineAction> = Vec::new();
        match signal {
            SignalMessage::IceConfig { ice_servers } => {
                self.ice_servers = Some(ice_servers);
            },
            SignalMessage::Welcome { .. } => {
                actions.push(EngineAction::CreateOffer { ice_servers: self.servers() });
            },
            SignalMessage::Offer { sdp } => {
                actions.push(EngineAction::AcceptOffer { ice_servers: self.servers(), sdp });
            },
            SignalMessage::Answer { sdp } => {
                if self.has_connection {
                    actions.push(EngineAction::ApplyAnswer { sdp });
                }
            },
            SignalMessage::IceCandidate { candidate, sdp_mid, sdp_m_line_index } => {
                if self.has_connection {
                    let payload = resolve_candidate(
                        IcePayload { candidate, sdp_mid, sdp_m_line_index },
                    );
                    actions.push(EngineAction::AddCandidate(payload));
                }
            },
            SignalMessage::Join { .. } => {},
        }
        actions
    }

    /// Answers a text frame of the server. A text that is no frame is
    /// dropped.
    pub fn handle_signal(&mut self, text: &str) -> (actions: Vec<EngineAction>)
        ensures
            final(self)@ == old(self)@.on_text(text@).state,
            engine_effects(actions@) == old(self)@.on_text(text@).effects,
    {
        match SignalMessage::from_json(text) {
            Some(signal) => self.on_signal(signal),
            None => {
                let actions: Vec<EngineAction> = Vec::new();
                actions
            },
        }
    }

    /// The offer of the client is set as its local description: the peer
    /// connection is in place, and the offer goes to the server.
    pub fn offer_created(&mut self, sdp: String) -> (actions: Vec<EngineAction>)
        ensures
            final(self)@ == old(self)@.connected(),
            engine_effects(actions@) == seq![EngineEffect::Signal(SignalFrame::Offer { sdp: sdp@ })],
    {
        self.has_connection = true;
        let mut actions: Vec<EngineAction> = Vec::new();
        actions.push(EngineAction::Signal(SignalMessage::Offer { sdp }));
        actions
    }

    /// The answer of the client is set as its local description: the peer
    /// connection is in place, and the answer goes to the server.
    pub fn answer_created(&mut self, sdp: String) -> (actions: Vec<EngineAction>)
        ensures
            final(self)@ == old(self)@.connected(),
            engine_effects(actions@) == seq![
                EngineEffect::Signal(SignalFrame::Answer { sdp: sdp@ }),
            ],
    {
        self.has_connection = true;
        let mut actions: Vec<EngineAction> = Vec::new();
        actions.push(EngineAction::Signal(SignalMessage::Answer { sdp }));
        actions
    }

    /// The ICE agent changed its state: where it failed, ICE is restarted.
    pub fn on_ice_state(&self, status: IceStatus) -> (actions: Vec<EngineAction>)
        ensures
            engine_effects(actions@) == if status == IceStatus::Failed {
                seq![EngineEffect::RestartIce]
            } else {
                Seq::<EngineEffect>::empty()
            },
    {
        let mut actions: Vec<EngineAction> = Vec::new();
        match status {
            IceStatus::Failed => {
                actions.push(EngineAction::RestartIce);
            },
            _ => {},
        }
        actions
    }

    /// Sends a payload to the server: at once where the data channel is
    /// open, and when it opens otherwise.
    pub fn send(&mut self, data: Vec<u8>, channel: Option<ChannelStatus>) -> (actions: Vec<
        EngineAction,
    >)
        ensures
            final(self)@ == old(self)@.on_send(data@, channel).state,
            engine_effects(actions@) == old(self)@.on_send(data@, channel).effects,
    {
        let mut actions: Vec<EngineAction> = Vec::new();
        match channel {
            Some(ChannelStatus::Open) => {
                actions.push(EngineAction::Transmit(data));
            },
            _ => {
                self.message_queue.push(data);
                assert(payloads(self.message_queue@) =~= payloads(old(self).message_queue@).push(
                    data@,
                ));
            },
        }
        actions
    }

    /// The data channel opened: the client is connected, and the payloads
    /// that waited go out in the order in which they were sent.
    pub fn setup_data_channel(&mut self) -> (actions: Vec<EngineAction>)
        ensures
            final(self)@ == old(self)@.on_channel_open().state,
            engine_effects(actions@) == old(self)@.on_channel_open().effects,
    {
        self.state = ConnectionState::Connected;
        let mut waiting: Vec<Vec<u8>> = Vec::new();
        std::mem::swap(&mut self.message_queue, &mut waiting);
        let ghost queue = payloads(waiting@);
        let count = waiting.len();
        let mut actions: Vec<EngineAction> = Vec::new();
        for data in rest: waiting
            invariant
                actions@.len() == rest.index(),
                rest.seq().len() == count,
                queue == payloads(rest.seq()),
                forall|k: int|
                    0 <= k < rest.index() ==> (#[trigger] actions@[k])@ == EngineEffect::Transmit(
                        queue[k],
                    ),
        {
            actions.push(EngineAction::Transmit(data));
        }
        assert(payloads(self.message_queue@) =~= Seq::empty());
        actions
    }
}

} // verus!
