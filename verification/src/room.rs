use vstd::prelude::*;
use std::collections::HashMap;
use vstd::std_specs::iter::IteratorSpec;
use dashmap::DashMap;
use crate::peer::PeerId;
use crate::peer_map::{
    by_peer, group_keyed_maps, no_entries, peer_entries, peer_map_contains, peer_map_insert,
    peer_map_new, peer_map_remove,
};
use crate::room_action::{actions_of, Action, RoomAction};
use crate::room_command::{Command, RoomCommand};
use crate::transport::{ChannelId, Event, Reply, TransportEvent, TransportId, TransportReply};

verus! {

broadcast use {vstd::std_specs::hash::group_hash_axioms, group_keyed_maps};

/// Recommended bound of the queue on which a room receives its commands.
pub const COMMAND_QUEUE_CAPACITY: usize = 100;

/// Recommended bound of the queue on which a room receives the events of all
/// its transports.
pub const TRANSPORT_QUEUE_CAPACITY: usize = 256;

/// The join that a room is working on: a transport is being built and has
/// not yet become a peer record.
#[derive(Debug, PartialEq, Eq)]
pub enum Negotiation {
    /// The room asked for a transport and holds the offer for it.
    Creating { peer_id: PeerId, offer: String },
    /// The transport exists and was handed the offer.
    ApplyingOffer { peer_id: PeerId, transport: TransportId },
    /// The offer was accepted and an answer was asked for.
    Answering { peer_id: PeerId, transport: TransportId },
}

/// One thing that reaches the room's event loop.
#[derive(Debug, PartialEq, Eq)]
pub enum RoomInput {
    /// The next command from the command queue.
    Command(RoomCommand),
    /// The next event from the transport queue.
    Event(TransportEvent),
    /// The outcome of an action that the room asked for.
    Reply(TransportReply),
    /// The command queue was closed: no producer is left.
    CommandsClosed,
    /// The transport queue was closed.
    EventsClosed,
}

/// Why the event loop of a room ended.
#[derive(Clone, Copy, Debug, PartialEq, Eq, Structural)]
pub enum Halt {
    /// The command queue was closed; the room shut down in good order.
    CommandsClosed,
    /// The transport queue was closed, which is not expected to happen.
    EventsClosed,
}

/// The join in progress as a mathematical value.
pub enum Pending {
    Creating { peer_id: PeerId, offer: Seq<char> },
    ApplyingOffer { peer_id: PeerId, transport: TransportId },
    Answering { peer_id: PeerId, transport: TransportId },
}

impl View for Negotiation {
    type V = Pending;

    open spec fn view(&self) -> Pending {
        match *self {
            Negotiation::Creating { peer_id, offer } => Pending::Creating { peer_id, offer: offer@ },
            Negotiation::ApplyingOffer { peer_id, transport } => Pending::ApplyingOffer {
                peer_id,
                transport,
            },
            Negotiation::Answering { peer_id, transport } => Pending::Answering {
                peer_id,
                transport,
            },
        }
    }
}

/// The join in progress, if there is one, as a mathematical value.
pub open spec fn pending_of(negotiation: Option<Negotiation>) -> Option<Pending> {
    match negotiation {
        Some(negotiation) => Some(negotiation@),
        None => None,
    }
}

/// An input of the event loop as a mathematical value.
pub enum Input {
    Command(Command),
    Event(Event),
    Reply(Reply),
    CommandsClosed,
    EventsClosed,
}

impl View for RoomInput {
    type V = Input;

    open spec fn view(&self) -> Input {
        match *self {
            RoomInput::Command(command) => Input::Command(command@),
            RoomInput::Event(event) => Input::Event(event@),
            RoomInput::Reply(reply) => Input::Reply(reply@),
            RoomInput::CommandsClosed => Input::CommandsClosed,
            RoomInput::EventsClosed => Input::EventsClosed,
        }
    }
}

/// The inputs as mathematical values, in order.
pub open spec fn inputs_of(inputs: Seq<RoomInput>) -> Seq<Input> {
    inputs.map_values(|input: RoomInput| input@)
}

/// The room as a mathematical value.
///
/// `transports` maps each peer that has a record to its transport, and
/// `channels` each active peer to the sink of its data channel. A peer with a
/// record and no sink is handshaking.
pub struct RoomState {
    pub transports: Map<PeerId, TransportId>,
    pub channels: Map<PeerId, ChannelId>,
    pub negotiation: Option<Pending>,
}

/// A number as the transport it stands for.
pub open spec fn as_transport() -> spec_fn(u64) -> TransportId {
    |number: u64| TransportId(number)
}

/// A number as the sink it stands for.
pub open spec fn as_channel() -> spec_fn(u64) -> ChannelId {
    |number: u64| ChannelId(number)
}

/// What a step of the room comes to: the state after it and the actions it
/// asks for, in order.
pub struct Step {
    pub state: RoomState,
    pub actions: Seq<Action>,
}

/// The action that disposes of the transport of an abandoned negotiation.
pub open spec fn abandon(negotiation: Option<Pending>) -> Seq<Action> {
    match negotiation {
        Some(Pending::ApplyingOffer { transport, .. }) => seq![
            Action::DropTransport { transport },
        ],
        Some(Pending::Answering { transport, .. }) => seq![
            Action::DropTransport { transport },
        ],
        _ => seq![],
    }
}

impl RoomState {
    /// A room without peers.
    pub open spec fn fresh() -> RoomState {
        RoomState { transports: Map::empty(), channels: Map::empty(), negotiation: None }
    }

    /// Whether the room holds a record for the peer.
    pub open spec fn has_record(self, peer_id: PeerId) -> bool {
        self.transports.contains_key(peer_id)
    }

    /// Whether the peer's data channel is open: `on_join` was delivered for
    /// its record and `on_leave` was not.
    pub open spec fn is_active(self, peer_id: PeerId) -> bool {
        self.channels.contains_key(peer_id)
    }

    /// Every active peer has a record.
    pub open spec fn well_formed(self) -> bool {
        forall|peer_id: PeerId|
            self.channels.contains_key(peer_id) ==> self.transports.contains_key(peer_id)
    }

    /// Forget the peer: drop its sink and its record, and close its
    /// transport. Nothing happens for a peer without a record.
    pub open spec fn remove_peer(self, peer_id: PeerId) -> Step {
        Step {
            state: RoomState {
                transports: self.transports.remove(peer_id),
                channels: self.channels.remove(peer_id),
                negotiation: self.negotiation,
            },
            actions: if self.has_record(peer_id) {
                seq![
                    Action::CloseTransport { transport: self.transports[peer_id] },
                ]
            } else {
                seq![]
            },
        }
    }

    /// Forget the peer and, if it was active, tell the room logic that it
    /// left.
    pub open spec fn remove_peer_with_notify(self, peer_id: PeerId) -> Step {
        let removed = self.remove_peer(peer_id);
        Step {
            state: removed.state,
            actions: if self.is_active(peer_id) {
                removed.actions.push(Action::Left { peer_id })
            } else {
                removed.actions
            },
        }
    }

    /// The room's answer to a command.
    pub open spec fn on_command(self, command: Command) -> Step {
        match command {
            Command::JoinRequest { peer_id, offer } => {
                let removed = self.remove_peer_with_notify(peer_id);
                Step {
                    state: RoomState {
                        transports: removed.state.transports,
                        channels: removed.state.channels,
                        negotiation: Some(Pending::Creating { peer_id, offer }),
                    },
                    actions: abandon(self.negotiation) + removed.actions + seq![
                        Action::CreateTransport { peer_id },
                    ],
                }
            },
            Command::IceCandidate { peer_id, candidate } => Step {
                state: self,
                actions: if self.has_record(peer_id) {
                    seq![
                        Action::AddRemoteIce { transport: self.transports[peer_id], candidate },
                    ]
                } else {
                    seq![]
                },
            },
            Command::Disconnect { peer_id } => self.remove_peer_with_notify(peer_id),
        }
    }

    /// The room's answer to an event of one of its transports.
    pub open spec fn on_event(self, event: Event) -> Step {
        match event {
            Event::DataChannelReady(peer_id, channel) => {
                if self.has_record(peer_id) {
                    Step {
                        state: RoomState {
                            transports: self.transports,
                            channels: self.channels.insert(peer_id, channel),
                            negotiation: self.negotiation,
                        },
                        actions: if self.is_active(peer_id) {
                            seq![]
                        } else {
                            seq![Action::Joined { peer_id }]
                        },
                    }
                } else {
                    Step { state: self, actions: seq![] }
                }
            },
            Event::Message(peer_id, data) => Step {
                state: self,
                actions: if self.is_active(peer_id) {
                    seq![Action::Message { peer_id, data }]
                } else {
                    seq![]
                },
            },
            Event::Disconnected(peer_id) => self.remove_peer_with_notify(peer_id),
            Event::CandidateGenerated(peer_id, candidate) => Step {
                state: self,
                actions: seq![Action::SendIce { peer_id, candidate }],
            },
        }
    }

    /// The room's answer to the outcome of an action it asked for.
    ///
    /// An outcome moves the negotiation on only if it is the one that the
    /// negotiation waits for. Any other is set aside: nothing changes, and a
    /// transport that came with it is discarded.
    pub open spec fn on_reply(self, reply: Reply) -> Step {
        match reply {
            Reply::Created { peer_id, created: transport } => match self.negotiation {
                Some(Pending::Creating { peer_id: joining, offer }) if joining == peer_id => {
                    match transport {
                        Some(transport) => Step {
                            state: RoomState {
                                transports: self.transports,
                                channels: self.channels,
                                negotiation: Some(
                                    Pending::ApplyingOffer { peer_id, transport },
                                ),
                            },
                            actions: seq![Action::SetRemoteOffer { transport, sdp: offer }],
                        },
                        None => Step {
                            state: RoomState {
                                transports: self.transports,
                                channels: self.channels,
                                negotiation: None,
                            },
                            actions: seq![],
                        },
                    }
                },
                _ => Step {
                    state: self,
                    actions: match transport {
                        Some(transport) => seq![Action::DropTransport { transport }],
                        None => seq![],
                    },
                },
            },
            Reply::OfferApplied { transport, accepted } => match self.negotiation {
                Some(Pending::ApplyingOffer { peer_id, transport: pending }) if pending
                    == transport => {
                    if accepted {
                        Step {
                            state: RoomState {
                                transports: self.transports,
                                channels: self.channels,
                                negotiation: Some(Pending::Answering { peer_id, transport }),
                            },
                            actions: seq![Action::CreateAnswer { transport }],
                        }
                    } else {
                        Step {
                            state: RoomState {
                                transports: self.transports,
                                channels: self.channels,
                                negotiation: None,
                            },
                            actions: seq![Action::DropTransport { transport }],
                        }
                    }
                },
                _ => Step { state: self, actions: seq![] },
            },
            Reply::AnswerCreated { transport, answer } => match self.negotiation {
                Some(Pending::Answering { peer_id, transport: pending }) if pending
                    == transport => {
                    match answer {
                        Some(sdp) => {
                            let removed = self.remove_peer_with_notify(peer_id);
                            Step {
                                state: RoomState {
                                    transports: removed.state.transports.insert(
                                        peer_id,
                                        transport,
                                    ),
                                    channels: removed.state.channels,
                                    negotiation: None,
                                },
                                actions: removed.actions.push(
                                    Action::SendAnswer { peer_id, sdp },
                                ),
                            }
                        },
                        None => Step {
                            state: RoomState {
                                transports: self.transports,
                                channels: self.channels,
                                negotiation: None,
                            },
                            actions: seq![Action::DropTransport { transport }],
                        },
                    }
                },
                _ => Step { state: self, actions: seq![] },
            },
        }
    }

    /// Whether the input ends the event loop, and why.
    pub open spec fn halts_on(input: Input) -> Option<Halt> {
        match input {
            Input::CommandsClosed => Some(Halt::CommandsClosed),
            Input::EventsClosed => Some(Halt::EventsClosed),
            _ => None,
        }
    }

    /// One turn of the event loop. An input that ends the loop changes
    /// nothing and asks for nothing.
    pub open spec fn step(self, input: Input) -> Step {
        match input {
            Input::Command(command) => self.on_command(command),
            Input::Event(event) => self.on_event(event),
            Input::Reply(reply) => self.on_reply(reply),
            Input::CommandsClosed => Step { state: self, actions: seq![] },
            Input::EventsClosed => Step { state: self, actions: seq![] },
        }
    }
}

/// What a run of the event loop over a sequence of inputs comes to.
pub struct Run {
    /// The room after the run.
    pub state: RoomState,
    /// All actions asked for, in order.
    pub actions: Seq<Action>,
    /// How many inputs were taken, the one that ended the loop included.
    pub consumed: nat,
    /// Why the loop ended, if it did before the inputs ran out.
    pub halt: Option<Halt>,
}

/// The event loop: the inputs are taken one after the other until one of
/// them ends the loop or none is left.
pub open spec fn run_from(state: RoomState, inputs: Seq<Input>) -> Run
    decreases inputs.len(),
{
    if inputs.len() == 0 {
        Run { state, actions: seq![], consumed: 0, halt: None }
    } else if RoomState::halts_on(inputs[0]) is Some {
        Run { state, actions: seq![], consumed: 1, halt: RoomState::halts_on(inputs[0]) }
    } else {
        let first = state.step(inputs[0]);
        let rest = run_from(first.state, inputs.drop_first());
        Run {
            state: rest.state,
            actions: first.actions + rest.actions,
            consumed: rest.consumed + 1,
            halt: rest.halt,
        }
    }
}

/// What `Room::run` hands back.
#[derive(Debug, PartialEq, Eq)]
pub struct RunReport {
    /// All actions asked for, in order.
    pub actions: Vec<RoomAction>,
    /// How many inputs were taken, the one that ended the loop included.
    pub consumed: usize,
    /// Why the loop ended, if it did before the inputs ran out.
    pub halt: Option<Halt>,
}

/// The single-writer state of one room: the records of its peers, the sinks
/// of the active ones, and the join in progress.
pub struct Room {
    peers_data: DashMap<u128, u64>,
    transports: HashMap<u128, u64>,
    negotiation: Option<Negotiation>,
}

impl View for Room {
    type V = RoomState;

    closed spec fn view(&self) -> RoomState {
        RoomState {
            transports: by_peer(self.transports@, as_transport()),
            channels: by_peer(peer_entries(self.peers_data), as_channel()),
            negotiation: pending_of(self.negotiation),
        }
    }
}

impl Room {
    /// A room that has not started: no peer, no join in progress.
    pub fn new() -> (room: Room)
        ensures
            room@ == RoomState::fresh(),
    {
        let room = Room {
            peers_data: peer_map_new(),
            transports: HashMap::new(),
            negotiation: None,
        };
        room
    }

    /// Whether the room holds a record for the peer.
    pub fn has_peer(&self, peer_id: &PeerId) -> (found: bool)
        ensures
            found == self@.has_record(*peer_id),
    {
        self.transports.contains_key(&peer_id.0)
    }

    /// The transport of the peer's record, if the peer has one.
    pub fn transport_of(&self, peer_id: &PeerId) -> (transport: Option<TransportId>)
        ensures
            transport == (if self@.has_record(*peer_id) {
                Some(self@.transports[*peer_id])
            } else {
                None
            }),
    {
        match self.transports.get(&peer_id.0) {
            Some(transport) => Some(TransportId(*transport)),
            None => None,
        }
    }

    /// Whether the peer's data channel is open.
    pub fn is_active(&self, peer_id: &PeerId) -> (active: bool)
        ensures
            active == self@.is_active(*peer_id),
    {
        peer_map_contains(&self.peers_data, peer_id.0)
    }

    /// The map of the active peers' sinks, which a `RoomContext` reads.
    pub(crate) fn sinks(&self) -> (sinks: &DashMap<u128, u64>)
        ensures
            by_peer(peer_entries(*sinks), as_channel()) == self@.channels,
    {
        &self.peers_data
    }

    /// Forgets the peer without telling the room logic: its sink and its
    /// record go, and its transport is closed. Safe for a peer that the
    /// room does not know.
    pub fn remove_peer(&mut self, peer_id: &PeerId) -> (actions: Vec<RoomAction>)
        ensures
            final(self)@ == old(self)@.remove_peer(*peer_id).state,
            actions_of(actions@) == old(self)@.remove_peer(*peer_id).actions,
    {
        let mut actions: Vec<RoomAction> = Vec::new();
        let _ = peer_map_remove(&mut self.peers_data, peer_id.0);
        match self.transports.remove(&peer_id.0) {
            Some(transport) => {
                actions.push(RoomAction::CloseTransport { transport: TransportId(transport) });
            },
            None => {},
        }
        actions
    }

    /// Forgets the peer and reports `Left` for it if it was active, so that
    /// `on_leave` follows `on_join` at most once.
    pub fn remove_peer_with_notify(&mut self, peer_id: &PeerId) -> (actions: Vec<RoomAction>)
        ensures
            final(self)@ == old(self)@.remove_peer_with_notify(*peer_id).state,
            actions_of(actions@) == old(self)@.remove_peer_with_notify(*peer_id).actions,
    {
        let was_active = peer_map_contains(&self.peers_data, peer_id.0);
        let mut actions = self.remove_peer(peer_id);
        if was_active {
            actions.push(RoomAction::Left { peer_id: *peer_id });
        }
        actions
    }

    /// Handles one command of the signalling side.
    ///
    /// A join request replaces whatever the room held for the peer (telling
    /// the room logic only if the peer was active) and asks for a transport;
    /// the handshake goes on in `handle_reply`. An ICE candidate goes to the
    /// peer's transport, or nowhere if the peer has no record. A disconnect
    /// removes the peer.
    pub fn handle_command(&mut self, command: RoomCommand) -> (actions: Vec<RoomAction>)
        ensures
            final(self)@ == old(self)@.on_command(command@).state,
            actions_of(actions@) == old(self)@.on_command(command@).actions,
    {
        match command {
            RoomCommand::JoinRequest { peer_id, offer } => {
                let mut actions = self.abandon_negotiation();
                let mut removal = self.remove_peer_with_notify(&peer_id);
                actions.append(&mut removal);
                actions.push(RoomAction::CreateTransport { peer_id });
                self.negotiation = Some(Negotiation::Creating { peer_id, offer });
                actions
            },
            RoomCommand::IceCandidate { peer_id, candidate } => {
                let mut actions: Vec<RoomAction> = Vec::new();
                match self.transports.get(&peer_id.0) {
                    Some(transport) => {
                        actions.push(
                            RoomAction::AddRemoteIce {
                                transport: TransportId(*transport),
                                candidate,
                            },
                        );
                    },
                    None => {},
                }
                actions
            },
            RoomCommand::Disconnect { peer_id } => self.remove_peer_with_notify(&peer_id),
        }
    }

    /// Handles one event of a transport.
    ///
    /// An open data channel makes a handshaking peer active and is reported
    /// as `Joined`; on an active peer it only replaces the sink, and for a
    /// peer without a record it is ignored. A payload is reported as
    /// `Message` if the peer is active and dropped otherwise. A lost
    /// connection removes the peer. A local candidate goes to the peer's
    /// signalling socket.
    pub fn handle_transport_event(&mut self, event: TransportEvent) -> (actions: Vec<RoomAction>)
        ensures
            final(self)@ == old(self)@.on_event(event@).state,
            actions_of(actions@) == old(self)@.on_event(event@).actions,
    {
        match event {
            TransportEvent::DataChannelReady(peer_id, channel) => {
                let mut actions: Vec<RoomAction> = Vec::new();
                if self.transports.contains_key(&peer_id.0) {
                    let previous = peer_map_insert(&mut self.peers_data, peer_id.0, channel.0);
                    if previous.is_none() {
                        actions.push(RoomAction::Joined { peer_id });
                    }
                }
                actions
            },
            TransportEvent::Message(peer_id, data) => {
                let mut actions: Vec<RoomAction> = Vec::new();
                if peer_map_contains(&self.peers_data, peer_id.0) {
                    actions.push(RoomAction::Message { peer_id, data });
                }
                actions
            },
            TransportEvent::Disconnected(peer_id) => self.remove_peer_with_notify(&peer_id),
            TransportEvent::CandidateGenerated(peer_id, candidate) => {
                let mut actions: Vec<RoomAction> = Vec::new();
                actions.push(RoomAction::SendIce { peer_id, candidate });
                actions
            },
        }
    }

    /// Handles the outcome of an action of the join in progress.
    ///
    /// The handshake goes from the new transport to the applied offer to the
    /// answer. When the answer is there the peer gets its record and the
    /// answer is sent; when a step fails the transport is discarded, nothing
    /// is stored and nothing is sent.
    pub fn handle_reply(&mut self, reply: TransportReply) -> (actions: Vec<RoomAction>)
        ensures
            final(self)@ == old(self)@.on_reply(reply@).state,
            actions_of(actions@) == old(self)@.on_reply(reply@).actions,
    {
        let mut actions: Vec<RoomAction> = Vec::new();
        let pending = self.negotiation.take();
        match reply {
            TransportReply::Created { peer_id, created: transport } => match pending {
                Some(Negotiation::Creating { peer_id: joining, offer }) if joining == peer_id => {
                    match transport {
                        Some(transport) => {
                            self.negotiation = Some(
                                Negotiation::ApplyingOffer { peer_id, transport },
                            );
                            actions.push(RoomAction::SetRemoteOffer { transport, sdp: offer });
                        },
                        None => {},
                    }
                },
                other => {
                    self.negotiation = other;
                    match transport {
                        Some(transport) => {
                            actions.push(RoomAction::DropTransport { transport });
                        },
                        None => {},
                    }
                },
            },
            TransportReply::OfferApplied { transport, accepted } => match pending {
                Some(Negotiation::ApplyingOffer { peer_id, transport: waiting }) if waiting
                    == transport => {
                    if accepted {
                        self.negotiation = Some(Negotiation::Answering { peer_id, transport });
                        actions.push(RoomAction::CreateAnswer { transport });
                    } else {
                        actions.push(RoomAction::DropTransport { transport });
                    }
                },
                other => {
                    self.negotiation = other;
                },
            },
            TransportReply::AnswerCreated { transport, answer } => match pending {
                Some(Negotiation::Answering { peer_id, transport: waiting }) if waiting
                    == transport => {
                    match answer {
                        Some(sdp) => {
                            actions = self.remove_peer_with_notify(&peer_id);
                            let _ = self.transports.insert(peer_id.0, transport.0);
                            actions.push(RoomAction::SendAnswer { peer_id, sdp });
                        },
                        None => {
                            actions.push(RoomAction::DropTransport { transport });
                        },
                    }
                },
                other => {
                    self.negotiation = other;
                },
            },
        }
        actions
    }

    /// One turn of the event loop: the input goes to its handler. An input
    /// that ends the loop is reported as such and changes nothing.
    pub fn step(&mut self, input: RoomInput) -> (outcome: (Vec<RoomAction>, Option<Halt>))
        ensures
            final(self)@ == old(self)@.step(input@).state,
            actions_of(outcome.0@) == old(self)@.step(input@).actions,
            outcome.1 == RoomState::halts_on(input@),
    {
        match input {
            RoomInput::Command(command) => (self.handle_command(command), None),
            RoomInput::Event(event) => (self.handle_transport_event(event), None),
            RoomInput::Reply(reply) => (self.handle_reply(reply), None),
            RoomInput::CommandsClosed => (Vec::new(), Some(Halt::CommandsClosed)),
            RoomInput::EventsClosed => (Vec::new(), Some(Halt::EventsClosed)),
        }
    }

    /// The event loop: takes the inputs one after the other, each to its
    /// handler, until one of them ends the loop or none is left.
    pub fn run(&mut self, inputs: Vec<RoomInput>) -> (report: RunReport)
        ensures
            final(self)@ == run_from(old(self)@, inputs_of(inputs@)).state,
            actions_of(report.actions@) == run_from(old(self)@, inputs_of(inputs@)).actions,
            report.consumed == run_from(old(self)@, inputs_of(inputs@)).consumed,
            report.halt == run_from(old(self)@, inputs_of(inputs@)).halt,
    {
        let ghost start = self@;
        let ghost all = inputs_of(inputs@);
        let count = inputs.len();
        let mut actions: Vec<RoomAction> = Vec::new();
        let mut consumed: usize = 0;
        let mut halt: Option<Halt> = None;
        assert(all.skip(0) =~= all);
        for input in rest: inputs
            invariant
                halt is None,
                consumed == rest.index(),
                inputs_of(rest.seq()) == all,
                start == old(self)@,
                all.len() == count,
                run_from(start, all).state == run_from(self@, all.skip(rest.index() as int)).state,
                run_from(start, all).actions == actions_of(actions@) + run_from(
                    self@,
                    all.skip(rest.index() as int),
                ).actions,
                run_from(start, all).consumed == consumed + run_from(
                    self@,
                    all.skip(rest.index() as int),
                ).consumed,
                run_from(start, all).halt == run_from(self@, all.skip(rest.index() as int)).halt,
        {
            let ghost pending = all.skip(rest.index() as int);
            assert(pending.drop_first() =~= all.skip(rest.index() + 1));
            let (mut asked, stop) = self.step(input);
            consumed = consumed + 1;
            if stop.is_some() {
                halt = stop;
                return RunReport { actions, consumed, halt };
            }
            actions.append(&mut asked);
        }
        RunReport { actions, consumed, halt }
    }

    /// Discards the transport of the join in progress, if it has one, and
    /// forgets the join.
    fn abandon_negotiation(&mut self) -> (actions: Vec<RoomAction>)
        ensures
            final(self)@.transports == old(self)@.transports,
            final(self)@.channels == old(self)@.channels,
            final(self)@.negotiation is None,
            actions_of(actions@) == abandon(old(self)@.negotiation),
    {
        let mut actions: Vec<RoomAction> = Vec::new();
        match self.negotiation.take() {
            Some(Negotiation::ApplyingOffer { transport, .. }) => {
                actions.push(RoomAction::DropTransport { transport });
            },
            Some(Negotiation::Answering { transport, .. }) => {
                actions.push(RoomAction::DropTransport { transport });
            },
            _ => {},
        }
        actions
    }
}

} // verus!
