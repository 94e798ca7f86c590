use vstd::prelude::*;
use crate::peer::PeerId;
use crate::room::{abandon, run_from, Input, Pending, RoomState};
use crate::room_action::Action;
use crate::room_command::Command;
use crate::transport::{Event, Reply, TransportId};

verus! {

/// How often the trace reports `Joined` for the peer.
pub open spec fn joins(trace: Seq<Action>, peer_id: PeerId) -> nat
    decreases trace.len(),
{
    if trace.len() == 0 {
        0
    } else {
        joins(trace.drop_last(), peer_id) + if trace.last() == (Action::Joined { peer_id }) {
            1nat
        } else {
            0nat
        }
    }
}

/// How often the trace reports `Left` for the peer.
pub open spec fn leaves(trace: Seq<Action>, peer_id: PeerId) -> nat
    decreases trace.len(),
{
    if trace.len() == 0 {
        0
    } else {
        leaves(trace.drop_last(), peer_id) + if trace.last() == (Action::Left { peer_id }) {
            1nat
        } else {
            0nat
        }
    }
}

/// Whether the action invokes `on_message` for the peer.
pub open spec fn is_message_of(action: Action, peer_id: PeerId) -> bool {
    action matches Action::Message { peer_id: sender, .. } && sender == peer_id
}

/// What one action does to the membership of the peer as the room logic
/// sees it: `Joined` is in order only for a peer that is out, `Left` and
/// `Message` only for one that is in. `None` where the action is out of
/// order.
pub open spec fn after_action(action: Action, peer_id: PeerId, joined: bool) -> Option<bool> {
    if action == (Action::Joined { peer_id }) {
        if joined {
            None
        } else {
            Some(true)
        }
    } else if action == (Action::Left { peer_id }) {
        if joined {
            Some(false)
        } else {
            None
        }
    } else if is_message_of(action, peer_id) {
        if joined {
            Some(true)
        } else {
            None
        }
    } else {
        Some(joined)
    }
}

/// Follows the peer through a trace, action by action, from the membership
/// `joined`. `Some` with the membership at the end where every action was in
/// order, `None` otherwise.
pub open spec fn lifecycle(trace: Seq<Action>, peer_id: PeerId, joined: bool) -> Option<bool>
    decreases trace.len(),
{
    if trace.len() == 0 {
        Some(joined)
    } else {
        match lifecycle(trace.drop_last(), peer_id, joined) {
            Some(before) => after_action(trace.last(), peer_id, before),
            None => None,
        }
    }
}

/// 1 where the condition holds, 0 where it does not.
pub open spec fn one_if(condition: bool) -> nat {
    if condition {
        1
    } else {
        0
    }
}

proof fn lemma_lifecycle_push(
    trace: Seq<Action>,
    action: Action,
    peer_id: PeerId,
    joined: bool,
)
    ensures
        lifecycle(trace.push(action), peer_id, joined) == (match lifecycle(
            trace,
            peer_id,
            joined,
        ) {
            Some(before) => after_action(action, peer_id, before),
            None => None,
        }),
{
    assert(trace.push(action).drop_last() =~= trace);
}

proof fn lemma_lifecycle_one(action: Action, peer_id: PeerId, joined: bool)
    ensures
        lifecycle(seq![action], peer_id, joined) == after_action(action, peer_id, joined),
{
    lemma_lifecycle_push(Seq::empty(), action, peer_id, joined);
}

proof fn lemma_lifecycle_concat(
    first: Seq<Action>,
    second: Seq<Action>,
    peer_id: PeerId,
    joined: bool,
)
    ensures
        lifecycle(first + second, peer_id, joined) == (match lifecycle(first, peer_id, joined) {
            Some(between) => lifecycle(second, peer_id, between),
            None => None,
        }),
    decreases second.len(),
{
    if second.len() > 0 {
        assert((first + second).drop_last() =~= first + second.drop_last());
        lemma_lifecycle_concat(first, second.drop_last(), peer_id, joined);
    }
}

/// A step of the room keeps the peer's lifecycle in order and leaves the
/// peer joined exactly if it is active afterwards.
proof fn lemma_step_lifecycle(state: RoomState, input: Input, peer_id: PeerId)
    ensures
        lifecycle(state.step(input).actions, peer_id, state.is_active(peer_id)) == Some(
            state.step(input).state.is_active(peer_id),
        ),
{
    let joined = state.is_active(peer_id);
    match input {
        Input::Command(command) => {
            match command {
                Command::JoinRequest { peer_id: joining, offer } => {
                    let removed = state.remove_peer_with_notify(joining);
                    lemma_removal_lifecycle(state, joining, peer_id);
                    lemma_abandon_lifecycle(state, peer_id, joined);
                    let tail = seq![Action::CreateTransport { peer_id: joining }];
                    lemma_lifecycle_one(tail[0], peer_id, removed.state.is_active(peer_id));
                    lemma_lifecycle_concat(
                        abandon(state.negotiation),
                        removed.actions,
                        peer_id,
                        joined,
                    );
                    lemma_lifecycle_concat(
                        abandon(state.negotiation) + removed.actions,
                        tail,
                        peer_id,
                        joined,
                    );
                },
                Command::IceCandidate { peer_id: about, candidate } => {
                    if state.has_record(about) {
                        lemma_lifecycle_one(state.step(input).actions[0], peer_id, joined);
                    }
                },
                Command::Disconnect { peer_id: leaving } => {
                    lemma_removal_lifecycle(state, leaving, peer_id);
                },
            }
        },
        Input::Event(event) => {
            match event {
                Event::DataChannelReady(ready, channel) => {
                    if state.has_record(ready) && !state.is_active(ready) {
                        lemma_lifecycle_one(Action::Joined { peer_id: ready }, peer_id, joined);
                    }
                },
                Event::Message(sender, data) => {
                    if state.is_active(sender) {
                        lemma_lifecycle_one(
                            Action::Message { peer_id: sender, data },
                            peer_id,
                            joined,
                        );
                    }
                },
                Event::Disconnected(leaving) => {
                    lemma_removal_lifecycle(state, leaving, peer_id);
                },
                Event::CandidateGenerated(about, candidate) => {
                    lemma_lifecycle_one(
                        Action::SendIce { peer_id: about, candidate },
                        peer_id,
                        joined,
                    );
                },
            }
        },
        Input::Reply(reply) => {
            let step = state.step(input);
            match reply {
                Reply::Created { peer_id: about, created } => {
                    if step.actions.len() == 1 {
                        lemma_lifecycle_one(step.actions[0], peer_id, joined);
                    }
                },
                Reply::OfferApplied { transport, accepted } => {
                    if step.actions.len() == 1 {
                        lemma_lifecycle_one(step.actions[0], peer_id, joined);
                    }
                },
                Reply::AnswerCreated { transport, answer } => {
                    match state.negotiation {
                        Some(Pending::Answering { peer_id: joining, transport: pending })
                            if pending == transport => {
                            match answer {
                                Some(sdp) => {
                                    let removed = state.remove_peer_with_notify(joining);
                                    lemma_removal_lifecycle(state, joining, peer_id);
                                    lemma_lifecycle_push(
                                        removed.actions,
                                        Action::SendAnswer { peer_id: joining, sdp },
                                        peer_id,
                                        joined,
                                    );
                                },
                                None => {
                                    lemma_lifecycle_one(step.actions[0], peer_id, joined);
                                },
                            }
                        },
                        _ => {},
                    }
                },
            }
        },
        Input::CommandsClosed => {},
        Input::EventsClosed => {},
    }
}

proof fn lemma_removal_lifecycle(state: RoomState, leaving: PeerId, peer_id: PeerId)
    ensures
        lifecycle(
            state.remove_peer_with_notify(leaving).actions,
            peer_id,
            state.is_active(peer_id),
        ) == Some(state.remove_peer_with_notify(leaving).state.is_active(peer_id)),
{
    let joined = state.is_active(peer_id);
    let removed = state.remove_peer(leaving);
    if state.has_record(leaving) {
        lemma_lifecycle_one(removed.actions[0], peer_id, joined);
    }
    if state.is_active(leaving) {
        lemma_lifecycle_push(removed.actions, Action::Left { peer_id: leaving }, peer_id, joined);
    }
}

proof fn lemma_abandon_lifecycle(state: RoomState, peer_id: PeerId, joined: bool)
    ensures
        lifecycle(abandon(state.negotiation), peer_id, joined) == Some(joined),
{
    let actions = abandon(state.negotiation);
    if actions.len() == 1 {
        lemma_lifecycle_one(actions[0], peer_id, joined);
    }
}

/// Over a whole run the peer's lifecycle stays in order, and at the end the
/// peer is joined exactly if it is active.
proof fn lemma_run_lifecycle(state: RoomState, inputs: Seq<Input>, peer_id: PeerId)
    ensures
        lifecycle(run_from(state, inputs).actions, peer_id, state.is_active(peer_id)) == Some(
            run_from(state, inputs).state.is_active(peer_id),
        ),
    decreases inputs.len(),
{
    if inputs.len() > 0 && RoomState::halts_on(inputs[0]) is None {
        let first = state.step(inputs[0]);
        lemma_step_lifecycle(state, inputs[0], peer_id);
        lemma_run_lifecycle(first.state, inputs.drop_first(), peer_id);
        lemma_lifecycle_concat(
            first.actions,
            run_from(first.state, inputs.drop_first()).actions,
            peer_id,
            state.is_active(peer_id),
        );
    }
}

/// A trace that is in order is in order up to each of its points.
proof fn lemma_lifecycle_prefix(trace: Seq<Action>, peer_id: PeerId, joined: bool, upto: int)
    requires
        lifecycle(trace, peer_id, joined) is Some,
        0 <= upto <= trace.len(),
    ensures
        lifecycle(trace.take(upto), peer_id, joined) is Some,
    decreases trace.len(),
{
    if upto == trace.len() {
        assert(trace.take(upto) =~= trace);
    } else {
        assert(trace.drop_last().take(upto) =~= trace.take(upto));
        lemma_lifecycle_prefix(trace.drop_last(), peer_id, joined, upto);
    }
}

/// In a trace that is in order, joins and leaves balance up to the
/// membership at both ends.
proof fn lemma_lifecycle_counts(trace: Seq<Action>, peer_id: PeerId, joined: bool)
    requires
        lifecycle(trace, peer_id, joined) is Some,
    ensures
        joins(trace, peer_id) + one_if(joined) == leaves(trace, peer_id) + one_if(
            lifecycle(trace, peer_id, joined).unwrap(),
        ),
    decreases trace.len(),
{
    if trace.len() > 0 {
        lemma_lifecycle_counts(trace.drop_last(), peer_id, joined);
    }
}

/// While a peer is a member, `on_join` and `on_leave` are owed to each other.
///
/// Whatever reaches a fresh room, the number of `Joined` reports for a peer
/// equals the number of `Left` reports for it, plus one if the peer is
/// active when the run ends.
pub proof fn lemma_joins_balance_leaves(inputs: Seq<Input>, peer_id: PeerId)
    ensures
        joins(run_from(RoomState::fresh(), inputs).actions, peer_id) == leaves(
            run_from(RoomState::fresh(), inputs).actions,
            peer_id,
        ) + one_if(run_from(RoomState::fresh(), inputs).state.is_active(peer_id)),
{
    let run = run_from(RoomState::fresh(), inputs);
    lemma_run_lifecycle(RoomState::fresh(), inputs, peer_id);
    lemma_lifecycle_counts(run.actions, peer_id, false);
}

/// `on_join` and `on_leave` take turns, `on_join` first.
///
/// Whatever reaches a fresh room, at every point of the trace of its actions
/// a peer has been reported `Joined` as often as `Left`, or once more.
pub proof fn lemma_joins_and_leaves_alternate(inputs: Seq<Input>, peer_id: PeerId, upto: int)
    requires
        0 <= upto <= run_from(RoomState::fresh(), inputs).actions.len(),
    ensures
        leaves(run_from(RoomState::fresh(), inputs).actions.take(upto), peer_id) <= joins(
            run_from(RoomState::fresh(), inputs).actions.take(upto),
            peer_id,
        ) <= leaves(run_from(RoomState::fresh(), inputs).actions.take(upto), peer_id) + 1,
{
    let run = run_from(RoomState::fresh(), inputs);
    lemma_run_lifecycle(RoomState::fresh(), inputs, peer_id);
    lemma_lifecycle_prefix(run.actions, peer_id, false, upto);
    lemma_lifecycle_counts(run.actions.take(upto), peer_id, false);
}

/// `on_message` is seen only between a peer's `on_join` and its `on_leave`.
///
/// Whatever reaches a fresh room, where the trace of its actions reports a
/// `Message` of a peer, the peer has by then been reported `Joined` once
/// more than `Left`.
pub proof fn lemma_message_only_while_joined(inputs: Seq<Input>, peer_id: PeerId, at: int)
    requires
        0 <= at < run_from(RoomState::fresh(), inputs).actions.len(),
        is_message_of(run_from(RoomState::fresh(), inputs).actions[at], peer_id),
    ensures
        joins(run_from(RoomState::fresh(), inputs).actions.take(at), peer_id) == leaves(
            run_from(RoomState::fresh(), inputs).actions.take(at),
            peer_id,
        ) + 1,
{
    let trace = run_from(RoomState::fresh(), inputs).actions;
    lemma_run_lifecycle(RoomState::fresh(), inputs, peer_id);
    lemma_lifecycle_prefix(trace, peer_id, false, at + 1);
    assert(trace.take(at + 1).drop_last() =~= trace.take(at));
    lemma_lifecycle_counts(trace.take(at), peer_id, false);
}

/// A peer is always in one of three conditions: the room holds no record for
/// it, or one record that is handshaking, or one record that is active.
///
/// Records are kept by peer, so a peer never has two; and whatever reaches a
/// fresh room, a peer that is active has its record.
pub proof fn lemma_peer_set_well_formed(inputs: Seq<Input>)
    ensures
        run_from(RoomState::fresh(), inputs).state.well_formed(),
{
    lemma_run_well_formed(RoomState::fresh(), inputs);
}

proof fn lemma_run_well_formed(state: RoomState, inputs: Seq<Input>)
    requires
        state.well_formed(),
    ensures
        run_from(state, inputs).state.well_formed(),
    decreases inputs.len(),
{
    if inputs.len() > 0 && RoomState::halts_on(inputs[0]) is None {
        lemma_run_well_formed(state.step(inputs[0]).state, inputs.drop_first());
    }
}

/// How often the trace sends an answer, to whatever peer.
pub open spec fn answers(trace: Seq<Action>) -> nat
    decreases trace.len(),
{
    if trace.len() == 0 {
        0
    } else {
        answers(trace.drop_last()) + one_if(trace.last() is SendAnswer)
    }
}

/// One join request of the peer for each offer, in order.
pub open spec fn join_requests(peer_id: PeerId, offers: Seq<Seq<char>>) -> Seq<Input> {
    Seq::new(
        offers.len(),
        |i: int| Input::Command(Command::JoinRequest { peer_id, offer: offers[i] }),
    )
}

/// The outcomes as inputs of the room, in order.
pub open spec fn replies(outcomes: Seq<Reply>) -> Seq<Input> {
    Seq::new(outcomes.len(), |i: int| Input::Reply(outcomes[i]))
}

/// The trace applies no offer but `offer` and answers no peer but `peer_id`.
pub open spec fn serves_only(trace: Seq<Action>, peer_id: PeerId, offer: Seq<char>) -> bool {
    forall|i: int|
        0 <= i < trace.len() ==> {
            &&& (#[trigger] trace[i] matches Action::SetRemoteOffer { sdp, .. } ==> sdp
                == offer)
            &&& (trace[i] matches Action::SendAnswer { peer_id: answered, .. } ==> answered
                == peer_id)
        }
}

/// The join in progress, if there is one, is the peer's, and if its offer
/// is still to be applied that offer is `offer`.
pub open spec fn negotiates_for(state: RoomState, peer_id: PeerId, offer: Seq<char>) -> bool {
    match state.negotiation {
        None => true,
        Some(Pending::Creating { peer_id: joining, offer: held }) => joining == peer_id
            && held == offer,
        Some(Pending::ApplyingOffer { peer_id: joining, .. }) => joining == peer_id,
        Some(Pending::Answering { peer_id: joining, .. }) => joining == peer_id,
    }
}

proof fn lemma_answers_concat(first: Seq<Action>, second: Seq<Action>)
    ensures
        answers(first + second) == answers(first) + answers(second),
    decreases second.len(),
{
    if second.len() > 0 {
        assert((first + second).drop_last() =~= first + second.drop_last());
        lemma_answers_concat(first, second.drop_last());
    }
}

proof fn lemma_answers_small(trace: Seq<Action>)
    requires
        trace.len() <= 3,
    ensures
        trace.len() == 0 ==> answers(trace) == 0,
        trace.len() == 1 ==> answers(trace) == one_if(trace[0] is SendAnswer),
        trace.len() == 2 ==> answers(trace) == one_if(trace[0] is SendAnswer) + one_if(
            trace[1] is SendAnswer,
        ),
        trace.len() == 3 ==> answers(trace) == one_if(trace[0] is SendAnswer) + one_if(
            trace[1] is SendAnswer,
        ) + one_if(trace[2] is SendAnswer),
    decreases trace.len(),
{
    if trace.len() > 0 {
        lemma_answers_small(trace.drop_last());
    }
}

/// Running over two sequences of inputs in a row is running over the first
/// and then, unless that ended the loop, over the second.
pub proof fn lemma_run_concat(state: RoomState, first: Seq<Input>, second: Seq<Input>)
    requires
        run_from(state, first).halt is None,
    ensures
        run_from(state, first + second).state == run_from(
            run_from(state, first).state,
            second,
        ).state,
        run_from(state, first + second).actions == run_from(state, first).actions + run_from(
            run_from(state, first).state,
            second,
        ).actions,
        run_from(state, first + second).halt == run_from(
            run_from(state, first).state,
            second,
        ).halt,
    decreases first.len(),
{
    if first.len() > 0 {
        assert((first + second).drop_first() =~= first.drop_first() + second);
        let next = state.step(first[0]).state;
        lemma_run_concat(next, first.drop_first(), second);
    }
}

/// Join requests of one peer that follow each other leave the room waiting
/// for a transport for the last offer, and neither apply an offer nor send
/// an answer.
proof fn lemma_joins_wait_for_last_offer(state: RoomState, peer_id: PeerId, offers: Seq<Seq<char>>)
    requires
        offers.len() > 0,
    ensures
        run_from(state, join_requests(peer_id, offers)).halt is None,
        run_from(state, join_requests(peer_id, offers)).state.negotiation == Some(
            Pending::Creating { peer_id, offer: offers.last() },
        ),
        answers(run_from(state, join_requests(peer_id, offers)).actions) == 0,
        serves_only(run_from(state, join_requests(peer_id, offers)).actions, peer_id, offers.last()),
    decreases offers.len(),
{
    let inputs = join_requests(peer_id, offers);
    let first = state.step(inputs[0]);
    let removed = state.remove_peer_with_notify(peer_id);
    let head = abandon(state.negotiation) + removed.actions;
    lemma_answers_small(abandon(state.negotiation));
    lemma_answers_small(removed.actions);
    lemma_answers_small(seq![Action::CreateTransport { peer_id }]);
    lemma_answers_concat(abandon(state.negotiation), removed.actions);
    lemma_answers_concat(head, seq![Action::CreateTransport { peer_id }]);
    assert(inputs.drop_first() =~= join_requests(peer_id, offers.drop_first()));
    if offers.len() > 1 {
        lemma_joins_wait_for_last_offer(first.state, peer_id, offers.drop_first());
        lemma_answers_concat(
            first.actions,
            run_from(first.state, inputs.drop_first()).actions,
        );
    }
}

/// Outcomes alone bring at most the join in progress to its answer.
proof fn lemma_replies_answer_once(
    state: RoomState,
    peer_id: PeerId,
    offer: Seq<char>,
    outcomes: Seq<Reply>,
)
    requires
        negotiates_for(state, peer_id, offer),
    ensures
        answers(run_from(state, replies(outcomes)).actions) <= one_if(state.negotiation is Some),
        serves_only(run_from(state, replies(outcomes)).actions, peer_id, offer),
    decreases outcomes.len(),
{
    let inputs = replies(outcomes);
    if outcomes.len() > 0 {
        let first = state.step(inputs[0]);
        lemma_answers_small(first.actions);
        assert(inputs.drop_first() =~= replies(outcomes.drop_first()));
        lemma_replies_answer_once(first.state, peer_id, offer, outcomes.drop_first());
        lemma_answers_concat(first.actions, run_from(first.state, inputs.drop_first()).actions);
    }
}

/// Of join requests that follow each other, only the last is answered.
///
/// Where a peer sends one join request after the other, each before the
/// handshake of the one before has come to its answer, then whatever the
/// transports report afterwards, the room applies no offer but the last and
/// sends at most one answer, to that peer.
pub proof fn lemma_only_last_join_is_answered(
    state: RoomState,
    peer_id: PeerId,
    offers: Seq<Seq<char>>,
    outcomes: Seq<Reply>,
)
    requires
        offers.len() > 0,
    ensures
        answers(run_from(state, join_requests(peer_id, offers) + replies(outcomes)).actions) <= 1,
        serves_only(
            run_from(state, join_requests(peer_id, offers) + replies(outcomes)).actions,
            peer_id,
            offers.last(),
        ),
{
    let requests = join_requests(peer_id, offers);
    let joined = run_from(state, requests);
    lemma_joins_wait_for_last_offer(state, peer_id, offers);
    lemma_run_concat(state, requests, replies(outcomes));
    lemma_replies_answer_once(joined.state, peer_id, offers.last(), outcomes);
    lemma_answers_concat(joined.actions, run_from(joined.state, replies(outcomes)).actions);
}

/// How often the trace disposes of the transport: closes it or discards
/// it.
pub open spec fn disposals(trace: Seq<Action>, transport: TransportId) -> nat
    decreases trace.len(),
{
    if trace.len() == 0 {
        0
    } else {
        disposals(trace.drop_last(), transport) + one_if(disposes_of(trace.last(), transport))
    }
}

/// Whether the action closes or discards the transport.
pub open spec fn disposes_of(action: Action, transport: TransportId) -> bool {
    action == (Action::CloseTransport { transport }) || action == (Action::DropTransport {
        transport,
    })
}

/// Whether the input hands the room the transport as newly created.
pub open spec fn introduces(input: Input, transport: TransportId) -> bool {
    input matches Input::Reply(Reply::Created { created: Some(created), .. }) && created
        == transport
}

/// Whether one of the inputs hands the room the transport as newly created.
pub open spec fn introduced(inputs: Seq<Input>, transport: TransportId) -> bool {
    exists|i: int| 0 <= i < inputs.len() && introduces(#[trigger] inputs[i], transport)
}

/// No transport is handed to the room as newly created twice: the driver
/// gives every transport it creates a number of its own.
pub open spec fn numbers_are_fresh(inputs: Seq<Input>) -> bool {
    forall|i: int, j: int, transport: TransportId|
        0 <= i < j < inputs.len() && #[trigger] introduces(inputs[i], transport)
            ==> !#[trigger] introduces(inputs[j], transport)
}

/// The transport of the join in progress, once it has one.
pub open spec fn pending_transport(state: RoomState) -> Option<TransportId> {
    match state.negotiation {
        Some(Pending::ApplyingOffer { transport, .. }) => Some(transport),
        Some(Pending::Answering { transport, .. }) => Some(transport),
        _ => None,
    }
}

/// Whether the room holds the transport: in the record of a peer, or for
/// the join in progress.
pub open spec fn in_use(state: RoomState, transport: TransportId) -> bool {
    state.transports.contains_value(transport) || pending_transport(state) == Some(transport)
}

/// No transport is held twice: two peers never share one, and the join in
/// progress has none that a record has.
pub open spec fn holds_each_once(state: RoomState) -> bool {
    &&& forall|first: PeerId, second: PeerId|
        state.transports.contains_key(first) && state.transports.contains_key(second) && first
            != second ==> #[trigger] state.transports[first] != #[trigger] state.transports[second]
    &&& forall|peer_id: PeerId|
        state.transports.contains_key(peer_id) ==> pending_transport(state) != Some(
            #[trigger] state.transports[peer_id],
        )
}

proof fn lemma_disposals_concat(first: Seq<Action>, second: Seq<Action>, transport: TransportId)
    ensures
        disposals(first + second, transport) == disposals(first, transport) + disposals(
            second,
            transport,
        ),
    decreases second.len(),
{
    if second.len() > 0 {
        assert((first + second).drop_last() =~= first + second.drop_last());
        lemma_disposals_concat(first, second.drop_last(), transport);
    }
}

proof fn lemma_disposals_small(trace: Seq<Action>, transport: TransportId)
    requires
        trace.len() <= 2,
    ensures
        trace.len() == 0 ==> disposals(trace, transport) == 0,
        trace.len() == 1 ==> disposals(trace, transport) == one_if(
            disposes_of(trace[0], transport),
        ),
        trace.len() == 2 ==> disposals(trace, transport) == one_if(
            disposes_of(trace[0], transport),
        ) + one_if(disposes_of(trace[1], transport)),
    decreases trace.len(),
{
    if trace.len() > 0 {
        lemma_disposals_small(trace.drop_last(), transport);
    }
}

/// Removing a peer disposes of the transport of its record and of no
/// other, and leaves every other record as it was.
proof fn lemma_removal_disposes(state: RoomState, leaving: PeerId, transport: TransportId)
    requires
        holds_each_once(state),
    ensures
        holds_each_once(state.remove_peer_with_notify(leaving).state),
        disposals(state.remove_peer_with_notify(leaving).actions, transport) + one_if(
            in_use(state.remove_peer_with_notify(leaving).state, transport),
        ) == one_if(in_use(state, transport)),
{
    let removed = state.remove_peer_with_notify(leaving);
    let plain = state.remove_peer(leaving);
    lemma_disposals_small(plain.actions, transport);
    if state.is_active(leaving) {
        lemma_disposals_concat(plain.actions, seq![Action::Left { peer_id: leaving }], transport);
        lemma_disposals_small(seq![Action::Left { peer_id: leaving }], transport);
        assert(removed.actions =~= plain.actions + seq![Action::Left { peer_id: leaving }]);
    }
    if state.transports.contains_value(transport) {
        let holder = choose|holder: PeerId|
            state.transports.contains_key(holder) && state.transports[holder] == transport;
        if holder != leaving {
            assert(removed.state.transports.contains_key(holder));
        } else {
        }
    } else {
    }
}

/// A step of the room accounts for every transport: one that it is handed
/// comes into use or is disposed of, one that was in use stays in use or is
/// disposed of, and no other is touched.
proof fn lemma_step_accounts(state: RoomState, input: Input, transport: TransportId)
    requires
        holds_each_once(state),
        forall|fresh: TransportId| introduces(input, fresh) ==> !in_use(state, fresh),
    ensures
        holds_each_once(state.step(input).state),
        disposals(state.step(input).actions, transport) + one_if(
            in_use(state.step(input).state, transport),
        ) == one_if(in_use(state, transport)) + one_if(introduces(input, transport)),
{
    let step = state.step(input);
    match input {
        Input::Command(command) => {
            match command {
                Command::JoinRequest { peer_id, offer } => {
                    let removed = state.remove_peer_with_notify(peer_id);
                    lemma_removal_disposes(state, peer_id, transport);
                    lemma_disposals_small(abandon(state.negotiation), transport);
                    lemma_disposals_small(seq![Action::CreateTransport { peer_id }], transport);
                    lemma_disposals_concat(abandon(state.negotiation), removed.actions, transport);
                    lemma_disposals_concat(
                        abandon(state.negotiation) + removed.actions,
                        seq![Action::CreateTransport { peer_id }],
                        transport,
                    );
                },
                Command::IceCandidate { peer_id, candidate } => {
                    lemma_disposals_small(step.actions, transport);
                },
                Command::Disconnect { peer_id } => {
                    lemma_removal_disposes(state, peer_id, transport);
                },
            }
        },
        Input::Event(event) => {
            match event {
                Event::Disconnected(peer_id) => {
                    lemma_removal_disposes(state, peer_id, transport);
                },
                _ => {
                    lemma_disposals_small(step.actions, transport);
                },
            }
        },
        Input::Reply(reply) => {
            match reply {
                Reply::Created { peer_id, created } => {
                    lemma_disposals_small(step.actions, transport);
                    match created {
                        Some(fresh) => {
                            assert(!in_use(state, fresh));
                        },
                        None => {},
                    }
                },
                Reply::OfferApplied { transport: about, accepted } => {
                    lemma_disposals_small(step.actions, transport);
                },
                Reply::AnswerCreated { transport: about, answer } => {
                    match state.negotiation {
                        Some(Pending::Answering { peer_id, transport: pending }) if pending
                            == about => {
                            match answer {
                                Some(sdp) => {
                                    let removed = state.remove_peer_with_notify(peer_id);
                                    lemma_removal_disposes(state, peer_id, transport);
                                    lemma_disposals_concat(
                                        removed.actions,
                                        seq![Action::SendAnswer { peer_id, sdp }],
                                        transport,
                                    );
                                    lemma_disposals_small(
                                        seq![Action::SendAnswer { peer_id, sdp }],
                                        transport,
                                    );
                                    assert(step.actions =~= removed.actions + seq![
                                        Action::SendAnswer { peer_id, sdp },
                                    ]);
                                    let stored = step.state.transports;
                                    assert(stored.contains_key(peer_id) && stored[peer_id]
                                        == about);
                                    if transport == about {
                                    } else {
                                        if removed.state.transports.contains_value(transport) {
                                            let holder = choose|holder: PeerId|
                                                removed.state.transports.contains_key(holder)
                                                    && removed.state.transports[holder]
                                                    == transport;
                                            assert(stored.contains_key(holder) && stored[holder]
                                                == transport);
                                        }
                                    }
                                },
                                None => {
                                    lemma_disposals_small(step.actions, transport);
                                },
                            }
                        },
                        _ => {
                        },
                    }
                },
            }
        },
        Input::CommandsClosed => {
        },
        Input::EventsClosed => {
        },
    }
}

proof fn lemma_run_accounts(state: RoomState, inputs: Seq<Input>, transport: TransportId)
    requires
        holds_each_once(state),
        numbers_are_fresh(inputs),
        forall|fresh: TransportId| introduced(inputs, fresh) ==> !in_use(state, fresh),
    ensures
        holds_each_once(run_from(state, inputs).state),
        disposals(run_from(state, inputs).actions, transport) + one_if(
            in_use(run_from(state, inputs).state, transport),
        ) == one_if(in_use(state, transport)) + one_if(
            introduced(inputs.take(run_from(state, inputs).consumed as int), transport),
        ),
        run_from(state, inputs).consumed <= inputs.len(),
    decreases inputs.len(),
{
    let run = run_from(state, inputs);
    if inputs.len() > 0 && RoomState::halts_on(inputs[0]) is None {
        let first = state.step(inputs[0]);
        let rest = inputs.drop_first();
        lemma_step_accounts(state, inputs[0], transport);
        assert forall|fresh: TransportId| introduced(rest, fresh) implies !in_use(
            first.state,
            fresh,
        ) by {
            lemma_step_accounts(state, inputs[0], fresh);
        }
        lemma_run_accounts(first.state, rest, transport);
        let tail = run_from(first.state, rest);
        lemma_disposals_concat(first.actions, tail.actions, transport);
        let taken = inputs.take(run.consumed as int);
        let taken_rest = rest.take(tail.consumed as int);
        assert(taken[0] == inputs[0]);
        assert forall|i: int| 0 <= i < taken_rest.len() implies taken_rest[i] == taken[i + 1] by {}
        if introduces(inputs[0], transport) {
        } else {
            if introduced(taken, transport) {
                let i = choose|i: int|
                    0 <= i < taken.len() && introduces(#[trigger] taken[i], transport);
                assert(introduces(taken_rest[i - 1], transport));
            }
        }
    }
}

/// Every transport is accounted for, and none is disposed of twice.
///
/// Let the driver give every transport it creates a number of its own.
/// Then, whatever reaches a fresh room: a transport that the room was
/// handed is either still held by the room or was closed or discarded
/// exactly once; a transport that the room was not handed is neither held
/// nor disposed of; and the room holds no transport twice, so that a peer
/// with a record has one transport and no other peer has the same.
pub proof fn lemma_transports_are_accounted_for(inputs: Seq<Input>, transport: TransportId)
    requires
        numbers_are_fresh(inputs),
    ensures
        holds_each_once(run_from(RoomState::fresh(), inputs).state),
        disposals(run_from(RoomState::fresh(), inputs).actions, transport) + one_if(
            in_use(run_from(RoomState::fresh(), inputs).state, transport),
        ) == one_if(
            introduced(
                inputs.take(run_from(RoomState::fresh(), inputs).consumed as int),
                transport,
            ),
        ),
{
    let fresh = RoomState::fresh();
    lemma_run_accounts(fresh, inputs, transport);
}

} // verus!
