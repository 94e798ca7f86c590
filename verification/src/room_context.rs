use vstd::prelude::*;
use dashmap::DashMap;
use crate::peer::PeerId;
use crate::peer_map::{
    by_peer, group_keyed_maps, is_listing, peer_entries, peer_map_contains, peer_map_get,
    peer_map_listing,
};
use crate::room::{as_channel, Room};
use crate::transport::ChannelId;

verus! {

broadcast use group_keyed_maps;

/// A payload that the room logic wants written to the data channel of a
/// peer.
#[derive(Debug, PartialEq, Eq)]
pub struct Delivery {
    pub channel: ChannelId,
    pub peer_id: PeerId,
    pub data: Vec<u8>,
}

/// A delivery as a mathematical value.
pub struct DeliveryView {
    pub channel: ChannelId,
    pub peer_id: PeerId,
    pub data: Seq<u8>,
}

impl View for Delivery {
    type V = DeliveryView;

    open spec fn view(&self) -> DeliveryView {
        DeliveryView { channel: self.channel, peer_id: self.peer_id, data: self.data@ }
    }
}

/// A room context as a mathematical value: the sinks of the active peers
/// and the deliveries asked for so far, oldest first.
pub struct ContextState {
    pub peers: Map<PeerId, ChannelId>,
    pub outbox: Seq<DeliveryView>,
}

impl ContextState {
    /// Whether the peer is active.
    pub open spec fn contains(self, peer_id: PeerId) -> bool {
        self.peers.contains_key(peer_id)
    }

    /// The delivery of `data` to an active peer.
    pub open spec fn delivery(self, peer_id: PeerId, data: Seq<u8>) -> DeliveryView {
        DeliveryView { channel: self.peers[peer_id], peer_id, data }
    }

    /// Unicast: one more delivery for an active peer, nothing for any other.
    pub open spec fn send(self, peer_id: PeerId, data: Seq<u8>) -> ContextState {
        if self.contains(peer_id) {
            ContextState {
                peers: self.peers,
                outbox: self.outbox.push(self.delivery(peer_id, data)),
            }
        } else {
            self
        }
    }

    /// Broadcast: one more delivery of `data` for each peer of `order`.
    pub open spec fn broadcast(self, order: Seq<PeerId>, data: Seq<u8>) -> ContextState {
        ContextState {
            peers: self.peers,
            outbox: self.outbox + Seq::new(order.len(), |i: int| self.delivery(order[i], data)),
        }
    }

    /// Whether `order` names every active peer once.
    pub open spec fn lists_peers(self, order: Seq<PeerId>) -> bool {
        &&& order.no_duplicates()
        &&& forall|peer_id: PeerId| order.contains(peer_id) <==> self.contains(peer_id)
    }
}

/// What the room logic may do while one of its hooks runs: see who is in
/// the room and ask for payloads to be delivered. It reads the peer set of
/// the room it was made from.
pub struct RoomContext<'a> {
    peers: &'a DashMap<u128, u64>,
    outbox: Vec<Delivery>,
}

impl<'a> View for RoomContext<'a> {
    type V = ContextState;

    closed spec fn view(&self) -> ContextState {
        ContextState {
            peers: by_peer(peer_entries(*self.peers), as_channel()),
            outbox: self.outbox@.map_values(|delivery: Delivery| delivery@),
        }
    }
}

impl Room {
    /// A context over the peers that are active now, with nothing asked for
    /// yet.
    pub fn context(&self) -> (context: RoomContext<'_>)
        ensures
            context@.peers == self@.channels,
            context@.outbox == Seq::<DeliveryView>::empty(),
    {
        let context = RoomContext { peers: self.sinks(), outbox: Vec::new() };
        context
    }
}

impl<'a> RoomContext<'a> {
    /// Asks for `data` to be written to the data channel of the peer. For a
    /// peer that is not active nothing is asked for; no error reaches the
    /// caller.
    pub fn send(&mut self, peer_id: &PeerId, data: Vec<u8>)
        ensures
            final(self)@ == old(self)@.send(*peer_id, data@),
    {
        match peer_map_get(self.peers, peer_id.0) {
            Some(channel) => {
                let delivery = Delivery { channel: ChannelId(channel), peer_id: *peer_id, data };
                self.outbox.push(delivery);
                assert(self@.outbox =~= old(self)@.outbox.push(delivery@));
            },
            None => {},
        }
    }

    /// Asks for `data` to be written to the data channel of every active
    /// peer, once each. In which order the peers are served is left open.
    pub fn broadcast(&mut self, data: Vec<u8>)
        ensures
            exists|order: Seq<PeerId>|
                old(self)@.lists_peers(order) && final(self)@ == #[trigger] old(self)@.broadcast(
                    order,
                    data@,
                ),
    {
        let listing = peer_map_listing(self.peers);
        let ghost order = listing@.map_values(|entry: (u128, u64)| PeerId(entry.0));
        let mut i: usize = 0;
        while i < listing.len()
            invariant
                i <= listing.len(),
                self.peers == old(self).peers,
                is_listing(listing@, peer_entries(*self.peers)),
                order == listing@.map_values(|entry: (u128, u64)| PeerId(entry.0)),
                self@.outbox == old(self)@.outbox + Seq::new(
                    i as nat,
                    |k: int| old(self)@.delivery(order[k], data@),
                ),
            decreases listing.len() - i,
        {
            let (key, channel) = listing[i];
            let payload = copy_bytes(&data);
            let delivery = Delivery { channel: ChannelId(channel), peer_id: PeerId(key), data: payload };
            let ghost before = self@.outbox;
            self.outbox.push(delivery);
            assert(self@.outbox =~= before.push(delivery@));
            i = i + 1;
        }
        proof {
            assert forall|peer_id: PeerId| order.contains(peer_id) <==> old(self)@.contains(
                peer_id,
            ) by {
                if old(self)@.contains(peer_id) {
                    let k = choose|k: int| 0 <= k < listing@.len() && listing@[k].0 == peer_id.0;
                    assert(order[k] == peer_id);
                }
            }
            assert(self@ == old(self)@.broadcast(order, data@));
        }
    }

    /// The active peers, each once, in no particular order.
    pub fn list_users(&self) -> (users: Vec<PeerId>)
        ensures
            self@.lists_peers(users@),
    {
        let listing = peer_map_listing(self.peers);
        let mut users: Vec<PeerId> = Vec::new();
        let mut i: usize = 0;
        while i < listing.len()
            invariant
                i <= listing.len(),
                users@ == listing@.take(i as int).map_values(|entry: (u128, u64)| PeerId(entry.0)),
            decreases listing.len() - i,
        {
            users.push(PeerId(listing[i].0));
            i = i + 1;
        }
        proof {
            assert forall|peer_id: PeerId| users@.contains(peer_id) <==> self@.contains(
                peer_id,
            ) by {
                if self@.contains(peer_id) {
                    let k = choose|k: int| 0 <= k < listing@.len() && listing@[k].0 == peer_id.0;
                    assert(users@[k] == peer_id);
                }
            }
        }
        users
    }

    /// Whether the peer is active.
    pub fn contains_user(&self, peer_id: &PeerId) -> (found: bool)
        ensures
            found == self@.contains(*peer_id),
    {
        peer_map_contains(self.peers, peer_id.0)
    }

    /// Ends the context and hands over the deliveries asked for, oldest
    /// first.
    pub fn into_deliveries(self) -> (deliveries: Vec<Delivery>)
        ensures
            deliveries@.map_values(|delivery: Delivery| delivery@) == self@.outbox,
    {
        self.outbox
    }
}

/// A copy of the bytes.
fn copy_bytes(data: &Vec<u8>) -> (copy: Vec<u8>)
    ensures
        copy@ == data@,
{
    let mut copy: Vec<u8> = Vec::new();
    let mut i: usize = 0;
    while i < data.len()
        invariant
            i <= data.len(),
            copy@ == data@.take(i as int),
        decreases data.len() - i,
    {
        copy.push(data[i]);
        i = i + 1;
    }
    copy
}

/// The payloads that the outbox holds for the peer, oldest first: what the
/// peer's data channel is handed, in the order in which it is handed it.
pub open spec fn payloads_to(outbox: Seq<DeliveryView>, peer_id: PeerId) -> Seq<Seq<u8>>
    decreases outbox.len(),
{
    if outbox.len() == 0 {
        Seq::empty()
    } else if outbox.last().peer_id == peer_id {
        payloads_to(outbox.drop_last(), peer_id).push(outbox.last().data)
    } else {
        payloads_to(outbox.drop_last(), peer_id)
    }
}

/// One call that the room logic makes on its context.
pub enum ContextCall {
    Send { peer_id: PeerId, data: Seq<u8> },
    Broadcast { order: Seq<PeerId>, data: Seq<u8> },
}

impl ContextCall {
    /// The payload that the call addresses to the peer, if any.
    pub open spec fn payload_for(self, peer_id: PeerId) -> Option<Seq<u8>> {
        match self {
            ContextCall::Send { peer_id: target, data } => if target == peer_id {
                Some(data)
            } else {
                None
            },
            ContextCall::Broadcast { data, .. } => Some(data),
        }
    }
}

impl ContextState {
    /// The context after one call.
    pub open spec fn after(self, call: ContextCall) -> ContextState {
        match call {
            ContextCall::Send { peer_id, data } => self.send(peer_id, data),
            ContextCall::Broadcast { order, data } => self.broadcast(order, data),
        }
    }

    /// The context after the calls, made in order.
    pub open spec fn after_all(self, calls: Seq<ContextCall>) -> ContextState
        decreases calls.len(),
    {
        if calls.len() == 0 {
            self
        } else {
            self.after_all(calls.drop_last()).after(calls.last())
        }
    }

    /// Whether the call is one that a context makes: a broadcast serves
    /// every active peer once.
    pub open spec fn admits(self, call: ContextCall) -> bool {
        call matches ContextCall::Broadcast { order, .. } ==> self.lists_peers(order)
    }
}

/// The payloads that the calls address to the peer, in the order of the
/// calls.
pub open spec fn payloads_of(calls: Seq<ContextCall>, peer_id: PeerId) -> Seq<Seq<u8>>
    decreases calls.len(),
{
    if calls.len() == 0 {
        Seq::empty()
    } else {
        match calls.last().payload_for(peer_id) {
            Some(data) => payloads_of(calls.drop_last(), peer_id).push(data),
            None => payloads_of(calls.drop_last(), peer_id),
        }
    }
}

proof fn lemma_payloads_concat(first: Seq<DeliveryView>, second: Seq<DeliveryView>, peer_id: PeerId)
    ensures
        payloads_to(first + second, peer_id) == payloads_to(first, peer_id) + payloads_to(
            second,
            peer_id,
        ),
    decreases second.len(),
{
    if second.len() > 0 {
        assert((first + second).drop_last() =~= first + second.drop_last());
        lemma_payloads_concat(first, second.drop_last(), peer_id);
    }
}

/// A round of deliveries to peers that are all different holds one payload
/// for a peer that is among them and none for one that is not.
proof fn lemma_payloads_of_round(
    context: ContextState,
    order: Seq<PeerId>,
    data: Seq<u8>,
    peer_id: PeerId,
)
    requires
        order.no_duplicates(),
    ensures
        payloads_to(Seq::new(order.len(), |i: int| context.delivery(order[i], data)), peer_id)
            == if order.contains(peer_id) {
            seq![data]
        } else {
            Seq::<Seq<u8>>::empty()
        },
    decreases order.len(),
{
    let round = Seq::new(order.len(), |i: int| context.delivery(order[i], data));
    if order.len() > 0 {
        let shorter = order.drop_last();
        assert(round.drop_last() =~= Seq::new(
            shorter.len(),
            |i: int| context.delivery(shorter[i], data),
        ));
        lemma_payloads_of_round(context, shorter, data, peer_id);
        if order.last() == peer_id {
        } else {
            if order.contains(peer_id) {
                let k = choose|k: int| 0 <= k < order.len() && order[k] == peer_id;
                assert(shorter[k] == peer_id);
            }
        }
    }
}

/// One call adds to what a peer is handed exactly the payload it addresses
/// to that peer, after all that was there.
proof fn lemma_call_appends(context: ContextState, call: ContextCall, peer_id: PeerId)
    requires
        context.contains(peer_id),
        context.admits(call),
    ensures
        context.after(call).peers == context.peers,
        payloads_to(context.after(call).outbox, peer_id) == (match call.payload_for(peer_id) {
            Some(data) => payloads_to(context.outbox, peer_id).push(data),
            None => payloads_to(context.outbox, peer_id),
        }),
{
    match call {
        ContextCall::Send { peer_id: target, data } => {
            if context.contains(target) {
                assert(context.after(call).outbox.drop_last() =~= context.outbox);
            }
        },
        ContextCall::Broadcast { order, data } => {
            let round = Seq::new(order.len(), |i: int| context.delivery(order[i], data));
            lemma_payloads_concat(context.outbox, round, peer_id);
            lemma_payloads_of_round(context, order, data, peer_id);
        },
    }
}

/// What is sent to a peer first reaches its data channel first.
///
/// Whatever calls the room logic makes on a context, an active peer is
/// handed the payloads addressed to it in the order of the calls, after
/// everything it was to be handed before. So of two sends to the same peer
/// the earlier one is written to the data channel earlier.
pub proof fn lemma_sends_keep_their_order(
    context: ContextState,
    calls: Seq<ContextCall>,
    peer_id: PeerId,
)
    requires
        context.contains(peer_id),
        forall|i: int| 0 <= i < calls.len() ==> context.admits(#[trigger] calls[i]),
    ensures
        context.after_all(calls).peers == context.peers,
        payloads_to(context.after_all(calls).outbox, peer_id) == payloads_to(
            context.outbox,
            peer_id,
        ) + payloads_of(calls, peer_id),
    decreases calls.len(),
{
    if calls.len() > 0 {
        let earlier = calls.drop_last();
        lemma_sends_keep_their_order(context, earlier, peer_id);
        let before = context.after_all(earlier);
        lemma_call_appends(before, calls.last(), peer_id);
    }
}

} // verus!
