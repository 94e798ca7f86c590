use antenna::peer::PeerId;
use antenna::room::{Room, RoomInput};
use antenna::room_action::RoomAction;
use antenna::room_command::RoomCommand;
use antenna::transport::{ChannelId, TransportEvent, TransportId, TransportReply};

/// A small deterministic generator, so that the inputs are the same on
/// every run.
struct Lcg(u64);

impl Lcg {
    fn next(&mut self, bound: u64) -> u64 {
        self.0 = self.0.wrapping_mul(6364136223846793005).wrapping_add(1442695040888963407);
        (self.0 >> 33) % bound
    }
}

fn random_input(gen: &mut Lcg) -> RoomInput {
    let peer_id = PeerId(gen.next(3) as u128);
    let transport = TransportId(gen.next(4));
    match gen.next(11) {
        0 => RoomInput::Command(RoomCommand::JoinRequest { peer_id, offer: format!("offer-{}", gen.next(100)) }),
        1 => RoomInput::Command(RoomCommand::IceCandidate { peer_id, candidate: "c".to_string() }),
        2 => RoomInput::Command(RoomCommand::Disconnect { peer_id }),
        3 => RoomInput::Event(TransportEvent::DataChannelReady(peer_id, ChannelId(gen.next(4)))),
        4 => RoomInput::Event(TransportEvent::Disconnected(peer_id)),
        5 => RoomInput::Event(TransportEvent::Message(peer_id, vec![gen.next(256) as u8])),
        6 => RoomInput::Event(TransportEvent::CandidateGenerated(peer_id, "g".to_string())),
        7 => RoomInput::Reply(TransportReply::Created {
            peer_id,
            created: if gen.next(4) == 0 { None } else { Some(transport) },
        }),
        8 => RoomInput::Reply(TransportReply::OfferApplied { transport, accepted: gen.next(4) != 0 }),
        9 => RoomInput::Reply(TransportReply::AnswerCreated {
            transport,
            answer: if gen.next(4) == 0 { None } else { Some("answer".to_string()) },
        }),
        _ => RoomInput::Reply(TransportReply::AnswerCreated { transport, answer: Some("a".to_string()) }),
    }
}

#[test]
fn test_joins_and_leaves_balance_on_random_inputs() {
    for seed in 0..200u64 {
        let mut gen = Lcg(seed);
        let mut room = Room::new();
        let mut joined = [false; 3];
        let mut joins = [0usize; 3];
        let mut leaves = [0usize; 3];
        for _ in 0..120 {
            let (actions, halt) = room.step(random_input(&mut gen));
            assert_eq!(halt, None);
            for action in actions {
                match action {
                    RoomAction::Joined { peer_id } => {
                        let k = peer_id.0 as usize;
                        assert!(!joined[k], "on_join twice in a row");
                        joined[k] = true;
                        joins[k] += 1;
                    }
                    RoomAction::Left { peer_id } => {
                        let k = peer_id.0 as usize;
                        assert!(joined[k], "on_leave without on_join");
                        joined[k] = false;
                        leaves[k] += 1;
                    }
                    RoomAction::Message { peer_id, .. } => {
                        assert!(joined[peer_id.0 as usize], "on_message outside the membership");
                    }
                    _ => {}
                }
            }
            for k in 0..3 {
                let peer_id = PeerId(k as u128);
                assert_eq!(room.is_active(&peer_id), joined[k]);
                assert_eq!(joins[k], leaves[k] + usize::from(joined[k]));
                assert!(!room.is_active(&peer_id) || room.has_peer(&peer_id));
            }
        }
    }
}

#[test]
fn test_run_equals_its_steps() {
    for seed in 0..50u64 {
        let mut gen = Lcg(seed);
        let mut inputs = Vec::new();
        let mut copy = Vec::new();
        let mut again = Lcg(seed);
        for _ in 0..60 {
            inputs.push(random_input(&mut gen));
            copy.push(random_input(&mut again));
        }
        let mut whole = Room::new();
        let report = whole.run(inputs);
        let mut stepped = Room::new();
        let mut actions = Vec::new();
        for input in copy {
            actions.extend(stepped.step(input).0);
        }
        assert_eq!(report.actions, actions);
        assert_eq!(report.consumed, 60);
        for k in 0..3u128 {
            assert_eq!(whole.is_active(&PeerId(k)), stepped.is_active(&PeerId(k)));
            assert_eq!(whole.has_peer(&PeerId(k)), stepped.has_peer(&PeerId(k)));
        }
    }
}

#[test]
fn test_only_the_last_of_several_joins_is_answered() {
    for seed in 0..100u64 {
        let mut gen = Lcg(seed);
        let peer_id = PeerId(1);
        let mut room = Room::new();
        let count = 1 + gen.next(4);
        let mut trace = Vec::new();
        for i in 0..count {
            trace.extend(room.handle_command(RoomCommand::JoinRequest { peer_id, offer: format!("offer-{}", i) }));
        }
        for _ in 0..30 {
            let input = match gen.next(3) {
                0 => TransportReply::Created { peer_id, created: Some(TransportId(gen.next(2))) },
                1 => TransportReply::OfferApplied { transport: TransportId(gen.next(2)), accepted: true },
                _ => TransportReply::AnswerCreated {
                    transport: TransportId(gen.next(2)),
                    answer: Some("answer".to_string()),
                },
            };
            trace.extend(room.handle_reply(input));
        }
        let answers = trace.iter().filter(|a| matches!(a, RoomAction::SendAnswer { .. })).count();
        assert!(answers <= 1);
        for action in &trace {
            if let RoomAction::SetRemoteOffer { sdp, .. } = action {
                assert_eq!(sdp, &format!("offer-{}", count - 1));
            }
            if let RoomAction::SendAnswer { peer_id: answered, .. } = action {
                assert_eq!(*answered, peer_id);
            }
        }
    }
}

#[test]
fn test_every_transport_is_disposed_of_once() {
    for seed in 0..200u64 {
        let mut gen = Lcg(seed);
        let mut room = Room::new();
        let mut next_transport = 0u64;
        let mut introduced = Vec::new();
        let mut disposed = std::collections::HashMap::new();
        let mut note = |actions: Vec<RoomAction>, disposed: &mut std::collections::HashMap<u64, usize>| {
            for action in actions {
                match action {
                    RoomAction::CloseTransport { transport } | RoomAction::DropTransport { transport } => {
                        *disposed.entry(transport.0).or_insert(0) += 1;
                    }
                    _ => {}
                }
            }
        };
        for _ in 0..150 {
            let input = match random_input(&mut gen) {
                RoomInput::Reply(TransportReply::Created { peer_id, created: Some(_) }) => {
                    next_transport += 1;
                    introduced.push(next_transport);
                    RoomInput::Reply(TransportReply::Created {
                        peer_id,
                        created: Some(TransportId(next_transport)),
                    })
                }
                other => other,
            };
            let (actions, _) = room.step(input);
            note(actions, &mut disposed);
            for transport in disposed.keys() {
                assert!(introduced.contains(transport), "a transport nobody created was disposed of");
            }
            assert!(disposed.values().all(|count| *count == 1), "a transport was disposed of twice");
            let mut held = Vec::new();
            for k in 0..3u128 {
                if let Some(transport) = room.transport_of(&PeerId(k)) {
                    assert!(!held.contains(&transport), "two peers share a transport");
                    assert!(!disposed.contains_key(&transport.0), "a record holds a disposed transport");
                    held.push(transport);
                }
            }
        }
        // Winding the room down leaves nothing behind.
        for k in 0..3u128 {
            note(room.handle_command(RoomCommand::Disconnect { peer_id: PeerId(k) }), &mut disposed);
        }
        note(
            room.handle_command(RoomCommand::JoinRequest { peer_id: PeerId(0), offer: String::new() }),
            &mut disposed,
        );
        for transport in &introduced {
            assert_eq!(disposed.get(transport), Some(&1), "transport {} leaked", transport);
        }
    }
}
