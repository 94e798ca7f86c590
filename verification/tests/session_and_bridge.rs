use antenna::compat::OutgoingSignal;
use antenna::peer::PeerId;
use antenna::room::Room;
use antenna::room_command::RoomCommand;
use antenna::room_context::Delivery;
use antenna::room_manager::{RoomEntry, RoomHandle, RoomManager};
use antenna::session::{ws_handler, SessionAction, SocketFrame};
use antenna::signaling::{IceServerConfig, SignalMessage};
use antenna::signaling_service::{frame_for, OutboundFrame, SignalingService, WriterId};
use antenna::transport::{ChannelId, TransportEvent, TransportId, TransportReply};

const ALICE: &str = "11111111-1111-1111-1111-111111111111";
const BOB: &str = "22222222-2222-2222-2222-222222222222";

fn stun() -> Vec<IceServerConfig> {
    vec![IceServerConfig {
        urls: vec!["stun:stun.l.google.com:19302".to_string()],
        username: None,
        credential: None,
    }]
}

fn text(frame: &str) -> SocketFrame {
    SocketFrame::Text(frame.to_string())
}

#[test]
fn mock_signaling_test_mock_signaling_captures_answer() {
    let mut service = SignalingService::new(vec![]);
    let peer_id = PeerId::new();
    service.add_peer(peer_id, WriterId(1));
    let frame = service.send_answer(peer_id, "test-sdp".to_string()).expect("the peer is registered");
    assert_eq!(frame.writer, WriterId(1));
    assert_eq!(
        SignalMessage::from_json(&frame.text),
        Some(SignalMessage::Answer { sdp: "test-sdp".to_string() })
    );
    assert_eq!(frame.text, r#"{"op":"Answer","d":{"sdp":"test-sdp"}}"#);
}

#[test]
fn mock_signaling_test_mock_signaling_captures_ice() {
    let mut service = SignalingService::new(vec![]);
    let peer_id = PeerId::new();
    service.add_peer(peer_id, WriterId(2));
    let frame = service.send_ice(peer_id, "candidate:123".to_string()).expect("the peer is registered");
    assert_eq!(frame.writer, WriterId(2));
    assert_eq!(
        SignalMessage::from_json(&frame.text),
        Some(SignalMessage::IceCandidate {
            candidate: "candidate:123".to_string(),
            sdp_mid: None,
            sdp_m_line_index: None
        })
    );
}

#[test]
fn test_bridge_drops_frames_for_unknown_peers() {
    let alice = PeerId::parse(ALICE).unwrap();
    let bob = PeerId::parse(BOB).unwrap();
    let mut service = SignalingService::new(stun());
    assert_eq!(service.send_answer(alice, "sdp".to_string()), None);
    assert_eq!(service.writer_of(&alice), None);
    service.add_peer(alice, WriterId(1));
    assert_eq!(service.writer_of(&alice), Some(WriterId(1)));
    assert_eq!(service.send_ice(bob, "c".to_string()), None);
    assert!(service.send_ice(alice, "c".to_string()).is_some());
    service.remove_peer(&alice);
    assert_eq!(service.send_answer(alice, "sdp".to_string()), None);
    service.remove_peer(&alice);
    assert_eq!(service.writer_of(&alice), None);
}

#[test]
fn test_bridge_registration_replaces_the_writer() {
    let alice = PeerId::parse(ALICE).unwrap();
    let mut service = SignalingService::new(stun());
    service.add_peer(alice, WriterId(1));
    service.add_peer(alice, WriterId(2));
    let frame = service.send_answer(alice, "sdp".to_string()).unwrap();
    assert_eq!(frame.writer, WriterId(2));
}

#[test]
fn test_bridge_hands_out_its_ice_servers() {
    let service = SignalingService::new(stun());
    assert_eq!(service.get_ice_servers(), stun());
    assert_eq!(SignalingService::new(vec![]).get_ice_servers(), vec![]);
}

#[test]
fn test_frame_needs_a_writer_and_a_text() {
    assert_eq!(
        frame_for(Some(WriterId(3)), Some("t".to_string())),
        Some(OutboundFrame { writer: WriterId(3), text: "t".to_string() })
    );
    assert_eq!(frame_for(None, Some("t".to_string())), None);
    assert_eq!(frame_for(Some(WriterId(3)), None), None);
    assert_eq!(frame_for(None, None), None);
}

#[test]
fn test_manager_creates_a_room_on_first_use() {
    let mut manager = RoomManager::new();
    assert_eq!(manager.find_room("lobby"), None);
    assert_eq!(
        manager.get_room_sender("lobby", RoomHandle(1)),
        RoomEntry { handle: RoomHandle(1), created: true }
    );
    assert_eq!(
        manager.get_room_sender("lobby", RoomHandle(2)),
        RoomEntry { handle: RoomHandle(1), created: false }
    );
    assert_eq!(
        manager.get_room_sender("other", RoomHandle(3)),
        RoomEntry { handle: RoomHandle(3), created: true }
    );
    assert_eq!(
        manager.get_room_sender("", RoomHandle(4)),
        RoomEntry { handle: RoomHandle(4), created: true }
    );
    assert_eq!(manager.find_room("lobby"), Some(RoomHandle(1)));
    assert_eq!(manager.find_room("other"), Some(RoomHandle(3)));
    assert_eq!(manager.find_room("Lobby"), None);
}

#[test]
fn test_session_opens_with_the_ice_servers() {
    let alice = PeerId::parse(ALICE).unwrap();
    let mut service = SignalingService::new(stun());
    let (session, actions) = ws_handler(ALICE, WriterId(5), &mut service).expect("a well-formed path");
    assert_eq!(session.peer_id(), alice);
    assert_eq!(session.current_room(), None);
    assert!(session.is_reading());
    assert_eq!(service.writer_of(&alice), Some(WriterId(5)));
    assert_eq!(actions.len(), 1);
    match &actions[0] {
        SessionAction::Write(frame) => {
            assert_eq!(frame.writer, WriterId(5));
            assert_eq!(
                SignalMessage::from_json(&frame.text),
                Some(SignalMessage::IceConfig { ice_servers: stun() })
            );
        }
        other => panic!("unexpected action {:?}", other),
    }
}

#[test]
fn test_session_refuses_a_malformed_path() {
    let mut service = SignalingService::new(stun());
    assert!(ws_handler("not-a-uuid", WriterId(5), &mut service).is_none());
    assert!(ws_handler("", WriterId(5), &mut service).is_none());
    let alice = PeerId::parse(ALICE).unwrap();
    assert_eq!(service.writer_of(&alice), None);
}

#[test]
fn test_session_join_then_offer_then_candidates() {
    let alice = PeerId::parse(ALICE).unwrap();
    let mut service = SignalingService::new(stun());
    let mut rooms = RoomManager::new();
    let (mut session, _) = ws_handler(ALICE, WriterId(5), &mut service).unwrap();

    let actions = session.handle_socket(
        text(r#"{"op":"Join","d":{"room":"lobby","token":"alice"}}"#),
        &service,
        &mut rooms,
        RoomHandle(10),
    );
    assert_eq!(session.current_room(), Some(RoomHandle(10)));
    assert_eq!(
        actions,
        vec![
            SessionAction::StartRoom { room: RoomHandle(10) },
            SessionAction::Write(OutboundFrame {
                writer: WriterId(5),
                text: r#"{"op":"Welcome","d":{"peer_id":"11111111-1111-1111-1111-111111111111"}}"#
                    .to_string(),
            }),
        ]
    );

    let actions = session.handle_socket(
        text(r#"{"op":"Offer","d":{"sdp":"<OFFER_1>"}}"#),
        &service,
        &mut rooms,
        RoomHandle(11),
    );
    assert_eq!(
        actions,
        vec![SessionAction::Enqueue {
            room: RoomHandle(10),
            command: RoomCommand::JoinRequest { peer_id: alice, offer: "<OFFER_1>".to_string() },
            must_arrive: true,
        }]
    );

    let actions = session.handle_socket(
        text(r#"{"op":"IceCandidate","d":{"candidate":"c1","sdp_mid":"0","sdp_m_line_index":0}}"#),
        &service,
        &mut rooms,
        RoomHandle(12),
    );
    assert_eq!(
        actions,
        vec![SessionAction::Enqueue {
            room: RoomHandle(10),
            command: RoomCommand::IceCandidate { peer_id: alice, candidate: "c1".to_string() },
            must_arrive: false,
        }]
    );
    assert!(session.is_reading());

    let actions = session.finish(&mut service);
    assert_eq!(
        actions,
        vec![SessionAction::Enqueue {
            room: RoomHandle(10),
            command: RoomCommand::Disconnect { peer_id: alice },
            must_arrive: false,
        }]
    );
    assert_eq!(service.writer_of(&alice), None);
}

#[test]
fn test_session_joins_an_existing_room() {
    let mut service = SignalingService::new(vec![]);
    let mut rooms = RoomManager::new();
    rooms.get_room_sender("lobby", RoomHandle(1));
    let (mut session, _) = ws_handler(BOB, WriterId(6), &mut service).unwrap();
    let actions = session.handle_socket(
        text(r#"{"op":"Join","d":{"room":"lobby"}}"#),
        &service,
        &mut rooms,
        RoomHandle(2),
    );
    assert_eq!(session.current_room(), Some(RoomHandle(1)));
    assert_eq!(actions.len(), 1);
    assert!(matches!(&actions[0], SessionAction::Write(frame) if frame.writer == WriterId(6)));
    // A later join moves the session to another room.
    session.handle_socket(
        text(r#"{"op":"Join","d":{"room":"annex"}}"#),
        &service,
        &mut rooms,
        RoomHandle(3),
    );
    assert_eq!(session.current_room(), Some(RoomHandle(3)));
}

#[test]
fn test_session_without_a_room_passes_offers_over() {
    let mut service = SignalingService::new(vec![]);
    let mut rooms = RoomManager::new();
    let (mut session, _) = ws_handler(ALICE, WriterId(5), &mut service).unwrap();
    for frame in [
        r#"{"op":"Offer","d":{"sdp":"<OFFER_1>"}}"#,
        r#"{"op":"IceCandidate","d":{"candidate":"c1"}}"#,
        r#"{"op":"Answer","d":{"sdp":"x"}}"#,
        r#"{"op":"Welcome","d":{"peer_id":"11111111-1111-1111-1111-111111111111"}}"#,
        r#"{"op":"IceConfig","d":{"ice_servers":[]}}"#,
        "garbage",
    ] {
        assert!(session.handle_socket(text(frame), &service, &mut rooms, RoomHandle(1)).is_empty());
        assert!(session.is_reading());
    }
    assert!(session.handle_socket(SocketFrame::Other, &service, &mut rooms, RoomHandle(1)).is_empty());
    assert!(session.is_reading());
    assert_eq!(rooms.find_room("lobby"), None);
    assert!(session.finish(&mut service).is_empty());
}

#[test]
fn test_session_stops_on_close_and_on_a_lost_room() {
    let mut service = SignalingService::new(vec![]);
    let mut rooms = RoomManager::new();

    let (mut session, _) = ws_handler(ALICE, WriterId(5), &mut service).unwrap();
    assert!(session.handle_socket(SocketFrame::Close, &service, &mut rooms, RoomHandle(1)).is_empty());
    assert!(!session.is_reading());
    // Nothing is taken once the reader has stopped.
    assert!(session
        .handle_socket(text(r#"{"op":"Join","d":{"room":"lobby"}}"#), &service, &mut rooms, RoomHandle(1))
        .is_empty());
    assert_eq!(session.current_room(), None);

    let (mut session, _) = ws_handler(ALICE, WriterId(5), &mut service).unwrap();
    assert!(session.handle_socket(SocketFrame::Lost, &service, &mut rooms, RoomHandle(1)).is_empty());
    assert!(!session.is_reading());

    let (mut session, _) = ws_handler(ALICE, WriterId(5), &mut service).unwrap();
    session.room_lost();
    assert!(!session.is_reading());
}

#[test]
fn test_session_answers_a_decoded_frame() {
    let alice = PeerId::parse(ALICE).unwrap();
    let mut service = SignalingService::new(vec![]);
    let mut rooms = RoomManager::new();
    let (mut session, _) = ws_handler(ALICE, WriterId(5), &mut service).unwrap();
    session.handle_signal(
        SignalMessage::Join { room: "lobby".to_string(), token: None },
        &service,
        &mut rooms,
        RoomHandle(4),
    );
    let actions = session.handle_signal(
        SignalMessage::Offer { sdp: "<OFFER>".to_string() },
        &service,
        &mut rooms,
        RoomHandle(5),
    );
    assert_eq!(
        actions,
        vec![SessionAction::Enqueue {
            room: RoomHandle(4),
            command: RoomCommand::JoinRequest { peer_id: alice, offer: "<OFFER>".to_string() },
            must_arrive: true,
        }]
    );
}

#[test]
fn test_context_sends_and_broadcasts() {
    let alice = PeerId::parse(ALICE).unwrap();
    let bob = PeerId::parse(BOB).unwrap();
    let carol = PeerId(3);
    let mut room = Room::new();
    for (peer_id, transport, channel) in [(alice, 1, 11), (bob, 2, 12)] {
        room.handle_command(RoomCommand::JoinRequest { peer_id, offer: "o".to_string() });
        room.handle_reply(TransportReply::Created { peer_id, created: Some(TransportId(transport)) });
        room.handle_reply(TransportReply::OfferApplied { transport: TransportId(transport), accepted: true });
        room.handle_reply(TransportReply::AnswerCreated {
            transport: TransportId(transport),
            answer: Some("a".to_string()),
        });
        room.handle_transport_event(TransportEvent::DataChannelReady(peer_id, ChannelId(channel)));
    }
    let mut context = room.context();
    assert!(context.contains_user(&alice));
    assert!(context.contains_user(&bob));
    assert!(!context.contains_user(&carol));
    let mut users = context.list_users();
    users.sort_by_key(|user| user.0);
    assert_eq!(users, vec![alice, bob]);

    context.send(&alice, b"first".to_vec());
    context.send(&carol, b"lost".to_vec());
    context.send(&alice, b"second".to_vec());
    context.broadcast(b"all".to_vec());
    context.send(&alice, b"third".to_vec());
    let deliveries = context.into_deliveries();
    assert_eq!(deliveries.len(), 5);
    assert_eq!(
        deliveries[0],
        Delivery { channel: ChannelId(11), peer_id: alice, data: b"first".to_vec() }
    );
    let to_alice: Vec<&[u8]> =
        deliveries.iter().filter(|d| d.peer_id == alice).map(|d| d.data.as_slice()).collect();
    assert_eq!(to_alice, vec![&b"first"[..], &b"second"[..], &b"all"[..], &b"third"[..]]);
    let to_bob: Vec<&Delivery> = deliveries.iter().filter(|d| d.peer_id == bob).collect();
    assert_eq!(to_bob, vec![&Delivery { channel: ChannelId(12), peer_id: bob, data: b"all".to_vec() }]);
    assert!(deliveries.iter().all(|d| d.peer_id != carol));
}

#[test]
fn test_context_of_an_empty_room() {
    let room = Room::new();
    let mut context = room.context();
    assert!(context.list_users().is_empty());
    context.broadcast(vec![1, 2, 3]);
    context.send(&PeerId(1), vec![1]);
    assert!(context.into_deliveries().is_empty());
}

#[test]
fn test_context_sees_only_active_peers() {
    let alice = PeerId::parse(ALICE).unwrap();
    let mut room = Room::new();
    room.handle_command(RoomCommand::JoinRequest { peer_id: alice, offer: "o".to_string() });
    room.handle_reply(TransportReply::Created { peer_id: alice, created: Some(TransportId(1)) });
    room.handle_reply(TransportReply::OfferApplied { transport: TransportId(1), accepted: true });
    room.handle_reply(TransportReply::AnswerCreated { transport: TransportId(1), answer: Some("a".to_string()) });
    assert!(!room.context().contains_user(&alice));
    room.handle_transport_event(TransportEvent::DataChannelReady(alice, ChannelId(1)));
    assert!(room.context().contains_user(&alice));
    room.handle_transport_event(TransportEvent::Disconnected(alice));
    assert!(!room.context().contains_user(&alice));
}

#[test]
fn test_bridge_writes_frames_of_the_first_protocol() {
    let alice = PeerId::parse(ALICE).unwrap();
    let mut service = SignalingService::new(vec![]);
    assert_eq!(service.send_json(alice, OutgoingSignal::Answer { sdp: "s".to_string() }), None);
    service.add_peer(alice, WriterId(4));
    assert_eq!(
        service.send_json(alice, OutgoingSignal::Answer { sdp: "s".to_string() }),
        Some(OutboundFrame {
            writer: WriterId(4),
            text: r#"{"type":"answer","payload":{"sdp":"s"}}"#.to_string()
        })
    );
    assert_eq!(
        service.send_json(alice, OutgoingSignal::Ice { candidate: "c".to_string() }),
        Some(OutboundFrame {
            writer: WriterId(4),
            text: r#"{"type":"ice","payload":{"candidate":"c"}}"#.to_string()
        })
    );
}
