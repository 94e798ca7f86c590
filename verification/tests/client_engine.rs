use antenna::client::{
    dispatch_event, ping_due, resolve_candidate, AntennaEngine, ChannelStatus, EngineAction,
    IcePayload, IceStatus, PingStep,
};
use antenna::model::{ConnectionState, EngineConfig, Packet, RequestId, SystemMessage};
use antenna::peer::PeerId;
use antenna::signaling::{IceServerConfig, SignalMessage};

fn engine() -> AntennaEngine {
    AntennaEngine::new(EngineConfig {
        url: "ws://localhost:3000/ws/11111111-1111-1111-1111-111111111111".to_string(),
        auth_token: "alice".to_string(),
    })
}

fn stun() -> Vec<IceServerConfig> {
    vec![IceServerConfig {
        urls: vec!["stun:stun.l.google.com:19302".to_string()],
        username: None,
        credential: None,
    }]
}

#[test]
fn test_client_joins_the_default_room_when_the_socket_opens() {
    let mut engine = engine();
    assert_eq!(engine.state(), ConnectionState::Disconnected);
    let actions = engine.ws_setup();
    assert_eq!(
        actions,
        vec![EngineAction::Signal(SignalMessage::Join {
            room: "DEFAULT".to_string(),
            token: Some("alice".to_string()),
        })]
    );
    assert_eq!(engine.state(), ConnectionState::Connecting);
}

#[test]
fn test_client_offers_after_the_welcome() {
    let mut engine = engine();
    engine.ws_setup();
    assert!(engine
        .handle_signal(r#"{"op":"IceConfig","d":{"ice_servers":[{"urls":["stun:stun.l.google.com:19302"]}]}}"#)
        .is_empty());
    let actions = engine
        .handle_signal(r#"{"op":"Welcome","d":{"peer_id":"11111111-1111-1111-1111-111111111111"}}"#);
    assert_eq!(actions, vec![EngineAction::CreateOffer { ice_servers: stun() }]);
    let actions = engine.offer_created("<OFFER>".to_string());
    assert_eq!(actions, vec![EngineAction::Signal(SignalMessage::Offer { sdp: "<OFFER>".to_string() })]);
    let actions = engine.handle_signal(r#"{"op":"Answer","d":{"sdp":"<ANSWER>"}}"#);
    assert_eq!(actions, vec![EngineAction::ApplyAnswer { sdp: "<ANSWER>".to_string() }]);
}

#[test]
fn test_client_without_ice_config_uses_no_servers() {
    let mut engine = engine();
    let actions = engine.on_signal(SignalMessage::Welcome { peer_id: PeerId(1) });
    assert_eq!(actions, vec![EngineAction::CreateOffer { ice_servers: vec![] }]);
}

#[test]
fn test_client_accepts_an_offer_of_the_server() {
    let mut engine = engine();
    engine.on_signal(SignalMessage::IceConfig { ice_servers: stun() });
    let actions = engine.on_signal(SignalMessage::Offer { sdp: "<REMOTE>".to_string() });
    assert_eq!(
        actions,
        vec![EngineAction::AcceptOffer { ice_servers: stun(), sdp: "<REMOTE>".to_string() }]
    );
    let actions = engine.answer_created("<LOCAL>".to_string());
    assert_eq!(actions, vec![EngineAction::Signal(SignalMessage::Answer { sdp: "<LOCAL>".to_string() })]);
}

#[test]
fn test_client_passes_frames_over_without_a_connection() {
    let mut engine = engine();
    assert!(engine.on_signal(SignalMessage::Answer { sdp: "a".to_string() }).is_empty());
    assert!(engine
        .on_signal(SignalMessage::IceCandidate {
            candidate: "c".to_string(),
            sdp_mid: None,
            sdp_m_line_index: None
        })
        .is_empty());
    assert!(engine.on_signal(SignalMessage::Join { room: "r".to_string(), token: None }).is_empty());
    assert!(engine.handle_signal("no frame at all").is_empty());
    assert!(engine.handle_signal(r#"{"op":"Nothing","d":{}}"#).is_empty());
}

#[test]
fn test_client_adds_candidates_once_connected() {
    let mut engine = engine();
    engine.offer_created("<OFFER>".to_string());
    let actions = engine.handle_signal(
        r#"{"op":"IceCandidate","d":{"candidate":"candidate:1","sdp_mid":"0","sdp_m_line_index":0}}"#,
    );
    assert_eq!(
        actions,
        vec![EngineAction::AddCandidate(IcePayload {
            candidate: "candidate:1".to_string(),
            sdp_mid: Some("0".to_string()),
            sdp_m_line_index: Some(0),
        })]
    );
}

#[test]
fn test_candidate_wrapped_in_json_is_unwrapped() {
    let wrapped = IcePayload {
        candidate: "  {\"candidate\":\"candidate:7\",\"sdp_mid\":\"data\",\"sdp_m_line_index\":3}".to_string(),
        sdp_mid: None,
        sdp_m_line_index: None,
    };
    assert_eq!(
        resolve_candidate(wrapped),
        IcePayload {
            candidate: "candidate:7".to_string(),
            sdp_mid: Some("data".to_string()),
            sdp_m_line_index: Some(3),
        }
    );
    // The members that the object does not name are absent.
    let partial = IcePayload {
        candidate: "{\"candidate\":\"candidate:8\",\"sdpMid\":\"\",\"sdpMLineIndex\":0}".to_string(),
        sdp_mid: Some("outer".to_string()),
        sdp_m_line_index: Some(9),
    };
    assert_eq!(
        resolve_candidate(partial),
        IcePayload { candidate: "candidate:8".to_string(), sdp_mid: None, sdp_m_line_index: None }
    );
}

#[test]
fn test_candidate_that_is_no_object_stays_as_it_is() {
    for candidate in ["candidate:1 1 UDP 1 10.0.0.1 5000 typ host", "", "   ", "{broken", "{\"sdp_mid\":\"0\"}", "x{}"] {
        let outer = IcePayload {
            candidate: candidate.to_string(),
            sdp_mid: Some("0".to_string()),
            sdp_m_line_index: Some(1),
        };
        let same = IcePayload {
            candidate: candidate.to_string(),
            sdp_mid: Some("0".to_string()),
            sdp_m_line_index: Some(1),
        };
        assert_eq!(resolve_candidate(outer), same);
    }
}

#[test]
fn test_payloads_wait_for_the_data_channel() {
    let mut engine = engine();
    assert!(engine.send(vec![1], None).is_empty());
    assert!(engine.send(vec![2], Some(ChannelStatus::Connecting)).is_empty());
    assert!(engine.send(vec![3], Some(ChannelStatus::Closing)).is_empty());
    assert!(engine.send(vec![4], Some(ChannelStatus::Closed)).is_empty());
    assert_eq!(engine.queued(), 4);
    let actions = engine.setup_data_channel();
    assert_eq!(
        actions,
        vec![
            EngineAction::Transmit(vec![1]),
            EngineAction::Transmit(vec![2]),
            EngineAction::Transmit(vec![3]),
            EngineAction::Transmit(vec![4]),
        ]
    );
    assert_eq!(engine.queued(), 0);
    assert_eq!(engine.state(), ConnectionState::Connected);
    assert_eq!(engine.send(vec![5], Some(ChannelStatus::Open)), vec![EngineAction::Transmit(vec![5])]);
    assert_eq!(engine.queued(), 0);
    assert!(engine.setup_data_channel().is_empty());
}

#[test]
fn test_ice_is_restarted_only_after_a_failure() {
    let engine = engine();
    assert_eq!(engine.on_ice_state(IceStatus::Failed), vec![EngineAction::RestartIce]);
    for status in [
        IceStatus::New,
        IceStatus::Checking,
        IceStatus::Connected,
        IceStatus::Completed,
        IceStatus::Disconnected,
        IceStatus::Closed,
    ] {
        assert!(engine.on_ice_state(status).is_empty());
    }
}

#[test]
fn test_keep_alive_timer() {
    assert_eq!(
        ping_due(Some(ChannelStatus::Open), 1234),
        PingStep::Ping(SystemMessage::Ping { timestamp: 1234 })
    );
    assert_eq!(ping_due(Some(ChannelStatus::Connecting), 1), PingStep::Wait);
    assert_eq!(ping_due(Some(ChannelStatus::Closing), 1), PingStep::Wait);
    assert_eq!(ping_due(Some(ChannelStatus::Closed), 1), PingStep::Stop);
    assert_eq!(ping_due(None, 1), PingStep::Stop);
}

#[test]
fn test_only_user_packets_become_events() {
    assert_eq!(dispatch_event(Packet::User(7u8)), Some(7));
    assert_eq!(dispatch_event::<u8>(Packet::System(SystemMessage::Pong { timestamp: 1 })), None);
    assert_eq!(
        dispatch_event::<u8>(Packet::RpcResponse {
            req_id: RequestId(1),
            payload: vec![],
            is_error: true
        }),
        None
    );
    let mut engine = engine();
    assert_eq!(engine.event_for(Packet::User(7u8)), None);
    engine.set_event_handler();
    assert_eq!(engine.event_for(Packet::User(7u8)), Some(7));
    assert_eq!(engine.event_for::<u8>(Packet::System(SystemMessage::Ping { timestamp: 1 })), None);
}
