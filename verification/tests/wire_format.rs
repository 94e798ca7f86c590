use antenna::compat::{IncomingSignal, OutgoingSignal};
use antenna::json::{JsonMember, JsonValue};
use antenna::peer::PeerId;
use antenna::room_command::RoomCommand;
use antenna::signaling::{IceServerConfig, SignalMessage};

const ALICE: &str = "11111111-1111-1111-1111-111111111111";

fn every_kind_of_frame() -> Vec<SignalMessage> {
    vec![
        SignalMessage::IceConfig { ice_servers: vec![] },
        SignalMessage::IceConfig {
            ice_servers: vec![
                IceServerConfig {
                    urls: vec!["stun:stun.l.google.com:19302".to_string()],
                    username: None,
                    credential: None,
                },
                IceServerConfig {
                    urls: vec!["turn:a.example:3478".to_string(), "turn:b.example:3478".to_string()],
                    username: Some("user".to_string()),
                    credential: Some("secret \"quoted\" \\ \n\u{1F600}".to_string()),
                },
            ],
        },
        SignalMessage::Join { room: "lobby".to_string(), token: None },
        SignalMessage::Join { room: "".to_string(), token: Some("t0k3n".to_string()) },
        SignalMessage::Offer { sdp: "v=0\r\no=- 1 2 IN IP4 127.0.0.1\r\n".to_string() },
        SignalMessage::Answer { sdp: "<ANSWER_1>".to_string() },
        SignalMessage::IceCandidate {
            candidate: "candidate:1 1 UDP 1 10.0.0.1 5000 typ host".to_string(),
            sdp_mid: None,
            sdp_m_line_index: None,
        },
        SignalMessage::IceCandidate {
            candidate: "c".to_string(),
            sdp_mid: Some("0".to_string()),
            sdp_m_line_index: Some(0),
        },
        SignalMessage::IceCandidate {
            candidate: "c".to_string(),
            sdp_mid: Some("data".to_string()),
            sdp_m_line_index: Some(65535),
        },
        SignalMessage::Welcome { peer_id: PeerId::parse(ALICE).unwrap() },
        SignalMessage::Welcome { peer_id: PeerId(0) },
        SignalMessage::Welcome { peer_id: PeerId(u128::MAX) },
    ]
}

#[test]
fn test_every_frame_survives_the_round_trip_through_text() {
    for frame in every_kind_of_frame() {
        let text = frame.to_json().expect("a frame can be written");
        let back = SignalMessage::from_json(&text).expect("what was written can be read");
        assert_eq!(back, frame, "round trip through {}", text);
    }
}

#[test]
fn test_every_frame_survives_the_round_trip_through_the_tree() {
    for frame in every_kind_of_frame() {
        let tree = frame.to_tree();
        assert_eq!(SignalMessage::from_tree(&tree), Some(frame));
    }
}

#[test]
fn test_answer_frame_text() {
    let frame = SignalMessage::Answer { sdp: "<ANSWER_1>".to_string() };
    assert_eq!(frame.to_json().unwrap(), r#"{"op":"Answer","d":{"sdp":"<ANSWER_1>"}}"#);
}

#[test]
fn test_offer_frame_text() {
    let frame = SignalMessage::Offer { sdp: "v=0".to_string() };
    assert_eq!(frame.to_json().unwrap(), r#"{"op":"Offer","d":{"sdp":"v=0"}}"#);
}

#[test]
fn test_join_frame_text() {
    let frame = SignalMessage::Join { room: "DEFAULT".to_string(), token: Some("alice".to_string()) };
    assert_eq!(frame.to_json().unwrap(), r#"{"op":"Join","d":{"room":"DEFAULT","token":"alice"}}"#);
    let frame = SignalMessage::Join { room: "DEFAULT".to_string(), token: None };
    assert_eq!(frame.to_json().unwrap(), r#"{"op":"Join","d":{"room":"DEFAULT","token":null}}"#);
}

#[test]
fn test_ice_candidate_frame_text() {
    let frame = SignalMessage::IceCandidate {
        candidate: "candidate:123".to_string(),
        sdp_mid: None,
        sdp_m_line_index: None,
    };
    assert_eq!(
        frame.to_json().unwrap(),
        r#"{"op":"IceCandidate","d":{"candidate":"candidate:123","sdp_mid":null,"sdp_m_line_index":null}}"#
    );
    let frame = SignalMessage::IceCandidate {
        candidate: "candidate:123".to_string(),
        sdp_mid: Some("0".to_string()),
        sdp_m_line_index: Some(7),
    };
    assert_eq!(
        frame.to_json().unwrap(),
        r#"{"op":"IceCandidate","d":{"candidate":"candidate:123","sdp_mid":"0","sdp_m_line_index":7}}"#
    );
}

#[test]
fn test_welcome_frame_text() {
    let frame = SignalMessage::Welcome { peer_id: PeerId::parse(ALICE).unwrap() };
    assert_eq!(
        frame.to_json().unwrap(),
        r#"{"op":"Welcome","d":{"peer_id":"11111111-1111-1111-1111-111111111111"}}"#
    );
}

#[test]
fn test_ice_config_frame_text() {
    let frame = SignalMessage::IceConfig {
        ice_servers: vec![IceServerConfig {
            urls: vec!["stun:stun.l.google.com:19302".to_string()],
            username: None,
            credential: Some("pw".to_string()),
        }],
    };
    assert_eq!(
        frame.to_json().unwrap(),
        r#"{"op":"IceConfig","d":{"ice_servers":[{"urls":["stun:stun.l.google.com:19302"],"username":null,"credential":"pw"}]}}"#
    );
}

#[test]
fn test_text_is_escaped_by_the_json_writer() {
    let frame = SignalMessage::Offer { sdp: "a\"b\\c\nd".to_string() };
    assert_eq!(frame.to_json().unwrap(), r#"{"op":"Offer","d":{"sdp":"a\"b\\c\nd"}}"#);
}

#[test]
fn test_members_may_come_in_any_order_and_with_white_space() {
    let text = " { \"d\" : { \"token\" : \"t\" , \"room\" : \"r\" } , \"op\" : \"Join\" } ";
    assert_eq!(
        SignalMessage::from_json(text),
        Some(SignalMessage::Join { room: "r".to_string(), token: Some("t".to_string()) })
    );
}

#[test]
fn test_optional_members_may_be_missing_or_null() {
    assert_eq!(
        SignalMessage::from_json(r#"{"op":"Join","d":{"room":"r"}}"#),
        Some(SignalMessage::Join { room: "r".to_string(), token: None })
    );
    assert_eq!(
        SignalMessage::from_json(r#"{"op":"Join","d":{"room":"r","token":null}}"#),
        Some(SignalMessage::Join { room: "r".to_string(), token: None })
    );
    assert_eq!(
        SignalMessage::from_json(r#"{"op":"IceCandidate","d":{"candidate":"c"}}"#),
        Some(SignalMessage::IceCandidate {
            candidate: "c".to_string(),
            sdp_mid: None,
            sdp_m_line_index: None
        })
    );
    assert_eq!(
        SignalMessage::from_json(r#"{"op":"IceConfig","d":{"ice_servers":[{"urls":[]}]}}"#),
        Some(SignalMessage::IceConfig {
            ice_servers: vec![IceServerConfig { urls: vec![], username: None, credential: None }]
        })
    );
}

#[test]
fn test_members_that_a_frame_does_not_have_are_passed_over() {
    let text = r#"{"v":1,"op":"Offer","d":{"sdp":"s","extra":[1,{"a":-2.5e3}],"more":{"x":null}}}"#;
    assert_eq!(SignalMessage::from_json(text), Some(SignalMessage::Offer { sdp: "s".to_string() }));
}

#[test]
fn test_malformed_frames_are_refused() {
    let refused = [
        "",
        "not json",
        "[]",
        "\"Offer\"",
        "{}",
        r#"{"op":"Offer"}"#,
        r#"{"d":{"sdp":"s"}}"#,
        r#"{"op":"Offer","d":null}"#,
        r#"{"op":"Offer","d":"s"}"#,
        r#"{"op":"Offer","d":["s"]}"#,
        r#"{"op":"Offer","d":{}}"#,
        r#"{"op":"Offer","d":{"sdp":null}}"#,
        r#"{"op":"Offer","d":{"sdp":7}}"#,
        r#"{"op":"offer","d":{"sdp":"s"}}"#,
        r#"{"op":"Bogus","d":{}}"#,
        r#"{"op":7,"d":{"sdp":"s"}}"#,
        r#"{"op":"Join","d":{"token":"t"}}"#,
        r#"{"op":"Join","d":{"room":"r","token":5}}"#,
        r#"{"op":"IceCandidate","d":{"candidate":"c","sdp_mid":true}}"#,
        r#"{"op":"IceCandidate","d":{"candidate":"c","sdp_m_line_index":65536}}"#,
        r#"{"op":"IceCandidate","d":{"candidate":"c","sdp_m_line_index":-1}}"#,
        r#"{"op":"IceCandidate","d":{"candidate":"c","sdp_m_line_index":1.5}}"#,
        r#"{"op":"IceCandidate","d":{"candidate":"c","sdp_m_line_index":"1"}}"#,
        r#"{"op":"Welcome","d":{"peer_id":"not-a-uuid"}}"#,
        r#"{"op":"Welcome","d":{"peer_id":17}}"#,
        r#"{"op":"IceConfig","d":{}}"#,
        r#"{"op":"IceConfig","d":{"ice_servers":{}}}"#,
        r#"{"op":"IceConfig","d":{"ice_servers":[{}]}}"#,
        r#"{"op":"IceConfig","d":{"ice_servers":[{"urls":"stun:x"}]}}"#,
        r#"{"op":"IceConfig","d":{"ice_servers":[{"urls":["stun:x",1]}]}}"#,
        r#"{"op":"IceConfig","d":{"ice_servers":[{"urls":[],"username":1}]}}"#,
        r#"{"op":"IceConfig","d":{"ice_servers":[{"urls":[]},7]}}"#,
    ];
    for text in refused {
        assert_eq!(SignalMessage::from_json(text), None, "{} should be refused", text);
    }
}

#[test]
fn test_line_index_limits() {
    assert_eq!(
        SignalMessage::from_json(r#"{"op":"IceCandidate","d":{"candidate":"c","sdp_m_line_index":65535}}"#),
        Some(SignalMessage::IceCandidate {
            candidate: "c".to_string(),
            sdp_mid: None,
            sdp_m_line_index: Some(65535)
        })
    );
    assert_eq!(
        SignalMessage::from_json(r#"{"op":"IceCandidate","d":{"candidate":"c","sdp_m_line_index":0}}"#),
        Some(SignalMessage::IceCandidate {
            candidate: "c".to_string(),
            sdp_mid: None,
            sdp_m_line_index: Some(0)
        })
    );
}

#[test]
fn test_welcome_accepts_every_uuid_form() {
    let expected = Some(SignalMessage::Welcome { peer_id: PeerId(0x11111111_1111_1111_1111_111111111111) });
    for text in [
        r#"{"op":"Welcome","d":{"peer_id":"11111111-1111-1111-1111-111111111111"}}"#,
        r#"{"op":"Welcome","d":{"peer_id":"11111111111111111111111111111111"}}"#,
        r#"{"op":"Welcome","d":{"peer_id":"{11111111-1111-1111-1111-111111111111}"}}"#,
        r#"{"op":"Welcome","d":{"peer_id":"urn:uuid:11111111-1111-1111-1111-111111111111"}}"#,
    ] {
        assert_eq!(SignalMessage::from_json(text), expected);
    }
}

#[test]
fn test_json_value_parse_and_print() {
    let parsed = JsonValue::parse(r#"{"a":[1,-2,2.5,"x",true,null],"b":{}}"#).unwrap();
    assert_eq!(
        parsed,
        JsonValue::Object(vec![
            JsonMember {
                name: "a".to_string(),
                value: JsonValue::Array(vec![
                    JsonValue::Unsigned(1),
                    JsonValue::OtherNumber("-2".to_string()),
                    JsonValue::OtherNumber("2.5".to_string()),
                    JsonValue::String("x".to_string()),
                    JsonValue::Bool(true),
                    JsonValue::Null,
                ]),
            },
            JsonMember { name: "b".to_string(), value: JsonValue::Object(vec![]) },
        ])
    );
    assert_eq!(parsed.to_text().unwrap(), r#"{"a":[1,-2,2.5,"x",true,null],"b":{}}"#);
    assert_eq!(JsonValue::parse("{"), None);
    assert_eq!(JsonValue::parse("18446744073709551615"), Some(JsonValue::Unsigned(u64::MAX)));
}

#[test]
fn test_json_member_lookup_takes_the_first() {
    let object = JsonValue::Object(vec![
        JsonMember { name: "k".to_string(), value: JsonValue::Unsigned(1) },
        JsonMember { name: "other".to_string(), value: JsonValue::Null },
        JsonMember { name: "k".to_string(), value: JsonValue::Unsigned(2) },
    ]);
    assert_eq!(object.member("k"), Some(&JsonValue::Unsigned(1)));
    assert_eq!(object.member("other"), Some(&JsonValue::Null));
    assert_eq!(object.member("missing"), None);
    assert_eq!(JsonValue::Array(vec![]).member("k"), None);
}

#[test]
fn test_frame_copies_are_equal() {
    for frame in every_kind_of_frame() {
        assert_eq!(frame.duplicate(), frame);
    }
    let server = IceServerConfig {
        urls: vec!["stun:x".to_string()],
        username: Some("u".to_string()),
        credential: None,
    };
    assert_eq!(server.clone(), server);
    assert!(server.is_well_formed());
    assert!(!IceServerConfig { urls: vec![], username: None, credential: None }.is_well_formed());
}

#[test]
fn test_first_protocol_frames() {
    let alice = PeerId::parse(ALICE).unwrap();
    assert_eq!(
        IncomingSignal::from_json(r#"{"type":"join","payload":{"offer":"<OFFER>"}}"#),
        Some(IncomingSignal::Join { offer: "<OFFER>".to_string() })
    );
    assert_eq!(
        IncomingSignal::from_json(r#"{"payload":{"candidate":"c"},"type":"ice"}"#),
        Some(IncomingSignal::Ice { candidate: "c".to_string() })
    );
    assert_eq!(IncomingSignal::from_json(r#"{"type":"Join","payload":{"offer":"o"}}"#), None);
    assert_eq!(IncomingSignal::from_json(r#"{"type":"join","payload":{"sdp":"o"}}"#), None);
    assert_eq!(IncomingSignal::from_json(r#"{"type":"join","payload":"o"}"#), None);
    assert_eq!(IncomingSignal::from_json(r#"{"type":"join"}"#), None);
    assert_eq!(IncomingSignal::from_json("nonsense"), None);
    assert_eq!(
        IncomingSignal::Join { offer: "<OFFER>".to_string() }.into_command(alice),
        RoomCommand::JoinRequest { peer_id: alice, offer: "<OFFER>".to_string() }
    );
    assert_eq!(
        IncomingSignal::Ice { candidate: "c".to_string() }.into_command(alice),
        RoomCommand::IceCandidate { peer_id: alice, candidate: "c".to_string() }
    );
    assert_eq!(
        OutgoingSignal::Answer { sdp: "test-sdp".to_string() }.to_json().unwrap(),
        r#"{"type":"answer","payload":{"sdp":"test-sdp"}}"#
    );
    assert_eq!(
        OutgoingSignal::Ice { candidate: "candidate:123".to_string() }.to_json().unwrap(),
        r#"{"type":"ice","payload":{"candidate":"candidate:123"}}"#
    );
}
