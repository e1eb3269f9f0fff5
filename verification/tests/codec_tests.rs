use jarust::codec::{
    decode, decode_events, decode_events_text, decode_frame, decode_jsep, decode_parsed, encode,
    encode_jsep, jsep_type_from_name, kind, kind_from_name, kind_name, Kind,
};
use jarust::error::JaError;
use jarust::japrotocol::{
    ErrorResponse, EstablishmentProtocol, JaData, JaResponse, JaSuccessProtocol, Jsep, JsepType,
    PluginData, ResponseType, ServerInfoRsp,
};

fn json(text: &str) -> serde_json::Value {
    serde_json::from_str(text).unwrap()
}

fn bare(janus: ResponseType) -> JaResponse {
    JaResponse { janus, transaction: None, session_id: None, sender: None, establishment_protocol: None }
}

fn info() -> ServerInfoRsp {
    ServerInfoRsp {
        name: "Janus WebRTC Server".to_string(),
        version: 1201,
        version_string: "1.2.1".to_string(),
        author: "Meetecho s.r.l.".to_string(),
        commit_hash: "abc123".to_string(),
        compile_time: "Mon Jan  1 00:00:00 UTC 2024".to_string(),
        plugins: json(r#"{"janus.plugin.echotest":{"name":"JANUS EchoTest plugin","version":7}}"#),
        transports: json(r#"{"janus.transport.http":{"author":"Meetecho s.r.l."}}"#),
        events: json("{}"),
    }
}

fn plugin_data() -> PluginData {
    PluginData {
        plugin: "janus.plugin.echotest".to_string(),
        data: json(r#"{"echotest":"event","result":"ok","level":0.5,"list":[1,null]}"#),
    }
}

fn every_kind() -> Vec<ResponseType> {
    vec![
        ResponseType::Ack,
        ResponseType::Success(JaSuccessProtocol::Data { data: JaData { id: u64::MAX } }),
        ResponseType::Success(JaSuccessProtocol::Plugin { plugin_data: plugin_data() }),
        ResponseType::Error {
            error: ErrorResponse { code: 458, reason: "No such session".to_string() },
        },
        ResponseType::Event { plugin_data: None },
        ResponseType::Event { plugin_data: Some(plugin_data()) },
        ResponseType::ServerInfo(info()),
        ResponseType::Detached,
        ResponseType::WebRTCUp,
        ResponseType::Media,
        ResponseType::SlowLink,
        ResponseType::HangUp,
        ResponseType::Trickle,
        ResponseType::Timeout,
        ResponseType::Keepalive,
    ]
}

#[test]
fn decode_success_with_data() {
    let rsp = decode(&json(r#"{"janus":"success","transaction":"T0","data":{"id":42}}"#)).unwrap();
    assert_eq!(
        rsp,
        JaResponse {
            janus: ResponseType::Success(JaSuccessProtocol::Data { data: JaData { id: 42 } }),
            transaction: Some("T0".to_string()),
            session_id: None,
            sender: None,
            establishment_protocol: None,
        }
    );
}

#[test]
fn decode_event_with_plugin_data_and_jsep() {
    let text = r#"{"janus":"event","session_id":42,"sender":99,"transaction":"T2",
        "plugindata":{"plugin":"janus.plugin.echotest","data":{"result":"ok"}},
        "jsep":{"type":"answer","sdp":"v=0\r\n"}}"#;
    assert_eq!(
        decode_frame(text).unwrap(),
        JaResponse {
            janus: ResponseType::Event {
                plugin_data: Some(PluginData {
                    plugin: "janus.plugin.echotest".to_string(),
                    data: json(r#"{"result":"ok"}"#),
                }),
            },
            transaction: Some("T2".to_string()),
            session_id: Some(42),
            sender: Some(99),
            establishment_protocol: Some(EstablishmentProtocol::JSEP(Jsep {
                jsep_type: JsepType::Answer,
                sdp: "v=0\r\n".to_string(),
                trickle: None,
            })),
        }
    );
}

#[test]
fn decode_error_reply() {
    let text = r#"{"janus":"error","transaction":"T4","error":{"code":458,"reason":"No such session"}}"#;
    assert_eq!(
        decode_frame(text).unwrap().janus,
        ResponseType::Error {
            error: ErrorResponse { code: 458, reason: "No such session".to_string() },
        }
    );
}

#[test]
fn decode_server_info() {
    let text = r#"{"janus":"server_info","name":"Janus WebRTC Server","version":1201,
        "version_string":"1.2.1","author":"Meetecho s.r.l.","commit-hash":"abc123",
        "compile-time":"Mon Jan  1 00:00:00 UTC 2024",
        "plugins":{"janus.plugin.echotest":{"name":"JANUS EchoTest plugin","version":7}},
        "transports":{"janus.transport.http":{"author":"Meetecho s.r.l."}},"events":{}}"#;
    assert_eq!(decode_frame(text).unwrap(), bare(ResponseType::ServerInfo(info())));
}

#[test]
fn decode_rtp_payload() {
    let rsp = decode_frame(r#"{"janus":"event","rtp":{"ip":"10.0.0.1","port":5004}}"#).unwrap();
    assert_eq!(
        rsp.establishment_protocol,
        Some(EstablishmentProtocol::RTP(json(r#"{"ip":"10.0.0.1","port":5004}"#)))
    );
}

#[test]
fn decode_refuses_incomplete_packets() {
    let refused = [
        r#"[]"#,
        r#""ack""#,
        r#"{}"#,
        r#"{"transaction":"T"}"#,
        r#"{"janus":7}"#,
        r#"{"janus":"unheard"}"#,
        r#"{"janus":"Ack"}"#,
        r#"{"janus":"ack","transaction":7}"#,
        r#"{"janus":"ack","session_id":"42"}"#,
        r#"{"janus":"ack","session_id":-1}"#,
        r#"{"janus":"ack","sender":1.5}"#,
        r#"{"janus":"success"}"#,
        r#"{"janus":"success","data":{}}"#,
        r#"{"janus":"success","data":{"id":"42"}}"#,
        r#"{"janus":"success","data":{"id":1},"plugindata":{"plugin":"p"}}"#,
        r#"{"janus":"success","plugindata":{"data":{}}}"#,
        r#"{"janus":"error"}"#,
        r#"{"janus":"error","error":{"code":458}}"#,
        r#"{"janus":"error","error":{"reason":"r"}}"#,
        r#"{"janus":"error","error":{"code":65536,"reason":"r"}}"#,
        r#"{"janus":"event","plugindata":7}"#,
        r#"{"janus":"event","jsep":{"type":"offer"}}"#,
        r#"{"janus":"event","jsep":{"type":"bid","sdp":""}}"#,
        r#"{"janus":"event","jsep":{"type":"offer","sdp":"","trickle":"no"}}"#,
        r#"{"janus":"server_info","name":"n"}"#,
    ];
    for text in refused {
        assert!(
            matches!(decode_frame(text), Err(JaError::IncompletePacket)),
            "accepted {text}"
        );
        assert!(matches!(decode(&json(text)), Err(JaError::IncompletePacket)));
    }
}

#[test]
fn decode_accepts_the_largest_error_code() {
    let rsp = decode_frame(r#"{"janus":"error","error":{"code":65535,"reason":""}}"#).unwrap();
    assert_eq!(
        rsp.janus,
        ResponseType::Error { error: ErrorResponse { code: 65535, reason: String::new() } }
    );
}

#[test]
fn decode_frame_reports_what_is_no_json() {
    for text in ["", "{", "janus", r#"{"janus":"ack"} trailing"#, r#"{'janus':'ack'}"#] {
        assert!(
            matches!(decode_frame(text), Err(JaError::JsonParsingFailure(_))),
            "accepted {text}"
        );
        assert!(matches!(decode_events_text(text), Err(JaError::JsonParsingFailure(_))));
    }
    let cause = serde_json::from_str::<serde_json::Value>("{").unwrap_err().to_string();
    match decode_parsed(serde_json::from_str::<serde_json::Value>("{")) {
        Err(JaError::JsonParsingFailure(e)) => assert_eq!(e.to_string(), cause),
        other => panic!("unexpected {other:?}"),
    }
    assert_eq!(
        decode_parsed(Ok(json(r#"{"janus":"media"}"#))).unwrap(),
        bare(ResponseType::Media)
    );
}

#[test]
fn encode_writes_the_documented_members() {
    let rsp = JaResponse {
        janus: ResponseType::Success(JaSuccessProtocol::Data { data: JaData { id: 42 } }),
        transaction: Some("T0".to_string()),
        session_id: Some(7),
        sender: None,
        establishment_protocol: None,
    };
    assert_eq!(
        encode(&rsp),
        json(r#"{"janus":"success","transaction":"T0","session_id":7,"data":{"id":42}}"#)
    );
    let rsp = JaResponse {
        janus: ResponseType::Error {
            error: ErrorResponse { code: 458, reason: "No such session".to_string() },
        },
        transaction: None,
        session_id: None,
        sender: Some(99),
        establishment_protocol: Some(EstablishmentProtocol::JSEP(Jsep {
            jsep_type: JsepType::Pranswer,
            sdp: "s".to_string(),
            trickle: Some(true),
        })),
    };
    assert_eq!(
        encode(&rsp),
        json(
            r#"{"janus":"error","sender":99,"error":{"code":458,"reason":"No such session"},"jsep":{"type":"pranswer","sdp":"s","trickle":true}}"#
        )
    );
}

#[test]
fn encode_then_decode_preserves_every_variant() {
    let payloads = vec![
        None,
        Some(EstablishmentProtocol::JSEP(Jsep {
            jsep_type: JsepType::Offer,
            sdp: "v=0\r\no=- 1 1 IN IP4 127.0.0.1\r\n".to_string(),
            trickle: Some(false),
        })),
        Some(EstablishmentProtocol::JSEP(Jsep {
            jsep_type: JsepType::Rollback,
            sdp: String::new(),
            trickle: None,
        })),
        Some(EstablishmentProtocol::RTP(json(r#"{"ip":"::1","port":5004,"fec":[1,2]}"#))),
    ];
    for janus in every_kind() {
        for protocol in &payloads {
            for (transaction, session_id, sender) in [
                (None, None, None),
                (Some("T\u{e9}\"\\0".to_string()), Some(0), Some(u64::MAX)),
                (Some(String::new()), Some(42), None),
            ] {
                let rsp = JaResponse {
                    janus: janus.clone(),
                    transaction,
                    session_id,
                    sender,
                    establishment_protocol: protocol.clone(),
                };
                let document = encode(&rsp);
                assert_eq!(decode(&document).unwrap(), rsp);
                assert_eq!(decode_frame(&document.to_string()).unwrap(), rsp);
            }
        }
    }
}

#[test]
fn kind_names_are_the_protocol_s() {
    let names = [
        (Kind::Ack, "ack"),
        (Kind::Success, "success"),
        (Kind::Error, "error"),
        (Kind::Event, "event"),
        (Kind::ServerInfo, "server_info"),
        (Kind::Detached, "detached"),
        (Kind::WebRTCUp, "webrtcup"),
        (Kind::Media, "media"),
        (Kind::SlowLink, "slowlink"),
        (Kind::HangUp, "hangup"),
        (Kind::Trickle, "trickle"),
        (Kind::Timeout, "timeout"),
        (Kind::Keepalive, "keepalive"),
    ];
    for (k, name) in names {
        assert_eq!(kind_name(k), name);
        assert_eq!(kind_from_name(name), Some(k));
    }
    assert_eq!(kind_from_name("acknowledged"), None);
    assert_eq!(kind_from_name(""), None);
    let kinds: Vec<Kind> = every_kind().iter().map(kind).collect();
    assert_eq!(kinds[0], Kind::Ack);
    assert_eq!(kinds[1], Kind::Success);
    assert_eq!(kinds[2], Kind::Success);
    assert_eq!(kinds[3], Kind::Error);
    assert_eq!(kinds[5], Kind::Event);
    assert_eq!(kinds[6], Kind::ServerInfo);
    assert_eq!(kinds[14], Kind::Keepalive);
}

#[test]
fn jsep_names_and_documents() {
    assert_eq!(jsep_type_from_name("offer"), Some(JsepType::Offer));
    assert_eq!(jsep_type_from_name("answer"), Some(JsepType::Answer));
    assert_eq!(jsep_type_from_name("pranswer"), Some(JsepType::Pranswer));
    assert_eq!(jsep_type_from_name("rollback"), Some(JsepType::Rollback));
    assert_eq!(jsep_type_from_name("Offer"), None);
    let jsep = Jsep { jsep_type: JsepType::Offer, sdp: "v=0".to_string(), trickle: Some(true) };
    assert_eq!(encode_jsep(&jsep), json(r#"{"type":"offer","sdp":"v=0","trickle":true}"#));
    assert_eq!(decode_jsep(&encode_jsep(&jsep)).unwrap(), jsep);
    assert!(matches!(decode_jsep(&json("{}")), Err(JaError::IncompletePacket)));
}

#[test]
fn long_poll_body_decodes_in_order() {
    let text = r#"[{"janus":"event","sender":99,"session_id":42,"transaction":"a"},
        {"janus":"event","sender":99,"session_id":42,"transaction":"b"},
        {"janus":"hangup","sender":99,"session_id":42}]"#;
    let events = decode_events_text(text).unwrap();
    assert_eq!(events.len(), 3);
    assert_eq!(events[0].transaction, Some("a".to_string()));
    assert_eq!(events[1].transaction, Some("b".to_string()));
    assert_eq!(events[2].janus, ResponseType::HangUp);
    assert_eq!(events[2].sender, Some(99));
    assert_eq!(decode_events(&json(text)).unwrap(), events);
    assert_eq!(decode_events_text("[]").unwrap(), vec![]);
}

#[test]
fn long_poll_body_is_all_or_nothing() {
    assert!(matches!(
        decode_events_text(r#"[{"janus":"media"},{"janus":"nonsense"}]"#),
        Err(JaError::IncompletePacket)
    ));
    assert!(matches!(
        decode_events_text(r#"{"janus":"keepalive"}"#),
        Err(JaError::IncompletePacket)
    ));
    assert!(matches!(decode_events(&json("7")), Err(JaError::IncompletePacket)));
}

#[test]
fn outside_errors_convert_into_their_variants() {
    let cause = serde_json::from_str::<serde_json::Value>("{").unwrap_err();
    let text = cause.to_string();
    match JaError::from(cause) {
        JaError::JsonParsingFailure(e) => assert_eq!(e.to_string(), text),
        other => panic!("unexpected {other:?}"),
    }
    let cause = std::io::Error::new(std::io::ErrorKind::BrokenPipe, "gone");
    match JaError::from(cause) {
        JaError::IO(e) => assert_eq!(e.kind(), std::io::ErrorKind::BrokenPipe),
        other => panic!("unexpected {other:?}"),
    }
    let cause = tokio_tungstenite::tungstenite::Error::ConnectionClosed;
    assert!(matches!(
        JaError::from(cause),
        JaError::WebSocket(tokio_tungstenite::tungstenite::Error::ConnectionClosed)
    ));
    let cause =
        tokio_tungstenite::tungstenite::http::HeaderValue::from_str("line\nbreak").unwrap_err();
    assert!(matches!(JaError::from(cause), JaError::InvalidHeaderValue(_)));
}
