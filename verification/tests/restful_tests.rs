use jarust::error::{JaError, JaTransportError};
use jarust::handle_msg::{
    HandleMessage, HandleMessageWithEstablishment, HandleMessageWithEstablishmentAndTimeout,
    HandleMessageWithTimeout,
};
use jarust::janus_interface::{ConnectionParams, DEFAULT_CAPACITY, DEFAULT_NAMESPACE};
use jarust::japrotocol::{
    ErrorResponse, EstablishmentProtocol, JaData, JaResponse, JaSuccessProtocol, Jsep, JsepType,
    PluginData, ResponseType, ServerInfoRsp,
};
use jarust::restful_interface::{Method, RestfulInterface, MAX_EVENTS};
use jarust::tgenerator::{GenerateTransaction, RandomTransactionGenerator};
use std::cell::Cell;
use std::time::Duration;

struct Counting(Cell<u32>);

impl GenerateTransaction for Counting {
    fn generate_transaction(&self) -> String {
        let n = self.0.get();
        self.0.set(n + 1);
        format!("T{n}")
    }
}

fn json(text: &str) -> serde_json::Value {
    serde_json::from_str(text).unwrap()
}

fn interface(apisecret: Option<&str>) -> RestfulInterface<Counting> {
    RestfulInterface::make_interface(
        ConnectionParams {
            url: "https://janus.example.org".to_string(),
            apisecret: apisecret.map(|s| s.to_string()),
            namespace: DEFAULT_NAMESPACE.to_string(),
            capacity: DEFAULT_CAPACITY,
        },
        Counting(Cell::new(0)),
    )
}

fn reply(janus: ResponseType, transaction: Option<&str>) -> JaResponse {
    JaResponse {
        janus,
        transaction: transaction.map(|t| t.to_string()),
        session_id: None,
        sender: None,
        establishment_protocol: None,
    }
}

fn error_reply(transaction: &str) -> JaResponse {
    reply(
        ResponseType::Error {
            error: ErrorResponse { code: 458, reason: "No such session".to_string() },
        },
        Some(transaction),
    )
}

fn no_such_session() -> JaTransportError {
    JaTransportError::JanusError { code: 458, reason: "No such session".to_string() }
}

fn event(kind: ResponseType, note: &str) -> JaResponse {
    JaResponse {
        janus: kind,
        transaction: Some(note.to_string()),
        session_id: Some(42),
        sender: Some(99),
        establishment_protocol: None,
    }
}

#[test]
fn defaults_are_as_documented() {
    assert_eq!(DEFAULT_NAMESPACE, "janus");
    assert_eq!(DEFAULT_CAPACITY, 32);
    assert_eq!(MAX_EVENTS, 5);
}

#[test]
fn create_posts_a_stamped_request_to_the_root() {
    let rest = interface(None);
    let request = rest.create(Duration::from_secs(10));
    assert_eq!(request.method, Method::Post);
    assert_eq!(request.url, "https://janus.example.org/janus");
    assert_eq!(request.timeout, Some(Duration::from_secs(10)));
    assert_eq!(request.transaction, Some("T0".to_string()));
    assert_eq!(request.body, Some(json(r#"{"janus":"create","transaction":"T0"}"#)));
    let request = rest.create(Duration::from_secs(1));
    assert_eq!(request.transaction, Some("T1".to_string()));
}

#[test]
fn create_carries_the_api_secret() {
    let rest = interface(Some("hush"));
    let request = rest.create(Duration::from_secs(10));
    assert_eq!(
        request.body,
        Some(json(r#"{"janus":"create","apisecret":"hush","transaction":"T0"}"#))
    );
}

#[test]
fn decorate_request_returns_the_transaction_it_stamped() {
    let rest = interface(Some("hush"));
    let (request, transaction) = rest.decorate_request(json(r#"{"janus":"x","body":{"a":1}}"#));
    assert_eq!(transaction, "T0");
    assert_eq!(
        request,
        json(r#"{"janus":"x","body":{"a":1},"apisecret":"hush","transaction":"T0"}"#)
    );
    assert!(matches!(
        rest.try_decorate_request(json("[]")),
        Err(JaError::InvalidJanusRequest)
    ));
    let (request, transaction) = rest.try_decorate_request(json("{}")).unwrap();
    assert_eq!(transaction, "T1");
    assert_eq!(request, json(r#"{"apisecret":"hush","transaction":"T1"}"#));
}

#[test]
fn create_reply_gives_the_session_id() {
    let rest = interface(None);
    let success = reply(
        ResponseType::Success(JaSuccessProtocol::Data { data: JaData { id: 42 } }),
        Some("T0"),
    );
    assert_eq!(rest.create_reply(success), Ok(42));
}

#[test]
fn create_reply_maps_the_server_s_error() {
    let rest = interface(None);
    assert_eq!(rest.create_reply(error_reply("T4")), Err(no_such_session()));
}

#[test]
fn create_reply_rejects_other_replies() {
    let rest = interface(None);
    assert_eq!(
        rest.create_reply(reply(ResponseType::Ack, Some("T0"))),
        Err(JaTransportError::UnexpectedResponse)
    );
    let plugin = ResponseType::Success(JaSuccessProtocol::Plugin {
        plugin_data: PluginData { plugin: "p".to_string(), data: json("{}") },
    });
    assert_eq!(
        rest.create_reply(reply(plugin, Some("T0"))),
        Err(JaTransportError::UnexpectedResponse)
    );
}

#[test]
fn server_info_is_a_get() {
    let rest = interface(Some("hush"));
    let request = rest.server_info(Duration::from_millis(500));
    assert_eq!(request.method, Method::Get);
    assert_eq!(request.url, "https://janus.example.org/janus/info");
    assert_eq!(request.body, None);
    assert_eq!(request.transaction, None);
    assert_eq!(request.timeout, Some(Duration::from_millis(500)));
}

fn info() -> ServerInfoRsp {
    ServerInfoRsp {
        name: "Janus WebRTC Server".to_string(),
        version: 1201,
        version_string: "1.2.1".to_string(),
        author: "Meetecho s.r.l.".to_string(),
        commit_hash: "abc".to_string(),
        compile_time: "now".to_string(),
        plugins: json(r#"{"janus.plugin.echotest":{"name":"echo"}}"#),
        transports: json("{}"),
        events: json("{}"),
    }
}

#[test]
fn server_info_reply_gives_the_description() {
    let rest = interface(None);
    assert_eq!(
        rest.server_info_reply(reply(ResponseType::ServerInfo(info()), None)),
        Ok(info())
    );
    assert_eq!(rest.server_info_reply(error_reply("T")), Err(no_such_session()));
    assert_eq!(
        rest.server_info_reply(reply(ResponseType::Ack, None)),
        Err(JaTransportError::IncompletePacket)
    );
}

#[test]
fn attach_posts_to_the_session() {
    let rest = interface(None);
    let request =
        rest.attach(42, "janus.plugin.echotest".to_string(), Duration::from_secs(3));
    assert_eq!(request.method, Method::Post);
    assert_eq!(request.url, "https://janus.example.org/janus/42");
    assert_eq!(
        request.body,
        Some(json(r#"{"janus":"attach","plugin":"janus.plugin.echotest","transaction":"T0"}"#))
    );
    assert_eq!(request.timeout, Some(Duration::from_secs(3)));
}

#[test]
fn attach_reply_opens_the_sink_of_the_handle() {
    let mut rest = interface(None);
    let success = reply(
        ResponseType::Success(JaSuccessProtocol::Data { data: JaData { id: 99 } }),
        Some("T1"),
    );
    rest.long_poll_reply(42, &vec![event(ResponseType::Media, "early")]);
    assert_eq!(rest.attach_reply(42, success), Ok(99));
    assert_eq!(rest.next_event(42, 99), None);
    rest.long_poll_reply(42, &vec![event(ResponseType::Media, "m")]);
    assert_eq!(rest.next_event(42, 99), Some(event(ResponseType::Media, "m")));
}

#[test]
fn attach_reply_failure_opens_nothing() {
    let mut rest = interface(None);
    assert_eq!(rest.attach_reply(42, error_reply("T")), Err(no_such_session()));
    assert_eq!(
        rest.attach_reply(42, reply(ResponseType::Timeout, None)),
        Err(JaTransportError::UnexpectedResponse)
    );
    rest.long_poll_reply(42, &vec![event(ResponseType::Media, "m")]);
    assert_eq!(rest.next_event(42, 99), None);
    assert_eq!(rest.next_event(42, 458), None);
}

#[test]
fn long_poll_asks_for_five_events() {
    let rest = interface(None);
    let request = rest.long_poll(8417174091715192);
    assert_eq!(request.method, Method::Get);
    assert_eq!(request.url, "https://janus.example.org/janus/8417174091715192?maxev=5");
    assert_eq!(request.body, None);
    assert_eq!(request.timeout, None);
}

#[test]
fn long_poll_fans_out_in_order() {
    let mut rest = interface(None);
    let success = reply(
        ResponseType::Success(JaSuccessProtocol::Data { data: JaData { id: 99 } }),
        Some("T1"),
    );
    assert_eq!(rest.attach_reply(42, success), Ok(99));
    let events = vec![
        event(ResponseType::Event { plugin_data: None }, "first"),
        event(ResponseType::Event { plugin_data: None }, "second"),
        event(ResponseType::HangUp, "third"),
    ];
    rest.long_poll_reply(42, &events);
    assert_eq!(rest.next_event(42, 99), Some(events[0].clone()));
    assert_eq!(rest.next_event(42, 99), Some(events[1].clone()));
    assert_eq!(rest.next_event(42, 99), Some(events[2].clone()));
    assert_eq!(rest.next_event(42, 99), None);
}

#[test]
fn long_poll_delivers_by_sender() {
    let mut rest = interface(None);
    for id in [99, 100] {
        let success = reply(
            ResponseType::Success(JaSuccessProtocol::Data { data: JaData { id } }),
            Some("T"),
        );
        assert_eq!(rest.attach_reply(42, success), Ok(id));
    }
    let mut for_second = event(ResponseType::WebRTCUp, "second");
    for_second.sender = Some(100);
    let mut for_nobody = event(ResponseType::Media, "no sink");
    for_nobody.sender = Some(7);
    let events = vec![
        event(ResponseType::Media, "first"),
        for_second.clone(),
        for_nobody,
        event(ResponseType::HangUp, "first again"),
    ];
    rest.long_poll_reply(42, &events);
    assert_eq!(rest.next_event(42, 100), Some(for_second));
    assert_eq!(rest.next_event(42, 100), None);
    assert_eq!(rest.next_event(42, 99), Some(events[0].clone()));
    assert_eq!(rest.next_event(42, 99), Some(events[3].clone()));
    assert_eq!(rest.next_event(42, 99), None);
    assert_eq!(rest.next_event(42, 7), None);
    rest.long_poll_reply(43, &events);
    assert_eq!(rest.next_event(42, 99), None);
}

#[test]
fn long_poll_event_without_sender_reaches_every_handle_of_the_session() {
    let mut rest = interface(None);
    for (session, id) in [(42, 99), (42, 100), (43, 99)] {
        let success = reply(
            ResponseType::Success(JaSuccessProtocol::Data { data: JaData { id } }),
            Some("T"),
        );
        assert_eq!(rest.attach_reply(session, success), Ok(id));
    }
    let mut nameless = event(ResponseType::Timeout, "nobody");
    nameless.sender = None;
    let events = vec![
        event(ResponseType::Media, "before"),
        nameless.clone(),
        event(ResponseType::HangUp, "after"),
    ];
    rest.long_poll_reply(42, &events);
    assert_eq!(rest.next_event(42, 99), Some(events[0].clone()));
    assert_eq!(rest.next_event(42, 99), Some(nameless.clone()));
    assert_eq!(rest.next_event(42, 99), Some(events[2].clone()));
    assert_eq!(rest.next_event(42, 99), None);
    assert_eq!(rest.next_event(42, 100), Some(nameless));
    assert_eq!(rest.next_event(42, 100), None);
    assert_eq!(rest.next_event(43, 99), None);
}

#[test]
fn long_poll_goes_on_after_a_failed_poll() {
    let mut rest = interface(None);
    let success = reply(
        ResponseType::Success(JaSuccessProtocol::Data { data: JaData { id: 99 } }),
        Some("T"),
    );
    assert_eq!(rest.attach_reply(42, success), Ok(99));
    assert!(jarust::codec::decode_events_text("no json").is_err());
    assert!(jarust::codec::decode_events_text(r#"{"janus":"keepalive"}"#).is_err());
    assert_eq!(rest.next_event(42, 99), None);
    let events = jarust::codec::decode_events_text(r#"[{"janus":"keepalive"}]"#).unwrap();
    rest.long_poll_reply(42, &events);
    assert_eq!(rest.next_event(42, 99), Some(reply(ResponseType::Keepalive, None)));
    assert_eq!(rest.next_event(42, 99), None);
}

#[test]
fn error_reply_without_transaction_keeps_code_and_reason() {
    let rest = interface(None);
    let tx = "T2".to_string();
    let unmarked = reply(
        ResponseType::Error {
            error: ErrorResponse { code: 458, reason: "No such session".to_string() },
        },
        None,
    );
    assert_eq!(
        rest.send_msg_waiton_ack_reply(unmarked.clone(), &tx),
        Err(no_such_session())
    );
    assert_eq!(
        rest.internal_send_msg_waiton_rsp_reply(unmarked.clone(), &tx),
        Some(Err(no_such_session()))
    );
    assert_eq!(rest.waiton_rsp_event(unmarked, &tx), None);
    assert_eq!(
        rest.send_msg_waiton_ack_reply(error_reply("other"), &tx),
        Err(JaTransportError::UnexpectedResponse)
    );
    assert_eq!(
        rest.internal_send_msg_waiton_rsp_reply(error_reply("other"), &tx),
        Some(Err(JaTransportError::UnexpectedResponse))
    );
}

#[test]
fn requests_carry_what_the_generator_hands_out() {
    let rest = RestfulInterface::make_interface(
        ConnectionParams {
            url: "http://localhost:8088".to_string(),
            apisecret: None,
            namespace: DEFAULT_NAMESPACE.to_string(),
            capacity: DEFAULT_CAPACITY,
        },
        RandomTransactionGenerator::new(),
    );
    let mut seen = Vec::new();
    for _ in 0..20 {
        let request = rest.create(Duration::from_secs(1));
        let transaction = request.transaction.unwrap();
        assert_eq!(transaction.len(), 12);
        assert!(transaction.chars().all(|c| c.is_ascii_alphanumeric()));
        assert_eq!(request.body.unwrap()["transaction"], transaction.as_str());
        assert!(!seen.contains(&transaction));
        seen.push(transaction);
    }
}

#[test]
fn destroy_succeeds_whatever_the_transport_did() {
    let rest = interface(None);
    assert_eq!(rest.destory_reply(true), Ok(()));
    assert_eq!(rest.destory_reply(false), Ok(()));
}

#[test]
fn passed_deadline_is_a_timeout() {
    let rest = interface(None);
    assert_eq!(rest.timed_out(), JaTransportError::Timeout);
}

#[test]
fn waiton_rsp_event_looks_at_its_own_transaction_only() {
    let rest = interface(None);
    let tx = "T3".to_string();
    assert_eq!(rest.waiton_rsp_event(event(ResponseType::Event { plugin_data: None }, "T0"), &tx), None);
    assert_eq!(rest.waiton_rsp_event(error_reply("T0"), &tx), None);
    assert_eq!(rest.waiton_rsp_event(reply(ResponseType::Media, None), &tx), None);
    assert_eq!(rest.waiton_rsp_event(reply(ResponseType::Ack, Some("T3")), &tx), None);
    let terminal = event(ResponseType::Event { plugin_data: None }, "T3");
    assert_eq!(rest.waiton_rsp_event(terminal.clone(), &tx), Some(Ok(terminal)));
    assert_eq!(rest.waiton_rsp_event(error_reply("T3"), &tx), Some(Err(no_such_session())));
}

#[test]
fn keep_alive_sends_nothing() {
    let rest = interface(None);
    assert!(rest.keep_alive(42, Duration::from_secs(1)).is_none());
}

#[test]
fn destroy_posts_to_the_session() {
    let rest = interface(None);
    let request = rest.destory(42, Duration::from_secs(2));
    assert_eq!(request.method, Method::Post);
    assert_eq!(request.url, "https://janus.example.org/janus/42");
    assert_eq!(request.body, Some(json(r#"{"janus":"destroy","transaction":"T0"}"#)));
    assert_eq!(request.timeout, Some(Duration::from_secs(2)));
}

#[test]
fn messages_post_to_the_handle() {
    let rest = interface(None);
    let request = rest.fire_and_forget_msg(HandleMessage {
        session_id: 42,
        handle_id: 99,
        body: json(r#"{"audio":true}"#),
    });
    assert_eq!(request.method, Method::Post);
    assert_eq!(request.url, "https://janus.example.org/janus/42/99");
    assert_eq!(request.timeout, None);
    assert_eq!(
        request.body,
        Some(json(r#"{"janus":"message","body":{"audio":true},"transaction":"T0"}"#))
    );
    let request = rest.send_msg_waiton_ack(HandleMessageWithTimeout {
        session_id: 42,
        handle_id: 99,
        body: json(r#"{"audio":true}"#),
        timeout: Duration::from_millis(50),
    });
    assert_eq!(request.url, "https://janus.example.org/janus/42/99");
    assert_eq!(request.timeout, Some(Duration::from_millis(50)));
    assert_eq!(
        request.body,
        Some(json(r#"{"janus":"message","body":{"audio":true},"transaction":"T1"}"#))
    );
    let request = rest.internal_send_msg_waiton_rsp(HandleMessageWithTimeout {
        session_id: 1,
        handle_id: 2,
        body: json(r#"{"audio":false}"#),
        timeout: Duration::from_secs(1),
    });
    assert_eq!(request.url, "https://janus.example.org/janus/1/2");
    assert_eq!(
        request.body,
        Some(json(r#"{"janus":"message","body":{"audio":false},"transaction":"T2"}"#))
    );
}

#[test]
fn messages_with_establishment_carry_it() {
    let rest = interface(Some("hush"));
    let jsep = Jsep { jsep_type: JsepType::Offer, sdp: "".to_string(), trickle: Some(false) };
    let request = rest.fire_and_forget_msg_with_est(HandleMessageWithEstablishment {
        session_id: 42,
        handle_id: 99,
        body: json(r#"{"video":true,"audio":true}"#),
        protocol: EstablishmentProtocol::JSEP(jsep),
    });
    assert_eq!(request.url, "https://janus.example.org/janus/42/99");
    assert_eq!(request.timeout, None);
    assert_eq!(
        request.body,
        Some(json(
            r#"{"janus":"message","body":{"video":true,"audio":true},"jsep":{"type":"offer","sdp":"","trickle":false},"apisecret":"hush","transaction":"T0"}"#
        ))
    );
    let request = rest.send_msg_waiton_ack_with_est(HandleMessageWithEstablishmentAndTimeout {
        session_id: 42,
        handle_id: 99,
        body: json("{}"),
        protocol: EstablishmentProtocol::RTP(json(r#"{"port":5004}"#)),
        timeout: Duration::from_secs(4),
    });
    assert_eq!(request.timeout, Some(Duration::from_secs(4)));
    assert_eq!(
        request.body,
        Some(json(
            r#"{"janus":"message","body":{},"rtp":{"port":5004},"apisecret":"hush","transaction":"T1"}"#
        ))
    );
}

#[test]
fn waiton_ack_reply_carries_the_transaction() {
    let rest = interface(None);
    let tx = "T2".to_string();
    let ack = reply(ResponseType::Ack, Some("T2"));
    assert_eq!(rest.send_msg_waiton_ack_reply(ack.clone(), &tx), Ok(ack));
    assert_eq!(
        rest.send_msg_waiton_ack_reply(reply(ResponseType::Ack, Some("other")), &tx),
        Err(JaTransportError::UnexpectedResponse)
    );
    assert_eq!(
        rest.send_msg_waiton_ack_reply(reply(ResponseType::Ack, None), &tx),
        Err(JaTransportError::UnexpectedResponse)
    );
    assert_eq!(rest.send_msg_waiton_ack_reply(error_reply("T2"), &tx), Err(no_such_session()));
}

#[test]
fn waiton_rsp_reply_passes_over_the_ack() {
    let rest = interface(None);
    let tx = "T3".to_string();
    assert_eq!(
        rest.internal_send_msg_waiton_rsp_reply(reply(ResponseType::Ack, Some("T3")), &tx),
        None
    );
    let success = reply(
        ResponseType::Success(JaSuccessProtocol::Plugin {
            plugin_data: PluginData {
                plugin: "janus.plugin.echotest".to_string(),
                data: json(r#"{"result":"ok"}"#),
            },
        }),
        Some("T3"),
    );
    assert_eq!(
        rest.internal_send_msg_waiton_rsp_reply(success.clone(), &tx),
        Some(Ok(success))
    );
    assert_eq!(
        rest.internal_send_msg_waiton_rsp_reply(error_reply("T3"), &tx),
        Some(Err(no_such_session()))
    );
    assert_eq!(
        rest.internal_send_msg_waiton_rsp_reply(error_reply("T0"), &tx),
        Some(Err(JaTransportError::UnexpectedResponse))
    );
}
