use jarust::codec::decode_frame;
use jarust::demux::{dispatch, Delivery, Dispatch};
use jarust::error::JaTransportError;
use jarust::handle_msg::{
    HandleMessage, HandleMessageWithEstablishment, HandleMessageWithEstablishmentAndTimeout,
    HandleMessageWithTimeout,
};
use jarust::janus_interface::ConnectionParams;
use jarust::japrotocol::{
    EstablishmentProtocol, JaResponse, JaSuccessProtocol, Jsep, JsepType, ResponseType,
};
use jarust::tgenerator::{GenerateTransaction, RandomTransactionGenerator};
use jarust::websocket_interface::WebSocketInterface;
use std::cell::Cell;
use std::time::Duration;

struct Counting(Cell<u32>);

impl GenerateTransaction for Counting {
    fn generate_transaction(&self) -> String {
        let n = self.0.get();
        self.0.set(n + 1);
        format!("T{n}")
    }
}

fn json(text: &str) -> serde_json::Value {
    serde_json::from_str(text).unwrap()
}

fn key(text: &str) -> String {
    text.to_string()
}

fn socket(capacity: usize, apisecret: Option<&str>) -> WebSocketInterface<Counting> {
    WebSocketInterface::make_interface(
        ConnectionParams {
            url: "wss://janus.example.org/ws".to_string(),
            apisecret: apisecret.map(|s| s.to_string()),
            namespace: "janus".to_string(),
            capacity,
        },
        Counting(Cell::new(0)),
    )
}

fn inbound(text: &str) -> JaResponse {
    decode_frame(text).unwrap()
}

/// A connection with session 42 and handle 99 attached; the next
/// transaction is T2.
fn attached() -> WebSocketInterface<Counting> {
    let mut ws = socket(32, None);
    ws.create().unwrap();
    ws.on_response(inbound(r#"{"janus":"success","transaction":"T0","data":{"id":42}}"#));
    assert_eq!(ws.wait_created(&key("T0")), Some(Ok(42)));
    ws.attach(42, key("janus.plugin.echotest")).unwrap();
    ws.on_response(inbound(r#"{"janus":"success","transaction":"T1","data":{"id":99}}"#));
    assert_eq!(ws.wait_attached(42, &key("T1")), Some(Ok(99)));
    ws
}

fn message(body: &str) -> HandleMessageWithTimeout {
    HandleMessageWithTimeout {
        session_id: 42,
        handle_id: 99,
        body: json(body),
        timeout: Duration::from_millis(50),
    }
}

#[test]
fn create_session_over_websocket() {
    let mut ws = socket(32, None);
    let frame = ws.create().unwrap();
    assert_eq!(frame.transaction, "T0");
    assert_eq!(frame.request, json(r#"{"janus":"create","transaction":"T0"}"#));
    assert!(ws.is_pending(&key("T0")));
    assert_eq!(ws.wait_created(&key("T0")), None);
    let handled =
        ws.on_response(inbound(r#"{"janus":"success","transaction":"T0","data":{"id":42}}"#));
    assert_eq!(
        handled.dispatch,
        Dispatch { cache: true, retire: true, delivery: Delivery::Nowhere }
    );
    assert!(handled.woken);
    assert!(!handled.delivered);
    assert_eq!(ws.wait_created(&key("T0")), Some(Ok(42)));
    assert!(!ws.is_pending(&key("T0")));
    assert_eq!(ws.pending_len(), 0);
}

#[test]
fn attach_then_ack_then_event() {
    let mut ws = attached();
    let frame = ws.send_msg_waiton_ack(message(r#"{"audio":true}"#)).unwrap();
    assert_eq!(frame.transaction, "T2");
    assert_eq!(
        frame.request,
        json(
            r#"{"janus":"message","body":{"audio":true},"session_id":42,"handle_id":99,"transaction":"T2"}"#
        )
    );
    assert_eq!(ws.wait_ack(&key("T2")), None);
    let handled = ws.on_response(inbound(r#"{"janus":"ack","session_id":42,"transaction":"T2"}"#));
    assert!(handled.woken);
    assert!(ws.is_pending(&key("T2")));
    let ack = ws.wait_ack(&key("T2")).unwrap().unwrap();
    assert_eq!(ack.janus, ResponseType::Ack);
    assert_eq!(ack.transaction, Some(key("T2")));
    assert_eq!(ws.next_event(42, 99), None);
    let text = r#"{"janus":"event","session_id":42,"sender":99,"transaction":"T2","plugindata":{"plugin":"janus.plugin.echotest","data":{"echotest":"event","result":"ok"}}}"#;
    let handled = ws.on_response(inbound(text));
    assert!(handled.delivered);
    assert_eq!(
        handled.dispatch.delivery,
        Delivery::Handle { session_id: 42, handle_id: 99 }
    );
    assert_eq!(ws.next_event(42, 99), Some(inbound(text)));
    assert_eq!(ws.next_event(42, 99), None);
    assert_eq!(ws.next_root_event(), None);
}

#[test]
fn send_waiton_rsp_discards_the_ack() {
    let mut ws = attached();
    let frame = ws.internal_send_msg_waiton_rsp(message(r#"{"audio":false}"#)).unwrap();
    assert_eq!(frame.transaction, "T2");
    assert_eq!(ws.wait_rsp(&key("T2")), None);
    assert!(ws.on_response(inbound(r#"{"janus":"ack","session_id":42,"transaction":"T2"}"#)).woken);
    assert_eq!(ws.wait_rsp(&key("T2")), None);
    let text = r#"{"janus":"success","session_id":42,"sender":99,"transaction":"T2","plugindata":{"plugin":"janus.plugin.echotest","data":{"result":"ok"}}}"#;
    let handled = ws.on_response(inbound(text));
    assert!(handled.woken);
    assert!(handled.delivered);
    assert_eq!(
        handled.dispatch,
        Dispatch {
            cache: true,
            retire: true,
            delivery: Delivery::Handle { session_id: 42, handle_id: 99 },
        }
    );
    let terminal = ws.wait_rsp(&key("T2")).unwrap().unwrap();
    assert!(matches!(
        terminal.janus,
        ResponseType::Success(JaSuccessProtocol::Plugin { .. })
    ));
    assert!(terminal.janus.is_terminal());
    assert_eq!(terminal, inbound(text));
    assert!(!ws.is_pending(&key("T2")));
    assert_eq!(ws.next_event(42, 99), Some(inbound(text)));
}

#[test]
fn timeout_then_late_reply_is_cached_and_evicted() {
    let mut ws = socket(2, None);
    let frame = ws.send_msg_waiton_ack(message("{}")).unwrap();
    assert_eq!(frame.transaction, "T0");
    assert_eq!(ws.wait_ack(&key("T0")), None);
    assert_eq!(ws.timed_out(&key("T0")), JaTransportError::Timeout);
    assert!(ws.is_pending(&key("T0")));
    let handled = ws.on_response(inbound(r#"{"janus":"ack","transaction":"T0"}"#));
    assert!(handled.dispatch.cache);
    assert!(!handled.woken);
    assert!(ws.is_cached(&key("T0")));
    for i in 1..3 {
        let frame = ws.send_msg_waiton_ack(message("{}")).unwrap();
        assert_eq!(frame.transaction, format!("T{i}"));
        ws.on_response(inbound(&format!(r#"{{"janus":"ack","transaction":"T{i}"}}"#)));
        assert!(ws.cached_len() <= 2);
    }
    assert!(!ws.is_cached(&key("T0")));
    assert!(!ws.is_pending(&key("T0")));
    assert!(ws.is_cached(&key("T1")));
    assert!(ws.is_cached(&key("T2")));
    assert_eq!(ws.cached_len(), 2);
    assert_eq!(ws.pending_len(), 2);
}

#[test]
fn error_reply_becomes_a_janus_error() {
    let failure =
        JaTransportError::JanusError { code: 458, reason: key("No such session") };
    let text = |tx: &str| {
        format!(
            r#"{{"janus":"error","transaction":"{tx}","error":{{"code":458,"reason":"No such session"}}}}"#
        )
    };
    let mut ws = socket(32, None);
    ws.create().unwrap();
    let handled = ws.on_response(inbound(&text("T0")));
    assert_eq!(
        handled.dispatch,
        Dispatch { cache: true, retire: true, delivery: Delivery::Nowhere }
    );
    assert_eq!(ws.wait_created(&key("T0")), Some(Err(failure.clone())));
    assert!(!ws.is_pending(&key("T0")));
    ws.attach(42, key("janus.plugin.echotest")).unwrap();
    ws.on_response(inbound(&text("T1")));
    assert_eq!(ws.wait_attached(42, &key("T1")), Some(Err(failure.clone())));
    ws.send_msg_waiton_ack(message("{}")).unwrap();
    ws.on_response(inbound(&text("T2")));
    assert_eq!(ws.wait_ack(&key("T2")), Some(Err(failure.clone())));
    ws.internal_send_msg_waiton_rsp(message("{}")).unwrap();
    ws.on_response(inbound(&text("T3")));
    assert_eq!(ws.wait_rsp(&key("T3")), Some(Err(failure.clone())));
    ws.server_info().unwrap();
    ws.on_response(inbound(&text("T4")));
    assert_eq!(ws.wait_server_info(&key("T4")), Some(Err(failure)));
}

#[test]
fn frames_carry_secret_session_and_handle() {
    let mut ws = socket(32, Some("hush"));
    assert_eq!(
        ws.server_info().unwrap().request,
        json(r#"{"janus":"info","apisecret":"hush","transaction":"T0"}"#)
    );
    assert_eq!(
        ws.attach(42, key("janus.plugin.echotest")).unwrap().request,
        json(
            r#"{"janus":"attach","plugin":"janus.plugin.echotest","session_id":42,"apisecret":"hush","transaction":"T1"}"#
        )
    );
    assert_eq!(
        ws.keep_alive(42).unwrap().request,
        json(r#"{"janus":"keepalive","session_id":42,"apisecret":"hush","transaction":"T2"}"#)
    );
    assert_eq!(
        ws.destory(42).unwrap().request,
        json(r#"{"janus":"destroy","session_id":42,"apisecret":"hush","transaction":"T3"}"#)
    );
    let jsep = Jsep { jsep_type: JsepType::Answer, sdp: key("v=0"), trickle: None };
    assert_eq!(
        ws.send_msg_waiton_ack_with_est(HandleMessageWithEstablishmentAndTimeout {
            session_id: 42,
            handle_id: 99,
            body: json("{}"),
            protocol: EstablishmentProtocol::JSEP(jsep),
            timeout: Duration::from_secs(1),
        })
        .unwrap()
        .request,
        json(
            r#"{"janus":"message","body":{},"jsep":{"type":"answer","sdp":"v=0"},"session_id":42,"handle_id":99,"apisecret":"hush","transaction":"T4"}"#
        )
    );
    assert!(ws.is_pending(&key("T4")));
}

#[test]
fn fire_and_forget_registers_nothing() {
    let mut ws = socket(32, None);
    let frame = ws
        .fire_and_forget_msg(HandleMessage { session_id: 42, handle_id: 99, body: json("[1]") })
        .unwrap();
    assert_eq!(
        frame.request,
        json(r#"{"janus":"message","body":[1],"session_id":42,"handle_id":99,"transaction":"T0"}"#)
    );
    assert!(!ws.is_pending(&key("T0")));
    let frame = ws
        .fire_and_forget_msg_with_est(HandleMessageWithEstablishment {
            session_id: 42,
            handle_id: 99,
            body: json("{}"),
            protocol: EstablishmentProtocol::RTP(json(r#"{"port":1}"#)),
        })
        .unwrap();
    assert_eq!(
        frame.request,
        json(
            r#"{"janus":"message","body":{},"rtp":{"port":1},"session_id":42,"handle_id":99,"transaction":"T1"}"#
        )
    );
    assert_eq!(ws.pending_len(), 0);
}

#[test]
fn close_releases_waiters_and_tells_sessions() {
    let mut ws = attached();
    ws.send_msg_waiton_ack(message("{}")).unwrap();
    ws.internal_send_msg_waiton_rsp(message("{}")).unwrap();
    assert!(!ws.closed());
    let closing = ws.close();
    let mut woken = closing.woken;
    woken.sort();
    assert_eq!(woken, vec![key("T2"), key("T3")]);
    assert_eq!(closing.sessions, vec![42]);
    assert!(ws.closed());
    assert_eq!(ws.wait_ack(&key("T2")), Some(Err(JaTransportError::TransportClosed)));
    assert_eq!(ws.wait_rsp(&key("T3")), Some(Err(JaTransportError::TransportClosed)));
    assert_eq!(ws.wait_created(&key("T9")), Some(Err(JaTransportError::TransportClosed)));
    let told = ws.next_root_event().unwrap();
    assert_eq!(told.janus, ResponseType::Timeout);
    assert_eq!(told.session_id, Some(42));
    assert_eq!(ws.next_root_event(), None);
    assert_eq!(ws.create().unwrap_err(), JaTransportError::TransportClosed);
    let again = ws.close();
    assert!(again.woken.is_empty());
    assert!(again.sessions.is_empty());
    assert_eq!(ws.next_root_event(), None);
}

#[test]
fn events_reach_the_sender_s_sink_and_no_other() {
    let mut ws = attached();
    ws.attach(42, key("janus.plugin.echotest")).unwrap();
    ws.on_response(inbound(r#"{"janus":"success","transaction":"T2","data":{"id":100}}"#));
    assert_eq!(ws.wait_attached(42, &key("T2")), Some(Ok(100)));
    let text = r#"{"janus":"webrtcup","session_id":42,"sender":100}"#;
    let handled = ws.on_response(inbound(text));
    assert!(handled.delivered);
    assert!(!handled.dispatch.cache);
    assert_eq!(ws.next_event(42, 99), None);
    assert_eq!(ws.next_root_event(), None);
    assert_eq!(ws.next_event(42, 100), Some(inbound(text)));
}

#[test]
fn late_event_after_detach_is_dropped() {
    let mut ws = attached();
    assert!(ws.detach(42, 99));
    assert!(!ws.detach(42, 99));
    let handled = ws.on_response(inbound(r#"{"janus":"hangup","session_id":42,"sender":99}"#));
    assert!(!handled.delivered);
    assert_eq!(ws.next_event(42, 99), None);
}

#[test]
fn session_events_go_to_the_root_sink() {
    let mut ws = attached();
    let text = r#"{"janus":"timeout","session_id":42}"#;
    let handled = ws.on_response(inbound(text));
    assert_eq!(
        handled.dispatch,
        Dispatch { cache: false, retire: false, delivery: Delivery::Root }
    );
    assert_eq!(ws.next_root_event(), Some(inbound(text)));
    let text = r#"{"janus":"detached","session_id":42}"#;
    assert_eq!(ws.on_response(inbound(text)).dispatch.delivery, Delivery::Root);
    assert_eq!(ws.next_root_event(), Some(inbound(text)));
}

#[test]
fn event_with_unknown_transaction_is_not_cached() {
    let mut ws = attached();
    let text = r#"{"janus":"event","session_id":42,"sender":99,"transaction":"gone"}"#;
    let handled = ws.on_response(inbound(text));
    assert!(!handled.dispatch.cache);
    assert!(handled.delivered);
    assert!(!ws.is_cached(&key("gone")));
}

#[test]
fn dispatch_table_rows() {
    let nowhere = Delivery::Nowhere;
    let to_handle = Delivery::Handle { session_id: 42, handle_id: 99 };
    let row = |text: &str, known: bool| dispatch(&inbound(text), known);
    assert_eq!(
        row(r#"{"janus":"ack","transaction":"T"}"#, true),
        Dispatch { cache: true, retire: false, delivery: nowhere }
    );
    assert_eq!(
        row(r#"{"janus":"success","transaction":"T","data":{"id":1}}"#, true),
        Dispatch { cache: true, retire: true, delivery: nowhere }
    );
    assert_eq!(
        row(
            r#"{"janus":"success","transaction":"T","session_id":42,"sender":99,"plugindata":{"plugin":"p","data":{}}}"#,
            false
        ),
        Dispatch { cache: true, retire: true, delivery: to_handle }
    );
    assert_eq!(
        row(
            r#"{"janus":"error","transaction":"T","session_id":42,"sender":99,"error":{"code":1,"reason":"r"}}"#,
            true
        ),
        Dispatch { cache: true, retire: true, delivery: to_handle }
    );
    assert_eq!(
        row(r#"{"janus":"error","transaction":"T","error":{"code":1,"reason":"r"}}"#, true),
        Dispatch { cache: true, retire: true, delivery: nowhere }
    );
    assert_eq!(
        row(r#"{"janus":"trickle","transaction":"T","session_id":42,"sender":99}"#, true),
        Dispatch { cache: true, retire: false, delivery: to_handle }
    );
    assert_eq!(
        row(r#"{"janus":"trickle","transaction":"T","session_id":42,"sender":99}"#, false),
        Dispatch { cache: false, retire: false, delivery: to_handle }
    );
    assert_eq!(
        row(r#"{"janus":"media","session_id":42,"sender":99}"#, false),
        Dispatch { cache: false, retire: false, delivery: to_handle }
    );
    assert_eq!(
        row(r#"{"janus":"slowlink","sender":99}"#, false),
        Dispatch { cache: false, retire: false, delivery: nowhere }
    );
    assert_eq!(
        row(r#"{"janus":"keepalive"}"#, false),
        Dispatch { cache: false, retire: false, delivery: Delivery::Root }
    );
    assert_eq!(
        row(r#"{"janus":"ack","session_id":42}"#, false),
        Dispatch { cache: false, retire: false, delivery: Delivery::Root }
    );
    assert_eq!(
        row(r#"{"janus":"ack"}"#, false),
        Dispatch { cache: false, retire: false, delivery: nowhere }
    );
}

#[test]
fn destroy_over_websocket_succeeds_whatever_happened() {
    let ws = socket(32, None);
    assert_eq!(ws.destory_reply(true), Ok(()));
    assert_eq!(ws.destory_reply(false), Ok(()));
}

#[test]
fn frames_carry_what_the_generator_hands_out() {
    let mut ws = WebSocketInterface::make_interface(
        ConnectionParams {
            url: "ws://localhost:8188".to_string(),
            apisecret: None,
            namespace: "janus".to_string(),
            capacity: 4,
        },
        RandomTransactionGenerator::with_length(7),
    );
    let frame = ws.create().unwrap();
    assert_eq!(frame.transaction.len(), 7);
    assert!(frame.transaction.chars().all(|c| c.is_ascii_alphanumeric()));
    assert_eq!(frame.request["transaction"], frame.transaction.as_str());
    assert!(ws.is_pending(&frame.transaction));
}
