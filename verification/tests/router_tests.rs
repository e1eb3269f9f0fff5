use jarust::japrotocol::{JaResponse, ResponseType};
use jarust::router::Router;

fn event(kind: ResponseType, sender: u64, transaction: &str) -> JaResponse {
    JaResponse {
        janus: kind,
        transaction: Some(transaction.to_string()),
        session_id: Some(42),
        sender: Some(sender),
        establishment_protocol: None,
    }
}

#[test]
fn router_delivers_to_the_sender_s_sink_only() {
    let mut router = Router::new();
    router.add_subroute(42, 99);
    router.add_subroute(42, 100);
    router.add_subroute(43, 99);
    assert!(router.pub_subroute(42, 99, event(ResponseType::WebRTCUp, 99, "a")));
    assert_eq!(router.recv_subroute(42, 100), None);
    assert_eq!(router.recv_subroute(43, 99), None);
    assert_eq!(router.recv_root(), None);
    assert_eq!(router.recv_subroute(42, 99), Some(event(ResponseType::WebRTCUp, 99, "a")));
    assert_eq!(router.recv_subroute(42, 99), None);
}

#[test]
fn router_drops_events_without_a_sink() {
    let mut router = Router::new();
    assert!(!router.pub_subroute(42, 99, event(ResponseType::Media, 99, "a")));
    assert!(!router.has_subroute(42, 99));
    router.add_subroute(42, 99);
    assert!(router.has_subroute(42, 99));
    assert_eq!(router.recv_subroute(42, 99), None);
    assert!(router.remove_subroute(42, 99));
    assert!(!router.remove_subroute(42, 99));
    assert!(!router.pub_subroute(42, 99, event(ResponseType::Media, 99, "late")));
}

#[test]
fn router_keeps_the_order_of_delivery() {
    let mut router = Router::new();
    router.add_subroute(42, 99);
    let events = vec![
        event(ResponseType::Event { plugin_data: None }, 99, "1"),
        event(ResponseType::Event { plugin_data: None }, 99, "2"),
        event(ResponseType::HangUp, 99, "3"),
    ];
    router.pub_subroutes(42, &events);
    assert_eq!(router.recv_subroute(42, 99), Some(events[0].clone()));
    assert_eq!(router.recv_subroute(42, 99), Some(events[1].clone()));
    assert_eq!(router.recv_subroute(42, 99), Some(events[2].clone()));
    assert_eq!(router.recv_subroute(42, 99), None);
}

#[test]
fn router_fans_out_by_sender() {
    let mut router = Router::new();
    router.add_subroute(42, 99);
    router.add_subroute(42, 100);
    router.add_subroute(43, 99);
    let mut nameless = event(ResponseType::Media, 0, "nobody");
    nameless.sender = None;
    let events = vec![
        event(ResponseType::Media, 100, "a"),
        event(ResponseType::Media, 99, "b"),
        nameless,
        event(ResponseType::Media, 7, "no sink"),
        event(ResponseType::HangUp, 100, "c"),
    ];
    router.pub_subroutes(42, &events);
    assert_eq!(router.recv_subroute(42, 100), Some(events[0].clone()));
    assert_eq!(router.recv_subroute(42, 100), Some(events[2].clone()));
    assert_eq!(router.recv_subroute(42, 100), Some(events[4].clone()));
    assert_eq!(router.recv_subroute(42, 100), None);
    assert_eq!(router.recv_subroute(42, 99), Some(events[1].clone()));
    assert_eq!(router.recv_subroute(42, 99), Some(events[2].clone()));
    assert_eq!(router.recv_subroute(42, 99), None);
    assert_eq!(router.recv_subroute(43, 99), None);
    assert_eq!(router.recv_subroute(42, 7), None);
    assert_eq!(router.recv_root(), None);
}

#[test]
fn router_reopening_a_sink_empties_it() {
    let mut router = Router::new();
    router.add_subroute(42, 99);
    router.pub_subroute(42, 99, event(ResponseType::Media, 99, "old"));
    router.add_subroute(42, 99);
    assert_eq!(router.recv_subroute(42, 99), None);
}

#[test]
fn router_root_sink_is_first_in_first_out() {
    let mut router = Router::new();
    router.pub_root(event(ResponseType::Timeout, 1, "a"));
    router.pub_root(event(ResponseType::Keepalive, 2, "b"));
    assert_eq!(router.recv_root(), Some(event(ResponseType::Timeout, 1, "a")));
    assert_eq!(router.recv_root(), Some(event(ResponseType::Keepalive, 2, "b")));
    assert_eq!(router.recv_root(), None);
}

#[test]
fn router_lists_each_session_once() {
    let mut router = Router::new();
    router.add_subroute(42, 1);
    router.add_subroute(43, 1);
    router.add_subroute(42, 2);
    assert_eq!(router.sessions(), vec![42, 43]);
}

#[test]
fn router_tells_every_handle_of_a_session() {
    let mut router = Router::new();
    router.add_subroute(42, 1);
    router.add_subroute(43, 1);
    router.add_subroute(42, 2);
    router.pub_subroute(42, 2, event(ResponseType::Media, 2, "earlier"));
    let mut told = event(ResponseType::Timeout, 0, "all");
    told.sender = None;
    router.pub_session(42, told.clone());
    assert_eq!(router.recv_subroute(42, 1), Some(told.clone()));
    assert_eq!(router.recv_subroute(42, 1), None);
    assert_eq!(router.recv_subroute(42, 2), Some(event(ResponseType::Media, 2, "earlier")));
    assert_eq!(router.recv_subroute(42, 2), Some(told));
    assert_eq!(router.recv_subroute(42, 2), None);
    assert_eq!(router.recv_subroute(43, 1), None);
    assert_eq!(router.recv_root(), None);
}
