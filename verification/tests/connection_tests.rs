use jarust::error::JaError;
use jarust::jaconnection::{JaConnection, JaHandle, JaSession};
use jarust::japrotocol::{EstablishmentProtocol, Jsep, JsepType};
use std::time::Duration;

fn json(text: &str) -> serde_json::Value {
    serde_json::from_str(text).unwrap()
}

#[test]
fn sessions_and_handles_carry_their_ids() {
    let mut connection = JaConnection::new();
    let session = connection.add_session(42, 10).unwrap();
    assert_eq!(session, JaSession { id: 42, ka_interval: 10 });
    let handle = connection.add_handle(&session, 99).unwrap();
    assert_eq!(handle, JaHandle { session_id: 42, id: 99 });
    assert!(connection.check_session(&session).is_ok());
    assert!(connection.check_handle(&handle).is_ok());
    assert_eq!(connection.add_handle(&session, 99).unwrap(), handle);
}

#[test]
fn handle_messages_are_scoped_to_the_handle() {
    let mut connection = JaConnection::new();
    let session = connection.add_session(42, 10).unwrap();
    let handle = connection.add_handle(&session, 99).unwrap();
    let body = json(r#"{"audio":true}"#);
    let message = connection.message(&handle, body.clone()).unwrap();
    assert_eq!((message.session_id, message.handle_id), (42, 99));
    assert_eq!(message.body, body);
    let message =
        connection.message_with_timeout(&handle, body.clone(), Duration::from_secs(3)).unwrap();
    assert_eq!((message.session_id, message.handle_id), (42, 99));
    assert_eq!(message.timeout, Duration::from_secs(3));
    let jsep = Jsep { jsep_type: JsepType::Offer, sdp: "".to_string(), trickle: Some(false) };
    let message = connection
        .message_with_establishment(&handle, body.clone(), EstablishmentProtocol::JSEP(jsep.clone()))
        .unwrap();
    assert_eq!(message.protocol, EstablishmentProtocol::JSEP(jsep.clone()));
    let message = connection
        .message_with_establishment_and_timeout(
            &handle,
            body.clone(),
            EstablishmentProtocol::JSEP(jsep.clone()),
            Duration::from_millis(5),
        )
        .unwrap();
    assert_eq!(message.body, body);
    assert_eq!(message.protocol, EstablishmentProtocol::JSEP(jsep));
    assert_eq!(message.timeout, Duration::from_millis(5));
}

#[test]
fn destroying_a_session_leaves_its_handles_dangling() {
    let mut connection = JaConnection::new();
    let first = connection.add_session(1, 10).unwrap();
    let second = connection.add_session(2, 10).unwrap();
    let a = connection.add_handle(&first, 10).unwrap();
    let b = connection.add_handle(&second, 10).unwrap();
    assert!(connection.remove_session(&first).is_ok());
    assert!(matches!(connection.check_handle(&a), Err(JaError::DanglingHandle)));
    assert!(matches!(connection.message(&a, json("{}")), Err(JaError::DanglingHandle)));
    assert!(matches!(
        connection.message_with_timeout(&a, json("{}"), Duration::from_secs(1)),
        Err(JaError::DanglingHandle)
    ));
    assert!(matches!(connection.check_session(&first), Err(JaError::DanglingSession)));
    assert!(matches!(connection.add_handle(&first, 11), Err(JaError::DanglingSession)));
    assert!(matches!(connection.remove_session(&first), Err(JaError::DanglingSession)));
    assert!(connection.check_handle(&b).is_ok());
    assert!(connection.check_session(&second).is_ok());
}

#[test]
fn unknown_handle_is_dangling() {
    let mut connection = JaConnection::new();
    let session = connection.add_session(1, 10).unwrap();
    connection.add_handle(&session, 10).unwrap();
    let stranger = JaHandle { session_id: 1, id: 11 };
    assert!(matches!(connection.check_handle(&stranger), Err(JaError::DanglingHandle)));
    let stranger = JaHandle { session_id: 2, id: 10 };
    assert!(matches!(connection.check_handle(&stranger), Err(JaError::DanglingHandle)));
}

#[test]
fn closed_connection_refuses_everything() {
    let mut connection = JaConnection::new();
    let session = connection.add_session(1, 10).unwrap();
    let handle = connection.add_handle(&session, 10).unwrap();
    connection.close();
    assert!(matches!(connection.add_session(2, 10), Err(JaError::TransportNotOpened)));
    assert!(matches!(connection.add_handle(&session, 11), Err(JaError::TransportNotOpened)));
    assert!(matches!(connection.check_session(&session), Err(JaError::TransportNotOpened)));
    assert!(matches!(connection.check_handle(&handle), Err(JaError::TransportNotOpened)));
    assert!(matches!(connection.remove_session(&session), Err(JaError::TransportNotOpened)));
    assert!(matches!(connection.message(&handle, json("{}")), Err(JaError::TransportNotOpened)));
}

#[test]
fn keep_alive_goes_on_until_a_send_fails() {
    let session = JaSession { id: 42, ka_interval: 10 };
    assert_eq!(session.next_keep_alive(true), Some(10));
    assert_eq!(session.next_keep_alive(false), None);
}
