use smip::client::{decode_reply, Client};
use smip::codec::ToPayload;
use smip::config::{ConnectionType, VSomeIpServiceConfig, VsomeIpConfig};
use smip::error::SmipError;
use smip::message::{Message, Payload};
use smip::primitives::MessageType;

fn engine() -> Client {
    Client::new(0x1234, 1, 1, 0)
}

fn response_to(request: &Message, payload: &[u8]) -> Message {
    let mut r = Message::response(request);
    r.set_payload(&Payload::with_data(payload));
    r
}

#[test]
fn request_carries_target_and_encoded_argument() {
    let e = engine();
    let req = e.build_request(1, &5u32).unwrap();
    assert_eq!(req.get_service(), 0x1234);
    assert_eq!(req.get_instance(), 1);
    assert_eq!(req.get_method(), 1);
    assert_eq!(req.get_message_type(), MessageType::Request);
    assert!(req.is_reliable());
    assert_eq!(req.get_payload().get_data(), &[5u8, 0, 0, 0][..]);
}

#[test]
fn send_waits_for_availability() {
    let mut e = engine();
    let req = e.build_request(1, &5u32).unwrap();
    assert!(e.submit(req).is_empty());
    assert_eq!(e.pending(), Some(1));
    assert_eq!(e.queued_len(), 1);
    assert!(e.on_availability(0x1234, 1, false).is_empty());
    assert!(e.on_availability(0x9999, 1, true).is_empty());
    assert!(e.on_availability(0x1234, 2, true).is_empty());
    assert!(!e.is_available());
    let released = e.on_availability(0x1234, 1, true);
    assert_eq!(released.len(), 1);
    assert_eq!(released[0].get_method(), 1);
    assert!(e.is_available());
    assert_eq!(e.queued_len(), 0);
    assert!(e.on_availability(0x1234, 1, false).is_empty());
    assert!(e.is_available());

    let reply = response_to(&released[0], &5u32.to_payload().unwrap());
    let done = e.on_message(reply).unwrap();
    assert_eq!(decode_reply::<u32>(&done).unwrap(), 5);
    assert_eq!(e.pending(), None);
}

#[test]
fn send_after_availability_goes_out_at_once() {
    let mut e = engine();
    assert!(e.on_availability(0x1234, 1, true).is_empty());
    let req = e.build_request(2, &()).unwrap();
    let out = e.submit(req);
    assert_eq!(out.len(), 1);
    assert!(out[0].get_payload().get_data().is_empty());
}

#[test]
fn mismatched_responses_are_discarded() {
    let mut e = engine();
    e.on_availability(0x1234, 1, true);
    let req = e.build_request(1, &5u32).unwrap();
    let out = e.submit(req);
    let mut other_method = response_to(&out[0], &[]);
    other_method.set_method(2);
    assert!(e.on_message(other_method).is_none());
    let mut not_response = response_to(&out[0], &[]);
    not_response.set_message_type(MessageType::Notification);
    assert!(e.on_message(not_response).is_none());
    let mut other_instance = response_to(&out[0], &[]);
    other_instance.set_instance(9);
    assert!(e.on_message(other_instance).is_none());
    assert_eq!(e.pending(), Some(1));
    assert!(e.on_message(response_to(&out[0], &[1, 0, 0, 0])).is_some());
}

#[test]
fn timeout_gives_no_response_and_client_stays_usable() {
    let mut e = engine();
    e.on_availability(0x1234, 1, true);
    let req = e.build_request(1, &5u32).unwrap();
    let out = e.submit(req);
    assert!(matches!(e.on_timeout(), SmipError::NoResponse));
    assert_eq!(e.pending(), None);
    // a late answer to the abandoned call is dropped
    assert!(e.on_message(response_to(&out[0], &[5, 0, 0, 0])).is_none());
    let next = e.build_request(2, &()).unwrap();
    let out = e.submit(next);
    assert_eq!(out.len(), 1);
    assert!(e.on_message(response_to(&out[0], &[])).is_some());
}

#[test]
fn request_for_another_service_is_dropped() {
    let mut e = engine();
    e.on_availability(0x1234, 1, true);
    let mut m = Message::request(true);
    m.set_service(0x4444);
    m.set_instance(1);
    assert!(e.submit(m).is_empty());
    assert_eq!(e.pending(), None);
}

#[test]
fn malformed_reply_is_a_decode_error() {
    let mut r = Message::new(true);
    r.set_payload(&Payload::with_data(&[1, 2]));
    assert!(matches!(decode_reply::<u32>(&r), Err(SmipError::FromPayloadError(_))));
}

#[test]
fn engine_from_config_needs_one_service() {
    let none = VsomeIpConfig::new();
    assert!(Client::from_config(&none).is_none());
    let one = VsomeIpConfig::new().instance_id(0x1).service(VSomeIpServiceConfig {
        id: 0x1234,
        conn_type: ConnectionType::Udp(30509),
        major_version: 1,
        minor_version: 0,
    });
    let e = Client::from_config(&one).unwrap();
    assert_eq!(e.service_id(), 0x1234);
    assert_eq!(e.instance_id(), 1);
    assert_eq!(e.get_major_version(), 1);
    assert_eq!(e.get_minor_version(), 0);
    assert!(!e.is_available());
    let two = one.service(VSomeIpServiceConfig::default());
    assert!(Client::from_config(&two).is_none());
}

#[test]
fn held_requests_leave_in_order() {
    let mut e = engine();
    for method in 1..=3u16 {
        let req = e.build_request(method, &u32::from(method)).unwrap();
        assert!(e.submit(req).is_empty());
    }
    assert_eq!(e.queued_len(), 3);
    assert!(e.on_availability(0x1234, 1, false).is_empty());
    let released = e.on_availability(0x1234, 1, true);
    let methods: Vec<u16> = released.iter().map(|m| m.get_method()).collect();
    assert_eq!(methods, vec![1, 2, 3]);
    assert_eq!(e.pending(), Some(3));
}
