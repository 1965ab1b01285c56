use smip::message::{Message, Payload};
use smip::primitives::{MessageType, ReturnCode};

#[test]
fn test_message() {
    let mut message = Message::new(true);

    assert_eq!(message.get_service(), 0);
    assert_eq!(message.get_instance(), 0);
    assert_eq!(message.get_client(), 0);
    assert_eq!(message.get_session(), 0);
    assert_eq!(message.get_interface_version(), 0);
    assert_eq!(message.get_protocol_version(), 1);
    assert_eq!(message.get_method(), 0);
    assert_eq!(message.get_return_code(), ReturnCode::Okay);
    assert_eq!(message.get_message_type(), MessageType::Unknown);

    let payload = Payload::with_data("Hello".as_bytes());
    message.set_payload(&payload);
    assert_eq!(message.get_payload().get_data(), "Hello".as_bytes());

    message.set_service(1234);
    assert_eq!(message.get_service(), 1234);

    message.set_client(5678);
    assert_eq!(message.get_client(), 5678);

    message.set_session(9012);
    assert_eq!(message.get_session(), 9012);

    message.set_interface_version(123);
    assert_eq!(message.get_interface_version(), 123);

    message.set_instance(4567);
    assert_eq!(message.get_instance(), 4567);

    message.set_method(890);
    assert_eq!(message.get_method(), 890);

    message.set_return_code(ReturnCode::Okay);
    assert_eq!(message.get_return_code(), ReturnCode::Okay);
}

#[test]
fn test_request_response() {
    let request = Message::request(true);
    let response = Message::response(&request);

    assert_eq!(request.get_service(), 0);
    assert_eq!(request.get_instance(), 0);
    assert_eq!(request.get_method(), 0);
    assert_eq!(request.get_return_code(), ReturnCode::Okay);
    assert_eq!(request.get_message_type(), MessageType::Request);

    assert_eq!(response.get_service(), 0);
    assert_eq!(response.get_instance(), 0);
    assert_eq!(response.get_method(), 0);
    assert_eq!(response.get_return_code(), ReturnCode::Okay);
    assert_eq!(response.get_message_type(), MessageType::Response);
}

#[test]
fn response_copies_correlation_fields() {
    let mut request = Message::request(false);
    request.set_service(0x1234);
    request.set_instance(7);
    request.set_method(3);
    request.set_client(0x11);
    request.set_session(0x22);
    request.set_interface_version(2);
    request.set_payload(&Payload::with_data(&[1, 2, 3]));
    let response = Message::response(&request);
    assert_eq!(response.get_service(), 0x1234);
    assert_eq!(response.get_instance(), 7);
    assert_eq!(response.get_method(), 3);
    assert_eq!(response.get_client(), 0x11);
    assert_eq!(response.get_session(), 0x22);
    assert_eq!(response.get_interface_version(), 2);
    assert!(!response.is_reliable());
    assert_eq!(response.get_message_type(), MessageType::Response);
    assert!(response.get_payload().get_data().is_empty());
}

#[test]
fn request_id_joins_client_and_session() {
    let mut m = Message::new(true);
    m.set_client(0x1234);
    m.set_session(0x5678);
    assert_eq!(m.get_request(), 0x1234_5678);
}

#[test]
fn setters_keep_other_fields() {
    let mut m = Message::new(true);
    m.set_payload(&Payload::with_data(&[9]));
    m.set_message_type(MessageType::Notification);
    m.set_reliable(false);
    assert_eq!(m.get_message_type(), MessageType::Notification);
    assert!(!m.is_reliable());
    assert_eq!(m.get_payload().get_data(), &[9u8][..]);
    let copy = m.duplicate();
    assert_eq!(copy.header, m.header);
    assert_eq!(copy.payload.get_data(), m.payload.get_data());
}
