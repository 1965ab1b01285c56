use smip::codec::{FromPayload, ToPayload};
use smip::dispatch::{call_method, dispatch, handle_response, serve_method, unknown_method_reply};
use smip::error::{RegistrationError, SmipError};
use smip::message::{Message, Payload};
use smip::primitives::{MessageType, MethodId, ReturnCode, State};
use smip::registry::{MethodShape, MethodsBuilder, ServiceDefinition, ServiceMethods};
use smip::runtime::{Runtime, RuntimeConfig};

const ADD: MethodShape = MethodShape { takes_argument: true, returns_value: true };
const HELLO: MethodShape = MethodShape { takes_argument: false, returns_value: true };
const NOTE: MethodShape = MethodShape { takes_argument: true, returns_value: false };

struct MyService {
    x: u32,
    notes: u32,
}

impl ServiceDefinition for MyService {
    fn id() -> u16 {
        0x1234
    }
    fn major_version() -> u8 {
        1
    }
    fn minor_version() -> u32 {
        0
    }
}

impl ServiceMethods for MyService {
    fn register_methods(builder: &mut MethodsBuilder) -> Result<(), RegistrationError> {
        builder.add_method(1, ADD)?;
        builder.add_method(2, HELLO)?;
        builder.add_method(3, NOTE)?;
        Ok(())
    }

    fn call(self, id: MethodId, request: &Message) -> (Self, Result<Option<Message>, SmipError>) {
        match id {
            1 => call_method(self, request, ADD, |mut s: MyService, v: u32| {
                s.x += v;
                let x = s.x;
                (s, x)
            }),
            2 => call_method(self, request, HELLO, |s: MyService, _: ()| {
                (s, String::from("Hello World"))
            }),
            3 => call_method(self, request, NOTE, |mut s: MyService, v: u32| {
                s.notes += v;
                (s, ())
            }),
            _ => (self, Ok(None)),
        }
    }
}

struct Clashing;

impl ServiceDefinition for Clashing {
    fn id() -> u16 {
        0x4321
    }
    fn major_version() -> u8 {
        0
    }
    fn minor_version() -> u32 {
        0
    }
}

impl ServiceMethods for Clashing {
    fn register_methods(builder: &mut MethodsBuilder) -> Result<(), RegistrationError> {
        builder.add_method(1, ADD)?;
        builder.add_method(1, HELLO)?;
        Ok(())
    }

    fn call(self, _id: MethodId, _request: &Message) -> (Self, Result<Option<Message>, SmipError>) {
        (self, Ok(None))
    }
}

fn request(method: MethodId, payload: &[u8]) -> Message {
    let mut m = Message::request(true);
    m.set_service(0x1234);
    m.set_instance(1);
    m.set_method(method);
    m.set_payload(&Payload::with_data(payload));
    m
}

#[test]
fn duplicate_method_id_is_refused() {
    let mut b = MethodsBuilder::new();
    assert_eq!(b.add_method(1, ADD), Ok(()));
    assert_eq!(b.add_method(1, HELLO), Err(RegistrationError::DuplicateMethodId(1)));
    assert_eq!(b.entries().len(), 1);
    assert_eq!(b.lookup(1).unwrap().shape, ADD);
    assert!(b.lookup(2).is_none());
    assert!(b.contains(1));
    assert!(!b.contains(2));
}

#[test]
fn duplicate_method_id_fails_before_offering() {
    let rt = Runtime::new(RuntimeConfig::new("server", 0xABCD, 1));
    let r = rt.service::<Clashing>(30509);
    assert!(matches!(r, Err(RegistrationError::DuplicateMethodId(1))));
}

#[test]
fn stateful_accumulation() {
    let rt = Runtime::new(RuntimeConfig::new("server", 0xABCD, 1))
        .service::<MyService>(30509)
        .unwrap();
    let mut state = MyService { x: 0, notes: 0 };
    let mut results = Vec::new();
    for _ in 0..2 {
        let req = request(1, &5u32.to_payload().unwrap());
        let index = rt.route(&req).unwrap();
        let (next, reply) = rt.handle(index, state, &req);
        state = next;
        let reply = reply.unwrap();
        assert_eq!(reply.get_message_type(), MessageType::Response);
        assert_eq!(reply.get_return_code(), ReturnCode::Okay);
        results.push(u32::from_payload(reply.get_payload().get_data()).unwrap());
    }
    assert_eq!(results, vec![5, 10]);
}

#[test]
fn hello_world_without_argument() {
    let rt = Runtime::new(RuntimeConfig::new("server", 0xABCD, 1))
        .service::<MyService>(30509)
        .unwrap();
    let req = request(2, &().to_payload().unwrap());
    let (_, reply) = rt.handle(0, MyService { x: 0, notes: 0 }, &req);
    let reply = reply.unwrap();
    assert_eq!(String::from_payload(reply.get_payload().get_data()).unwrap(), "Hello World");
}

#[test]
fn malformed_payload_skips_handler() {
    let mut called = false;
    let req = request(1, &[1, 2]);
    let (state, reply) = serve_method(7u32, &req, ADD, |s: u32, v: u32| {
        called = true;
        (s + v, s + v)
    });
    assert!(!called);
    assert_eq!(state, 7);
    let reply = reply.unwrap();
    assert_eq!(reply.get_return_code(), ReturnCode::MalformedMessage);
    assert_eq!(reply.get_message_type(), MessageType::Response);
    assert!(reply.get_payload().get_data().is_empty());
}

#[test]
fn malformed_payload_through_runtime() {
    let rt = Runtime::new(RuntimeConfig::new("server", 0xABCD, 1))
        .service::<MyService>(30509)
        .unwrap();
    let req = request(1, &[0xFF]);
    let (state, reply) = rt.handle(0, MyService { x: 3, notes: 0 }, &req);
    assert_eq!(state.x, 3);
    assert_eq!(reply.unwrap().get_return_code(), ReturnCode::MalformedMessage);
}

#[test]
fn fire_and_forget_never_replies() {
    let ok = request(3, &4u32.to_payload().unwrap());
    let (state, reply) = serve_method(0u32, &ok, NOTE, |s: u32, v: u32| (s + v, ()));
    assert_eq!(state, 4);
    assert!(reply.is_none());
    let bad = request(3, &[1]);
    let (state, reply) = serve_method(0u32, &bad, NOTE, |s: u32, v: u32| (s + v, ()));
    assert_eq!(state, 0);
    assert!(reply.is_none());

    let rt = Runtime::new(RuntimeConfig::new("server", 0xABCD, 1))
        .service::<MyService>(30509)
        .unwrap();
    let (s, reply) = rt.handle(0, MyService { x: 0, notes: 0 }, &ok);
    assert_eq!(s.notes, 4);
    assert!(reply.is_none());
    let (s, reply) = rt.handle(0, s, &bad);
    assert_eq!(s.notes, 4);
    assert!(reply.is_none());
}

#[test]
fn handle_response_maps_failures() {
    let req = request(1, &[]);
    let shape = ADD;
    let bad = u32::from_payload(&[1]).unwrap_err();
    let r = handle_response(&req, shape, Err(bad)).unwrap();
    assert_eq!(r.get_return_code(), ReturnCode::MalformedMessage);
    let r = handle_response(&req, shape, Err(SmipError::NoResponse)).unwrap();
    assert_eq!(r.get_return_code(), ReturnCode::NotOk);
    assert!(handle_response(&req, shape, Ok(None)).is_none());
    let mut produced = Message::response(&req);
    produced.set_payload(&Payload::with_data(&[4, 0, 0, 0]));
    let r = handle_response(&req, shape, Ok(Some(produced))).unwrap();
    assert_eq!(r.get_payload().get_data(), &[4u8, 0, 0, 0][..]);
    assert!(handle_response(&req, NOTE, Err(SmipError::NoResponse)).is_none());
}

#[test]
fn unknown_method_is_answered() {
    let mut table = MethodsBuilder::new();
    table.add_method(1, ADD).unwrap();
    let req = request(9, &[]);
    let (state, reply) = dispatch(&table, MyService { x: 1, notes: 0 }, &req);
    assert_eq!(state.x, 1);
    let reply = reply.unwrap();
    assert_eq!(reply.get_return_code(), ReturnCode::UnknownMethod);
    assert_eq!(reply.get_method(), 9);

    let mut no_return = request(9, &[]);
    no_return.set_message_type(MessageType::RequestNoReturn);
    assert!(unknown_method_reply(&no_return).is_none());
}

#[test]
fn offers_once_per_registration() {
    let mut rt = Runtime::new(RuntimeConfig::new("server", 0xABCD, 7))
        .service::<MyService>(30509)
        .unwrap();
    assert!(!rt.is_offered());
    let offers = rt.on_state(State::Registered);
    assert_eq!(offers.len(), 1);
    assert_eq!(offers[0].service, 0x1234);
    assert_eq!(offers[0].instance, 7);
    assert_eq!(offers[0].major_version, 1);
    assert!(rt.is_offered());
    assert!(rt.on_state(State::Registered).is_empty());
    assert!(rt.on_state(State::Deregistered).is_empty());
    assert!(!rt.is_offered());
    assert_eq!(rt.on_state(State::Registered).len(), 1);
}

#[test]
fn routing_by_service_and_instance() {
    let rt = Runtime::new(RuntimeConfig::new("server", 0xABCD, 1))
        .service::<MyService>(30509)
        .unwrap();
    assert_eq!(rt.route(&request(1, &[])), Some(0));
    let mut other_instance = request(1, &[]);
    other_instance.set_instance(2);
    assert_eq!(rt.route(&other_instance), None);
    let mut other_service = request(1, &[]);
    other_service.set_service(0x9999);
    assert_eq!(rt.route(&other_service), None);
}

#[test]
fn runtime_session_config() {
    let rt = Runtime::new(RuntimeConfig::new("Simple", 0xABCD, 0x1))
        .service::<MyService>(30509)
        .unwrap();
    let c = rt.session_config();
    assert_eq!(c.app_id.0, "Simple");
    assert_eq!(c.app_id.1, 0xABCD);
    assert_eq!(c.routing.as_deref(), Some("Simple"));
    assert_eq!(c.instance_id, 1);
    assert_eq!(c.services.len(), 1);
    assert_eq!(c.services[0].id, 0x1234);
    assert_eq!(c.services[0].conn_type, smip::config::ConnectionType::Tcp(30509));
    assert_eq!(rt.service_count(), 1);
    assert_eq!(rt.instance_id(), 1);
}
