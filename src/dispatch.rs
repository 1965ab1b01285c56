//! Turning typed methods into message handlers, and handler outcomes into the
//! reply that goes back on the wire.
use vstd::prelude::*;

use crate::codec::{FromPayload, ToPayload};
use crate::error::SmipError;
use crate::message::{response_header, Header, Message, Payload};
use crate::primitives::ReturnCode;
use crate::registry::{entry_of, MethodShape, MethodsBuilder, ServiceMethods};

verus! {

/// The header of a reply to `request` that reports `code`.
pub open spec fn error_reply_header(request: Header, code: ReturnCode) -> Header {
    Header { return_code: code, ..response_header(request) }
}

/// `m` is an empty reply to `request` reporting `code`.
pub open spec fn is_error_reply(m: Message, request: Header, code: ReturnCode) -> bool {
    m.header == error_reply_header(request, code) && m.payload@ == Seq::<u8>::empty()
}

/// `m` is the reply to `request` carrying the encoding of `value`.
pub open spec fn is_value_reply<R: ToPayload>(m: Message, request: Header, value: R::V) -> bool {
    m.header == response_header(request) && m.payload@ == R::encoding(value)
}

/// The return code that reports a failed handler outcome on the wire.
pub open spec fn failure_code(e: SmipError) -> ReturnCode {
    match e {
        SmipError::FromPayloadError(_) => ReturnCode::MalformedMessage,
        _ => ReturnCode::NotOk,
    }
}

/// An empty reply to `request` that reports `code`.
pub fn error_reply(request: &Message, code: ReturnCode) -> (r: Message)
    ensures
        is_error_reply(r, request.header, code),
{
    let mut m = Message::response(request);
    m.set_return_code(code);
    m
}

/// The reply to `request` that carries `value`.
pub fn respond_with<R: ToPayload>(request: &Message, value: &R) -> (r: Result<Message, SmipError>)
    ensures
        r matches Ok(m) && is_value_reply::<R>(m, request.header, value@),
{
    let bytes = value.to_payload()?;
    let mut m = Message::response(request);
    m.set_payload(&Payload::with_data(bytes.as_slice()));
    Ok(m)
}

/// Runs one typed method on `request`: decodes the argument from the
/// payload, hands it with the state to `handler`, and builds the reply that
/// the method's shape asks for. A payload that does not decode stops the call
/// before the handler and leaves the state as it was.
pub fn call_method<S, A: FromPayload, R: ToPayload, F: FnOnce(S, A) -> (S, R)>(
    service: S,
    request: &Message,
    shape: MethodShape,
    handler: F,
) -> (r: (S, Result<Option<Message>, SmipError>))
    requires
        forall|s: S, a: A| handler.requires((s, a)),
    ensures
        A::decoding(request.payload@) is None ==> r.0 == service && (r.1 matches Err(e)
            && e is FromPayloadError),
        A::decoding(request.payload@) is Some ==> exists|a: A, out: (S, R)|
            {
                &&& Some(a@) == A::decoding(request.payload@)
                &&& handler.ensures((service, a), out)
                &&& r.0 == out.0
                &&& shape.returns_value ==> (r.1 matches Ok(Some(m)) && is_value_reply::<R>(
                    m,
                    request.header,
                    out.1@,
                ))
                &&& !shape.returns_value ==> r.1 matches Ok(None)
            },
{
    let arg = match A::from_payload(request.payload.get_data()) {
        Ok(a) => a,
        Err(e) => {
            return (service, Err(e));
        },
    };
    let (next, value) = handler(service, arg);
    if shape.returns_value {
        let reply = respond_with(request, &value);
        match reply {
            Ok(m) => (next, Ok(Some(m))),
            Err(e) => (next, Err(e)),
        }
    } else {
        (next, Ok(None))
    }
}

/// The message to send back for a handler outcome. Fire-and-forget methods
/// never answer. Otherwise a produced reply is sent as it is, and a failure
/// is reported by an empty reply: `MalformedMessage` when the request did not
/// decode, `NotOk` else.
pub fn handle_response(
    request: &Message,
    shape: MethodShape,
    result: Result<Option<Message>, SmipError>,
) -> (r: Option<Message>)
    ensures
        !shape.returns_value ==> r is None,
        shape.returns_value ==> match result {
            Ok(Some(m)) => r == Some(m),
            Ok(None) => r is None,
            Err(e) => r matches Some(m) && is_error_reply(m, request.header, failure_code(e)),
        },
{
    if !shape.returns_value {
        return None;
    }
    match result {
        Ok(reply) => reply,
        Err(SmipError::FromPayloadError(_)) => Some(
            error_reply(request, ReturnCode::MalformedMessage),
        ),
        Err(_) => Some(error_reply(request, ReturnCode::NotOk)),
    }
}

/// Serves one request with a typed method: the handler's work and the reply
/// in one step. A request that does not decode never reaches the handler and,
/// unless the method is fire-and-forget, is answered `MalformedMessage`; a
/// fire-and-forget method never answers.
pub fn serve_method<S, A: FromPayload, R: ToPayload, F: FnOnce(S, A) -> (S, R)>(
    service: S,
    request: &Message,
    shape: MethodShape,
    handler: F,
) -> (r: (S, Option<Message>))
    requires
        forall|s: S, a: A| handler.requires((s, a)),
    ensures
        A::decoding(request.payload@) is None ==> r.0 == service,
        A::decoding(request.payload@) is None && shape.returns_value ==> (r.1 matches Some(m)
            && is_error_reply(m, request.header, ReturnCode::MalformedMessage)),
        !shape.returns_value ==> r.1 is None,
        A::decoding(request.payload@) is Some ==> exists|a: A, out: (S, R)|
            {
                &&& Some(a@) == A::decoding(request.payload@)
                &&& handler.ensures((service, a), out)
                &&& r.0 == out.0
                &&& shape.returns_value ==> (r.1 matches Some(m) && is_value_reply::<R>(
                    m,
                    request.header,
                    out.1@,
                ))
            },
{
    let (next, outcome) = call_method(service, request, shape, handler);
    (next, handle_response(request, shape, outcome))
}

/// The reply to a request for a method that the service does not have: an
/// empty `UnknownMethod` reply when the sender waits for one, else nothing.
pub fn unknown_method_reply(request: &Message) -> (r: Option<Message>)
    ensures
        request.header.message_type.spec_expects_reply() ==> (r matches Some(m)
            && is_error_reply(m, request.header, ReturnCode::UnknownMethod)),
        !request.header.message_type.spec_expects_reply() ==> r is None,
{
    if request.header.message_type.expects_reply() {
        Some(error_reply(request, ReturnCode::UnknownMethod))
    } else {
        None
    }
}

/// Routes `request` through a service's dispatch table: an unregistered
/// method gets the unknown-method reply without touching the state; a
/// registered one runs on the state and its outcome is turned into the reply.
pub fn dispatch<S: ServiceMethods>(methods: &MethodsBuilder, service: S, request: &Message) -> (r: (
    S,
    Option<Message>,
))
    ensures
        entry_of(methods@, request.header.method) is None ==> r.0 == service,
        entry_of(methods@, request.header.method) is None
            && request.header.message_type.spec_expects_reply() ==> (r.1 matches Some(m)
            && is_error_reply(m, request.header, ReturnCode::UnknownMethod)),
        entry_of(methods@, request.header.method) is None
            && !request.header.message_type.spec_expects_reply() ==> r.1 is None,
        entry_of(methods@, request.header.method) matches Some(e) && !e.shape.returns_value
            ==> r.1 is None,
        entry_of(methods@, request.header.method) matches Some(e) && e.shape.returns_value
            && !S::spec_argument_decodes(request.header.method, request.payload@) ==> r.0
            == service && (r.1 matches Some(m) && is_error_reply(
            m,
            request.header,
            ReturnCode::MalformedMessage,
        )),
{
    match methods.lookup(request.header.method) {
        None => (service, unknown_method_reply(request)),
        Some(entry) => {
            proof {
                let es = methods@;
                let c = choose|i: int| 0 <= i < es.len() && es[i].id == request.header.method;
                assert(entry.id == request.header.method);
            }
            let (next, outcome) = service.call(entry.id, request);
            (next, handle_response(request, entry.shape, outcome))
        },
    }
}

} // verus!
