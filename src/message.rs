//! Messages as plain values: a header and an opaque payload.
use vstd::prelude::*;

use crate::primitives::{
    ClientId, InstanceId, InterfaceVersion, MessageType, MethodId, ProtocolVersion, RequestId,
    ReturnCode, ServiceId, SessionId, PROTOCOL_VERSION,
};

verus! {

/// Header fields of a message.
#[derive(Clone, Copy, Debug, PartialEq, Eq, Structural)]
pub struct Header {
    pub service: ServiceId,
    pub instance: InstanceId,
    pub method: MethodId,
    pub client: ClientId,
    pub session: SessionId,
    pub protocol_version: ProtocolVersion,
    pub interface_version: InterfaceVersion,
    pub message_type: MessageType,
    pub return_code: ReturnCode,
    pub reliable: bool,
}

/// The header of a freshly constructed message: every identifier zero.
pub open spec fn blank_header(reliable: bool, message_type: MessageType) -> Header {
    Header {
        service: 0,
        instance: 0,
        method: 0,
        client: 0,
        session: 0,
        protocol_version: PROTOCOL_VERSION,
        interface_version: 0,
        message_type,
        return_code: ReturnCode::Okay,
        reliable,
    }
}

/// The header of the response to a request with header `h`: the fields that
/// correlate the two are copied, the type becomes `Response` and the return
/// code `Okay`.
pub open spec fn response_header(h: Header) -> Header {
    Header {
        service: h.service,
        instance: h.instance,
        method: h.method,
        client: h.client,
        session: h.session,
        protocol_version: PROTOCOL_VERSION,
        interface_version: h.interface_version,
        message_type: MessageType::Response,
        return_code: ReturnCode::Okay,
        reliable: h.reliable,
    }
}

/// The request identifier: client identifier in the high half, session
/// identifier in the low half.
pub open spec fn request_id_of(h: Header) -> RequestId {
    (h.client as int * 0x10000 + h.session as int) as RequestId
}

/// An array of bytes carried as the payload of a message.
#[derive(Clone, Debug)]
pub struct Payload {
    data: Vec<u8>,
}

impl View for Payload {
    type V = Seq<u8>;

    closed spec fn view(&self) -> Seq<u8> {
        self.data@
    }
}

impl Payload {
    /// An empty payload.
    pub fn new() -> (r: Payload)
        ensures
            r@ == Seq::<u8>::empty(),
    {
        Payload { data: Vec::new() }
    }

    /// A payload holding a copy of `data`.
    pub fn with_data(data: &[u8]) -> (r: Payload)
        ensures
            r@ == data@,
    {
        let mut payload = Payload::new();
        payload.set_data(data);
        payload
    }

    /// Replaces the content by a copy of `data`.
    pub fn set_data(&mut self, data: &[u8])
        ensures
            final(self)@ == data@,
    {
        self.data = vstd::slice::slice_to_vec(data);
    }

    /// The bytes of the payload.
    pub fn get_data(&self) -> (r: &[u8])
        ensures
            r@ == self@,
    {
        self.data.as_slice()
    }

    pub fn len(&self) -> (r: usize)
        ensures
            r == self@.len(),
    {
        self.data.len()
    }
}

/// A message: header and payload.
#[derive(Clone, Debug)]
pub struct Message {
    pub header: Header,
    pub payload: Payload,
}

impl Message {
    /// An empty message of unknown type.
    pub fn new(reliable: bool) -> (r: Message)
        ensures
            r.header == blank_header(reliable, MessageType::Unknown),
            r.payload@ == Seq::<u8>::empty(),
    {
        Message {
            header: Header {
                service: 0,
                instance: 0,
                method: 0,
                client: 0,
                session: 0,
                protocol_version: PROTOCOL_VERSION,
                interface_version: 0,
                message_type: MessageType::Unknown,
                return_code: ReturnCode::Okay,
                reliable,
            },
            payload: Payload::new(),
        }
    }

    /// An empty request.
    pub fn request(reliable: bool) -> (r: Message)
        ensures
            r.header == blank_header(reliable, MessageType::Request),
            r.payload@ == Seq::<u8>::empty(),
    {
        let mut message = Message::new(reliable);
        message.header.message_type = MessageType::Request;
        message
    }

    /// An empty response to `request`.
    pub fn response(request: &Message) -> (r: Message)
        ensures
            r.header == response_header(request.header),
            r.payload@ == Seq::<u8>::empty(),
    {
        let h = request.header;
        Message {
            header: Header {
                service: h.service,
                instance: h.instance,
                method: h.method,
                client: h.client,
                session: h.session,
                protocol_version: PROTOCOL_VERSION,
                interface_version: h.interface_version,
                message_type: MessageType::Response,
                return_code: ReturnCode::Okay,
                reliable: h.reliable,
            },
            payload: Payload::new(),
        }
    }

    /// A copy of this message, payload included.
    pub fn duplicate(&self) -> (r: Message)
        ensures
            r.header == self.header,
            r.payload@ == self.payload@,
    {
        Message { header: self.header, payload: Payload::with_data(self.payload.get_data()) }
    }

    pub fn get_service(&self) -> (r: ServiceId)
        ensures
            r == self.header.service,
    {
        self.header.service
    }

    pub fn set_service(&mut self, service_id: ServiceId)
        ensures
            final(self).header == (Header { service: service_id, ..old(self).header }),
            final(self).payload@ == old(self).payload@,
    {
        self.header.service = service_id;
    }

    pub fn get_instance(&self) -> (r: InstanceId)
        ensures
            r == self.header.instance,
    {
        self.header.instance
    }

    pub fn set_instance(&mut self, instance_id: InstanceId)
        ensures
            final(self).header == (Header { instance: instance_id, ..old(self).header }),
            final(self).payload@ == old(self).payload@,
    {
        self.header.instance = instance_id;
    }

    pub fn get_client(&self) -> (r: ClientId)
        ensures
            r == self.header.client,
    {
        self.header.client
    }

    pub fn set_client(&mut self, client_id: ClientId)
        ensures
            final(self).header == (Header { client: client_id, ..old(self).header }),
            final(self).payload@ == old(self).payload@,
    {
        self.header.client = client_id;
    }

    pub fn get_session(&self) -> (r: SessionId)
        ensures
            r == self.header.session,
    {
        self.header.session
    }

    pub fn set_session(&mut self, session_id: SessionId)
        ensures
            final(self).header == (Header { session: session_id, ..old(self).header }),
            final(self).payload@ == old(self).payload@,
    {
        self.header.session = session_id;
    }

    /// The request identifier, made of the client and session identifiers.
    pub fn get_request(&self) -> (r: RequestId)
        ensures
            r == request_id_of(self.header),
    {
        (self.header.client as u32) * 0x10000 + (self.header.session as u32)
    }

    pub fn get_method(&self) -> (r: MethodId)
        ensures
            r == self.header.method,
    {
        self.header.method
    }

    pub fn set_method(&mut self, method_id: MethodId)
        ensures
            final(self).header == (Header { method: method_id, ..old(self).header }),
            final(self).payload@ == old(self).payload@,
    {
        self.header.method = method_id;
    }

    pub fn get_return_code(&self) -> (r: ReturnCode)
        ensures
            r == self.header.return_code,
    {
        self.header.return_code
    }

    pub fn set_return_code(&mut self, return_code: ReturnCode)
        ensures
            final(self).header == (Header { return_code, ..old(self).header }),
            final(self).payload@ == old(self).payload@,
    {
        self.header.return_code = return_code;
    }

    pub fn get_interface_version(&self) -> (r: InterfaceVersion)
        ensures
            r == self.header.interface_version,
    {
        self.header.interface_version
    }

    pub fn set_interface_version(&mut self, interface_version: InterfaceVersion)
        ensures
            final(self).header == (Header { interface_version, ..old(self).header }),
            final(self).payload@ == old(self).payload@,
    {
        self.header.interface_version = interface_version;
    }

    pub fn get_protocol_version(&self) -> (r: ProtocolVersion)
        ensures
            r == self.header.protocol_version,
    {
        self.header.protocol_version
    }

    pub fn get_message_type(&self) -> (r: MessageType)
        ensures
            r == self.header.message_type,
    {
        self.header.message_type
    }

    pub fn set_message_type(&mut self, message_type: MessageType)
        ensures
            final(self).header == (Header { message_type, ..old(self).header }),
            final(self).payload@ == old(self).payload@,
    {
        self.header.message_type = message_type;
    }

    pub fn is_reliable(&self) -> (r: bool)
        ensures
            r == self.header.reliable,
    {
        self.header.reliable
    }

    pub fn set_reliable(&mut self, reliable: bool)
        ensures
            final(self).header == (Header { reliable, ..old(self).header }),
            final(self).payload@ == old(self).payload@,
    {
        self.header.reliable = reliable;
    }

    /// A copy of the payload.
    pub fn get_payload(&self) -> (r: Payload)
        ensures
            r@ == self.payload@,
    {
        Payload::with_data(self.payload.get_data())
    }

    /// Replaces the payload by a copy of `payload`.
    pub fn set_payload(&mut self, payload: &Payload)
        ensures
            final(self).header == old(self).header,
            final(self).payload@ == payload@,
    {
        self.payload.set_data(payload.get_data());
    }
}

} // verus!
