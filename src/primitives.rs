//! Identifiers, header enumerations and well-known constants of the transport.
use vstd::prelude::*;

verus! {

pub type ServiceId = u16;

pub type MethodId = u16;

pub type InstanceId = u16;

pub type MajorVersion = u8;

pub type MinorVersion = u32;

pub type EventId = u16;

pub type EventGroupId = u16;

pub type RequestId = u32;

pub type ClientId = u16;

pub type SessionId = u16;

pub type ProtocolVersion = u8;

pub type InterfaceVersion = u8;

pub const DEFAULT_MAJOR: MajorVersion = 0x00;

pub const DEFAULT_MINOR: MinorVersion = 0x00000000;

pub const ANY_SERVICE: ServiceId = 0xFFFF;

pub const ANY_INSTANCE: InstanceId = 0xFFFF;

pub const ANY_METHOD: MethodId = 0xFFFF;

pub const ANY_MAJOR: MajorVersion = 0xFF;

pub const ANY_MINOR: MinorVersion = 0xFFFFFFFF;

pub const INVALID_METHOD: MethodId = 0x0000;

/// The protocol version that every message of this implementation carries.
pub const PROTOCOL_VERSION: ProtocolVersion = 0x01;

/// Registration state of a session at the routing component.
#[derive(Clone, Copy, Debug, PartialEq, Eq, Structural)]
pub enum State {
    Registered,
    Deregistered,
}

/// Return code carried in a message header.
#[derive(Clone, Copy, Debug, PartialEq, Eq, Structural)]
pub enum ReturnCode {
    Okay,
    NotOk,
    UnknownService,
    UnknownMethod,
    NotReady,
    NotReachable,
    Timeout,
    WrongProtocolVersion,
    WrongInterfaceVersion,
    MalformedMessage,
    WrongMessageType,
    Unknown,
}

/// Kind of a message.
#[derive(Clone, Copy, Debug, PartialEq, Eq, Structural)]
pub enum MessageType {
    Request,
    RequestNoReturn,
    Notification,
    RequestAck,
    RequestNoReturnAck,
    NotificationAck,
    Response,
    Error,
    ResponseAck,
    ErrorAck,
    Unknown,
}

impl MessageType {
    /// Whether a peer that sends a message of this type waits for a reply.
    pub open spec fn spec_expects_reply(self) -> bool {
        self is Request
    }

    pub fn expects_reply(&self) -> (r: bool)
        ensures
            r == self.spec_expects_reply(),
    {
        match self {
            MessageType::Request => true,
            _ => false,
        }
    }
}

} // verus!
