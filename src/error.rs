//! Error types of the library.
use vstd::prelude::*;

use crate::primitives::MethodId;

verus! {

/// The error kind of the binary codec; a value of it is carried, unread, as
/// the cause of a codec failure.
#[verifier::external_type_specification]
#[verifier::external_body]
pub struct ExCodecErrorKind(bincode::ErrorKind);

/// Failure of a call, on the client side or inside a method handler.
#[derive(Debug)]
pub enum SmipError {
    /// A payload could not be decoded; the codec's cause is kept.
    FromPayloadError(Box<bincode::ErrorKind>),
    /// A value could not be encoded; the codec's cause is kept.
    ToPayloadError(Box<bincode::ErrorKind>),
    /// No matching response arrived before the timeout.
    NoResponse,
}

/// Failure to register the methods of a service; raised before any service
/// is offered.
#[derive(Clone, Copy, Debug, PartialEq, Eq, Structural)]
pub enum RegistrationError {
    /// Two methods of one service share this identifier.
    DuplicateMethodId(MethodId),
}

/// Failure of the transport session.
#[derive(Clone, Copy, Debug, PartialEq, Eq, Structural)]
pub enum VSomeIpError {
    /// The session could not be initialised.
    ApplicationInitError,
}

} // verus!
