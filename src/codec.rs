//! The payload codec: fixed-width, little-endian binary encoding of method
//! arguments and results, with trailing bytes accepted on decode.
use vstd::prelude::*;

use vstd::bytes::{
    spec_u16_from_le_bytes, spec_u16_to_le_bytes, spec_u32_from_le_bytes, spec_u32_to_le_bytes,
    spec_u64_from_le_bytes, spec_u64_to_le_bytes,
};
use vstd::utf8::{decode_utf8, encode_utf8, valid_utf8};

use crate::error::SmipError;

verus! {

/// A value that can be written as a payload.
pub trait ToPayload: View + Sized {
    /// The bytes that encode a value.
    spec fn encoding(v: Self::V) -> Seq<u8>;

    /// Whether a model value is one that a value of the type can hold (a
    /// string's byte length fits in 64 bits).
    spec fn representable(v: Self::V) -> bool;

    /// Encodes the value.
    fn to_payload(&self) -> (r: Result<Vec<u8>, SmipError>)
        ensures
            r matches Ok(b) && b@ == Self::encoding(self@),
    ;
}

/// A value that can be read back from a payload.
pub trait FromPayload: ToPayload {
    /// The value that a buffer starts with, if it starts with a well-formed one.
    spec fn decoding(b: Seq<u8>) -> Option<Self::V>;

    /// Decodes the value that `payload` starts with; bytes after it are ignored.
    fn from_payload(payload: &[u8]) -> (r: Result<Self, SmipError>)
        ensures
            r is Ok <==> Self::decoding(payload@) is Some,
            r matches Ok(v) ==> Self::decoding(payload@) == Some(v@),
            r matches Err(e) ==> e is FromPayloadError,
    ;

    /// Decoding reads back what encoding wrote, whatever follows it.
    proof fn lemma_decoding_encoding(v: Self::V, rest: Seq<u8>)
        requires
            Self::representable(v),
        ensures
            Self::decoding(Self::encoding(v) + rest) == Some(v),
    ;

    /// Bytes appended to a well-formed buffer do not change what it decodes to.
    proof fn lemma_decoding_prefix(b: Seq<u8>, rest: Seq<u8>)
        requires
            Self::decoding(b) is Some,
        ensures
            Self::decoding(b + rest) == Self::decoding(b),
    ;
}

/// Decoding the encoding of a value gives the value back.
pub proof fn law_round_trip<T: FromPayload>(v: T::V)
    requires
        T::representable(v),
    ensures
        T::decoding(T::encoding(v)) == Some(v),
{
    T::lemma_decoding_encoding(v, Seq::empty());
    assert(T::encoding(v) + Seq::<u8>::empty() =~= T::encoding(v));
}

/// Bytes that follow an encoded value do not change what is decoded: the
/// longer buffer decodes to the same value as the exact one.
pub proof fn law_trailing_bytes<T: FromPayload>(v: T::V, rest: Seq<u8>)
    requires
        T::representable(v),
    ensures
        T::decoding(T::encoding(v) + rest) == T::decoding(T::encoding(v)),
        T::decoding(T::encoding(v) + rest) == Some(v),
{
    law_round_trip::<T>(v);
    T::lemma_decoding_encoding(v, rest);
}

/// Relies on `bincode::serialize` with its fixed-width little-endian
/// options: a `u32` becomes its four bytes, and writing into a vector does not
/// fail.
#[verifier::external_body]
fn serialize_u32(v: u32) -> (r: Result<Vec<u8>, Box<bincode::ErrorKind>>)
    ensures
        r is Ok,
        r is Ok ==> r->Ok_0@ == spec_u32_to_le_bytes(v),
{
    bincode::serialize(&v)
}

/// Relies on `bincode::deserialize` (fixed-width, little endian, trailing
/// bytes allowed): a `u32` is read from the first four bytes; fewer fail.
#[verifier::external_body]
fn deserialize_u32(b: &[u8]) -> (r: Result<u32, Box<bincode::ErrorKind>>)
    ensures
        r is Ok <==> b@.len() >= 4,
        r is Ok ==> r->Ok_0 == spec_u32_from_le_bytes(b@.subrange(0, 4)),
{
    bincode::deserialize::<u32>(b)
}

impl ToPayload for u32 {
    open spec fn representable(v: u32) -> bool {
        true
    }

    open spec fn encoding(v: u32) -> Seq<u8> {
        spec_u32_to_le_bytes(v)
    }

    fn to_payload(&self) -> (r: Result<Vec<u8>, SmipError>) {
        match serialize_u32(*self) {
            Ok(b) => Ok(b),
            Err(e) => Err(SmipError::ToPayloadError(e)),
        }
    }
}

impl FromPayload for u32 {
    open spec fn decoding(b: Seq<u8>) -> Option<u32> {
        if b.len() >= 4 {
            Some(spec_u32_from_le_bytes(b.subrange(0, 4)))
        } else {
            None
        }
    }

    fn from_payload(payload: &[u8]) -> (r: Result<u32, SmipError>) {
        match deserialize_u32(payload) {
            Ok(v) => Ok(v),
            Err(e) => Err(SmipError::FromPayloadError(e)),
        }
    }

    proof fn lemma_decoding_encoding(v: u32, rest: Seq<u8>) {
        vstd::bytes::lemma_auto_spec_u32_to_from_le_bytes();
        let b = spec_u32_to_le_bytes(v) + rest;
        assert(b.subrange(0, 4) =~= spec_u32_to_le_bytes(v));
    }

    proof fn lemma_decoding_prefix(b: Seq<u8>, rest: Seq<u8>) {
        assert((b + rest).subrange(0, 4) =~= b.subrange(0, 4));
    }
}


/// Relies on `bincode::serialize`: the unit value is written as no bytes.
#[verifier::external_body]
fn serialize_unit(v: ()) -> (r: Result<Vec<u8>, Box<bincode::ErrorKind>>)
    ensures
        r is Ok,
        r is Ok ==> r->Ok_0@ == Seq::<u8>::empty(),
{
    bincode::serialize(&v)
}

/// Relies on `bincode::deserialize`: the unit value reads no bytes and always
/// succeeds.
#[verifier::external_body]
fn deserialize_unit(b: &[u8]) -> (r: Result<(), Box<bincode::ErrorKind>>)
    ensures
        r is Ok,
{
    bincode::deserialize::<()>(b)
}

impl ToPayload for () {
    open spec fn representable(v: ()) -> bool {
        true
    }

    open spec fn encoding(v: ()) -> Seq<u8> {
        Seq::empty()
    }

    fn to_payload(&self) -> (r: Result<Vec<u8>, SmipError>) {
        match serialize_unit(()) {
            Ok(b) => Ok(b),
            Err(e) => Err(SmipError::ToPayloadError(e)),
        }
    }
}

impl FromPayload for () {
    open spec fn decoding(b: Seq<u8>) -> Option<()> {
        Some(())
    }

    fn from_payload(payload: &[u8]) -> (r: Result<(), SmipError>) {
        match deserialize_unit(payload) {
            Ok(v) => Ok(v),
            Err(e) => Err(SmipError::FromPayloadError(e)),
        }
    }

    proof fn lemma_decoding_encoding(v: (), rest: Seq<u8>) {
    }

    proof fn lemma_decoding_prefix(b: Seq<u8>, rest: Seq<u8>) {
    }
}

/// Relies on `bincode::serialize`: a `bool` is the single byte 1 or 0.
#[verifier::external_body]
fn serialize_bool(v: bool) -> (r: Result<Vec<u8>, Box<bincode::ErrorKind>>)
    ensures
        r is Ok,
        r is Ok ==> r->Ok_0@ == seq![if v { 1u8 } else { 0u8 }],
{
    bincode::serialize(&v)
}

/// Relies on `bincode::deserialize`: a `bool` is read from the first byte,
/// which must be 0 or 1.
#[verifier::external_body]
fn deserialize_bool(b: &[u8]) -> (r: Result<bool, Box<bincode::ErrorKind>>)
    ensures
        r is Ok <==> (b@.len() >= 1 && b@[0] <= 1),
        r is Ok ==> r->Ok_0 == (b@[0] == 1),
{
    bincode::deserialize::<bool>(b)
}

impl ToPayload for bool {
    open spec fn representable(v: bool) -> bool {
        true
    }

    open spec fn encoding(v: bool) -> Seq<u8> {
        seq![if v { 1u8 } else { 0u8 }]
    }

    fn to_payload(&self) -> (r: Result<Vec<u8>, SmipError>) {
        match serialize_bool(*self) {
            Ok(b) => Ok(b),
            Err(e) => Err(SmipError::ToPayloadError(e)),
        }
    }
}

impl FromPayload for bool {
    open spec fn decoding(b: Seq<u8>) -> Option<bool> {
        if b.len() >= 1 && b[0] <= 1 {
            Some(b[0] == 1)
        } else {
            None
        }
    }

    fn from_payload(payload: &[u8]) -> (r: Result<bool, SmipError>) {
        match deserialize_bool(payload) {
            Ok(v) => Ok(v),
            Err(e) => Err(SmipError::FromPayloadError(e)),
        }
    }

    proof fn lemma_decoding_encoding(v: bool, rest: Seq<u8>) {
        assert((Self::encoding(v) + rest)[0] == Self::encoding(v)[0]);
    }

    proof fn lemma_decoding_prefix(b: Seq<u8>, rest: Seq<u8>) {
        assert((b + rest)[0] == b[0]);
    }
}

/// Relies on `bincode::serialize`: a `u8` is the single byte itself.
#[verifier::external_body]
fn serialize_u8(v: u8) -> (r: Result<Vec<u8>, Box<bincode::ErrorKind>>)
    ensures
        r is Ok,
        r is Ok ==> r->Ok_0@ == seq![v],
{
    bincode::serialize(&v)
}

/// Relies on `bincode::deserialize`: a `u8` is the first byte; an empty
/// buffer fails.
#[verifier::external_body]
fn deserialize_u8(b: &[u8]) -> (r: Result<u8, Box<bincode::ErrorKind>>)
    ensures
        r is Ok <==> b@.len() >= 1,
        r is Ok ==> r->Ok_0 == b@[0],
{
    bincode::deserialize::<u8>(b)
}

impl ToPayload for u8 {
    open spec fn representable(v: u8) -> bool {
        true
    }

    open spec fn encoding(v: u8) -> Seq<u8> {
        seq![v]
    }

    fn to_payload(&self) -> (r: Result<Vec<u8>, SmipError>) {
        match serialize_u8(*self) {
            Ok(b) => Ok(b),
            Err(e) => Err(SmipError::ToPayloadError(e)),
        }
    }
}

impl FromPayload for u8 {
    open spec fn decoding(b: Seq<u8>) -> Option<u8> {
        if b.len() >= 1 {
            Some(b[0])
        } else {
            None
        }
    }

    fn from_payload(payload: &[u8]) -> (r: Result<u8, SmipError>) {
        match deserialize_u8(payload) {
            Ok(v) => Ok(v),
            Err(e) => Err(SmipError::FromPayloadError(e)),
        }
    }

    proof fn lemma_decoding_encoding(v: u8, rest: Seq<u8>) {
        assert((Self::encoding(v) + rest)[0] == v);
    }

    proof fn lemma_decoding_prefix(b: Seq<u8>, rest: Seq<u8>) {
        assert((b + rest)[0] == b[0]);
    }
}

/// Relies on `bincode::serialize` with its fixed-width little-endian
/// options: a `u16` becomes its two bytes.
#[verifier::external_body]
fn serialize_u16(v: u16) -> (r: Result<Vec<u8>, Box<bincode::ErrorKind>>)
    ensures
        r is Ok,
        r is Ok ==> r->Ok_0@ == spec_u16_to_le_bytes(v),
{
    bincode::serialize(&v)
}

/// Relies on `bincode::deserialize`: a `u16` is read from the first two
/// bytes; fewer fail.
#[verifier::external_body]
fn deserialize_u16(b: &[u8]) -> (r: Result<u16, Box<bincode::ErrorKind>>)
    ensures
        r is Ok <==> b@.len() >= 2,
        r is Ok ==> r->Ok_0 == spec_u16_from_le_bytes(b@.subrange(0, 2)),
{
    bincode::deserialize::<u16>(b)
}

impl ToPayload for u16 {
    open spec fn representable(v: u16) -> bool {
        true
    }

    open spec fn encoding(v: u16) -> Seq<u8> {
        spec_u16_to_le_bytes(v)
    }

    fn to_payload(&self) -> (r: Result<Vec<u8>, SmipError>) {
        match serialize_u16(*self) {
            Ok(b) => Ok(b),
            Err(e) => Err(SmipError::ToPayloadError(e)),
        }
    }
}

impl FromPayload for u16 {
    open spec fn decoding(b: Seq<u8>) -> Option<u16> {
        if b.len() >= 2 {
            Some(spec_u16_from_le_bytes(b.subrange(0, 2)))
        } else {
            None
        }
    }

    fn from_payload(payload: &[u8]) -> (r: Result<u16, SmipError>) {
        match deserialize_u16(payload) {
            Ok(v) => Ok(v),
            Err(e) => Err(SmipError::FromPayloadError(e)),
        }
    }

    proof fn lemma_decoding_encoding(v: u16, rest: Seq<u8>) {
        vstd::bytes::lemma_auto_spec_u16_to_from_le_bytes();
        let b = spec_u16_to_le_bytes(v) + rest;
        assert(b.subrange(0, 2) =~= spec_u16_to_le_bytes(v));
    }

    proof fn lemma_decoding_prefix(b: Seq<u8>, rest: Seq<u8>) {
        assert((b + rest).subrange(0, 2) =~= b.subrange(0, 2));
    }
}

/// Relies on `bincode::serialize` with its fixed-width little-endian
/// options: a `u64` becomes its eight bytes.
#[verifier::external_body]
fn serialize_u64(v: u64) -> (r: Result<Vec<u8>, Box<bincode::ErrorKind>>)
    ensures
        r is Ok,
        r is Ok ==> r->Ok_0@ == spec_u64_to_le_bytes(v),
{
    bincode::serialize(&v)
}

/// Relies on `bincode::deserialize`: a `u64` is read from the first eight
/// bytes; fewer fail.
#[verifier::external_body]
fn deserialize_u64(b: &[u8]) -> (r: Result<u64, Box<bincode::ErrorKind>>)
    ensures
        r is Ok <==> b@.len() >= 8,
        r is Ok ==> r->Ok_0 == spec_u64_from_le_bytes(b@.subrange(0, 8)),
{
    bincode::deserialize::<u64>(b)
}

impl ToPayload for u64 {
    open spec fn representable(v: u64) -> bool {
        true
    }

    open spec fn encoding(v: u64) -> Seq<u8> {
        spec_u64_to_le_bytes(v)
    }

    fn to_payload(&self) -> (r: Result<Vec<u8>, SmipError>) {
        match serialize_u64(*self) {
            Ok(b) => Ok(b),
            Err(e) => Err(SmipError::ToPayloadError(e)),
        }
    }
}

impl FromPayload for u64 {
    open spec fn decoding(b: Seq<u8>) -> Option<u64> {
        if b.len() >= 8 {
            Some(spec_u64_from_le_bytes(b.subrange(0, 8)))
        } else {
            None
        }
    }

    fn from_payload(payload: &[u8]) -> (r: Result<u64, SmipError>) {
        match deserialize_u64(payload) {
            Ok(v) => Ok(v),
            Err(e) => Err(SmipError::FromPayloadError(e)),
        }
    }

    proof fn lemma_decoding_encoding(v: u64, rest: Seq<u8>) {
        vstd::bytes::lemma_auto_spec_u64_to_from_le_bytes();
        let b = spec_u64_to_le_bytes(v) + rest;
        assert(b.subrange(0, 8) =~= spec_u64_to_le_bytes(v));
    }

    proof fn lemma_decoding_prefix(b: Seq<u8>, rest: Seq<u8>) {
        assert((b + rest).subrange(0, 8) =~= b.subrange(0, 8));
    }
}

/// Relies on `bincode::serialize` with its fixed-width little-endian
/// options: an `i8` is written as the single byte of its two's-complement
/// pattern.
#[verifier::external_body]
fn serialize_i8(v: i8) -> (r: Result<Vec<u8>, Box<bincode::ErrorKind>>)
    ensures
        r is Ok,
        r is Ok ==> r->Ok_0@ == seq![v as u8],
{
    bincode::serialize(&v)
}

/// Relies on `bincode::deserialize`: an `i8` is read as the two's-complement
/// pattern of the first byte; an empty buffer fails.
#[verifier::external_body]
fn deserialize_i8(b: &[u8]) -> (r: Result<i8, Box<bincode::ErrorKind>>)
    ensures
        r is Ok <==> b@.len() >= 1,
        r is Ok ==> r->Ok_0 == (b@[0] as i8),
{
    bincode::deserialize::<i8>(b)
}

impl ToPayload for i8 {
    open spec fn representable(v: i8) -> bool {
        true
    }

    open spec fn encoding(v: i8) -> Seq<u8> {
        seq![v as u8]
    }

    fn to_payload(&self) -> (r: Result<Vec<u8>, SmipError>) {
        match serialize_i8(*self) {
            Ok(b) => Ok(b),
            Err(e) => Err(SmipError::ToPayloadError(e)),
        }
    }
}

impl FromPayload for i8 {
    open spec fn decoding(b: Seq<u8>) -> Option<i8> {
        if b.len() >= 1 {
            Some(b[0] as i8)
        } else {
            None
        }
    }

    fn from_payload(payload: &[u8]) -> (r: Result<i8, SmipError>) {
        match deserialize_i8(payload) {
            Ok(v) => Ok(v),
            Err(e) => Err(SmipError::FromPayloadError(e)),
        }
    }

    proof fn lemma_decoding_encoding(v: i8, rest: Seq<u8>) {
        assert((Self::encoding(v) + rest)[0] == v as u8);
        assert((((v as u8) as i8) == v)) by (bit_vector);
    }

    proof fn lemma_decoding_prefix(b: Seq<u8>, rest: Seq<u8>) {
        assert((b + rest)[0] == b[0]);
    }
}

/// Relies on `bincode::serialize` with its fixed-width little-endian
/// options: an `i16` is written as the 2 bytes of its two's-complement
/// pattern.
#[verifier::external_body]
fn serialize_i16(v: i16) -> (r: Result<Vec<u8>, Box<bincode::ErrorKind>>)
    ensures
        r is Ok,
        r is Ok ==> r->Ok_0@ == spec_u16_to_le_bytes(v as u16),
{
    bincode::serialize(&v)
}

/// Relies on `bincode::deserialize`: an `i16` is read as the two's-complement
/// pattern of the first 2 bytes; fewer fail.
#[verifier::external_body]
fn deserialize_i16(b: &[u8]) -> (r: Result<i16, Box<bincode::ErrorKind>>)
    ensures
        r is Ok <==> b@.len() >= 2,
        r is Ok ==> r->Ok_0 == (spec_u16_from_le_bytes(b@.subrange(0, 2)) as i16),
{
    bincode::deserialize::<i16>(b)
}

impl ToPayload for i16 {
    open spec fn representable(v: i16) -> bool {
        true
    }

    open spec fn encoding(v: i16) -> Seq<u8> {
        spec_u16_to_le_bytes(v as u16)
    }

    fn to_payload(&self) -> (r: Result<Vec<u8>, SmipError>) {
        match serialize_i16(*self) {
            Ok(b) => Ok(b),
            Err(e) => Err(SmipError::ToPayloadError(e)),
        }
    }
}

impl FromPayload for i16 {
    open spec fn decoding(b: Seq<u8>) -> Option<i16> {
        if b.len() >= 2 {
            Some((spec_u16_from_le_bytes(b.subrange(0, 2)) as i16))
        } else {
            None
        }
    }

    fn from_payload(payload: &[u8]) -> (r: Result<i16, SmipError>) {
        match deserialize_i16(payload) {
            Ok(v) => Ok(v),
            Err(e) => Err(SmipError::FromPayloadError(e)),
        }
    }

    proof fn lemma_decoding_encoding(v: i16, rest: Seq<u8>) {
        vstd::bytes::lemma_auto_spec_u16_to_from_le_bytes();
        let b = Self::encoding(v) + rest;
        assert(b.subrange(0, 2) =~= Self::encoding(v));
        assert((((v as u16) as i16) == v)) by (bit_vector);
    }

    proof fn lemma_decoding_prefix(b: Seq<u8>, rest: Seq<u8>) {
        assert((b + rest).subrange(0, 2) =~= b.subrange(0, 2));
    }
}

/// Relies on `bincode::serialize` with its fixed-width little-endian
/// options: an `i32` is written as the 4 bytes of its two's-complement
/// pattern.
#[verifier::external_body]
fn serialize_i32(v: i32) -> (r: Result<Vec<u8>, Box<bincode::ErrorKind>>)
    ensures
        r is Ok,
        r is Ok ==> r->Ok_0@ == spec_u32_to_le_bytes(v as u32),
{
    bincode::serialize(&v)
}

/// Relies on `bincode::deserialize`: an `i32` is read as the two's-complement
/// pattern of the first 4 bytes; fewer fail.
#[verifier::external_body]
fn deserialize_i32(b: &[u8]) -> (r: Result<i32, Box<bincode::ErrorKind>>)
    ensures
        r is Ok <==> b@.len() >= 4,
        r is Ok ==> r->Ok_0 == (spec_u32_from_le_bytes(b@.subrange(0, 4)) as i32),
{
    bincode::deserialize::<i32>(b)
}

impl ToPayload for i32 {
    open spec fn representable(v: i32) -> bool {
        true
    }

    open spec fn encoding(v: i32) -> Seq<u8> {
        spec_u32_to_le_bytes(v as u32)
    }

    fn to_payload(&self) -> (r: Result<Vec<u8>, SmipError>) {
        match serialize_i32(*self) {
            Ok(b) => Ok(b),
            Err(e) => Err(SmipError::ToPayloadError(e)),
        }
    }
}

impl FromPayload for i32 {
    open spec fn decoding(b: Seq<u8>) -> Option<i32> {
        if b.len() >= 4 {
            Some((spec_u32_from_le_bytes(b.subrange(0, 4)) as i32))
        } else {
            None
        }
    }

    fn from_payload(payload: &[u8]) -> (r: Result<i32, SmipError>) {
        match deserialize_i32(payload) {
            Ok(v) => Ok(v),
            Err(e) => Err(SmipError::FromPayloadError(e)),
        }
    }

    proof fn lemma_decoding_encoding(v: i32, rest: Seq<u8>) {
        vstd::bytes::lemma_auto_spec_u32_to_from_le_bytes();
        let b = Self::encoding(v) + rest;
        assert(b.subrange(0, 4) =~= Self::encoding(v));
        assert((((v as u32) as i32) == v)) by (bit_vector);
    }

    proof fn lemma_decoding_prefix(b: Seq<u8>, rest: Seq<u8>) {
        assert((b + rest).subrange(0, 4) =~= b.subrange(0, 4));
    }
}

/// Relies on `bincode::serialize` with its fixed-width little-endian
/// options: an `i64` is written as the 8 bytes of its two's-complement
/// pattern.
#[verifier::external_body]
fn serialize_i64(v: i64) -> (r: Result<Vec<u8>, Box<bincode::ErrorKind>>)
    ensures
        r is Ok,
        r is Ok ==> r->Ok_0@ == spec_u64_to_le_bytes(v as u64),
{
    bincode::serialize(&v)
}

/// Relies on `bincode::deserialize`: an `i64` is read as the two's-complement
/// pattern of the first 8 bytes; fewer fail.
#[verifier::external_body]
fn deserialize_i64(b: &[u8]) -> (r: Result<i64, Box<bincode::ErrorKind>>)
    ensures
        r is Ok <==> b@.len() >= 8,
        r is Ok ==> r->Ok_0 == (spec_u64_from_le_bytes(b@.subrange(0, 8)) as i64),
{
    bincode::deserialize::<i64>(b)
}

impl ToPayload for i64 {
    open spec fn representable(v: i64) -> bool {
        true
    }

    open spec fn encoding(v: i64) -> Seq<u8> {
        spec_u64_to_le_bytes(v as u64)
    }

    fn to_payload(&self) -> (r: Result<Vec<u8>, SmipError>) {
        match serialize_i64(*self) {
            Ok(b) => Ok(b),
            Err(e) => Err(SmipError::ToPayloadError(e)),
        }
    }
}

impl FromPayload for i64 {
    open spec fn decoding(b: Seq<u8>) -> Option<i64> {
        if b.len() >= 8 {
            Some((spec_u64_from_le_bytes(b.subrange(0, 8)) as i64))
        } else {
            None
        }
    }

    fn from_payload(payload: &[u8]) -> (r: Result<i64, SmipError>) {
        match deserialize_i64(payload) {
            Ok(v) => Ok(v),
            Err(e) => Err(SmipError::FromPayloadError(e)),
        }
    }

    proof fn lemma_decoding_encoding(v: i64, rest: Seq<u8>) {
        vstd::bytes::lemma_auto_spec_u64_to_from_le_bytes();
        let b = Self::encoding(v) + rest;
        assert(b.subrange(0, 8) =~= Self::encoding(v));
        assert((((v as u64) as i64) == v)) by (bit_vector);
    }

    proof fn lemma_decoding_prefix(b: Seq<u8>, rest: Seq<u8>) {
        assert((b + rest).subrange(0, 8) =~= b.subrange(0, 8));
    }
}

/// The encoding of a string: its UTF-8 byte length as eight little-endian
/// bytes, then the UTF-8 bytes.
pub open spec fn string_encoding(s: Seq<char>) -> Seq<u8> {
    spec_u64_to_le_bytes(encode_utf8(s).len() as u64) + encode_utf8(s)
}

/// The length that a string encoding announces in its first eight bytes.
pub open spec fn announced_len(b: Seq<u8>) -> int {
    spec_u64_from_le_bytes(b.subrange(0, 8)) as int
}

/// The bytes of the string that a buffer starts with.
pub open spec fn announced_bytes(b: Seq<u8>) -> Seq<u8> {
    b.subrange(8, 8 + announced_len(b))
}

/// Whether a buffer starts with a well-formed string encoding.
pub open spec fn starts_with_string(b: Seq<u8>) -> bool {
    &&& b.len() >= 8
    &&& b.len() - 8 >= announced_len(b)
    &&& valid_utf8(announced_bytes(b))
}

/// Relies on `bincode::serialize` with its fixed-width little-endian
/// options: a string is written as its byte length in eight bytes followed by
/// its UTF-8 bytes.
#[verifier::external_body]
fn serialize_string(v: &String) -> (r: Result<Vec<u8>, Box<bincode::ErrorKind>>)
    ensures
        r is Ok,
        r is Ok ==> r->Ok_0@ == string_encoding(v@),
{
    bincode::serialize(v)
}

/// Relies on `bincode::deserialize`: a string is read as an eight-byte
/// little-endian length and that many bytes, which must be valid UTF-8.
#[verifier::external_body]
fn deserialize_string(b: &[u8]) -> (r: Result<String, Box<bincode::ErrorKind>>)
    ensures
        r is Ok <==> starts_with_string(b@),
        r is Ok ==> r->Ok_0@ == decode_utf8(announced_bytes(b@)),
{
    bincode::deserialize::<String>(b)
}

impl ToPayload for String {
    open spec fn representable(v: Seq<char>) -> bool {
        encode_utf8(v).len() <= u64::MAX
    }

    open spec fn encoding(v: Seq<char>) -> Seq<u8> {
        string_encoding(v)
    }

    fn to_payload(&self) -> (r: Result<Vec<u8>, SmipError>) {
        match serialize_string(self) {
            Ok(b) => Ok(b),
            Err(e) => Err(SmipError::ToPayloadError(e)),
        }
    }
}

impl FromPayload for String {
    open spec fn decoding(b: Seq<u8>) -> Option<Seq<char>> {
        if starts_with_string(b) {
            Some(decode_utf8(announced_bytes(b)))
        } else {
            None
        }
    }

    fn from_payload(payload: &[u8]) -> (r: Result<String, SmipError>) {
        match deserialize_string(payload) {
            Ok(v) => Ok(v),
            Err(e) => Err(SmipError::FromPayloadError(e)),
        }
    }

    proof fn lemma_decoding_encoding(v: Seq<char>, rest: Seq<u8>) {
        vstd::bytes::lemma_auto_spec_u64_to_from_le_bytes();
        vstd::utf8::encode_utf8_valid_utf8(v);
        vstd::utf8::encode_utf8_decode_utf8(v);
        let e = encode_utf8(v);
        let len_bytes = spec_u64_to_le_bytes(e.len() as u64);
        let b = string_encoding(v) + rest;
        assert(b.subrange(0, 8) =~= len_bytes);
        assert(announced_len(b) == e.len());
        assert(announced_bytes(b) =~= e);
    }

    proof fn lemma_decoding_prefix(b: Seq<u8>, rest: Seq<u8>) {
        let c = b + rest;
        assert(c.subrange(0, 8) =~= b.subrange(0, 8));
        assert(announced_bytes(c) =~= announced_bytes(b));
    }
}

} // verus!
