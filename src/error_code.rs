//! The DoQ application error codes, and their mapping to and from QUIC varints.

use vstd::prelude::*;

use quinn::VarInt;

verus! {

/// Graceful close: no error to signal.
pub const NO_ERROR: u32 = 0x0;

/// The implementation cannot go on with the transaction or the connection.
pub const INTERNAL_ERROR: u32 = 0x1;

/// A protocol violation: the connection is aborted.
pub const PROTOCOL_ERROR: u32 = 0x2;

/// The client cancels an outstanding transaction.
pub const REQUEST_CANCELLED: u32 = 0x3;

/// The connection is closed because of load.
pub const EXCESSIVE_LOAD: u32 = 0x4;

/// An alternative code reserved for tests.
pub const ERROR_RESERVED: u32 = 0xd098ea5e;

/// An error code of DNS-over-QUIC, carried by QUIC as an application error code
/// when a stream is reset or stopped, or a connection is closed.
#[derive(Clone, Copy, Debug, PartialEq, Eq, Structural)]
pub enum DoqErrorCode {
    /// No error. The connection or stream is closed with nothing to signal.
    NoError,
    /// The implementation met an internal error and cannot go on with the
    /// transaction or the connection.
    InternalError,
    /// The implementation met a protocol error and aborts the connection.
    ProtocolError,
    /// The client cancels an outstanding transaction.
    RequestCancelled,
    /// The connection is closed because of excessive load.
    ExcessiveLoad,
    /// Alternative error code, used for tests.
    ErrorReserved,
    /// Any other code, as it was received.
    Unknown(u32),
}

/// Whether `code` is one of the six codes that have a name.
pub open spec fn is_known_code(code: u32) -> bool {
    code == NO_ERROR || code == INTERNAL_ERROR || code == PROTOCOL_ERROR || code
        == REQUEST_CANCELLED || code == EXCESSIVE_LOAD || code == ERROR_RESERVED
}

/// The numeric code of an error code.
pub open spec fn encode(e: DoqErrorCode) -> u32 {
    match e {
        DoqErrorCode::NoError => NO_ERROR,
        DoqErrorCode::InternalError => INTERNAL_ERROR,
        DoqErrorCode::ProtocolError => PROTOCOL_ERROR,
        DoqErrorCode::RequestCancelled => REQUEST_CANCELLED,
        DoqErrorCode::ExcessiveLoad => EXCESSIVE_LOAD,
        DoqErrorCode::ErrorReserved => ERROR_RESERVED,
        DoqErrorCode::Unknown(code) => code,
    }
}

/// The error code that a raw application error code stands for. A code that does
/// not fit in 32 bits cannot be carried by `Unknown` and is taken as a protocol
/// violation.
pub open spec fn decode(raw: u64) -> DoqErrorCode {
    if raw > 0xffff_ffff {
        DoqErrorCode::ProtocolError
    } else if raw == NO_ERROR as u64 {
        DoqErrorCode::NoError
    } else if raw == INTERNAL_ERROR as u64 {
        DoqErrorCode::InternalError
    } else if raw == PROTOCOL_ERROR as u64 {
        DoqErrorCode::ProtocolError
    } else if raw == REQUEST_CANCELLED as u64 {
        DoqErrorCode::RequestCancelled
    } else if raw == EXCESSIVE_LOAD as u64 {
        DoqErrorCode::ExcessiveLoad
    } else if raw == ERROR_RESERVED as u64 {
        DoqErrorCode::ErrorReserved
    } else {
        DoqErrorCode::Unknown(raw as u32)
    }
}

impl DoqErrorCode {
    /// The numeric code: the fixed code of a named variant, or the raw code that
    /// `Unknown` carries.
    pub fn code(&self) -> (r: u32)
        ensures
            r == encode(*self),
    {
        match self {
            DoqErrorCode::NoError => NO_ERROR,
            DoqErrorCode::InternalError => INTERNAL_ERROR,
            DoqErrorCode::ProtocolError => PROTOCOL_ERROR,
            DoqErrorCode::RequestCancelled => REQUEST_CANCELLED,
            DoqErrorCode::ExcessiveLoad => EXCESSIVE_LOAD,
            DoqErrorCode::ErrorReserved => ERROR_RESERVED,
            DoqErrorCode::Unknown(code) => *code,
        }
    }

    /// The error code that a raw application error code stands for.
    pub fn from_code(raw: u64) -> (r: DoqErrorCode)
        ensures
            r == decode(raw),
    {
        if raw > 0xffff_ffff {
            return DoqErrorCode::ProtocolError;
        }
        let code: u32 = raw as u32;
        match code {
            NO_ERROR => DoqErrorCode::NoError,
            INTERNAL_ERROR => DoqErrorCode::InternalError,
            PROTOCOL_ERROR => DoqErrorCode::ProtocolError,
            REQUEST_CANCELLED => DoqErrorCode::RequestCancelled,
            EXCESSIVE_LOAD => DoqErrorCode::ExcessiveLoad,
            ERROR_RESERVED => DoqErrorCode::ErrorReserved,
            _ => DoqErrorCode::Unknown(code),
        }
    }
}

/// A named error code comes back unchanged from its numeric code.
pub proof fn lemma_named_code_round_trip(e: DoqErrorCode)
    requires
        !(e is Unknown),
    ensures
        decode(encode(e) as u64) == e,
{
}

/// A 32-bit code outside the table of named codes decodes to `Unknown` holding
/// that code, which encodes back to the same code.
pub proof fn lemma_unknown_code_round_trip(raw: u32)
    requires
        !is_known_code(raw),
    ensures
        decode(raw as u64) == DoqErrorCode::Unknown(raw),
        encode(DoqErrorCode::Unknown(raw)) == raw,
{
}

/// Every varint code that does not fit in 32 bits decodes to `ProtocolError`.
pub proof fn lemma_wide_code_is_protocol_error(raw: u64)
    requires
        0x1_0000_0000 <= raw < 0x4000_0000_0000_0000,
    ensures
        decode(raw) == DoqErrorCode::ProtocolError,
{
}

#[verifier::external_type_specification]
#[verifier::external_body]
pub struct ExVarInt(VarInt);

/// The varint that `VarInt::from_u32` makes of a 32-bit code.
pub uninterp spec fn var_int_of(code: u32) -> VarInt;

/// The integer that `VarInt::into_inner` takes out of a varint.
pub uninterp spec fn var_int_value(v: VarInt) -> u64;

/// Relies on quinn's `VarInt::from_u32`, which stores the code as it is and
/// always succeeds.
#[verifier::external_body]
fn var_int_from_u32(code: u32) -> (r: VarInt)
    ensures
        r == var_int_of(code),
        var_int_value(r) == code as u64,
{
    VarInt::from_u32(code)
}

/// Relies on quinn's `VarInt::into_inner`, which returns the stored integer; every
/// constructor of `VarInt` keeps it below 2^62.
#[verifier::external_body]
fn var_int_into_inner(v: VarInt) -> (r: u64)
    ensures
        r == var_int_value(v),
        r < 0x4000_0000_0000_0000,
{
    v.into_inner()
}

impl From<DoqErrorCode> for VarInt {
    fn from(doq_error: DoqErrorCode) -> (r: VarInt)
        ensures
            r == var_int_of(encode(doq_error)),
            var_int_value(r) == encode(doq_error) as u64,
    {
        var_int_from_u32(doq_error.code())
    }
}

impl vstd::std_specs::convert::FromSpecImpl<DoqErrorCode> for VarInt {
    open spec fn obeys_from_spec() -> bool {
        true
    }

    open spec fn from_spec(doq_error: DoqErrorCode) -> VarInt {
        var_int_of(encode(doq_error))
    }
}

impl From<VarInt> for DoqErrorCode {
    fn from(doq_error: VarInt) -> (r: DoqErrorCode)
        ensures
            r == decode(var_int_value(doq_error)),
    {
        DoqErrorCode::from_code(var_int_into_inner(doq_error))
    }
}

impl vstd::std_specs::convert::FromSpecImpl<VarInt> for DoqErrorCode {
    open spec fn obeys_from_spec() -> bool {
        true
    }

    open spec fn from_spec(doq_error: VarInt) -> DoqErrorCode {
        decode(var_int_value(doq_error))
    }
}

} // verus!
