//! Error and result types.

use vstd::prelude::*;
use vstd::string::*;

verus! {

/// Declares `std::io::Error` so that the top-level error can carry one.
#[verifier::external_type_specification]
#[verifier::external_body]
pub struct ExIoError(std::io::Error);

/// Crate-wide `Result` alias.
pub type Result<T> = core::result::Result<T, Error>;

/// Top-level error type.
#[derive(Debug)]
#[non_exhaustive]
pub enum Error {
    /// The session is closed and no further operations can be performed.
    SessionClosed,
    /// The remote peer sent a `GoAway` frame and is no longer accepting new
    /// streams.
    GoAway(ErrorCode),
    /// The peer reset the stream.
    StreamReset(u32),
    /// `Config::max_streams` would be exceeded.
    TooManyStreams(usize),
    /// An operation timed out.
    Timeout,
    /// Wire-format violation while decoding a frame.
    Protocol(&'static str),
    /// Underlying I/O failure.
    Io(std::io::Error),
}

impl Error {
    /// Whether this is a wire-format violation.
    pub open spec fn is_protocol(self) -> bool {
        self is Protocol
    }
}

/// The kind of I/O error that a library error surfaces as to a reader or
/// writer of a stream.
#[derive(Debug, Clone, Copy, PartialEq, Eq, Structural)]
pub enum IoKind {
    /// The session is gone.
    NotConnected,
    /// The stream was reset.
    ConnectionReset,
    /// An operation timed out.
    TimedOut,
    /// The peer broke the wire format.
    InvalidData,
    /// Anything else.
    Other,
}

impl Error {
    /// The I/O error kind this error surfaces as; `None` for an I/O error,
    /// which is handed on unchanged.
    pub fn io_kind(&self) -> (k: Option<IoKind>)
        ensures
            k == match *self {
                Error::Io(_) => None,
                Error::SessionClosed | Error::GoAway(_) => Some(IoKind::NotConnected),
                Error::StreamReset(_) => Some(IoKind::ConnectionReset),
                Error::Timeout => Some(IoKind::TimedOut),
                Error::Protocol(_) => Some(IoKind::InvalidData),
                Error::TooManyStreams(_) => Some(IoKind::Other),
            },
    {
        match self {
            Error::Io(_) => None,
            Error::SessionClosed | Error::GoAway(_) => Some(IoKind::NotConnected),
            Error::StreamReset(_) => Some(IoKind::ConnectionReset),
            Error::Timeout => Some(IoKind::TimedOut),
            Error::Protocol(_) => Some(IoKind::InvalidData),
            Error::TooManyStreams(_) => Some(IoKind::Other),
        }
    }
}

impl From<std::io::Error> for Error {
    fn from(e: std::io::Error) -> (r: Error) {
        Error::Io(e)
    }
}

impl vstd::std_specs::convert::FromSpecImpl<std::io::Error> for Error {
    open spec fn obeys_from_spec() -> bool {
        true
    }

    open spec fn from_spec(v: std::io::Error) -> Error {
        Error::Io(v)
    }
}

/// Wire-level error code, transmitted in `GoAway` frames as a `u32`.
///
/// Unknown codes coming from the peer are preserved as [`ErrorCode::Unknown`]
/// so applications can still observe them.
#[derive(Debug, Clone, Copy, PartialEq, Eq, Hash, Structural)]
#[non_exhaustive]
pub enum ErrorCode {
    /// Graceful shutdown initiated locally or remotely.
    Normal,
    /// Wire-format / framing violation.
    ProtocolError,
    /// Internal bug in either side.
    InternalError,
    /// Peer violated flow control (e.g. sent more bytes than advertised).
    FlowControlError,
    /// Maximum concurrent streams would be exceeded.
    StreamLimit,
    /// Protocol version mismatch.
    InvalidVersion,
    /// Idle / keepalive timeout fired.
    Timeout,
    /// Code not recognised by this version of the library.
    Unknown(u32),
}

/// The raw `u32` that a code is carried as on the wire.
pub open spec fn code_to_u32(c: ErrorCode) -> u32 {
    match c {
        ErrorCode::Normal => 0,
        ErrorCode::ProtocolError => 1,
        ErrorCode::InternalError => 2,
        ErrorCode::FlowControlError => 3,
        ErrorCode::StreamLimit => 4,
        ErrorCode::InvalidVersion => 5,
        ErrorCode::Timeout => 6,
        ErrorCode::Unknown(v) => v,
    }
}

/// The code that a raw wire value decodes to.
pub open spec fn code_from_u32(v: u32) -> ErrorCode {
    if v == 0 {
        ErrorCode::Normal
    } else if v == 1 {
        ErrorCode::ProtocolError
    } else if v == 2 {
        ErrorCode::InternalError
    } else if v == 3 {
        ErrorCode::FlowControlError
    } else if v == 4 {
        ErrorCode::StreamLimit
    } else if v == 5 {
        ErrorCode::InvalidVersion
    } else if v == 6 {
        ErrorCode::Timeout
    } else {
        ErrorCode::Unknown(v)
    }
}

/// A code as it can arrive from the wire: `Unknown` only for values that no
/// named code uses.
pub open spec fn code_is_canonical(c: ErrorCode) -> bool {
    c matches ErrorCode::Unknown(v) ==> v > 6
}

/// Decimal digits of `n`, most significant first, as `u32`'s `Display`
/// writes them.
pub open spec fn decimal_digits(n: nat) -> Seq<char>
    decreases n,
{
    if n < 10 {
        seq![digit_char(n)]
    } else {
        decimal_digits(n / 10).push(digit_char(n % 10))
    }
}

/// The ASCII digit for `d` (for `d < 10`).
pub open spec fn digit_char(d: nat) -> char {
    (d + 48) as char
}

/// The one-digit string of `d` (for `d < 10`).
fn digit_str(d: u32) -> (s: &'static str)
    requires
        d < 10,
    ensures
        s@ == seq![digit_char(d as nat)],
{
    proof {
        reveal_strlit("0");
        reveal_strlit("1");
        reveal_strlit("2");
        reveal_strlit("3");
        reveal_strlit("4");
        reveal_strlit("5");
        reveal_strlit("6");
        reveal_strlit("7");
        reveal_strlit("8");
        reveal_strlit("9");
    }
    match d {
        0 => "0",
        1 => "1",
        2 => "2",
        3 => "3",
        4 => "4",
        5 => "5",
        6 => "6",
        7 => "7",
        8 => "8",
        _ => "9",
    }
}

/// `v` in decimal, most significant digit first, as `u32`'s `Display`
/// writes it.
fn u32_to_decimal(v: u32) -> (s: String)
    ensures
        s@ == decimal_digits(v as nat),
    decreases v,
{
    if v < 10 {
        String::from_str(digit_str(v))
    } else {
        let mut s = u32_to_decimal(v / 10);
        s.append(digit_str(v % 10));
        s
    }
}

impl ErrorCode {
    /// Encode the variant as the raw `u32` carried on the wire.
    pub fn as_u32(self) -> (r: u32)
        ensures
            r == code_to_u32(self),
    {
        match self {
            ErrorCode::Normal => 0,
            ErrorCode::ProtocolError => 1,
            ErrorCode::InternalError => 2,
            ErrorCode::FlowControlError => 3,
            ErrorCode::StreamLimit => 4,
            ErrorCode::InvalidVersion => 5,
            ErrorCode::Timeout => 6,
            ErrorCode::Unknown(v) => v,
        }
    }

    /// Human-readable description of the code.
    pub fn to_string(&self) -> (s: String)
        ensures
            s@ == self.spec_description(),
    {
        match self {
            ErrorCode::Normal => String::from_str("normal"),
            ErrorCode::ProtocolError => String::from_str("protocol error"),
            ErrorCode::InternalError => String::from_str("internal error"),
            ErrorCode::FlowControlError => String::from_str("flow control error"),
            ErrorCode::StreamLimit => String::from_str("stream limit"),
            ErrorCode::InvalidVersion => String::from_str("invalid version"),
            ErrorCode::Timeout => String::from_str("timeout"),
            ErrorCode::Unknown(v) => {
                let mut s = String::from_str("unknown error code ");
                let digits = u32_to_decimal(*v);
                s.append(digits.as_str());
                s
            },
        }
    }

    /// What [`ErrorCode::to_string`] returns.
    pub open spec fn spec_description(self) -> Seq<char> {
        match self {
            ErrorCode::Normal => "normal"@,
            ErrorCode::ProtocolError => "protocol error"@,
            ErrorCode::InternalError => "internal error"@,
            ErrorCode::FlowControlError => "flow control error"@,
            ErrorCode::StreamLimit => "stream limit"@,
            ErrorCode::InvalidVersion => "invalid version"@,
            ErrorCode::Timeout => "timeout"@,
            ErrorCode::Unknown(v) => "unknown error code "@ + decimal_digits(v as nat),
        }
    }
}

impl From<u32> for ErrorCode {
    fn from(v: u32) -> (r: ErrorCode) {
        match v {
            0 => ErrorCode::Normal,
            1 => ErrorCode::ProtocolError,
            2 => ErrorCode::InternalError,
            3 => ErrorCode::FlowControlError,
            4 => ErrorCode::StreamLimit,
            5 => ErrorCode::InvalidVersion,
            6 => ErrorCode::Timeout,
            other => ErrorCode::Unknown(other),
        }
    }
}

impl vstd::std_specs::convert::FromSpecImpl<u32> for ErrorCode {
    open spec fn obeys_from_spec() -> bool {
        true
    }

    open spec fn from_spec(v: u32) -> ErrorCode {
        code_from_u32(v)
    }
}

/// Decoding the wire value of any code gives the code back, as long as it is
/// one the wire can carry (an `Unknown` holding a named code's value comes
/// back as that named code).
pub proof fn lemma_code_roundtrip(c: ErrorCode)
    requires
        code_is_canonical(c),
    ensures
        code_from_u32(code_to_u32(c)) == c,
{
}

/// The documented wire values: `Normal` 0, `ProtocolError` 1,
/// `InternalError` 2, `FlowControlError` 3, `StreamLimit` 4,
/// `InvalidVersion` 5, `Timeout` 6, and an unknown code its own value; each
/// value decodes to its name, and any value from 7 on stays unknown.
pub proof fn lemma_documented_code_values(v: u32)
    ensures
        code_to_u32(ErrorCode::Normal) == 0,
        code_to_u32(ErrorCode::ProtocolError) == 1,
        code_to_u32(ErrorCode::InternalError) == 2,
        code_to_u32(ErrorCode::FlowControlError) == 3,
        code_to_u32(ErrorCode::StreamLimit) == 4,
        code_to_u32(ErrorCode::InvalidVersion) == 5,
        code_to_u32(ErrorCode::Timeout) == 6,
        code_to_u32(ErrorCode::Unknown(v)) == v,
        code_from_u32(0) == ErrorCode::Normal,
        code_from_u32(1) == ErrorCode::ProtocolError,
        code_from_u32(2) == ErrorCode::InternalError,
        code_from_u32(3) == ErrorCode::FlowControlError,
        code_from_u32(4) == ErrorCode::StreamLimit,
        code_from_u32(5) == ErrorCode::InvalidVersion,
        code_from_u32(6) == ErrorCode::Timeout,
        v >= 7 ==> code_from_u32(v) == ErrorCode::Unknown(v),
{
}

/// Encoding the code that a wire value decodes to gives that value back.
pub proof fn lemma_wire_value_roundtrip(v: u32)
    ensures
        code_to_u32(code_from_u32(v)) == v,
        code_is_canonical(code_from_u32(v)),
{
}

} // verus!
