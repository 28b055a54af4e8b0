//! Error taxonomy: the raw host status codes and the closed sets of
//! error kinds they map to.
//!
//! The code value `0` is a sentinel with two context-dependent
//! meanings.  In a bind reply it means success, so a `BindError`
//! carrying it stands for "operation unsupported by the host" (an empty
//! reply) and maps to `BindErrorKind::Other`.  For an accept call it is
//! never produced by a decoded record; it stands for "channel closed"
//! and maps to `AcceptErrorKind::Closed`.

use crate::text::ascii_to_string;
use crate::text::spec_ascii_chars;
use vstd::prelude::*;
use vstd::string::StringExecFns;

verus! {

pub const BIND_ERROR_NONE: i16 = 0;

pub const BIND_ERROR_TOO_MANY_BINDINGS: i16 = 1;

pub const BIND_ERROR_ALREADY_BOUND: i16 = 2;

pub const BIND_ERROR_INVALID_NAME: i16 = 3;

pub const BIND_ERROR_NAME_TOO_LONG: i16 = 4;

pub const BIND_ERROR_UNSUPPORTED_PORT: i16 = 5;

/// The host rejected the record-size tag of the request.  The tag is
/// fixed by this library, never user-supplied, so this code marks a
/// contract violation between library and host: it is kept out of
/// `BindErrorKind` and must be treated as fatal by the caller.
pub const BIND_ERROR_INVALID_ACCEPT_SIZE: i16 = 6;

pub const ACCEPT_ERROR_NONE: i16 = 0;

/// The recoverable outcomes of a failed bind call.
#[derive(Clone, Copy, PartialEq, Eq, Structural, Debug)]
pub enum BindErrorKind {
    Other,
    TooManyBindings,
    AlreadyBound,
    InvalidName,
    NameTooLong,
    UnsupportedPort,
}

/// The outcomes of a failed accept call.  `Other` collapses every
/// non-closed code, because the only decision a caller takes on accept
/// failure is whether to keep looping.
#[derive(Clone, Copy, PartialEq, Eq, Structural, Debug)]
pub enum AcceptErrorKind {
    Closed,
    Other,
}

/// The kind a raw bind status code maps to.
pub open spec fn spec_bind_kind(code: i16) -> BindErrorKind {
    if code == BIND_ERROR_TOO_MANY_BINDINGS {
        BindErrorKind::TooManyBindings
    } else if code == BIND_ERROR_ALREADY_BOUND {
        BindErrorKind::AlreadyBound
    } else if code == BIND_ERROR_INVALID_NAME {
        BindErrorKind::InvalidName
    } else if code == BIND_ERROR_NAME_TOO_LONG {
        BindErrorKind::NameTooLong
    } else if code == BIND_ERROR_UNSUPPORTED_PORT {
        BindErrorKind::UnsupportedPort
    } else {
        BindErrorKind::Other
    }
}

/// The kind a raw accept status code maps to.
pub open spec fn spec_accept_kind(code: i16) -> AcceptErrorKind {
    if code == ACCEPT_ERROR_NONE {
        AcceptErrorKind::Closed
    } else {
        AcceptErrorKind::Other
    }
}

/// A failed bind call, keeping the raw host status code.
#[derive(Clone, Copy, PartialEq, Eq, Structural, Debug)]
pub struct BindError {
    code: i16,
}

impl BindError {
    /// The raw status code this error carries.
    pub closed spec fn spec_code(&self) -> i16 {
        self.code
    }

    pub fn new(code: i16) -> (e: BindError)
        ensures
            e.spec_code() == code,
    {
        BindError { code }
    }

    /// The error for a host that does not implement the bind function
    /// (an empty reply).  It carries the sentinel code.
    pub fn unsupported_call() -> (e: BindError)
        ensures
            e.spec_code() == BIND_ERROR_NONE,
    {
        BindError { code: BIND_ERROR_NONE }
    }

    pub fn kind(&self) -> (k: BindErrorKind)
        ensures
            k == spec_bind_kind(self.spec_code()),
    {
        match self.code {
            1 => BindErrorKind::TooManyBindings,
            2 => BindErrorKind::AlreadyBound,
            3 => BindErrorKind::InvalidName,
            4 => BindErrorKind::NameTooLong,
            5 => BindErrorKind::UnsupportedPort,
            _ => BindErrorKind::Other,
        }
    }

    pub fn as_i16(&self) -> (c: i16)
        ensures
            c == self.spec_code(),
    {
        self.code
    }

    /// A short description: a fixed text for each named kind, the
    /// decimal status code otherwise.
    pub fn message(&self) -> (s: String)
        ensures
            s@ == spec_bind_message(self.spec_code()),
    {
        match self.kind() {
            BindErrorKind::TooManyBindings => String::from_str("too many bindings"),
            BindErrorKind::AlreadyBound => String::from_str("already bound"),
            BindErrorKind::InvalidName => String::from_str("invalid name"),
            BindErrorKind::NameTooLong => String::from_str("name too long"),
            BindErrorKind::UnsupportedPort => String::from_str("unsupported port"),
            BindErrorKind::Other => code_string(self.code),
        }
    }
}

/// What `BindError::message` returns for each status code.
pub open spec fn spec_bind_message(code: i16) -> Seq<char> {
    match spec_bind_kind(code) {
        BindErrorKind::TooManyBindings => "too many bindings"@,
        BindErrorKind::AlreadyBound => "already bound"@,
        BindErrorKind::InvalidName => "invalid name"@,
        BindErrorKind::NameTooLong => "name too long"@,
        BindErrorKind::UnsupportedPort => "unsupported port"@,
        BindErrorKind::Other => spec_ascii_chars(spec_signed_digits(code as int)),
    }
}

/// A failed accept call, keeping the raw host status code.
#[derive(Clone, Copy, PartialEq, Eq, Structural, Debug)]
pub struct AcceptError {
    code: i16,
}

impl AcceptError {
    /// The raw status code this error carries.
    pub closed spec fn spec_code(&self) -> i16 {
        self.code
    }

    pub fn new(code: i16) -> (e: AcceptError)
        ensures
            e.spec_code() == code,
    {
        AcceptError { code }
    }

    /// The error reported when the channel closes before a full record
    /// is delivered.  It carries the sentinel code.
    pub fn listener_closed() -> (e: AcceptError)
        ensures
            e.spec_code() == ACCEPT_ERROR_NONE,
    {
        AcceptError { code: ACCEPT_ERROR_NONE }
    }

    pub fn kind(&self) -> (k: AcceptErrorKind)
        ensures
            k == spec_accept_kind(self.spec_code()),
    {
        if self.code == ACCEPT_ERROR_NONE {
            AcceptErrorKind::Closed
        } else {
            AcceptErrorKind::Other
        }
    }

    pub fn as_i16(&self) -> (c: i16)
        ensures
            c == self.spec_code(),
    {
        self.code
    }

    /// A short description: a fixed text for the closed kind, the
    /// decimal status code otherwise.
    pub fn message(&self) -> (s: String)
        ensures
            s@ == spec_accept_message(self.spec_code()),
    {
        match self.kind() {
            AcceptErrorKind::Closed => String::from_str("closed"),
            AcceptErrorKind::Other => code_string(self.code),
        }
    }
}

/// What `AcceptError::message` returns for each status code.
pub open spec fn spec_accept_message(code: i16) -> Seq<char> {
    match spec_accept_kind(code) {
        AcceptErrorKind::Closed => "closed"@,
        AcceptErrorKind::Other => spec_ascii_chars(spec_signed_digits(code as int)),
    }
}

/// The decimal digits of a non-negative number, as ASCII bytes.
pub open spec fn spec_dec_digits(n: int) -> Seq<u8>
    recommends
        n >= 0,
    decreases n,
{
    if n < 10 {
        seq![(48 + n) as u8]
    } else {
        spec_dec_digits(n / 10) + seq![(48 + n % 10) as u8]
    }
}

/// The decimal rendering of a number, as ASCII bytes, with a leading
/// minus sign when it is negative.
pub open spec fn spec_signed_digits(n: int) -> Seq<u8> {
    if n < 0 {
        seq![45u8] + spec_dec_digits(-n)
    } else {
        spec_dec_digits(n)
    }
}

fn dec_digits(n: u32) -> (r: Vec<u8>)
    ensures
        r@ == spec_dec_digits(n as int),
        forall|i: int| 0 <= i < r@.len() ==> r@[i] < 128,
    decreases n,
{
    if n < 10 {
        let mut v: Vec<u8> = Vec::new();
        v.push(48 + n as u8);
        proof {
            assert(v@ =~= spec_dec_digits(n as int));
        }
        v
    } else {
        let mut v = dec_digits(n / 10);
        v.push(48 + (n % 10) as u8);
        proof {
            assert(v@ =~= spec_dec_digits(n as int));
        }
        v
    }
}

/// The decimal rendering of a status code as a string.
fn code_string(c: i16) -> (s: String)
    ensures
        s@ == spec_ascii_chars(spec_signed_digits(c as int)),
{
    let mut bytes: Vec<u8> = Vec::new();
    let magnitude: u32 = if c < 0 {
        bytes.push(45);
        let w: i32 = c as i32;
        (-w) as u32
    } else {
        c as u32
    };
    let mut digits = dec_digits(magnitude);
    bytes.append(&mut digits);
    proof {
        assert(bytes@ =~= spec_signed_digits(c as int));
    }
    ascii_to_string(bytes)
}

} // verus!
