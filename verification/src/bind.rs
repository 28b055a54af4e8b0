//! Call codec: the bind request sent over the capability channel and
//! the reply that comes back.
//!
//! Request layout: one function-tag byte, then the record-size tag as a
//! 16-bit word, the port, a presence byte for the optional name prefix,
//! and, when present, the prefix length and its UTF-8 bytes.  All
//! multi-byte fields are little-endian.
//!
//! Reply layout: a signed 16-bit status code; on success (code zero) a
//! port, a 32-bit listen id, and the host name as ASCII bytes to the
//! end of the reply.

use crate::errors::BIND_ERROR_INVALID_ACCEPT_SIZE;
use crate::errors::BIND_ERROR_NONE;
use crate::errors::BindError;
use crate::text::ascii_to_string;
use crate::text::spec_ascii_chars;
use crate::wire::le16;
use crate::wire::read_i16;
use crate::wire::read_i32;
use crate::wire::read_u16;
use crate::wire::push_u16;
use crate::wire::signed16;
use crate::wire::signed32;
use crate::wire::word16;
use crate::wire::word32;
use vstd::prelude::*;
use vstd::utf8::encode_utf8;

verus! {

/// The function tag of a bind request.
pub const FUNCTION_BIND_TLS: u8 = 1;

/// The record-size tag this library always requests.  Its value is the
/// byte length of one accept record.
pub const ACCEPT_SIZE_BASIC: u16 = 24;

/// The longest name prefix the request's length field can carry.
pub const NAME_LEN_MAX: usize = 65535;

/// Binding options.
pub struct BindOptions<'a> {
    /// Listening port.
    pub port: u16,
    /// Server name prefix.
    pub prefix: Option<&'a str>,
}

impl<'a> BindOptions<'a> {
    /// Default binding options.
    pub fn new(port: u16) -> (r: Self)
        ensures
            r.port == port,
            r.prefix is None,
    {
        Self { port, prefix: None }
    }

    /// Opt for a more descriptive server name.
    pub fn with_prefix(prefix: &'a str, port: u16) -> (r: Self)
        ensures
            r.port == port,
            r.prefix == Some(prefix),
    {
        Self { port, prefix: Some(prefix) }
    }
}

/// Listener address assigned by the host.
pub struct Binding {
    /// Fully-qualified DNS name of the server.
    pub hostname: String,
    /// The listening port.
    pub port: u16,
}

/// The bytes of a bind request for `port`, with an optional name
/// prefix.
pub open spec fn spec_bind_request(port: u16, name: Option<Seq<u8>>) -> Seq<u8> {
    seq![FUNCTION_BIND_TLS] + le16(ACCEPT_SIZE_BASIC) + le16(port) + (match name {
        None => seq![0u8],
        Some(n) => seq![1u8] + le16(n.len() as u16) + n,
    })
}

/// Encode a bind request from a port and optional prefix bytes.
pub fn encode_bind_request(port: u16, name: Option<&[u8]>) -> (r: Vec<u8>)
    requires
        (name matches Some(n) ==> n@.len() <= NAME_LEN_MAX),
    ensures
        r@ == spec_bind_request(
            port,
            (match name {
                Some(n) => Some(n@),
                None => None,
            }),
        ),
{
    let mut out: Vec<u8> = Vec::new();
    out.push(FUNCTION_BIND_TLS);
    push_u16(&mut out, ACCEPT_SIZE_BASIC);
    push_u16(&mut out, port);
    match name {
        None => {
            out.push(0);
            proof {
                assert(out@ =~= spec_bind_request(port, None));
            }
        },
        Some(n) => {
            out.push(1);
            push_u16(&mut out, n.len() as u16);
            out.extend_from_slice(n);
            proof {
                assert(out@ =~= spec_bind_request(port, Some(n@)));
            }
        },
    }
    out
}

/// Encode the bind request for the given options.  Returns `None` only
/// when the prefix's UTF-8 encoding is too long for the request's
/// length field.
pub fn encode_bind_call(opt: &BindOptions) -> (r: Option<Vec<u8>>)
    ensures
        (match opt.prefix {
            None => (r matches Some(v) && v@ == spec_bind_request(opt.port, None)),
            Some(p) => if encode_utf8(p@).len() <= NAME_LEN_MAX {
                r matches Some(v) && v@ == spec_bind_request(opt.port, Some(encode_utf8(p@)))
            } else {
                r is None
            },
        }),
{
    match opt.prefix {
        None => Some(encode_bind_request(opt.port, None)),
        Some(p) => {
            let b = p.as_bytes();
            if b.len() <= NAME_LEN_MAX {
                Some(encode_bind_request(opt.port, Some(b)))
            } else {
                None
            }
        },
    }
}

/// A decoded bind reply.
pub enum BindReply {
    /// The host bound the listener: its address and the id of the
    /// receive stream that will deliver accept records.
    Bound { binding: Binding, listen_id: i32 },
    /// The host refused the bind; recoverable.
    Refused { error: BindError },
    /// The host refused the record-size tag.  The tag is fixed by this
    /// library, so this is a library/host contract violation, not a
    /// recoverable error: the caller must treat it as fatal.
    RefusedAcceptSize,
}

/// The status code of a reply.
pub open spec fn spec_reply_code(r: Seq<u8>) -> int {
    signed16(word16(r, 0))
}

/// The bound port of a successful reply.
pub open spec fn spec_reply_port(r: Seq<u8>) -> int {
    word16(r, 2)
}

/// The listen id of a successful reply.
pub open spec fn spec_reply_listen_id(r: Seq<u8>) -> int {
    signed32(word32(r, 4))
}

/// The host-name bytes of a successful reply.
pub open spec fn spec_reply_host(r: Seq<u8>) -> Seq<u8> {
    r.subrange(8, r.len() as int)
}

/// Whether every byte of `s` is ASCII.
pub open spec fn spec_all_ascii(s: Seq<u8>) -> bool {
    forall|i: int| 0 <= i < s.len() ==> s[i] < 128
}

/// What a reply means.  Spec-level counterpart of `BindReply`, holding
/// the host name as raw bytes.
pub enum ReplyMeaning {
    Bound { host: Seq<u8>, port: u16, listen_id: i32 },
    Refused { code: i16 },
    RefusedAcceptSize,
}

/// How a reply is read.  A reply too short to carry its fields, or one
/// whose host name is not ASCII, counts as garbled and is normalized to
/// the "operation unsupported" refusal (the sentinel code) rather than
/// a decode fault.
pub open spec fn spec_reply_meaning(r: Seq<u8>) -> ReplyMeaning {
    if r.len() < 2 {
        ReplyMeaning::Refused { code: BIND_ERROR_NONE }
    } else if spec_reply_code(r) == BIND_ERROR_INVALID_ACCEPT_SIZE {
        ReplyMeaning::RefusedAcceptSize
    } else if spec_reply_code(r) != 0 {
        ReplyMeaning::Refused { code: spec_reply_code(r) as i16 }
    } else if r.len() >= 8 && spec_all_ascii(spec_reply_host(r)) {
        ReplyMeaning::Bound {
            host: spec_reply_host(r),
            port: spec_reply_port(r) as u16,
            listen_id: spec_reply_listen_id(r) as i32,
        }
    } else {
        ReplyMeaning::Refused { code: BIND_ERROR_NONE }
    }
}

/// Decode a bind reply.
pub fn decode_bind_reply(reply: &[u8]) -> (r: BindReply)
    ensures
        (match spec_reply_meaning(reply@) {
            ReplyMeaning::Bound { host, port, listen_id } => r matches BindReply::Bound {
                binding,
                listen_id: lid,
            } && binding.hostname@ == spec_ascii_chars(host) && binding.port == port && lid
                == listen_id,
            ReplyMeaning::Refused { code } => (r matches BindReply::Refused { error }
                && error.spec_code() == code),
            ReplyMeaning::RefusedAcceptSize => r is RefusedAcceptSize,
        }),
{
    if reply.len() < 2 {
        return BindReply::Refused { error: BindError::unsupported_call() };
    }
    let code = read_i16(reply, 0);
    if code == BIND_ERROR_INVALID_ACCEPT_SIZE {
        return BindReply::RefusedAcceptSize;
    }
    if code != 0 {
        return BindReply::Refused { error: BindError::new(code) };
    }
    if reply.len() < 8 {
        return BindReply::Refused { error: BindError::unsupported_call() };
    }
    let port = read_u16(reply, 2);
    let listen_id = read_i32(reply, 4);
    let mut host: Vec<u8> = Vec::new();
    let mut i: usize = 8;
    while i < reply.len()
        invariant
            8 <= i <= reply@.len(),
            spec_reply_code(reply@) == 0,
            port == spec_reply_port(reply@),
            listen_id == spec_reply_listen_id(reply@),
            host@ == reply@.subrange(8, i as int),
            forall|j: int| 8 <= j < i ==> reply@[j] < 128,
        decreases reply@.len() - i,
    {
        let b = reply[i];
        if b >= 128 {
            proof {
                assert(spec_reply_host(reply@)[i - 8] == reply@[i as int]);
                assert(!spec_all_ascii(spec_reply_host(reply@)));
            }
            return BindReply::Refused { error: BindError::unsupported_call() };
        }
        host.push(b);
        proof {
            assert(host@ =~= reply@.subrange(8, i + 1));
        }
        i = i + 1;
    }
    proof {
        assert(host@ =~= spec_reply_host(reply@));
    }
    let hostname = ascii_to_string(host);
    BindReply::Bound { binding: Binding { hostname, port }, listen_id }
}

} // verus!
