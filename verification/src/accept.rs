//! Streaming accept decoder: accept records are delivered over a byte
//! stream in chunks of any size, are accumulated until exactly one
//! fixed-size record is present, and are decoded exactly once.
//!
//! Record layout (all fields little-endian): a signed 16-bit status
//! code, a 32-bit connection id, the packed peer address (four 32-bit
//! words), and the port.

use crate::addr::PackedAddr;
use crate::addr::PeerAddr;
use crate::addr::spec_unpack;
use crate::addr::unpack;
use crate::errors::ACCEPT_ERROR_NONE;
use crate::errors::AcceptError;
use crate::wire::read_i16;
use crate::wire::read_i32;
use crate::wire::read_u16;
use crate::wire::read_u32;
use crate::wire::signed16;
use crate::wire::signed32;
use crate::wire::word16;
use crate::wire::word32;
use vstd::prelude::*;

verus! {

/// The byte length of one accept record.  A record may be decoded only
/// once this many bytes have been accumulated; partial records are
/// never interpreted.
pub const RECORD_SIZE: usize = 24;

/// An accepted client connection: the id under which the channel hands
/// out the connection's byte stream, and the peer's address.
#[derive(Clone, Copy, PartialEq, Eq, Structural, Debug)]
pub struct Conn {
    /// The channel's id for the connection's bidirectional stream.
    pub conn_id: i32,
    /// The client connection's address.
    pub peer_addr: PeerAddr,
}

/// The status code of a record.
pub open spec fn spec_record_code(b: Seq<u8>) -> int {
    signed16(word16(b, 0))
}

/// The connection id of a record.
pub open spec fn spec_record_conn_id(b: Seq<u8>) -> int {
    signed32(word32(b, 2))
}

/// The packed peer address of a record.
pub open spec fn spec_record_packed(b: Seq<u8>) -> PackedAddr {
    PackedAddr {
        a: word32(b, 6) as u32,
        b: word32(b, 10) as u32,
        c: word32(b, 14) as u32,
        d: word32(b, 18) as u32,
        port: word16(b, 22) as u16,
    }
}

/// What one record means: a connection, or a refusal carrying the raw
/// status code.
pub enum RecordOutcome {
    Accepted { conn: Conn },
    Refused { code: i16 },
}

/// How a full record is read.  Code zero means success; any other code
/// is handed back as an error.
pub open spec fn spec_record_outcome(b: Seq<u8>) -> RecordOutcome {
    if spec_record_code(b) == 0 {
        RecordOutcome::Accepted {
            conn: Conn {
                conn_id: spec_record_conn_id(b) as i32,
                peer_addr: spec_unpack(spec_record_packed(b)),
            },
        }
    } else {
        RecordOutcome::Refused { code: spec_record_code(b) as i16 }
    }
}

/// Decode one full accept record.
pub fn decode_record(rec: &[u8]) -> (r: Result<Conn, AcceptError>)
    requires
        rec@.len() == RECORD_SIZE,
    ensures
        (match spec_record_outcome(rec@) {
            RecordOutcome::Accepted { conn } => r matches Ok(c) && c == conn,
            RecordOutcome::Refused { code } => (r matches Err(e) && e.spec_code() == code && code
                != 0),
        }),
{
    let code = read_i16(rec, 0);
    if code != 0 {
        return Err(AcceptError::new(code));
    }
    let conn_id = read_i32(rec, 2);
    let packed = PackedAddr {
        a: read_u32(rec, 6),
        b: read_u32(rec, 10),
        c: read_u32(rec, 14),
        d: read_u32(rec, 18),
        port: read_u16(rec, 22),
    };
    let peer_addr = unpack(&packed);
    Ok(Conn { conn_id, peer_addr })
}

/// The accumulator of one accept call.  It is created empty when the
/// call starts and is never carried over to a later call: the wire
/// protocol aligns record boundaries with call boundaries.
#[derive(Debug)]
pub struct AcceptCall {
    buf: Vec<u8>,
}

impl AcceptCall {
    /// The bytes delivered to this call so far.
    pub closed spec fn buffered(&self) -> Seq<u8> {
        self.buf@
    }

    /// Start a call with an empty accumulator.
    pub fn new() -> (c: AcceptCall)
        ensures
            c.buffered() == Seq::<u8>::empty(),
    {
        AcceptCall { buf: Vec::new() }
    }

    /// How many bytes are still wanted before the record is complete.
    pub fn remaining(&self) -> (r: usize)
        requires
            self.buffered().len() <= RECORD_SIZE,
        ensures
            r == RECORD_SIZE - self.buffered().len(),
    {
        RECORD_SIZE - self.buf.len()
    }

    /// Append one delivered chunk.  Returns the number of bytes still
    /// wanted, to be reported back to the delivering primitive as its
    /// backpressure bound; by that contract the primitive never hands
    /// this call bytes beyond the record, which the `requires` states.
    pub fn deliver(&mut self, chunk: &[u8]) -> (want: usize)
        requires
            old(self).buffered().len() + chunk@.len() <= RECORD_SIZE,
        ensures
            final(self).buffered() == old(self).buffered() + chunk@,
            want == RECORD_SIZE - final(self).buffered().len(),
    {
        self.buf.extend_from_slice(chunk);
        RECORD_SIZE - self.buf.len()
    }

    /// Whether a full record has been accumulated.
    pub fn is_complete(&self) -> (r: bool)
        ensures
            r == (self.buffered().len() == RECORD_SIZE),
    {
        self.buf.len() == RECORD_SIZE
    }

    /// End the call once the channel's delivery future has resolved:
    /// decode the record if it is complete.  If the channel closed
    /// before a full record accumulated, the outcome is the closed
    /// error and never any reading of the partial data.
    pub fn finish(self) -> (r: Result<Conn, AcceptError>)
        requires
            self.buffered().len() <= RECORD_SIZE,
        ensures
            self.buffered().len() == RECORD_SIZE ==> (match spec_record_outcome(self.buffered()) {
                RecordOutcome::Accepted { conn } => r matches Ok(c) && c == conn,
                RecordOutcome::Refused { code } => (r matches Err(e) && e.spec_code() == code
                    && code != 0),
            }),
            self.buffered().len() < RECORD_SIZE ==> (r matches Err(e) && e.spec_code()
                == ACCEPT_ERROR_NONE),
    {
        if self.buf.len() == RECORD_SIZE {
            decode_record(self.buf.as_slice())
        } else {
            Err(AcceptError::listener_closed())
        }
    }
}

/// The accumulator contents after a call that started empty has been
/// fed `chunks` in order: `AcceptCall::deliver` appends each chunk, so
/// the buffer grows as the fold of append over the chunks.
pub open spec fn spec_buffered_after(chunks: Seq<Seq<u8>>) -> Seq<u8> {
    chunks.flatten_alt()
}

/// Fragmentation invariance: the accumulated bytes, and with them the
/// decoded outcome of an accept call, depend only on the concatenation
/// of the delivered chunks, never on how the bytes were split across
/// deliveries.  In particular, a record delivered byte by byte, in two
/// halves, or all at once decodes identically.
pub proof fn lemma_fragmentation_invariance(frag_a: Seq<Seq<u8>>, frag_b: Seq<Seq<u8>>)
    requires
        frag_a.flatten() == frag_b.flatten(),
    ensures
        spec_buffered_after(frag_a) == spec_buffered_after(frag_b),
        spec_record_outcome(spec_buffered_after(frag_a)) == spec_record_outcome(
            spec_buffered_after(frag_b),
        ),
{
    frag_a.lemma_flatten_and_flatten_alt_are_equivalent();
    frag_b.lemma_flatten_and_flatten_alt_are_equivalent();
}

} // verus!
