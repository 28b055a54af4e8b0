//! Guest-side protocol layer for a host-provided TLS connection listener.
//!
//! The library encodes bind requests for, and decodes the replies and
//! streamed accept records of, a capability channel that performs TLS
//! listening on the guest's behalf.  All wire logic is verified; the
//! channel itself (one-shot call/response and streamed byte delivery)
//! is driven by the surrounding application.

mod accept;
mod addr;
mod bind;
mod errors;
mod listener;
mod text;
mod wire;

pub use accept::AcceptCall;
pub use accept::Conn;
pub use accept::RECORD_SIZE;
pub use accept::RecordOutcome;
pub use accept::decode_record;
pub use accept::lemma_fragmentation_invariance;
pub use accept::spec_buffered_after;
pub use accept::spec_record_code;
pub use accept::spec_record_conn_id;
pub use accept::spec_record_outcome;
pub use accept::spec_record_packed;
pub use addr::PackedAddr;
pub use addr::PeerAddr;
pub use addr::hi16;
pub use addr::join32;
pub use addr::lemma_pack_unpack_v4;
pub use addr::lemma_pack_unpack_v6;
pub use addr::lo16;
pub use addr::pack;
pub use addr::spec_pack;
pub use addr::spec_unpack;
pub use addr::unpack;
pub use bind::ACCEPT_SIZE_BASIC;
pub use bind::BindOptions;
pub use bind::BindReply;
pub use bind::Binding;
pub use bind::FUNCTION_BIND_TLS;
pub use bind::NAME_LEN_MAX;
pub use bind::ReplyMeaning;
pub use bind::decode_bind_reply;
pub use bind::encode_bind_call;
pub use bind::encode_bind_request;
pub use bind::spec_all_ascii;
pub use bind::spec_bind_request;
pub use bind::spec_reply_code;
pub use bind::spec_reply_host;
pub use bind::spec_reply_listen_id;
pub use bind::spec_reply_meaning;
pub use bind::spec_reply_port;
pub use errors::ACCEPT_ERROR_NONE;
pub use errors::AcceptError;
pub use errors::AcceptErrorKind;
pub use errors::BIND_ERROR_ALREADY_BOUND;
pub use errors::BIND_ERROR_INVALID_ACCEPT_SIZE;
pub use errors::BIND_ERROR_INVALID_NAME;
pub use errors::BIND_ERROR_NAME_TOO_LONG;
pub use errors::BIND_ERROR_NONE;
pub use errors::BIND_ERROR_TOO_MANY_BINDINGS;
pub use errors::BIND_ERROR_UNSUPPORTED_PORT;
pub use errors::BindError;
pub use errors::BindErrorKind;
pub use errors::spec_accept_kind;
pub use errors::spec_accept_message;
pub use errors::spec_bind_kind;
pub use errors::spec_bind_message;
pub use errors::spec_dec_digits;
pub use errors::spec_signed_digits;
pub use listener::AcceptEngine;
pub use listener::Acceptor;
pub use listener::Listener;
pub use listener::spec_finish_result;
pub use listener::spec_is_closed_result;
pub use text::spec_ascii_chars;
pub use wire::le16;
pub use wire::push_u16;
pub use wire::read_i16;
pub use wire::read_i32;
pub use wire::read_u16;
pub use wire::read_u32;
pub use wire::signed16;
pub use wire::signed32;
pub use wire::word16;
pub use wire::word32;
