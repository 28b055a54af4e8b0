//! Listener, acceptor and the accept state machine.
//!
//! A `Listener` is created from a successful bind and can accept
//! directly; `split` turns it into an `Acceptor`, the receive-only
//! view.  The close-only capability produced by the same split is the
//! channel's own close handle, held by the surrounding application:
//! closing it makes the channel's delivery future resolve early, which
//! an accept call observes as the closed outcome.
//!
//! An accept call runs in steps: `begin_accept` hands out the fresh
//! accumulator (or refuses at once when the closed outcome has already
//! been observed), the channel driver feeds it via
//! `AcceptCall::deliver`, and `finish_accept` decodes the result.  Once
//! any call has resolved as closed, every later call resolves as
//! closed as well.

use crate::accept::AcceptCall;
use crate::accept::Conn;
use crate::accept::RECORD_SIZE;
use crate::accept::RecordOutcome;
use crate::accept::spec_record_outcome;
use crate::bind::Binding;
use crate::errors::ACCEPT_ERROR_NONE;
use crate::errors::AcceptError;
use vstd::prelude::*;

verus! {

/// The per-channel accept state: whether the closed outcome has been
/// observed.
pub struct AcceptEngine {
    closed: bool,
}

/// Whether `r` is the closed outcome.
pub open spec fn spec_is_closed_result(r: Result<Conn, AcceptError>) -> bool {
    r matches Err(e) && e.spec_code() == ACCEPT_ERROR_NONE
}

/// What `finish_accept` returns for a call that accumulated `buffered`
/// bytes: the decoded record when it is complete, the closed error when
/// the channel ended first.
pub open spec fn spec_finish_result(buffered: Seq<u8>, r: Result<Conn, AcceptError>) -> bool {
    if buffered.len() == RECORD_SIZE {
        match spec_record_outcome(buffered) {
            RecordOutcome::Accepted { conn } => r matches Ok(c) && c == conn,
            RecordOutcome::Refused { code } => r matches Err(e) && e.spec_code() == code && code
                != 0,
        }
    } else {
        spec_is_closed_result(r)
    }
}

impl AcceptEngine {
    /// Whether some accept call has already resolved as closed.
    pub closed spec fn is_closed(&self) -> bool {
        self.closed
    }

    pub fn new() -> (e: AcceptEngine)
        ensures
            !e.is_closed(),
    {
        AcceptEngine { closed: false }
    }

    /// Start an accept call.  Once the closed outcome has been
    /// observed the call resolves as closed at once, without touching
    /// the channel.
    pub fn begin(&self) -> (r: Result<AcceptCall, AcceptError>)
        ensures
            self.is_closed() ==> (r matches Err(e) && e.spec_code() == ACCEPT_ERROR_NONE),
            !self.is_closed() ==> (r matches Ok(call) && call.buffered() == Seq::<u8>::empty()),
    {
        if self.closed {
            Err(AcceptError::listener_closed())
        } else {
            Ok(AcceptCall::new())
        }
    }

    /// End an accept call whose delivery future has resolved.  A
    /// closed outcome — the channel ended before a full record — is
    /// remembered, so that every later call also resolves as closed.
    pub fn finish(&mut self, call: AcceptCall) -> (r: Result<Conn, AcceptError>)
        requires
            call.buffered().len() <= RECORD_SIZE,
        ensures
            old(self).is_closed() ==> spec_is_closed_result(r),
            !old(self).is_closed() ==> spec_finish_result(call.buffered(), r),
            final(self).is_closed() == (old(self).is_closed() || spec_is_closed_result(r)),
    {
        if self.closed {
            return Err(AcceptError::listener_closed());
        }
        let r = call.finish();
        match &r {
            Err(e) => {
                if e.as_i16() == ACCEPT_ERROR_NONE {
                    self.closed = true;
                }
            },
            _ => {},
        }
        r
    }
}

/// Connection listener: the bound address and the accept state of the
/// channel's receive stream.
pub struct Listener {
    /// The host-assigned listener address.
    pub addr: Binding,
    engine: AcceptEngine,
}

impl Listener {
    /// Whether some accept call on this listener has resolved as
    /// closed.
    pub closed spec fn is_closed(&self) -> bool {
        self.engine.is_closed()
    }

    /// The listener's address, for use in contracts.
    pub closed spec fn spec_addr(&self) -> Binding {
        self.addr
    }

    /// A listener for a freshly bound address.
    pub fn new(addr: Binding) -> (l: Listener)
        ensures
            l.spec_addr() == addr,
            !l.is_closed(),
    {
        Listener { addr, engine: AcceptEngine::new() }
    }

    /// Start an accept call; see `AcceptEngine::begin`.
    pub fn begin_accept(&self) -> (r: Result<AcceptCall, AcceptError>)
        ensures
            self.is_closed() ==> (r matches Err(e) && e.spec_code() == ACCEPT_ERROR_NONE),
            !self.is_closed() ==> (r matches Ok(call) && call.buffered() == Seq::<u8>::empty()),
    {
        self.engine.begin()
    }

    /// End an accept call; see `AcceptEngine::finish`.
    pub fn finish_accept(&mut self, call: AcceptCall) -> (r: Result<Conn, AcceptError>)
        requires
            call.buffered().len() <= RECORD_SIZE,
        ensures
            final(self).spec_addr() == old(self).spec_addr(),
            old(self).is_closed() ==> spec_is_closed_result(r),
            !old(self).is_closed() ==> spec_finish_result(call.buffered(), r),
            final(self).is_closed() == (old(self).is_closed() || spec_is_closed_result(r)),
    {
        self.engine.finish(call)
    }

    /// Detach the accepting functionality.  The listener is consumed;
    /// the returned acceptor is the receive-only view of the same
    /// channel.  The paired close-only capability is the channel's own
    /// close handle, which the surrounding application keeps.
    pub fn split(self) -> (a: Acceptor)
        ensures
            a.spec_addr() == self.spec_addr(),
            a.is_closed() == self.is_closed(),
    {
        Acceptor { addr: self.addr, engine: self.engine }
    }
}

/// Connection acceptor: the receive-only view of a listener, created
/// only by `Listener::split`.
pub struct Acceptor {
    /// The host-assigned listener address.
    pub addr: Binding,
    engine: AcceptEngine,
}

impl Acceptor {
    /// Whether some accept call on this acceptor has resolved as
    /// closed.
    pub closed spec fn is_closed(&self) -> bool {
        self.engine.is_closed()
    }

    /// The acceptor's address, for use in contracts.
    pub closed spec fn spec_addr(&self) -> Binding {
        self.addr
    }

    /// Start an accept call; see `AcceptEngine::begin`.
    pub fn begin_accept(&self) -> (r: Result<AcceptCall, AcceptError>)
        ensures
            self.is_closed() ==> (r matches Err(e) && e.spec_code() == ACCEPT_ERROR_NONE),
            !self.is_closed() ==> (r matches Ok(call) && call.buffered() == Seq::<u8>::empty()),
    {
        self.engine.begin()
    }

    /// End an accept call; see `AcceptEngine::finish`.
    pub fn finish_accept(&mut self, call: AcceptCall) -> (r: Result<Conn, AcceptError>)
        requires
            call.buffered().len() <= RECORD_SIZE,
        ensures
            final(self).spec_addr() == old(self).spec_addr(),
            old(self).is_closed() ==> spec_is_closed_result(r),
            !old(self).is_closed() ==> spec_finish_result(call.buffered(), r),
            final(self).is_closed() == (old(self).is_closed() || spec_is_closed_result(r)),
    {
        self.engine.finish(call)
    }
}

} // verus!
