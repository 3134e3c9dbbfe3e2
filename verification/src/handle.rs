//! The live connection handle as the pool sees it: which address it is bound
//! to and where it stands in the `Live -> (Invalid | Broken)` lifecycle.
//! The transport and driver state that goes with it lives with the caller;
//! everything recorded here is plain data, so probing the recorded state
//! never performs I/O.

use vstd::prelude::*;

use crate::error::Error;

verus! {

/// Lifecycle state of a handle. `Live` is the only usable state; there is no
/// way back once a handle leaves it.
#[derive(Clone, Copy, Debug, PartialEq, Eq, Structural)]
pub enum HandleStatus {
    /// Open and handshaked; usable by the pool.
    Live,
    /// A liveness probe failed; the pool must discard the handle.
    Invalid,
    /// A fatal transport failure was recorded during use; discard.
    Broken,
}

/// Mathematical image of a [`Handle`].
pub ghost struct HandleView {
    pub host: Seq<char>,
    pub port: u16,
    pub status: HandleStatus,
}

/// What a probe outcome does to a handle: a successful probe changes
/// nothing, a failed one moves it to `Invalid`.
pub open spec fn after_probe(h: HandleView, probe_ok: bool) -> HandleView {
    if probe_ok {
        h
    } else {
        HandleView { status: HandleStatus::Invalid, ..h }
    }
}

/// Probing a healthy handle is idempotent: a successful probe leaves the
/// handle exactly as it was and still live, so a second probe meets the
/// same handle — however many successful probes run, the handle never
/// moves.
pub proof fn lemma_probe_idempotent(h: HandleView)
    requires
        h.status == HandleStatus::Live,
    ensures
        after_probe(h, true) == h,
        after_probe(after_probe(h, true), true) == h,
        after_probe(h, true).status == HandleStatus::Live,
{
}

/// What this crate records about one open, handshaked connection: the
/// address the transport is bound to and the last known lifecycle state.
#[derive(Debug)]
pub struct Handle {
    /// Host the connection ended up bound to (the redirect target, after a
    /// followed redirect).
    pub host: String,
    /// Port the connection ended up bound to.
    pub port: u16,
    /// Last known lifecycle state.
    pub status: HandleStatus,
}

impl View for Handle {
    type V = HandleView;

    open spec fn view(&self) -> HandleView {
        HandleView { host: self.host@, port: self.port, status: self.status }
    }
}

impl Handle {
    /// A freshly created handle, bound to `host:port` and live.
    pub fn new_live(host: String, port: u16) -> (r: Self)
        ensures
            r@.host == host@,
            r@.port == port,
            r@.status == HandleStatus::Live,
    {
        Handle { host, port, status: HandleStatus::Live }
    }

    /// Whether the handle is still usable.
    pub fn is_live(&self) -> (r: bool)
        ensures
            r == (self@.status == HandleStatus::Live),
    {
        matches!(self.status, HandleStatus::Live)
    }

    /// The fast eviction check the pool runs between checkouts. It reads the
    /// recorded state and nothing else — no probe, no I/O — so it reports
    /// `true` only for a handle some earlier operation already condemned.
    pub fn has_broken(&self) -> (r: bool)
        ensures
            r == (self@.status != HandleStatus::Live),
    {
        !matches!(self.status, HandleStatus::Live)
    }

    /// Records the outcome of a liveness probe that the caller ran over the
    /// handle's transport. A successful probe leaves the handle exactly as it
    /// was, still live, so probing a healthy handle is idempotent. A failed
    /// probe moves the handle to `Invalid` — never to be returned as usable —
    /// and hands the probe's error back unchanged.
    pub fn record_probe(&mut self, probe: Result<(), Error>) -> (r: Result<(), Error>)
        requires
            old(self)@.status == HandleStatus::Live,
        ensures
            final(self)@ == after_probe(old(self)@, probe is Ok),
            match probe {
                Ok(()) => r is Ok && *final(self) == *old(self),
                Err(e) => r == Err::<(), Error>(e),
            },
    {
        match probe {
            Ok(()) => Ok(()),
            Err(e) => {
                self.status = HandleStatus::Invalid;
                Err(e)
            },
        }
    }

    /// Records a fatal, driver-surfaced transport failure so that the next
    /// [`Handle::has_broken`] reports it without a round-trip.
    pub fn mark_broken(&mut self)
        ensures
            final(self)@.status == HandleStatus::Broken,
            final(self)@.host == old(self)@.host,
            final(self)@.port == old(self)@.port,
    {
        self.status = HandleStatus::Broken;
    }
}

} // verus!
