//! Credit-based send / receive windows.
//!
//! The number of bytes a stream may still transmit is granted by the peer
//! via `WindowUpdate` frames and consumed when `Data` frames go out; bytes
//! the application has read are returned to the peer in batches.

use vstd::prelude::*;

verus! {

/// Result of attempting to acquire credit from a [`SendWindow`].
#[derive(Debug, Clone, Copy, PartialEq, Eq, Structural)]
pub enum AcquireOutcome {
    /// Acquired `n` bytes of credit.
    Acquired(u32),
    /// Window is closed (stream gone) — caller should propagate an error.
    Closed,
    /// No credit currently available; the caller waits for a grant or close.
    Pending,
}

/// What acquiring `desired` bytes does to a window holding `available`
/// bytes of credit: the outcome and the credit left.
pub open spec fn acquire_result(available: u32, closed: bool, desired: u32) -> (AcquireOutcome, u32) {
    if closed {
        (AcquireOutcome::Closed, available)
    } else if available == 0 {
        (AcquireOutcome::Pending, 0)
    } else if desired < available {
        (AcquireOutcome::Acquired(desired), (available - desired) as u32)
    } else {
        (AcquireOutcome::Acquired(available), 0)
    }
}

/// Credit after a grant of `delta`, saturating at `u32::MAX`.
pub open spec fn granted(available: u32, delta: u32) -> u32 {
    if available + delta > u32::MAX {
        u32::MAX
    } else {
        (available + delta) as u32
    }
}

/// Outbound credit available to transmit on a stream.
#[derive(Debug)]
pub struct SendWindow {
    available: u32,
    closed: bool,
}

impl SendWindow {
    /// Bytes that may be transmitted now.
    pub closed spec fn spec_available(self) -> u32 {
        self.available
    }

    /// Whether the window has been closed.
    pub closed spec fn spec_closed(self) -> bool {
        self.closed
    }

    pub fn new(initial: u32) -> (w: Self)
        ensures
            w.spec_available() == initial,
            !w.spec_closed(),
    {
        SendWindow { available: initial, closed: false }
    }

    /// Bytes that may be transmitted now.
    pub fn available(&self) -> (n: u32)
        ensures
            n == self.spec_available(),
    {
        self.available
    }

    /// Whether the window has been closed.
    pub fn is_closed(&self) -> (b: bool)
        ensures
            b == self.spec_closed(),
    {
        self.closed
    }

    /// Attempt to consume up to `desired` bytes of credit: `Closed` once the
    /// window is closed, `Pending` when no credit is left, else the smaller
    /// of `desired` and the credit, which is deducted.
    pub fn poll_acquire(&mut self, desired: u32) -> (r: AcquireOutcome)
        ensures
            (r, final(self).spec_available()) == acquire_result(
                old(self).spec_available(),
                old(self).spec_closed(),
                desired,
            ),
            final(self).spec_closed() == old(self).spec_closed(),
            old(self).spec_closed() ==> r == AcquireOutcome::Closed && final(self).spec_available()
                == old(self).spec_available(),
            !old(self).spec_closed() && old(self).spec_available() == 0 ==> r
                == AcquireOutcome::Pending && final(self).spec_available() == 0,
            !old(self).spec_closed() && old(self).spec_available() > 0 ==> {
                let n = if desired < old(self).spec_available() {
                    desired
                } else {
                    old(self).spec_available()
                };
                &&& r == AcquireOutcome::Acquired(n)
                &&& final(self).spec_available() == old(self).spec_available() - n
            },
    {
        if self.closed {
            return AcquireOutcome::Closed;
        }
        match self.try_take(desired) {
            Some(n) => AcquireOutcome::Acquired(n),
            None => AcquireOutcome::Pending,
        }
    }

    /// Take up to `desired` bytes of credit; `None` when none is left.
    pub fn try_take(&mut self, desired: u32) -> (r: Option<u32>)
        ensures
            final(self).spec_closed() == old(self).spec_closed(),
            old(self).spec_available() == 0 ==> r is None && final(self).spec_available() == 0,
            old(self).spec_available() > 0 ==> {
                let n = if desired < old(self).spec_available() {
                    desired
                } else {
                    old(self).spec_available()
                };
                &&& r == Some(n)
                &&& final(self).spec_available() == old(self).spec_available() - n
            },
    {
        let cur = self.available;
        if cur == 0 {
            return None;
        }
        let take = if desired < cur {
            desired
        } else {
            cur
        };
        self.available = cur - take;
        Some(take)
    }

    /// Grant additional credit, saturating at `u32::MAX` so a hostile peer
    /// cannot wrap the window around. Returns whether a waiter should be
    /// woken (the grant was non-zero).
    pub fn grant(&mut self, delta: u32) -> (wake: bool)
        ensures
            final(self).spec_closed() == old(self).spec_closed(),
            wake == (delta != 0),
            final(self).spec_available() == granted(old(self).spec_available(), delta),
    {
        if delta == 0 {
            return false;
        }
        self.available = self.available.saturating_add(delta);
        true
    }

    /// Close the window: future `poll_acquire` calls return `Closed`.
    pub fn close(&mut self)
        ensures
            final(self).spec_closed(),
            final(self).spec_available() == old(self).spec_available(),
    {
        self.closed = true;
    }
}

/// Inbound credit accounting for a stream.
///
/// Tracks the running tally of bytes consumed by the application but not
/// yet acknowledged to the peer. When the tally reaches half the initial
/// window (at least one byte) the whole tally is handed back for a
/// `WindowUpdate` and the tally restarts at zero.
#[derive(Debug)]
pub struct RecvWindow {
    initial: u32,
    pending_credit: u32,
}

/// The tally at which consumed bytes are returned to the peer.
pub open spec fn recv_threshold(initial: u32) -> u32 {
    if initial / 2 >= 1 {
        (initial / 2) as u32
    } else {
        1
    }
}

/// What consuming `bytes` bytes does to a tally of `pending` bytes: the
/// credit handed back, if any, and the tally left. The tally saturates at
/// `u32::MAX`, the most one `WindowUpdate` can carry; once it reaches the
/// threshold all of it is handed back and it restarts at zero.
pub open spec fn consume_result(initial: u32, pending: u32, bytes: u32) -> (Option<u32>, u32) {
    let total = if pending + bytes > u32::MAX {
        u32::MAX
    } else {
        (pending + bytes) as u32
    };
    if bytes == 0 {
        (None, pending)
    } else if total >= recv_threshold(initial) {
        (Some(total), 0)
    } else {
        (None, total)
    }
}

impl RecvWindow {
    /// The window the stream started with.
    pub closed spec fn spec_initial(self) -> u32 {
        self.initial
    }

    /// Consumed bytes not yet returned to the peer.
    pub closed spec fn spec_pending(self) -> u32 {
        self.pending_credit
    }

    /// The tally stays below the threshold between calls.
    pub open spec fn wf(self) -> bool {
        self.spec_pending() < recv_threshold(self.spec_initial())
    }

    pub fn new(initial: u32) -> (w: Self)
        ensures
            w.wf(),
            w.spec_initial() == initial,
            w.spec_pending() == 0,
    {
        RecvWindow { initial, pending_credit: 0 }
    }

    /// The window the stream started with.
    pub fn initial(&self) -> (n: u32)
        ensures
            n == self.spec_initial(),
    {
        self.initial
    }

    /// Consumed bytes not yet returned to the peer.
    pub fn pending(&self) -> (n: u32)
        ensures
            n == self.spec_pending(),
    {
        self.pending_credit
    }

    /// Record that the application consumed `bytes` bytes.
    ///
    /// Returns `Some(delta)` when the accumulated tally reaches the
    /// threshold, having reset the tally to zero; `delta` is everything
    /// consumed since the last update (saturated at `u32::MAX`).
    pub fn on_consume(&mut self, bytes: u32) -> (r: Option<u32>)
        requires
            old(self).wf(),
        ensures
            final(self).wf(),
            final(self).spec_initial() == old(self).spec_initial(),
            (r, final(self).spec_pending()) == consume_result(
                old(self).spec_initial(),
                old(self).spec_pending(),
                bytes,
            ),
            // Credit is conserved while the tally does not overflow: what
            // stays pending plus what is handed back is what was pending plus
            // what was consumed.
            old(self).spec_pending() + bytes <= u32::MAX ==> final(self).spec_pending() + (match r {
                Some(d) => d as int,
                None => 0,
            }) == old(self).spec_pending() + bytes,
    {
        if bytes == 0 {
            return None;
        }
        let half = self.initial / 2;
        let threshold = if half >= 1 {
            half
        } else {
            1
        };
        let total = self.pending_credit.saturating_add(bytes);
        if total >= threshold {
            self.pending_credit = 0;
            return Some(total);
        }
        self.pending_credit = total;
        None
    }
}

} // verus!
