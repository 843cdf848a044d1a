//! Read/write state of a stream.
//!
//! A stream lives on three independent boolean axes:
//!
//! * `read_open` — we may still observe inbound `Data`. Cleared by remote
//!   `FIN` / `RST`, by session shutdown, or by local reset.
//! * `write_open` — we may still emit outbound `Data`. Cleared by local
//!   `FIN` / `RST` or by session shutdown.
//! * `reset` — sticky bit indicating an abnormal termination. When set,
//!   read/write both surface `ConnectionReset` regardless of the open flags.
//!
//! Combining the axes covers the half-closed states without explicitly
//! enumerating them.

use vstd::prelude::*;

verus! {

#[derive(Debug)]
pub struct StreamState {
    read_open: bool,
    write_open: bool,
    reset: bool,
}

/// The three axes of a stream state, as plain values.
pub struct StreamStateView {
    pub read_open: bool,
    pub write_open: bool,
    pub reset: bool,
}

impl View for StreamState {
    type V = StreamStateView;

    closed spec fn view(&self) -> StreamStateView {
        StreamStateView {
            read_open: self.read_open,
            write_open: self.write_open,
            reset: self.reset,
        }
    }
}

impl StreamStateView {
    /// A reset stream has both halves closed.
    pub open spec fn wf(self) -> bool {
        self.reset ==> !self.read_open && !self.write_open
    }
}

impl StreamState {
    /// Both halves open, not reset.
    pub fn new() -> (s: Self)
        ensures
            s@ == (StreamStateView { read_open: true, write_open: true, reset: false }),
            s@.wf(),
    {
        StreamState { read_open: true, write_open: true, reset: false }
    }

    pub fn read_open(&self) -> (b: bool)
        ensures
            b == self@.read_open,
    {
        self.read_open
    }

    pub fn write_open(&self) -> (b: bool)
        ensures
            b == self@.write_open,
    {
        self.write_open
    }

    pub fn is_reset(&self) -> (b: bool)
        ensures
            b == self@.reset,
    {
        self.reset
    }

    /// Close the read half. Returns `true` the first time it transitions.
    pub fn close_read(&mut self) -> (first: bool)
        ensures
            first == old(self)@.read_open,
            final(self)@ == (StreamStateView { read_open: false, ..old(self)@ }),
            old(self)@.wf() ==> final(self)@.wf(),
    {
        let was = self.read_open;
        self.read_open = false;
        was
    }

    /// Close the write half. Returns `true` the first time it transitions.
    pub fn close_write(&mut self) -> (first: bool)
        ensures
            first == old(self)@.write_open,
            final(self)@ == (StreamStateView { write_open: false, ..old(self)@ }),
            old(self)@.wf() ==> final(self)@.wf(),
    {
        let was = self.write_open;
        self.write_open = false;
        was
    }

    /// Mark the stream as reset and close both halves. Returns `true` the
    /// first time the reset bit transitions from `false` to `true` so the
    /// caller can emit exactly one `RST` frame.
    pub fn mark_reset(&mut self) -> (first: bool)
        ensures
            first == !old(self)@.reset,
            final(self)@ == (StreamStateView { read_open: false, write_open: false, reset: true }),
            final(self)@.wf(),
    {
        let first = !self.reset;
        self.reset = true;
        self.read_open = false;
        self.write_open = false;
        first
    }
}

/// A change of a stream state.
pub enum StateOp {
    CloseRead,
    CloseWrite,
    MarkReset,
}

/// The state after one change.
pub open spec fn state_step(s: StreamStateView, op: StateOp) -> StreamStateView {
    match op {
        StateOp::CloseRead => StreamStateView { read_open: false, ..s },
        StateOp::CloseWrite => StreamStateView { write_open: false, ..s },
        StateOp::MarkReset => StreamStateView { read_open: false, write_open: false, reset: true },
    }
}

/// How many `mark_reset` calls of a run of changes report a first reset.
pub open spec fn resets_reported(s: StreamStateView, ops: Seq<StateOp>) -> nat
    decreases ops.len(),
{
    if ops.len() == 0 {
        0
    } else {
        (if ops[0] is MarkReset && !s.reset {
            1nat
        } else {
            0nat
        }) + resets_reported(state_step(s, ops[0]), ops.drop_first())
    }
}

/// Exactly one reset is reported over any run of changes: one when the
/// stream was not reset and the run resets it, none otherwise; so exactly
/// one `RST` goes out. No change clears the reset.
pub proof fn lemma_one_reset_reported(s: StreamStateView, ops: Seq<StateOp>)
    ensures
        resets_reported(s, ops) == if !s.reset && exists|i: int|
            0 <= i < ops.len() && #[trigger] ops[i] is MarkReset {
            1nat
        } else {
            0nat
        },
    decreases ops.len(),
{
    if ops.len() > 0 {
        let t = state_step(s, ops[0]);
        let rest = ops.drop_first();
        lemma_one_reset_reported(t, rest);
        if exists|i: int| 0 <= i < rest.len() && #[trigger] rest[i] is MarkReset {
            let i = choose|i: int| 0 <= i < rest.len() && #[trigger] rest[i] is MarkReset;
            assert(ops[i + 1] is MarkReset);
        }
        if exists|i: int| 0 <= i < ops.len() && #[trigger] ops[i] is MarkReset {
            let i = choose|i: int| 0 <= i < ops.len() && #[trigger] ops[i] is MarkReset;
            if i > 0 {
                assert(rest[i - 1] is MarkReset);
            }
        }
    }
}

} // verus!
