//! The keepalive decisions: periodic `Ping`s and the timeout that ends a
//! session whose peer stopped answering.

use vstd::prelude::*;

use crate::error::ErrorCode;

use super::control::next_nonce;

verus! {

/// The keepalive's memory: the last nonce sent and the reply awaited, if
/// any.
#[derive(Debug, Clone, Copy, PartialEq, Eq, Structural)]
pub struct KeepaliveState {
    pub nonce: u32,
    pub awaiting: Option<u32>,
}

/// What happened since the last step.
#[derive(Debug, Clone, Copy, PartialEq, Eq, Structural)]
pub enum KeepaliveEvent {
    /// The keepalive interval elapsed.
    Tick,
    /// A `Ping` reply carrying this opaque value arrived.
    Pong(u32),
    /// The reply deadline passed.
    DeadlinePassed,
}

/// What the runtime must do.
#[derive(Debug, Clone, Copy, PartialEq, Eq, Structural)]
pub enum KeepaliveAction {
    /// Send a `Ping` carrying this nonce.
    SendPing(u32),
    /// Shut the session down with this code.
    Shutdown(ErrorCode),
    /// Nothing.
    Nothing,
}

/// The nonce after `nonce`: one more, wrapping.
pub open spec fn spec_next_nonce(nonce: u32) -> u32 {
    if nonce == u32::MAX {
        0
    } else {
        (nonce + 1) as u32
    }
}

/// One keepalive step, as a function of the state and the event.
pub open spec fn spec_keepalive_step(s: KeepaliveState, ev: KeepaliveEvent) -> (
    KeepaliveState,
    KeepaliveAction,
) {
    match ev {
        KeepaliveEvent::Tick => {
            let n = spec_next_nonce(s.nonce);
            (KeepaliveState { nonce: n, awaiting: Some(n) }, KeepaliveAction::SendPing(n))
        },
        KeepaliveEvent::Pong(v) => if s.awaiting == Some(v) {
            (KeepaliveState { awaiting: None, ..s }, KeepaliveAction::Nothing)
        } else {
            (s, KeepaliveAction::Nothing)
        },
        KeepaliveEvent::DeadlinePassed => if s.awaiting is Some {
            (s, KeepaliveAction::Shutdown(ErrorCode::Timeout))
        } else {
            (s, KeepaliveAction::Nothing)
        },
    }
}

impl KeepaliveState {
    /// Nothing sent yet.
    pub fn new() -> (s: Self)
        ensures
            s == (KeepaliveState { nonce: 0, awaiting: None }),
    {
        KeepaliveState { nonce: 0, awaiting: None }
    }
}

/// Decide the keepalive's next move.
///
/// A tick sends a `Ping` with the next nonce and awaits its reply. A reply
/// clears the wait exactly when it carries the awaited nonce; any other
/// reply changes nothing. A deadline passing while a reply is awaited shuts
/// the session down with [`ErrorCode::Timeout`].
pub fn keepalive_step(s: KeepaliveState, ev: KeepaliveEvent) -> (r: (
    KeepaliveState,
    KeepaliveAction,
))
    ensures
        r == spec_keepalive_step(s, ev),
        ev is Tick ==> {
            &&& r.0.nonce == (if s.nonce == u32::MAX {
                0
            } else {
                s.nonce + 1
            })
            &&& r.0.awaiting == Some(r.0.nonce)
            &&& r.1 == KeepaliveAction::SendPing(r.0.nonce)
        },
        ev is Pong ==> r.0.nonce == s.nonce && r.1 == KeepaliveAction::Nothing,
        ev is DeadlinePassed ==> r.0 == s,
{
    match ev {
        KeepaliveEvent::Tick => {
            let n = next_nonce(s.nonce);
            (KeepaliveState { nonce: n, awaiting: Some(n) }, KeepaliveAction::SendPing(n))
        },
        KeepaliveEvent::Pong(v) => {
            let matches = match s.awaiting {
                Some(w) => w == v,
                None => false,
            };
            if matches {
                (KeepaliveState { nonce: s.nonce, awaiting: None }, KeepaliveAction::Nothing)
            } else {
                (s, KeepaliveAction::Nothing)
            }
        },
        KeepaliveEvent::DeadlinePassed => {
            if s.awaiting.is_some() {
                (s, KeepaliveAction::Shutdown(ErrorCode::Timeout))
            } else {
                (s, KeepaliveAction::Nothing)
            }
        },
    }
}

/// The state after a run of replies.
pub open spec fn after_pongs(s: KeepaliveState, pongs: Seq<u32>) -> KeepaliveState
    decreases pongs.len(),
{
    if pongs.len() == 0 {
        s
    } else {
        after_pongs(
            spec_keepalive_step(s, KeepaliveEvent::Pong(pongs[0])).0,
            pongs.drop_first(),
        )
    }
}

/// A missing reply shuts the session down: after a tick, when none of the
/// replies that arrive before the deadline carries the nonce just sent, the
/// deadline yields `Shutdown(Timeout)`; when one does, it yields nothing.
pub proof fn lemma_missed_reply_shuts_down(s: KeepaliveState, pongs: Seq<u32>)
    ensures
        ({
            let (t, a) = spec_keepalive_step(s, KeepaliveEvent::Tick);
            let n = spec_next_nonce(s.nonce);
            &&& a == KeepaliveAction::SendPing(n)
            &&& !pongs.contains(n) ==> spec_keepalive_step(
                after_pongs(t, pongs),
                KeepaliveEvent::DeadlinePassed,
            ).1 == KeepaliveAction::Shutdown(ErrorCode::Timeout)
            &&& pongs.contains(n) ==> spec_keepalive_step(
                after_pongs(t, pongs),
                KeepaliveEvent::DeadlinePassed,
            ).1 == KeepaliveAction::Nothing
        }),
{
    let n = spec_next_nonce(s.nonce);
    let t = KeepaliveState { nonce: n, awaiting: Some(n) };
    lemma_pongs_awaiting(t, pongs);
}

/// Replies never touch the nonce: after any run of them it is the one the
/// last tick sent.
pub proof fn lemma_pongs_keep_nonce(s: KeepaliveState, pongs: Seq<u32>)
    ensures
        after_pongs(s, pongs).nonce == s.nonce,
    decreases pongs.len(),
{
    if pongs.len() > 0 {
        lemma_pongs_keep_nonce(spec_keepalive_step(s, KeepaliveEvent::Pong(pongs[0])).0, pongs.drop_first());
    }
}

/// Successive ticks send successive nonces, whatever replies arrive
/// between them: a tick sends one more than the nonce before it (wrapping
/// at `u32::MAX`), and the next tick, after any replies, one more again.
pub proof fn lemma_ticks_send_successive_nonces(s: KeepaliveState, pongs: Seq<u32>)
    ensures
        ({
            let (t, a1) = spec_keepalive_step(s, KeepaliveEvent::Tick);
            let (_, a2) = spec_keepalive_step(after_pongs(t, pongs), KeepaliveEvent::Tick);
            &&& a1 matches KeepaliveAction::SendPing(x) && x == (if s.nonce == u32::MAX {
                0
            } else {
                s.nonce + 1
            })
            &&& a1 matches KeepaliveAction::SendPing(x) && a2 matches KeepaliveAction::SendPing(y)
                && y == (if x == u32::MAX {
                0
            } else {
                x + 1
            })
        }),
{
    let t = spec_keepalive_step(s, KeepaliveEvent::Tick).0;
    lemma_pongs_keep_nonce(t, pongs);
}

/// While replies arrive, the awaited nonce is cleared exactly by the first
/// reply that carries it, and stays cleared.
proof fn lemma_pongs_awaiting(t: KeepaliveState, pongs: Seq<u32>)
    requires
        t.awaiting is Some,
    ensures
        !pongs.contains(t.awaiting->0) ==> after_pongs(t, pongs).awaiting == t.awaiting,
        pongs.contains(t.awaiting->0) ==> after_pongs(t, pongs).awaiting is None,
    decreases pongs.len(),
{
    if pongs.len() > 0 {
        let u = spec_keepalive_step(t, KeepaliveEvent::Pong(pongs[0])).0;
        let rest = pongs.drop_first();
        assert(forall|x: u32| pongs.contains(x) <==> (x == pongs[0] || rest.contains(x))) by {
            assert forall|x: u32| pongs.contains(x) implies (x == pongs[0] || rest.contains(x)) by {
                let k = choose|k: int| 0 <= k < pongs.len() && pongs[k] == x;
                if k > 0 {
                    assert(rest[k - 1] == x);
                }
            }
            assert forall|x: u32| rest.contains(x) implies pongs.contains(x) by {
                let k = choose|k: int| 0 <= k < rest.len() && rest[k] == x;
                assert(pongs[k + 1] == x);
            }
            assert(pongs.contains(pongs[0])) by {
                assert(pongs[0] == pongs[0]);
            }
        }
        if u.awaiting is Some {
            lemma_pongs_awaiting(u, rest);
        } else {
            lemma_pongs_cleared(u, rest);
        }
    }
}

/// Once nothing is awaited, replies leave it so.
proof fn lemma_pongs_cleared(t: KeepaliveState, pongs: Seq<u32>)
    requires
        t.awaiting is None,
    ensures
        after_pongs(t, pongs).awaiting is None,
    decreases pongs.len(),
{
    if pongs.len() > 0 {
        lemma_pongs_cleared(spec_keepalive_step(t, KeepaliveEvent::Pong(pongs[0])).0, pongs.drop_first());
    }
}

} // verus!
