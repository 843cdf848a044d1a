//! Per-stream inbound buffer.

use std::collections::VecDeque;

use bytes::Bytes;
use vstd::prelude::*;
use vstd::slice::slice_subrange;

use crate::buffers::{bytes_advance, bytes_as_slice, bytes_contents, bytes_len};

verus! {

/// The bytes of a sequence of chunks, one after the other.
pub open spec fn flatten(chunks: Seq<Bytes>) -> Seq<u8>
    decreases chunks.len(),
{
    if chunks.len() == 0 {
        Seq::empty()
    } else {
        bytes_contents(chunks[0]) + flatten(chunks.drop_first())
    }
}

proof fn lemma_flatten_push(chunks: Seq<Bytes>, b: Bytes)
    ensures
        flatten(chunks.push(b)) == flatten(chunks) + bytes_contents(b),
    decreases chunks.len(),
{
    if chunks.len() == 0 {
        let c = chunks.push(b);
        assert(c.drop_first() =~= Seq::<Bytes>::empty());
        assert(c[0] == b);
        assert(flatten(c.drop_first()) == Seq::<u8>::empty());
        assert(flatten(c) =~= bytes_contents(b));
        assert(flatten(chunks) == Seq::<u8>::empty());
    } else {
        assert(chunks.push(b).drop_first() =~= chunks.drop_first().push(b));
        lemma_flatten_push(chunks.drop_first(), b);
        assert(flatten(chunks.push(b)) =~= flatten(chunks) + bytes_contents(b));
    }
}

proof fn lemma_flatten_cons(b: Bytes, chunks: Seq<Bytes>)
    ensures
        flatten(seq![b] + chunks) == bytes_contents(b) + flatten(chunks),
{
    assert((seq![b] + chunks).drop_first() =~= chunks);
}

/// FIFO queue of `Bytes` chunks waiting to be consumed by the reader.
///
/// The session's reader pushes onto the back; the user's reads pop from the
/// front. Each chunk is consumed in place via `Buf::advance` so partial
/// reads do not require re-allocating.
#[derive(Debug)]
pub struct RecvBuffer {
    queue: VecDeque<Bytes>,
}

impl View for RecvBuffer {
    type V = Seq<u8>;

    /// The unread bytes, in the order they arrived.
    closed spec fn view(&self) -> Seq<u8> {
        flatten(self.queue@)
    }
}

impl RecvBuffer {
    pub fn new() -> (b: Self)
        ensures
            b@ == Seq::<u8>::empty(),
    {
        RecvBuffer { queue: VecDeque::new() }
    }

    /// Append a chunk; empty chunks are ignored.
    pub fn push(&mut self, chunk: Bytes)
        ensures
            final(self)@ == old(self)@ + bytes_contents(chunk),
    {
        if bytes_len(&chunk) != 0 {
            proof {
                lemma_flatten_push(self.queue@, chunk);
            }
            self.queue.push_back(chunk);
        } else {
            assert(old(self)@ + bytes_contents(chunk) =~= old(self)@);
        }
    }

    /// The number of unread bytes.
    pub fn len(&self) -> (n: usize)
        requires
            self@.len() <= usize::MAX,
        ensures
            n == self@.len(),
    {
        let n = self.queue.len();
        let mut i: usize = 0;
        let mut total: usize = 0;
        proof {
            assert(self.queue@.take(0) =~= Seq::<Bytes>::empty());
            assert(self.queue@.skip(0) =~= self.queue@);
        }
        while i < n
            invariant
                n == self.queue@.len(),
                i <= n,
                flatten(self.queue@) == flatten(self.queue@.take(i as int)) + flatten(
                    self.queue@.skip(i as int),
                ),
                total == flatten(self.queue@.take(i as int)).len(),
                flatten(self.queue@).len() <= usize::MAX,
            decreases n - i,
        {
            let chunk = &self.queue[i];
            proof {
                let q = self.queue@;
                lemma_flatten_push(q.take(i as int), q[i as int]);
                assert(q.take(i + 1) =~= q.take(i as int).push(q[i as int]));
                assert(q.skip(i as int).drop_first() =~= q.skip(i + 1));
            }
            total = total + bytes_len(chunk);
            i = i + 1;
        }
        proof {
            assert(self.queue@.take(n as int) =~= self.queue@);
        }
        total
    }

    /// Whether no unread byte is left.
    pub fn is_empty(&self) -> (b: bool)
        ensures
            b == (self@.len() == 0),
    {
        let n = self.queue.len();
        let mut i: usize = 0;
        proof {
            assert(self.queue@.take(0) =~= Seq::<Bytes>::empty());
            assert(self.queue@.skip(0) =~= self.queue@);
        }
        while i < n
            invariant
                n == self.queue@.len(),
                i <= n,
                flatten(self.queue@) == flatten(self.queue@.take(i as int)) + flatten(
                    self.queue@.skip(i as int),
                ),
                flatten(self.queue@.take(i as int)).len() == 0,
            decreases n - i,
        {
            let chunk = &self.queue[i];
            proof {
                let q = self.queue@;
                lemma_flatten_push(q.take(i as int), q[i as int]);
                assert(q.take(i + 1) =~= q.take(i as int).push(q[i as int]));
                assert(q.skip(i as int).drop_first() =~= q.skip(i + 1));
            }
            if bytes_len(chunk) != 0 {
                return false;
            }
            i = i + 1;
        }
        proof {
            assert(self.queue@.skip(n as int) =~= Seq::<Bytes>::empty());
            assert(self.queue@.take(n as int) =~= self.queue@);
        }
        true
    }

    /// Move up to `room` unread bytes, oldest first, onto the end of `out`.
    /// Returns the number of bytes moved.
    pub fn read_into(&mut self, out: &mut Vec<u8>, room: usize) -> (n: usize)
        ensures
            n == if room < old(self)@.len() {
                room as int
            } else {
                old(self)@.len() as int
            },
            final(out)@ == old(out)@ + old(self)@.take(n as int),
            final(self)@ == old(self)@.skip(n as int),
    {
        let ghost v0 = self@;
        let ghost out0 = out@;
        let mut total: usize = 0;
        while total < room
            invariant_except_break
                total <= room,
                total <= v0.len(),
                out@ == out0 + v0.take(total as int),
                flatten(self.queue@) == v0.skip(total as int),
            ensures
                total <= room,
                total <= v0.len(),
                total == room || total == v0.len(),
                out@ == out0 + v0.take(total as int),
                flatten(self.queue@) == v0.skip(total as int),
            decreases flatten(self.queue@).len() + self.queue@.len(),
        {
            let ghost q = self.queue@;
            let front_opt = self.queue.pop_front();
            let mut front = match front_opt {
                Some(f) => f,
                None => {
                    assert(v0.skip(total as int).len() == 0);
                    break;
                },
            };
            proof {
                assert(q.drop_first() =~= self.queue@);
            }
            let flen = bytes_len(&front);
            if flen == 0 {
                assert(flatten(self.queue@) =~= flatten(q));
                continue;
            }
            let want = room - total;
            let take = if want < flen {
                want
            } else {
                flen
            };
            let s = bytes_as_slice(&front);
            let head = slice_subrange(s, 0, take);
            let ghost before = out@;
            out.extend_from_slice(head);
            assert(out@ =~= before + s@.take(take as int));
            let ghost fc = bytes_contents(front);
            bytes_advance(&mut front, take);
            proof {
                let rest = flatten(self.queue@);
                let t = total as int;
                let k = take as int;
                assert(v0.skip(t) == fc + rest);
                assert forall|x: int| 0 <= x < t + k implies #[trigger] v0.take(t + k)[x] == (v0.take(t)
                    + fc.take(k))[x] by {
                    if x >= t {
                        assert(v0[x] == v0.skip(t)[x - t]);
                        assert((fc + rest)[x - t] == fc[x - t]);
                    }
                }
                assert(v0.take(t + k) =~= v0.take(t) + fc.take(k));
                assert forall|x: int| 0 <= x < v0.len() - (t + k) implies #[trigger] v0.skip(t + k)[x]
                    == (fc.skip(k) + rest)[x] by {
                    assert(v0[t + k + x] == v0.skip(t)[k + x]);
                    assert((fc + rest)[k + x] == (fc.skip(k) + rest)[x]);
                }
                assert(fc.skip(k) + rest =~= v0.skip(t + k));
            }
            total = total + take;
            if bytes_len(&front) != 0 {
                proof {
                    lemma_flatten_cons(front, self.queue@);
                }
                self.queue.push_front(front);
            }
        }
        total
    }
}

} // verus!
