//! Stream identifier types and the per-session allocator.

use vstd::prelude::*;

verus! {

/// Unique identifier of a logical stream within a session.
pub type StreamId = u32;

/// Endpoint role of a session.
#[derive(Debug, Clone, Copy, PartialEq, Eq, Structural)]
pub enum Role {
    /// Initiator side: allocates odd stream ids starting at 1.
    Client,
    /// Acceptor side: allocates even stream ids starting at 2.
    Server,
}

impl Role {
    /// The first id this role allocates.
    pub open spec fn spec_first_id(self) -> StreamId {
        match self {
            Role::Client => 1,
            Role::Server => 2,
        }
    }

    /// Whether `id` belongs to the id space of this role: odd ids for the
    /// client, non-zero even ids for the server.
    pub open spec fn spec_owns(self, id: StreamId) -> bool {
        match self {
            Role::Client => id % 2 == 1,
            Role::Server => id != 0 && id % 2 == 0,
        }
    }

    pub fn first_id(self) -> (id: StreamId)
        ensures
            id == self.spec_first_id(),
            self.spec_owns(id),
    {
        match self {
            Role::Client => 1,
            Role::Server => 2,
        }
    }

    /// Whether the given id was allocated by *this* role.
    pub fn owns(self, id: StreamId) -> (b: bool)
        ensures
            b == self.spec_owns(id),
    {
        match self {
            Role::Client => id % 2 == 1,
            Role::Server => id != 0 && id % 2 == 0,
        }
    }
}

/// Parity-respecting stream id allocator.
///
/// Client-allocated ids are odd (1, 3, 5, ...) and server-allocated ids are
/// even (2, 4, 6, ...); id `0` is reserved for session-scoped frames such as
/// `Ping` and `GoAway`.
#[derive(Debug)]
pub struct StreamIdAllocator {
    role: Role,
    next: u32,
}

impl StreamIdAllocator {
    /// The role whose ids this allocator hands out.
    pub closed spec fn role(self) -> Role {
        self.role
    }

    /// The id that the next successful allocation returns.
    pub closed spec fn next_id(self) -> u32 {
        self.next
    }

    /// Every id still to be handed out belongs to the role.
    pub closed spec fn wf(self) -> bool {
        self.role.spec_owns(self.next)
    }

    pub fn new(role: Role) -> (a: Self)
        ensures
            a.wf(),
            a.role() == role,
            a.next_id() == role.spec_first_id(),
    {
        Self { role, next: role.first_id() }
    }

    /// Allocate the next stream id, advancing by 2. Returns `None` once the
    /// 32-bit id space is exhausted, leaving the allocator unchanged.
    pub fn allocate(&mut self) -> (r: Option<StreamId>)
        requires
            old(self).wf(),
        ensures
            final(self).wf(),
            final(self).role() == old(self).role(),
            (r, final(self).next_id()) == spec_allocate(old(self).next_id()),
            // Every id handed out belongs to the role, and is below every id
            // handed out later.
            r matches Some(id) ==> old(self).role().spec_owns(id) && id < final(self).next_id(),
            final(self).next_id() >= old(self).next_id(),
            old(self).next_id() + 2 <= u32::MAX ==> {
                &&& r == Some(old(self).next_id())
                &&& final(self).next_id() == old(self).next_id() + 2
            },
            old(self).next_id() + 2 > u32::MAX ==> {
                &&& r is None
                &&& final(self).next_id() == old(self).next_id()
            },
    {
        match self.next.checked_add(2) {
            Some(n) => {
                let cur = self.next;
                self.next = n;
                Some(cur)
            },
            None => None,
        }
    }
}

/// One allocation from an allocator whose next id is `next`: the id handed
/// out, if any, and the next id afterwards.
pub open spec fn spec_allocate(next: u32) -> (Option<StreamId>, u32) {
    if next + 2 <= u32::MAX {
        (Some(next), (next + 2) as u32)
    } else {
        (None, next)
    }
}

/// The next id of an allocator of `role` after `n` allocations.
pub open spec fn next_after(role: Role, n: nat) -> u32
    decreases n,
{
    if n == 0 {
        role.spec_first_id()
    } else {
        spec_allocate(next_after(role, (n - 1) as nat)).1
    }
}

/// What the allocation numbered `n` (from zero) of a fresh allocator of
/// `role` hands out.
pub open spec fn nth_allocation(role: Role, n: nat) -> Option<StreamId> {
    spec_allocate(next_after(role, n)).0
}

/// The allocator's history in closed form: the `n`-th allocation hands out
/// `first_id + 2n` as long as that leaves room for two more, and `None`
/// from then on; every id handed out belongs to the role.
pub proof fn lemma_allocation_closed_form(role: Role, n: nat)
    ensures
        role.spec_first_id() + 2 * n + 2 <= u32::MAX ==> {
            &&& next_after(role, n) == role.spec_first_id() + 2 * n
            &&& nth_allocation(role, n) == Some((role.spec_first_id() + 2 * n) as u32)
            &&& role.spec_owns((role.spec_first_id() + 2 * n) as u32)
        },
        role.spec_first_id() + 2 * n + 2 > u32::MAX ==> nth_allocation(role, n) is None,
        role.spec_owns(next_after(role, n)),
        next_after(role, n) <= role.spec_first_id() + 2 * n,
    decreases n,
{
    if n > 0 {
        lemma_allocation_closed_form(role, (n - 1) as nat);
        if role.spec_first_id() + 2 * n + 2 > u32::MAX {
            // The next id stops at the last one with no room for two more.
            let p = next_after(role, (n - 1) as nat);
            if p + 2 <= u32::MAX {
                assert(role.spec_first_id() + 2 * (n - 1) + 2 <= u32::MAX || p
                    <= role.spec_first_id() + 2 * (n - 1));
            }
        }
    }
}

/// Ids are never repeated: two different allocations of one allocator that
/// both hand out an id hand out different ids, and once an allocation fails
/// every later one fails too.
pub proof fn lemma_allocations_distinct(role: Role, i: nat, j: nat)
    requires
        i < j,
    ensures
        nth_allocation(role, i) is Some && nth_allocation(role, j) is Some ==> nth_allocation(
            role,
            i,
        ) != nth_allocation(role, j),
        nth_allocation(role, i) is None ==> nth_allocation(role, j) is None,
{
    lemma_allocation_closed_form(role, i);
    lemma_allocation_closed_form(role, j);
}

} // verus!
