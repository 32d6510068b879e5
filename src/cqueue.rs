use vstd::prelude::*;

use crate::flags::CompletionFlags;
use crate::slots::{lemma_mod_wrap, lemma_ring_pop, lemma_ring_push, ring_view};

verus! {

/// A snapshot of one finished operation: the token of its request, its result (a
/// negated system error number when negative) and its flags.
#[derive(Clone, Copy, Debug, PartialEq, Eq, Structural)]
pub struct CQE {
    user_data: u64,
    res: i32,
    flags: CompletionFlags,
}

impl View for CQE {
    /// Token, result and flag bits.
    type V = (u64, i32, u32);

    closed spec fn view(&self) -> (u64, i32, u32) {
        (self.user_data, self.res, self.flags@)
    }
}

impl CQE {
    /// The snapshot of a completion as the kernel wrote it; flag bits that name no
    /// flag are dropped.
    pub fn new(user_data: u64, res: i32, flags: u32) -> (r: CQE)
        ensures
            r@ == (user_data, res, flags & CompletionFlags::ALL),
    {
        CQE { user_data, res, flags: CompletionFlags::from_bits_truncate(flags) }
    }

    /// The correlation token of the request.
    pub fn user_data(&self) -> (r: u64)
        ensures
            r == self@.0,
    {
        self.user_data
    }

    /// The operation's result: a count or value when not negative, else the negated
    /// system error number.
    pub fn result(&self) -> (r: i32)
        ensures
            r == self@.1,
    {
        self.res
    }

    pub fn flags(&self) -> (r: CompletionFlags)
        ensures
            r@ == self@.2,
    {
        self.flags
    }
}

/// The consumer side of the completion ring: completions arrive at the tail and are
/// observed, and retired in the same step, from the head.
pub struct CompletionQueue {
    slots: Vec<CQE>,
    head: usize,
    len: usize,
    retired: Ghost<nat>,
}

impl View for CompletionQueue {
    /// The completions that have arrived and are not yet observed, oldest first.
    type V = Seq<CQE>;

    closed spec fn view(&self) -> Seq<CQE> {
        ring_view(self.slots@, self.head as int, self.len as nat)
    }
}

impl CompletionQueue {
    pub closed spec fn wf(&self) -> bool {
        &&& 0 < self.slots@.len()
        &&& self.head < self.slots@.len()
        &&& self.len <= self.slots@.len()
    }

    pub closed spec fn spec_capacity(&self) -> nat {
        self.slots@.len()
    }

    /// How many completions have been observed and retired so far; the next one
    /// observed is the one that arrived at this position.
    pub closed spec fn retired(&self) -> nat {
        self.retired@
    }

    /// An empty ring of `capacity` slots.
    pub fn new(capacity: u32) -> (r: CompletionQueue)
        requires
            capacity > 0,
        ensures
            r.wf(),
            r.spec_capacity() == capacity,
            r@ == Seq::<CQE>::empty(),
            r.retired() == 0,
    {
        let mut slots: Vec<CQE> = Vec::new();
        while slots.len() < capacity as usize
            invariant
                slots@.len() <= capacity,
            decreases capacity - slots@.len(),
        {
            slots.push(CQE::new(0, 0, 0));
        }
        let r = CompletionQueue { slots, head: 0, len: 0, retired: Ghost(0) };
        assert(r@ =~= Seq::<CQE>::empty());
        r
    }

    pub fn capacity(&self) -> (r: usize)
        requires
            self.wf(),
        ensures
            r == self.spec_capacity(),
    {
        self.slots.len()
    }

    /// The number of completions ready to be observed.
    pub fn len(&self) -> (r: usize)
        requires
            self.wf(),
        ensures
            r == self@.len(),
    {
        self.len
    }

    /// Takes in a completion that the kernel posted; `false`, with nothing changed, when
    /// every slot holds a completion not yet observed.
    pub fn deliver(&mut self, cqe: CQE) -> (r: bool)
        requires
            old(self).wf(),
        ensures
            final(self).wf(),
            final(self).spec_capacity() == old(self).spec_capacity(),
            final(self).retired() == old(self).retired(),
            r == (old(self)@.len() < old(self).spec_capacity()),
            r ==> final(self)@ == old(self)@.push(cqe),
            !r ==> final(self)@ == old(self)@,
    {
        let cap = self.slots.len();
        if self.len == cap {
            return false;
        }
        proof {
            lemma_mod_wrap(self.head + self.len, cap as int);
            lemma_ring_push(self.slots@, self.head as int, self.len as nat, cqe);
        }
        let idx: usize = if self.head < cap - self.len {
            self.head + self.len
        } else {
            self.len - (cap - self.head)
        };
        self.slots.set(idx, cqe);
        self.len = self.len + 1;
        true
    }

    /// Returns the oldest completion not yet observed and retires its slot in the same
    /// step, so that it is never returned again; `None` when there is none.
    pub fn peek_for_cqe(&mut self) -> (r: Option<CQE>)
        requires
            old(self).wf(),
        ensures
            final(self).wf(),
            final(self).spec_capacity() == old(self).spec_capacity(),
            r is None <==> old(self)@.len() == 0,
            r is None ==> *final(self) == *old(self),
            r matches Some(c) ==> {
                &&& c == old(self)@[0]
                &&& final(self)@ == old(self)@.drop_first()
                &&& final(self).retired() == old(self).retired() + 1
            },
    {
        if self.len == 0 {
            return None;
        }
        let cap = self.slots.len();
        let c = self.slots[self.head];
        proof {
            lemma_ring_pop(self.slots@, self.head as int, self.len as nat);
            lemma_mod_wrap(self.head + 1, cap as int);
            lemma_mod_wrap(self.head as int, cap as int);
        }
        self.head = if self.head + 1 == cap { 0 } else { self.head + 1 };
        self.len = self.len - 1;
        self.retired = Ghost(self.retired@ + 1);
        Some(c)
    }
}

} // verus!
