use vstd::prelude::*;
use vstd::string::StringExecFns;

use crate::flags::SubmissionFlags;
use crate::slots::{lemma_mod_wrap, lemma_ring_push, ring_view};

verus! {

/// Operation code of a no-op.
pub const IORING_OP_NOP: u8 = 0;

/// Operation code of a read at an offset.
pub const IORING_OP_READ: u8 = 22;

/// Operation code of a write at an offset.
pub const IORING_OP_WRITE: u8 = 23;

/// One request descriptor: the fields of the kernel's submission entry that this
/// library writes, each under the kernel's name and of its width.
#[derive(Clone, Copy, Debug, PartialEq, Eq, Structural)]
pub struct SQE {
    pub opcode: u8,
    pub flags: u8,
    pub ioprio: u16,
    pub fd: i32,
    pub off: u64,
    pub addr: u64,
    pub len: u32,
    pub rw_flags: u32,
    pub user_data: u64,
}

impl SQE {
    /// The all-zero descriptor.
    pub open spec fn zeroed() -> SQE {
        SQE { opcode: 0, flags: 0, ioprio: 0, fd: 0, off: 0, addr: 0, len: 0, rw_flags: 0, user_data: 0 }
    }

    /// The descriptor after an operation with these operands is written over `self`: the
    /// other fields keep what they held.
    pub open spec fn with_operation(self, opcode: u8, fd: i32, addr: u64, len: u32, off: u64) -> SQE {
        SQE { opcode, fd, addr, len, off, ..self }
    }

    pub fn new() -> (r: SQE)
        ensures
            r == SQE::zeroed(),
    {
        SQE { opcode: 0, flags: 0, ioprio: 0, fd: 0, off: 0, addr: 0, len: 0, rw_flags: 0, user_data: 0 }
    }

    /// The descriptor's name, as text.
    pub fn to_string(&self) -> (r: String)
        ensures
            r@ == "SQE"@,
    {
        String::from_str("SQE")
    }

    /// Zeroes every field, so that nothing of an earlier use of the slot remains.
    pub fn clear(&mut self)
        ensures
            *final(self) == SQE::zeroed(),
    {
        *self = SQE::new();
    }

    /// A read of `len` bytes at `offset` of `fd` into the buffer at address `addr`.
    pub fn prepare_read(&mut self, addr: u64, len: u32, fd: i32, offset: u64)
        ensures
            *final(self) == old(self).with_operation(IORING_OP_READ, fd, addr, len, offset),
    {
        self.opcode = IORING_OP_READ;
        self.fd = fd;
        self.off = offset;
        self.addr = addr;
        self.len = len;
    }

    /// An operation that does nothing; its completion carries only the token.
    pub fn prepare_nop(&mut self)
        ensures
            *final(self) == old(self).with_operation(IORING_OP_NOP, -1i32, 0, 0, 0),
    {
        self.opcode = IORING_OP_NOP;
        self.fd = -1;
        self.off = 0;
        self.addr = 0;
        self.len = 0;
    }

    /// A write of `len` bytes from the buffer at address `addr` to `fd` at `offset`.
    pub fn prepare_write(&mut self, addr: u64, len: u32, fd: i32, offset: u64)
        ensures
            *final(self) == old(self).with_operation(IORING_OP_WRITE, fd, addr, len, offset),
    {
        self.opcode = IORING_OP_WRITE;
        self.fd = fd;
        self.off = offset;
        self.addr = addr;
        self.len = len;
    }

    /// Sets the correlation token that the completion of this request will carry.
    pub fn set_user_data(&mut self, token: u64)
        ensures
            *final(self) == (SQE { user_data: token, ..*old(self) }),
    {
        self.user_data = token;
    }

    /// Sets the per-entry flags.
    pub fn set_flags(&mut self, flags: SubmissionFlags)
        ensures
            *final(self) == (SQE { flags: flags@ as u8, ..*old(self) }),
    {
        self.flags = flags.bits() as u8;
    }
}

/// The producer side of the submission ring: a fixed array of slots in which entries
/// are prepared, oldest first from `head`, and handed to the kernel in that order.
pub struct SubmissionQueue {
    slots: Vec<SQE>,
    head: usize,
    len: usize,
}

impl View for SubmissionQueue {
    /// The entries prepared and not yet handed to the kernel, oldest first.
    type V = Seq<SQE>;

    closed spec fn view(&self) -> Seq<SQE> {
        ring_view(self.slots@, self.head as int, self.len as nat)
    }
}

impl SubmissionQueue {
    /// The slot array is never empty, `head` indexes it, and no more entries are
    /// pending than there are slots.
    pub closed spec fn wf(&self) -> bool {
        &&& 0 < self.slots@.len()
        &&& self.head < self.slots@.len()
        &&& self.len <= self.slots@.len()
    }

    /// The number of slots.
    pub closed spec fn spec_capacity(&self) -> nat {
        self.slots@.len()
    }

    /// Whether every slot holds a pending entry.
    pub open spec fn is_full(&self) -> bool {
        self@.len() == self.spec_capacity()
    }

    /// An empty ring of `capacity` slots.
    pub fn new(capacity: u32) -> (r: SubmissionQueue)
        requires
            capacity > 0,
        ensures
            r.wf(),
            r.spec_capacity() == capacity,
            r@ == Seq::<SQE>::empty(),
    {
        let mut slots: Vec<SQE> = Vec::new();
        while slots.len() < capacity as usize
            invariant
                slots@.len() <= capacity,
            decreases capacity - slots@.len(),
        {
            slots.push(SQE::new());
        }
        let r = SubmissionQueue { slots, head: 0, len: 0 };
        assert(r@ =~= Seq::<SQE>::empty());
        r
    }

    pub fn capacity(&self) -> (r: usize)
        requires
            self.wf(),
        ensures
            r == self.spec_capacity(),
    {
        self.slots.len()
    }

    /// The number of entries prepared and not yet handed to the kernel.
    pub fn len(&self) -> (r: usize)
        requires
            self.wf(),
        ensures
            r == self@.len(),
    {
        self.len
    }

    /// Reserves the next free slot, zeroes it and lends it out to be filled in; `None`
    /// when every slot holds a pending entry.
    pub fn prepare_sqe(&mut self) -> (r: Option<&mut SQE>)
        requires
            old(self).wf(),
        ensures
            final(self).wf(),
            final(self).spec_capacity() == old(self).spec_capacity(),
            r is None <==> old(self).is_full(),
            match r {
                None => final(self)@ == old(self)@,
                Some(e) => *e == SQE::zeroed() && final(self)@ == old(self)@.push(*final(e)),
            },
    {
        let cap = self.slots.len();
        if self.len == cap {
            return None;
        }
        let idx: usize = if self.head < cap - self.len {
            self.head + self.len
        } else {
            self.len - (cap - self.head)
        };
        proof {
            lemma_mod_wrap(self.head + self.len, cap as int);
            assert forall|x: SQE| ring_view(self.slots@.update(idx as int, SQE::zeroed()).update(idx as int, x), self.head as int, (self.len + 1) as nat)
                == ring_view(self.slots@, self.head as int, self.len as nat).push(x) by {
                assert(self.slots@.update(idx as int, SQE::zeroed()).update(idx as int, x) =~= self.slots@.update(idx as int, x));
                lemma_ring_push(self.slots@, self.head as int, self.len as nat, x);
            }
        }
        self.slots.set(idx, SQE::new());
        self.len = self.len + 1;
        Some(&mut self.slots[idx])
    }

    /// Hands over every pending entry, oldest first, for the kernel to read; the ring is
    /// then empty and each slot free for reuse.
    pub fn take_pending(&mut self) -> (r: Vec<SQE>)
        requires
            old(self).wf(),
        ensures
            final(self).wf(),
            final(self).spec_capacity() == old(self).spec_capacity(),
            r@ == old(self)@,
            final(self)@ == Seq::<SQE>::empty(),
    {
        let cap = self.slots.len();
        let mut r: Vec<SQE> = Vec::new();
        let mut idx: usize = self.head;
        let mut i: usize = 0;
        proof {
            lemma_mod_wrap(self.head as int, cap as int);
        }
        while i < self.len
            invariant
                self.wf(),
                cap == self.slots@.len(),
                i <= self.len,
                idx < cap,
                idx == (self.head + i) % (cap as int),
                r@ == self@.subrange(0, i as int),
            decreases self.len - i,
        {
            r.push(self.slots[idx]);
            proof {
                lemma_mod_wrap(self.head + i + 1, cap as int);
                lemma_mod_wrap(self.head + i, cap as int);
                assert(r@ =~= self@.subrange(0, i + 1));
            }
            idx = if idx + 1 == cap { 0 } else { idx + 1 };
            i = i + 1;
        }
        assert(r@ =~= self@);
        self.head = idx;
        self.len = 0;
        assert(self@ =~= Seq::<SQE>::empty());
        r
    }
}

} // verus!
