use vstd::prelude::*;

verus! {

/// Setup options of a ring: the bit set that the ring-creation call reads.
#[derive(Clone, Copy, Debug, PartialEq, Eq, Structural)]
pub struct SetupFlags {
    bits: u32,
}

impl View for SetupFlags {
    type V = u32;

    closed spec fn view(&self) -> u32 {
        self.bits
    }
}

impl SetupFlags {
    /// Completions are busy-polled instead of interrupt driven.
    pub const IORING_SETUP_IOPOLL: u32 = 0x1;
    /// A kernel thread polls the submission ring.
    pub const IORING_SETUP_SQPOLL: u32 = 0x2;
    /// The polling thread is pinned to a chosen CPU.
    pub const IORING_SETUP_SQ_AFF: u32 = 0x4;
    /// The caller chooses the completion ring size.
    pub const IORING_SETUP_CQSIZE: u32 = 0x8;
    /// Ring sizes above the maximum are clamped rather than refused.
    pub const IORING_SETUP_CLAMP: u32 = 0x10;
    /// Attach to an existing worker pool.
    pub const IORING_SETUP_ATTACH_WQ: u32 = 0x20;
    /// The ring starts disabled.
    pub const IORING_SETUP_R_DISABLED: u32 = 0x40;
    /// Submission continues past an entry that fails.
    pub const IORING_SETUP_SUBMIT_ALL: u32 = 0x80;
    /// Task work runs cooperatively, without forcing a reschedule.
    pub const IORING_SETUP_COOP_TASKRUN: u32 = 0x100;
    /// Report pending task work in the submission ring's flags.
    pub const IORING_SETUP_TASKRUN_FLAG: u32 = 0x200;
    /// Submission entries are 128 bytes.
    pub const IORING_SETUP_SQE128: u32 = 0x400;
    /// Completion entries are 32 bytes.
    pub const IORING_SETUP_CQE32: u32 = 0x800;
    /// Only one task submits requests.
    pub const IORING_SETUP_SINGLE_ISSUER: u32 = 0x1000;
    /// Task work is deferred until completions are waited for.
    pub const IORING_SETUP_DEFER_TASKRUN: u32 = 0x2000;
    /// The caller provides the memory of the rings.
    pub const IORING_SETUP_NO_MMAP: u32 = 0x4000;
    /// Only a registered index of the ring descriptor is returned.
    pub const IORING_SETUP_REGISTERED_FD_ONLY: u32 = 0x8000;
    /// No indirection through the submission index array.
    pub const IORING_SETUP_NO_SQARRAY: u32 = 0x10000;
    /// Every bit that names a flag.
    pub const ALL: u32 = 0x0001_ffff;

    /// The set with no flag.
    pub fn empty() -> (r: SetupFlags)
        ensures
            r@ == 0,
    {
        SetupFlags { bits: 0 }
    }

    /// The set of every known flag.
    pub fn all() -> (r: SetupFlags)
        ensures
            r@ == Self::ALL,
    {
        SetupFlags { bits: Self::ALL }
    }

    /// The raw bits.
    pub fn bits(&self) -> (r: u32)
        ensures
            r == self@,
    {
        self.bits
    }

    /// The set with these bits, if every one of them names a flag.
    pub fn from_bits(bits: u32) -> (r: Option<SetupFlags>)
        ensures
            (bits & Self::ALL == bits) <==> r.is_some(),
            r matches Some(f) ==> f@ == bits,
    {
        if bits & Self::ALL == bits {
            Some(SetupFlags { bits })
        } else {
            None
        }
    }

    /// The set of the flags named among these bits; the other bits are dropped.
    pub fn from_bits_truncate(bits: u32) -> (r: SetupFlags)
        ensures
            r@ == bits & Self::ALL,
    {
        SetupFlags { bits: bits & Self::ALL }
    }

    pub fn is_empty(&self) -> (r: bool)
        ensures
            r == (self@ == 0),
    {
        self.bits == 0
    }

    /// Whether every flag of `other` is in this set.
    pub fn contains(&self, other: SetupFlags) -> (r: bool)
        ensures
            r == (self@ & other@ == other@),
    {
        self.bits & other.bits == other.bits
    }

    /// Whether the two sets share a flag.
    pub fn intersects(&self, other: SetupFlags) -> (r: bool)
        ensures
            r == (self@ & other@ != 0),
    {
        self.bits & other.bits != 0
    }

    pub fn union(self, other: SetupFlags) -> (r: SetupFlags)
        ensures
            r@ == self@ | other@,
    {
        SetupFlags { bits: self.bits | other.bits }
    }

    pub fn intersection(self, other: SetupFlags) -> (r: SetupFlags)
        ensures
            r@ == self@ & other@,
    {
        SetupFlags { bits: self.bits & other.bits }
    }

    pub fn insert(&mut self, other: SetupFlags)
        ensures
            final(self)@ == old(self)@ | other@,
    {
        self.bits = self.bits | other.bits;
    }

    pub fn remove(&mut self, other: SetupFlags)
        ensures
            final(self)@ == old(self)@ & !other@,
    {
        self.bits = self.bits & !other.bits;
    }
}

impl Default for SetupFlags {
    /// No flag requested.
    fn default() -> (r: SetupFlags)
        ensures
            r@ == 0,
    {
        SetupFlags { bits: 0 }
    }
}

/// Capabilities of the kernel, as reported when a ring is created.
#[derive(Clone, Copy, Debug, PartialEq, Eq, Structural)]
pub struct SetupFeatures {
    bits: u32,
}

impl View for SetupFeatures {
    type V = u32;

    closed spec fn view(&self) -> u32 {
        self.bits
    }
}

impl SetupFeatures {
    pub const IORING_FEAT_SINGLE_MMAP: u32 = 0x1;
    pub const IORING_FEAT_NODROP: u32 = 0x2;
    pub const IORING_FEAT_SUBMIT_STABLE: u32 = 0x4;
    pub const IORING_FEAT_RW_CUR_POS: u32 = 0x8;
    pub const IORING_FEAT_CUR_PERSONALITY: u32 = 0x10;
    pub const IORING_FEAT_FAST_POLL: u32 = 0x20;
    pub const IORING_FEAT_POLL_32BITS: u32 = 0x40;
    pub const IORING_FEAT_SQPOLL_NONFIXED: u32 = 0x80;
    pub const IORING_FEAT_EXT_ARG: u32 = 0x100;
    pub const IORING_FEAT_NATIVE_WORKERS: u32 = 0x200;
    pub const IORING_FEAT_RSRC_TAGS: u32 = 0x400;
    pub const IORING_FEAT_CQE_SKIP: u32 = 0x800;
    pub const IORING_FEAT_LINKED_FILE: u32 = 0x1000;
    pub const IORING_FEAT_REG_REG_RING: u32 = 0x2000;
    pub const IORING_FEAT_RECVSEND_BUNDLE: u32 = 0x4000;
    pub const IORING_FEAT_MIN_TIMEOUT: u32 = 0x8000;
    /// Every bit that names a flag.
    pub const ALL: u32 = 0x0000_ffff;

    /// The set with no flag.
    pub fn empty() -> (r: SetupFeatures)
        ensures
            r@ == 0,
    {
        SetupFeatures { bits: 0 }
    }

    /// The set of every known flag.
    pub fn all() -> (r: SetupFeatures)
        ensures
            r@ == Self::ALL,
    {
        SetupFeatures { bits: Self::ALL }
    }

    /// The raw bits.
    pub fn bits(&self) -> (r: u32)
        ensures
            r == self@,
    {
        self.bits
    }

    /// The set with these bits, if every one of them names a flag.
    pub fn from_bits(bits: u32) -> (r: Option<SetupFeatures>)
        ensures
            (bits & Self::ALL == bits) <==> r.is_some(),
            r matches Some(f) ==> f@ == bits,
    {
        if bits & Self::ALL == bits {
            Some(SetupFeatures { bits })
        } else {
            None
        }
    }

    /// The set of the flags named among these bits; the other bits are dropped.
    pub fn from_bits_truncate(bits: u32) -> (r: SetupFeatures)
        ensures
            r@ == bits & Self::ALL,
    {
        SetupFeatures { bits: bits & Self::ALL }
    }

    pub fn is_empty(&self) -> (r: bool)
        ensures
            r == (self@ == 0),
    {
        self.bits == 0
    }

    /// Whether every flag of `other` is in this set.
    pub fn contains(&self, other: SetupFeatures) -> (r: bool)
        ensures
            r == (self@ & other@ == other@),
    {
        self.bits & other.bits == other.bits
    }

    /// Whether the two sets share a flag.
    pub fn intersects(&self, other: SetupFeatures) -> (r: bool)
        ensures
            r == (self@ & other@ != 0),
    {
        self.bits & other.bits != 0
    }

    pub fn union(self, other: SetupFeatures) -> (r: SetupFeatures)
        ensures
            r@ == self@ | other@,
    {
        SetupFeatures { bits: self.bits | other.bits }
    }

    pub fn intersection(self, other: SetupFeatures) -> (r: SetupFeatures)
        ensures
            r@ == self@ & other@,
    {
        SetupFeatures { bits: self.bits & other.bits }
    }

    pub fn insert(&mut self, other: SetupFeatures)
        ensures
            final(self)@ == old(self)@ | other@,
    {
        self.bits = self.bits | other.bits;
    }

    pub fn remove(&mut self, other: SetupFeatures)
        ensures
            final(self)@ == old(self)@ & !other@,
    {
        self.bits = self.bits & !other.bits;
    }
}

impl Default for SetupFeatures {
    /// No flag requested.
    fn default() -> (r: SetupFeatures)
        ensures
            r@ == 0,
    {
        SetupFeatures { bits: 0 }
    }
}

/// Per-entry flags of a submission entry.
#[derive(Clone, Copy, Debug, PartialEq, Eq, Structural)]
pub struct SubmissionFlags {
    bits: u32,
}

impl View for SubmissionFlags {
    type V = u32;

    closed spec fn view(&self) -> u32 {
        self.bits
    }
}

impl SubmissionFlags {
    /// The descriptor is an index into the registered files.
    pub const IOSQE_FIXED_FILE: u32 = 0x1;
    /// Start only after every earlier entry has completed.
    pub const IOSQE_IO_DRAIN: u32 = 0x2;
    /// The next entry starts only after this one completes.
    pub const IOSQE_IO_LINK: u32 = 0x4;
    /// Like a link, but the chain survives a failure.
    pub const IOSQE_IO_HARDLINK: u32 = 0x8;
    /// Always run the operation asynchronously.
    pub const IOSQE_ASYNC: u32 = 0x10;
    /// The kernel selects the buffer.
    pub const IOSQE_BUFFER_SELECT: u32 = 0x20;
    /// Post no completion when the operation succeeds.
    pub const IOSQE_CQE_SKIP_SUCCESS: u32 = 0x40;
    /// Every bit that names a flag.
    pub const ALL: u32 = 0x0000_007f;

    /// The set with no flag.
    pub fn empty() -> (r: SubmissionFlags)
        ensures
            r@ == 0,
    {
        SubmissionFlags { bits: 0 }
    }

    /// The set of every known flag.
    pub fn all() -> (r: SubmissionFlags)
        ensures
            r@ == Self::ALL,
    {
        SubmissionFlags { bits: Self::ALL }
    }

    /// The raw bits.
    pub fn bits(&self) -> (r: u32)
        ensures
            r == self@,
    {
        self.bits
    }

    /// The set with these bits, if every one of them names a flag.
    pub fn from_bits(bits: u32) -> (r: Option<SubmissionFlags>)
        ensures
            (bits & Self::ALL == bits) <==> r.is_some(),
            r matches Some(f) ==> f@ == bits,
    {
        if bits & Self::ALL == bits {
            Some(SubmissionFlags { bits })
        } else {
            None
        }
    }

    /// The set of the flags named among these bits; the other bits are dropped.
    pub fn from_bits_truncate(bits: u32) -> (r: SubmissionFlags)
        ensures
            r@ == bits & Self::ALL,
    {
        SubmissionFlags { bits: bits & Self::ALL }
    }

    pub fn is_empty(&self) -> (r: bool)
        ensures
            r == (self@ == 0),
    {
        self.bits == 0
    }

    /// Whether every flag of `other` is in this set.
    pub fn contains(&self, other: SubmissionFlags) -> (r: bool)
        ensures
            r == (self@ & other@ == other@),
    {
        self.bits & other.bits == other.bits
    }

    /// Whether the two sets share a flag.
    pub fn intersects(&self, other: SubmissionFlags) -> (r: bool)
        ensures
            r == (self@ & other@ != 0),
    {
        self.bits & other.bits != 0
    }

    pub fn union(self, other: SubmissionFlags) -> (r: SubmissionFlags)
        ensures
            r@ == self@ | other@,
    {
        SubmissionFlags { bits: self.bits | other.bits }
    }

    pub fn intersection(self, other: SubmissionFlags) -> (r: SubmissionFlags)
        ensures
            r@ == self@ & other@,
    {
        SubmissionFlags { bits: self.bits & other.bits }
    }

    pub fn insert(&mut self, other: SubmissionFlags)
        ensures
            final(self)@ == old(self)@ | other@,
    {
        self.bits = self.bits | other.bits;
    }

    pub fn remove(&mut self, other: SubmissionFlags)
        ensures
            final(self)@ == old(self)@ & !other@,
    {
        self.bits = self.bits & !other.bits;
    }
}

impl Default for SubmissionFlags {
    /// No flag requested.
    fn default() -> (r: SubmissionFlags)
        ensures
            r@ == 0,
    {
        SubmissionFlags { bits: 0 }
    }
}

/// Auxiliary metadata of a completion entry.
#[derive(Clone, Copy, Debug, PartialEq, Eq, Structural)]
pub struct CompletionFlags {
    bits: u32,
}

impl View for CompletionFlags {
    type V = u32;

    closed spec fn view(&self) -> u32 {
        self.bits
    }
}

impl CompletionFlags {
    /// The upper bits of the flags hold a kernel-selected buffer id.
    pub const IORING_CQE_F_BUFFER: u32 = 0x1;
    /// More completions for the same request follow.
    pub const IORING_CQE_F_MORE: u32 = 0x2;
    /// The socket has more data pending.
    pub const IORING_CQE_F_SOCK_NONEMPTY: u32 = 0x4;
    /// A notification, not a request's result.
    pub const IORING_CQE_F_NOTIF: u32 = 0x8;
    /// The selected buffer will be used again.
    pub const IORING_CQE_F_BUF_MORE: u32 = 0x10;
    /// Shift of the buffer id in the raw flags word; as a flag it shares its bit with
    /// `IORING_CQE_F_BUF_MORE`.
    pub const IORING_CQE_BUFFER_SHIFT: u32 = 0x10;
    /// Every bit that names a flag.
    pub const ALL: u32 = 0x0000_001f;

    /// The set with no flag.
    pub fn empty() -> (r: CompletionFlags)
        ensures
            r@ == 0,
    {
        CompletionFlags { bits: 0 }
    }

    /// The set of every known flag.
    pub fn all() -> (r: CompletionFlags)
        ensures
            r@ == Self::ALL,
    {
        CompletionFlags { bits: Self::ALL }
    }

    /// The raw bits.
    pub fn bits(&self) -> (r: u32)
        ensures
            r == self@,
    {
        self.bits
    }

    /// The set with these bits, if every one of them names a flag.
    pub fn from_bits(bits: u32) -> (r: Option<CompletionFlags>)
        ensures
            (bits & Self::ALL == bits) <==> r.is_some(),
            r matches Some(f) ==> f@ == bits,
    {
        if bits & Self::ALL == bits {
            Some(CompletionFlags { bits })
        } else {
            None
        }
    }

    /// The set of the flags named among these bits; the other bits are dropped.
    pub fn from_bits_truncate(bits: u32) -> (r: CompletionFlags)
        ensures
            r@ == bits & Self::ALL,
    {
        CompletionFlags { bits: bits & Self::ALL }
    }

    pub fn is_empty(&self) -> (r: bool)
        ensures
            r == (self@ == 0),
    {
        self.bits == 0
    }

    /// Whether every flag of `other` is in this set.
    pub fn contains(&self, other: CompletionFlags) -> (r: bool)
        ensures
            r == (self@ & other@ == other@),
    {
        self.bits & other.bits == other.bits
    }

    /// Whether the two sets share a flag.
    pub fn intersects(&self, other: CompletionFlags) -> (r: bool)
        ensures
            r == (self@ & other@ != 0),
    {
        self.bits & other.bits != 0
    }

    pub fn union(self, other: CompletionFlags) -> (r: CompletionFlags)
        ensures
            r@ == self@ | other@,
    {
        CompletionFlags { bits: self.bits | other.bits }
    }

    pub fn intersection(self, other: CompletionFlags) -> (r: CompletionFlags)
        ensures
            r@ == self@ & other@,
    {
        CompletionFlags { bits: self.bits & other.bits }
    }

    pub fn insert(&mut self, other: CompletionFlags)
        ensures
            final(self)@ == old(self)@ | other@,
    {
        self.bits = self.bits | other.bits;
    }

    pub fn remove(&mut self, other: CompletionFlags)
        ensures
            final(self)@ == old(self)@ & !other@,
    {
        self.bits = self.bits & !other.bits;
    }
}

impl Default for CompletionFlags {
    /// No flag requested.
    fn default() -> (r: CompletionFlags)
        ensures
            r@ == 0,
    {
        CompletionFlags { bits: 0 }
    }
}

} // verus!
