use vstd::arithmetic::power::lemma_pow0;
use vstd::arithmetic::power2::{lemma_pow2_unfold, pow2};
use vstd::prelude::*;

use crate::cqueue::{CompletionQueue, CQE};
use crate::error::RingError;
use crate::flags::{SetupFeatures, SetupFlags};
use crate::squeue::{SubmissionQueue, SQE};

verus! {

/// The largest submission ring the kernel sets up.
pub const IORING_MAX_ENTRIES: u32 = 32768;

/// Whether `flags` holds any bit of `bit`.
pub open spec fn has_flag(flags: SetupFlags, bit: u32) -> bool {
    flags@ & bit != 0
}

/// The number of entries asked for, after clamping to the largest ring when that is
/// requested.
pub open spec fn clamped_entries(entries: u32, flags: SetupFlags) -> nat {
    if entries > IORING_MAX_ENTRIES && has_flag(flags, SetupFlags::IORING_SETUP_CLAMP) {
        IORING_MAX_ENTRIES as nat
    } else {
        entries as nat
    }
}

/// A ring can be sized for `entries`: at least one, and no more than the largest ring
/// unless clamping is requested.
pub open spec fn entries_supported(entries: u32, flags: SetupFlags) -> bool {
    &&& entries > 0
    &&& entries <= IORING_MAX_ENTRIES || has_flag(flags, SetupFlags::IORING_SETUP_CLAMP)
}

/// The setup flags form a combination the ring can be created with. The completion
/// ring's size cannot be chosen through this interface, so that flag is refused.
pub open spec fn flags_supported(f: SetupFlags) -> bool {
    &&& !has_flag(f, SetupFlags::IORING_SETUP_CQSIZE)
    &&& has_flag(f, SetupFlags::IORING_SETUP_REGISTERED_FD_ONLY) ==> has_flag(f, SetupFlags::IORING_SETUP_NO_MMAP)
    &&& has_flag(f, SetupFlags::IORING_SETUP_SQ_AFF) ==> has_flag(f, SetupFlags::IORING_SETUP_SQPOLL)
    &&& has_flag(f, SetupFlags::IORING_SETUP_SQPOLL) ==> {
        &&& !has_flag(f, SetupFlags::IORING_SETUP_COOP_TASKRUN)
        &&& !has_flag(f, SetupFlags::IORING_SETUP_TASKRUN_FLAG)
        &&& !has_flag(f, SetupFlags::IORING_SETUP_DEFER_TASKRUN)
    }
    &&& has_flag(f, SetupFlags::IORING_SETUP_TASKRUN_FLAG) ==> {
        ||| has_flag(f, SetupFlags::IORING_SETUP_COOP_TASKRUN)
        ||| has_flag(f, SetupFlags::IORING_SETUP_DEFER_TASKRUN)
    }
    &&& has_flag(f, SetupFlags::IORING_SETUP_DEFER_TASKRUN) ==> has_flag(f, SetupFlags::IORING_SETUP_SINGLE_ISSUER)
}

/// `size` is the smallest power of two that is at least `entries`.
pub open spec fn is_ring_size(size: nat, entries: nat) -> bool {
    &&& exists|k: nat| size == pow2(k)
    &&& entries <= size < 2 * entries
}

/// The smallest power of two that is at least `n`.
fn round_up_pow2(n: u32) -> (r: u32)
    requires
        0 < n <= IORING_MAX_ENTRIES,
    ensures
        is_ring_size(r as nat, n as nat),
{
    let mut size: u32 = 1;
    let ghost mut k: nat = 0;
    proof {
        lemma_pow0(2);
    }
    while size < n
        invariant
            0 < n <= IORING_MAX_ENTRIES,
            size == pow2(k),
            0 < size < 2 * n,
        decreases 2 * n - size,
    {
        proof {
            lemma_pow2_unfold(k + 1);
        }
        size = size * 2;
        proof {
            k = k + 1;
        }
    }
    size
}

/// The user side of a ring pair: the submission ring in which requests are prepared,
/// the completion ring from which results are observed, and the options the pair was
/// set up with.
pub struct IoUring {
    sq: SubmissionQueue,
    cq: CompletionQueue,
    flags: SetupFlags,
    features: SetupFeatures,
}

impl IoUring {
    /// Both rings are well formed, and the completion ring is twice the size of the
    /// submission ring.
    pub closed spec fn wf(&self) -> bool {
        &&& self.sq.wf()
        &&& self.cq.wf()
        &&& self.cq.spec_capacity() == 2 * self.sq.spec_capacity()
    }

    /// The number of submission slots.
    pub closed spec fn sq_capacity(&self) -> nat {
        self.sq.spec_capacity()
    }

    /// The number of completion slots.
    pub closed spec fn cq_capacity(&self) -> nat {
        self.cq.spec_capacity()
    }

    /// The entries prepared and not yet handed to the kernel, oldest first.
    pub closed spec fn pending(&self) -> Seq<SQE> {
        self.sq@
    }

    /// The completions ready to be observed, oldest first.
    pub closed spec fn ready(&self) -> Seq<CQE> {
        self.cq@
    }

    /// How many completions have been observed so far.
    pub closed spec fn retired(&self) -> nat {
        self.cq.retired()
    }

    pub closed spec fn spec_flags(&self) -> SetupFlags {
        self.flags
    }

    pub closed spec fn spec_features(&self) -> SetupFeatures {
        self.features
    }

    /// Every submission slot holds a pending entry.
    pub open spec fn sq_full(&self) -> bool {
        self.pending().len() == self.sq_capacity()
    }

    /// What the rest of the ring keeps through a step on its submission side.
    pub open spec fn same_but_pending(&self, other: IoUring) -> bool {
        &&& other.wf()
        &&& other.sq_capacity() == self.sq_capacity()
        &&& other.cq_capacity() == self.cq_capacity()
        &&& other.ready() == self.ready()
        &&& other.retired() == self.retired()
        &&& other.spec_flags() == self.spec_flags()
        &&& other.spec_features() == self.spec_features()
    }

    /// What the rest of the ring keeps through a step on its completion side.
    pub open spec fn same_but_ready(&self, other: IoUring) -> bool {
        &&& other.wf()
        &&& other.sq_capacity() == self.sq_capacity()
        &&& other.cq_capacity() == self.cq_capacity()
        &&& other.pending() == self.pending()
        &&& other.spec_flags() == self.spec_flags()
        &&& other.spec_features() == self.spec_features()
    }

    /// Validates the capacity and the setup flags and sets up empty rings: the
    /// submission ring of the smallest power of two at least the (clamped) capacity,
    /// the completion ring twice that.
    pub fn new_with_flags(entries: u32, flags: SetupFlags, features: SetupFeatures) -> (r: Result<IoUring, RingError>)
        ensures
            r is Ok <==> entries_supported(entries, flags) && flags_supported(flags),
            r is Err ==> r == Err::<IoUring, RingError>(RingError::Config),
            r matches Ok(ring) ==> {
                &&& ring.wf()
                &&& is_ring_size(ring.sq_capacity(), clamped_entries(entries, flags))
                &&& ring.cq_capacity() == 2 * ring.sq_capacity()
                &&& ring.pending() == Seq::<SQE>::empty()
                &&& ring.ready() == Seq::<CQE>::empty()
                &&& ring.retired() == 0
                &&& ring.spec_flags() == flags
                &&& ring.spec_features() == features
            },
    {
        let b = flags.bits();
        let is_set = |bit: u32| -> (r: bool)
            ensures
                r == (b & bit != 0),
            { b & bit != 0 };
        if entries == 0 || (entries > IORING_MAX_ENTRIES && !is_set(SetupFlags::IORING_SETUP_CLAMP)) {
            return Err(RingError::Config);
        }
        if is_set(SetupFlags::IORING_SETUP_CQSIZE)
            || (is_set(SetupFlags::IORING_SETUP_REGISTERED_FD_ONLY) && !is_set(SetupFlags::IORING_SETUP_NO_MMAP))
            || (is_set(SetupFlags::IORING_SETUP_SQ_AFF) && !is_set(SetupFlags::IORING_SETUP_SQPOLL))
            || (is_set(SetupFlags::IORING_SETUP_SQPOLL) && (is_set(SetupFlags::IORING_SETUP_COOP_TASKRUN)
                || is_set(SetupFlags::IORING_SETUP_TASKRUN_FLAG) || is_set(SetupFlags::IORING_SETUP_DEFER_TASKRUN)))
            || (is_set(SetupFlags::IORING_SETUP_TASKRUN_FLAG) && !is_set(SetupFlags::IORING_SETUP_COOP_TASKRUN)
                && !is_set(SetupFlags::IORING_SETUP_DEFER_TASKRUN))
            || (is_set(SetupFlags::IORING_SETUP_DEFER_TASKRUN) && !is_set(SetupFlags::IORING_SETUP_SINGLE_ISSUER)) {
            return Err(RingError::Config);
        }
        let n: u32 = if entries > IORING_MAX_ENTRIES {
            IORING_MAX_ENTRIES
        } else {
            entries
        };
        let size = round_up_pow2(n);
        let sq = SubmissionQueue::new(size);
        let cq = CompletionQueue::new(size * 2);
        Ok(IoUring { sq, cq, flags, features })
    }

    pub fn flags(&self) -> (r: SetupFlags)
        ensures
            r == self.spec_flags(),
    {
        self.flags
    }

    pub fn features(&self) -> (r: SetupFeatures)
        ensures
            r == self.spec_features(),
    {
        self.features
    }

    /// The number of submission slots.
    pub fn sq_entries(&self) -> (r: usize)
        requires
            self.wf(),
        ensures
            r == self.sq_capacity(),
    {
        self.sq.capacity()
    }

    /// The number of completion slots.
    pub fn cq_entries(&self) -> (r: usize)
        requires
            self.wf(),
        ensures
            r == self.cq_capacity(),
    {
        self.cq.capacity()
    }

    /// The number of entries prepared and not yet handed to the kernel.
    pub fn pending_len(&self) -> (r: usize)
        requires
            self.wf(),
        ensures
            r == self.pending().len(),
    {
        self.sq.len()
    }

    /// The number of completions ready to be observed.
    pub fn ready_len(&self) -> (r: usize)
        requires
            self.wf(),
        ensures
            r == self.ready().len(),
    {
        self.cq.len()
    }

    /// Reserves the next submission slot, zeroed, for the caller to fill in; `None`
    /// when the submission ring is full and must be submitted first.
    pub fn prepare_sqe(&mut self) -> (r: Option<&mut SQE>)
        requires
            old(self).wf(),
        ensures
            old(self).same_but_pending(*final(self)),
            r is None <==> old(self).sq_full(),
            match r {
                None => final(self).pending() == old(self).pending(),
                Some(e) => *e == SQE::zeroed() && prepared(*old(self), *final(self), *final(e)),
            },
    {
        self.sq.prepare_sqe()
    }

    /// Hands over the prepared entries, oldest first, for the kernel to read; the
    /// submission ring is then empty.
    pub fn take_submissions(&mut self) -> (r: Vec<SQE>)
        requires
            old(self).wf(),
        ensures
            old(self).same_but_pending(*final(self)),
            r@ == old(self).pending(),
            final(self).pending() == Seq::<SQE>::empty(),
    {
        self.sq.take_pending()
    }

    /// Takes in a completion the kernel posted; `false`, with nothing changed, when the
    /// completion ring is full.
    pub fn deliver_cqe(&mut self, cqe: CQE) -> (r: bool)
        requires
            old(self).wf(),
        ensures
            old(self).same_but_ready(*final(self)),
            final(self).retired() == old(self).retired(),
            r == (old(self).ready().len() < old(self).cq_capacity()),
            r ==> final(self).ready() == old(self).ready().push(cqe),
            !r ==> final(self).ready() == old(self).ready(),
    {
        self.cq.deliver(cqe)
    }

    /// The oldest completion not yet observed, retired in the same step; `None` when
    /// none is ready.
    pub fn peek_cqe(&mut self) -> (r: Option<CQE>)
        requires
            old(self).wf(),
        ensures
            old(self).same_but_ready(*final(self)),
            r is None <==> old(self).ready().len() == 0,
            r is None ==> final(self).ready() == old(self).ready() && final(self).retired()
                == old(self).retired(),
            r matches Some(c) ==> observed(*old(self), *final(self), c),
    {
        self.cq.peek_for_cqe()
    }
}

/// One successful preparation: the entry `e` joins the pending entries at their end.
pub open spec fn prepared(before: IoUring, after: IoUring, e: SQE) -> bool {
    &&& after.sq_capacity() == before.sq_capacity()
    &&& after.pending() == before.pending().push(e)
}

/// One successful observation: `c` is the oldest ready completion, and leaves the
/// ready ones as the count of retired completions grows by one.
pub open spec fn observed(before: IoUring, after: IoUring, c: CQE) -> bool {
    &&& before.ready().len() > 0
    &&& c == before.ready()[0]
    &&& after.ready() == before.ready().drop_first()
    &&& after.retired() == before.retired() + 1
}

/// Entries prepared one after another, with no submit in between, from an empty
/// submission ring, are exactly the batch that the next submit hands over: `K`
/// successful preparations make a batch of `K` entries, in the order prepared.
pub proof fn lemma_batch_accounting(rings: Seq<IoUring>, entries: Seq<SQE>)
    requires
        rings.len() == entries.len() + 1,
        rings[0].pending() == Seq::<SQE>::empty(),
        forall|i: int| 0 <= i < entries.len() ==> #[trigger] prepared(rings[i], rings[i + 1], entries[i]),
    ensures
        rings.last().pending() == entries,
        rings.last().pending().len() == entries.len(),
        rings.last().sq_capacity() == rings[0].sq_capacity(),
    decreases entries.len(),
{
    if entries.len() > 0 {
        let k = entries.len() - 1;
        lemma_batch_accounting(rings.take(k + 1), entries.take(k));
        assert(prepared(rings[k], rings[k + 1], entries[k]));
        assert(rings.take(k + 1).last() == rings[k]);
        assert(entries.take(k).push(entries[k]) =~= entries);
    } else {
        assert(entries =~= Seq::<SQE>::empty());
    }
}

/// After as many successful preparations as the submission ring has slots, with no
/// submit in between, the ring is full: the next preparation returns `None`.
pub proof fn lemma_full_ring_signaling(rings: Seq<IoUring>, entries: Seq<SQE>)
    requires
        rings.len() == entries.len() + 1,
        rings[0].pending() == Seq::<SQE>::empty(),
        entries.len() == rings[0].sq_capacity(),
        forall|i: int| 0 <= i < entries.len() ==> #[trigger] prepared(rings[i], rings[i + 1], entries[i]),
    ensures
        rings.last().sq_full(),
{
    lemma_batch_accounting(rings, entries);
}

/// Through any run of operations, none of which lowers the count of retired
/// completions, two observations at different steps return completions that arrived at
/// different positions: a completion is observed at most once.
pub proof fn lemma_observed_once(rings: Seq<IoUring>, i: int, j: int, a: CQE, b: CQE)
    requires
        forall|k: int| 0 <= k < rings.len() - 1 ==> #[trigger] rings[k].retired() <= rings[k + 1].retired(),
        0 <= i < j < rings.len() - 1,
        observed(rings[i], rings[i + 1], a),
        observed(rings[j], rings[j + 1], b),
    ensures
        rings[i].retired() < rings[j].retired(),
{
    if j > i + 1 {
        assert(rings[j - 1].retired() <= rings[j].retired());
        lemma_retired_grows(rings, i + 1, j);
    }
}

/// Completions taken in one after another into an empty completion ring come back from
/// the observations that follow exactly once each, all of them, in the order they
/// arrived; after as many observations as arrivals none is left.
pub proof fn lemma_completions_in_arrival_order(rings: Seq<IoUring>, arrived: Seq<CQE>, seen: Seq<CQE>)
    requires
        arrived.len() == seen.len(),
        rings.len() == 2 * arrived.len() + 1,
        rings[0].ready() == Seq::<CQE>::empty(),
        forall|i: int| 0 <= i < arrived.len() ==> #[trigger] rings[i + 1].ready() == rings[i].ready().push(arrived[i]),
        forall|i: int| 0 <= i < seen.len() ==> #[trigger] observed(rings[arrived.len() + i], rings[arrived.len() + i + 1], seen[i]),
    ensures
        seen == arrived,
        rings.last().ready() == Seq::<CQE>::empty(),
{
    let n = arrived.len() as int;
    lemma_arrivals(rings, arrived, n);
    assert(arrived.take(n) =~= arrived);
    lemma_departures(rings, arrived, seen, n);
    assert(seen =~= arrived);
    assert(arrived.skip(n) =~= Seq::<CQE>::empty());
}

/// After `k` arrivals into an empty completion ring, the ready completions are the first
/// `k` that arrived.
proof fn lemma_arrivals(rings: Seq<IoUring>, arrived: Seq<CQE>, k: int)
    requires
        0 <= k <= arrived.len(),
        rings.len() > arrived.len(),
        rings[0].ready() == Seq::<CQE>::empty(),
        forall|i: int| 0 <= i < arrived.len() ==> #[trigger] rings[i + 1].ready() == rings[i].ready().push(arrived[i]),
    ensures
        rings[k].ready() == arrived.take(k),
    decreases k,
{
    if k > 0 {
        lemma_arrivals(rings, arrived, k - 1);
        assert(rings[(k - 1) + 1].ready() == rings[k - 1].ready().push(arrived[k - 1]));
        assert(arrived.take(k - 1).push(arrived[k - 1]) =~= arrived.take(k));
    } else {
        assert(arrived.take(0) =~= Seq::<CQE>::empty());
    }
}

/// After `j` observations that follow the arrivals, the first `j` arrivals were seen, in
/// order, and the rest are ready.
proof fn lemma_departures(rings: Seq<IoUring>, arrived: Seq<CQE>, seen: Seq<CQE>, j: int)
    requires
        arrived.len() == seen.len(),
        0 <= j <= seen.len(),
        rings.len() == 2 * arrived.len() + 1,
        rings[arrived.len() as int].ready() == arrived,
        forall|i: int| 0 <= i < seen.len() ==> #[trigger] observed(rings[arrived.len() + i], rings[arrived.len() + i + 1], seen[i]),
    ensures
        rings[arrived.len() + j].ready() == arrived.skip(j),
        forall|i: int| 0 <= i < j ==> seen[i] == arrived[i],
    decreases j,
{
    let n = arrived.len() as int;
    if j > 0 {
        lemma_departures(rings, arrived, seen, j - 1);
        assert(observed(rings[n + (j - 1)], rings[n + (j - 1) + 1], seen[j - 1]));
        assert(arrived.skip(j - 1).drop_first() =~= arrived.skip(j));
    } else {
        assert(arrived.skip(0) =~= arrived);
    }
}

/// The count of retired completions never falls along a run whose steps never lower it.
proof fn lemma_retired_grows(rings: Seq<IoUring>, i: int, j: int)
    requires
        forall|k: int| 0 <= k < rings.len() - 1 ==> #[trigger] rings[k].retired() <= rings[k + 1].retired(),
        0 <= i <= j < rings.len(),
    ensures
        rings[i].retired() <= rings[j].retired(),
    decreases j - i,
{
    if i < j {
        lemma_retired_grows(rings, i, j - 1);
        assert(rings[j - 1].retired() <= rings[j].retired());
    }
}

} // verus!
