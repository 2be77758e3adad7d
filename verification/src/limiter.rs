//! Token bucket: a counter bounded by a fixed capacity, periodically
//! reset to full, used to cap the rate of permitted operations.

use vstd::prelude::*;

verus! {

/// A bucket currently holds no token; the caller may retry after a delay.
#[derive(Clone, Copy, Debug, PartialEq, Eq, Structural)]
pub struct Exhausted;

/// Mathematical state of one token bucket.
pub ghost struct BucketModel {
    /// Fixed upper bound on `available`, positive.
    pub capacity: nat,
    /// Tokens currently available, between 0 and `capacity`.
    pub available: nat,
    /// Seconds between two firings of the periodic refill timer.
    pub refill_period_secs: nat,
}

impl BucketModel {
    /// The bucket bound: `available` never exceeds the (positive) capacity.
    pub open spec fn wf(&self) -> bool {
        1 <= self.capacity && self.available <= self.capacity
    }
}

/// One of the three mutating bucket operations, for stating laws over
/// arbitrary call sequences.
pub enum BucketOp {
    /// `Limiter::take`: consume one token if any is available.
    TryTake,
    /// `Limiter::refill`: reset `available` to `capacity`.
    Refill,
    /// `Limiter::empty`: force `available` to 0.
    Empty,
}

/// What each operation does to the bucket state.
pub open spec fn apply_op(b: BucketModel, op: BucketOp) -> BucketModel {
    match op {
        BucketOp::TryTake => BucketModel {
            available: if b.available > 0 { (b.available - 1) as nat } else { 0 },
            ..b
        },
        BucketOp::Refill => BucketModel { available: b.capacity, ..b },
        BucketOp::Empty => BucketModel { available: 0, ..b },
    }
}

/// The bucket state after a whole sequence of operations, applied in order.
pub open spec fn apply_ops(b: BucketModel, ops: Seq<BucketOp>) -> BucketModel
    decreases ops.len(),
{
    if ops.len() == 0 {
        b
    } else {
        apply_ops(apply_op(b, ops[0]), ops.skip(1))
    }
}

/// A single token bucket.
///
/// `take` consumes one token and fails (without blocking) when none is
/// left; `refill` resets the bucket to full; `empty` drops every token.
/// The caller is expected to run a timer that calls `refill` every
/// `refill_period_secs` seconds for the bucket's lifetime.
pub struct Limiter {
    capacity: usize,
    available: usize,
    refill_period_secs: u64,
}

impl View for Limiter {
    type V = BucketModel;

    closed spec fn view(&self) -> BucketModel {
        BucketModel {
            capacity: self.capacity as nat,
            available: self.available as nat,
            refill_period_secs: self.refill_period_secs as nat,
        }
    }
}

impl Limiter {
    /// A full bucket of `size` tokens, to be refilled every `refill_time` seconds.
    pub fn new(size: usize, refill_time: u64) -> (r: Limiter)
        requires
            1 <= size,
        ensures
            r@.capacity == size,
            r@.available == size,
            r@.refill_period_secs == refill_time,
            r@.wf(),
    {
        Limiter { capacity: size, available: size, refill_period_secs: refill_time }
    }

    /// Reset the bucket to full, as the periodic timer does and as the
    /// orchestrator does when a throttle pause ends.
    pub fn refill(&mut self)
        ensures
            final(self)@ == apply_op(old(self)@, BucketOp::Refill),
            final(self)@.available == old(self)@.capacity,
            final(self)@.capacity == old(self)@.capacity,
            final(self)@.refill_period_secs == old(self)@.refill_period_secs,
            old(self)@.wf() ==> final(self)@.wf(),
    {
        self.available = self.capacity;
    }

    /// Drop every token, so that every `take` fails until the next refill.
    pub fn empty(&mut self)
        ensures
            final(self)@ == apply_op(old(self)@, BucketOp::Empty),
            final(self)@.available == 0,
            final(self)@.capacity == old(self)@.capacity,
            final(self)@.refill_period_secs == old(self)@.refill_period_secs,
            old(self)@.wf() ==> final(self)@.wf(),
    {
        self.available = 0;
    }

    /// Consume one token if any is available; otherwise fail without
    /// blocking and leave the bucket unchanged.
    pub fn take(&mut self) -> (r: Result<(), Exhausted>)
        ensures
            final(self)@ == apply_op(old(self)@, BucketOp::TryTake),
            final(self)@.capacity == old(self)@.capacity,
            final(self)@.refill_period_secs == old(self)@.refill_period_secs,
            r is Ok <==> old(self)@.available > 0,
            old(self)@.available > 0 ==> final(self)@.available == old(self)@.available - 1,
            old(self)@.available == 0 ==> final(self)@.available == 0,
            old(self)@.wf() ==> final(self)@.wf(),
    {
        if self.available > 0 {
            self.available = self.available - 1;
            Ok(())
        } else {
            Err(Exhausted)
        }
    }

    /// The fixed capacity the bucket was built with.
    pub fn capacity(&self) -> (r: usize)
        ensures
            r == self@.capacity,
    {
        self.capacity
    }

    /// The tokens currently available.
    pub fn available(&self) -> (r: usize)
        ensures
            r == self@.available,
    {
        self.available
    }

    /// Seconds between two firings of the periodic refill timer.
    pub fn refill_period_secs(&self) -> (r: u64)
        ensures
            r == self@.refill_period_secs,
    {
        self.refill_period_secs
    }
}

/// Bucket bound law: whatever sequence of `take`/`refill`/`empty` calls
/// is made, `available` stays between 0 and `capacity`.
pub proof fn lemma_bucket_bound(b: BucketModel, ops: Seq<BucketOp>)
    requires
        b.wf(),
    ensures
        apply_ops(b, ops).wf(),
        apply_ops(b, ops).capacity == b.capacity,
    decreases ops.len(),
{
    if ops.len() > 0 {
        lemma_bucket_bound(apply_op(b, ops[0]), ops.skip(1));
    }
}

/// Drained-bucket law: as long as no `refill` occurs, a drained bucket
/// stays drained, so (by the contract of `take`) every `take` in such a
/// sequence fails.
pub proof fn lemma_drained_stays_drained(b: BucketModel, ops: Seq<BucketOp>)
    requires
        b.available == 0,
        forall|i: int| 0 <= i < ops.len() ==> !(ops[i] is Refill),
    ensures
        apply_ops(b, ops).available == 0,
    decreases ops.len(),
{
    if ops.len() > 0 {
        assert(!(ops[0] is Refill));
        lemma_drained_stays_drained(apply_op(b, ops[0]), ops.skip(1));
    }
}

} // verus!
