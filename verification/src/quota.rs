//! Quota set: an ordered group of token buckets modelling independent,
//! overlapping request ceilings. A request may proceed only once every
//! member bucket has yielded one token.

use vstd::prelude::*;

use crate::limiter::BucketModel;
use crate::limiter::Exhausted;
use crate::limiter::Limiter;

verus! {

/// The smallest index of a bucket with no token left, or `s.len()` if
/// every bucket has at least one.
pub open spec fn first_exhausted(s: Seq<BucketModel>) -> int
    decreases s.len(),
{
    if s.len() == 0 {
        0
    } else if s[0].available == 0 {
        0
    } else {
        1 + first_exhausted(s.skip(1))
    }
}

/// `first_exhausted` is what its name says: every bucket before it has a
/// token, and it points at an empty bucket unless it equals the length.
pub proof fn lemma_first_exhausted(s: Seq<BucketModel>)
    ensures
        0 <= first_exhausted(s) <= s.len(),
        first_exhausted(s) < s.len() ==> s[first_exhausted(s)].available == 0,
        forall|i: int| 0 <= i < first_exhausted(s) ==> s[i].available > 0,
    decreases s.len(),
{
    if s.len() > 0 && s[0].available > 0 {
        lemma_first_exhausted(s.skip(1));
        assert forall|i: int| 0 <= i < first_exhausted(s) implies s[i].available > 0 by {
            if i > 0 {
                assert(s.skip(1)[i - 1] == s[i]);
            }
        }
        if first_exhausted(s) < s.len() {
            assert(s.skip(1)[first_exhausted(s) - 1] == s[first_exhausted(s)]);
        }
    }
}

/// Conversely, an index below which every bucket has a token, and which
/// is either the length or an empty bucket, is `first_exhausted`.
pub proof fn lemma_first_exhausted_is(s: Seq<BucketModel>, j: int)
    requires
        0 <= j <= s.len(),
        forall|i: int| 0 <= i < j ==> s[i].available > 0,
        j < s.len() ==> s[j].available == 0,
    ensures
        first_exhausted(s) == j,
    decreases s.len(),
{
    if s.len() > 0 && s[0].available > 0 {
        assert forall|i: int| 0 <= i < j - 1 implies s.skip(1)[i].available > 0 by {
            assert(s.skip(1)[i] == s[i + 1]);
        }
        if j - 1 < s.len() - 1 {
            assert(s.skip(1)[j - 1] == s[j]);
        }
        lemma_first_exhausted_is(s.skip(1), j - 1);
    }
}

/// The state an acquisition pass leaves behind: every bucket before the
/// first exhausted one gives up a token, the rest stay as they were.
/// When no bucket is exhausted this decrements every bucket.
pub open spec fn acquire_result(s: Seq<BucketModel>) -> Seq<BucketModel> {
    Seq::new(
        s.len(),
        |i: int|
            if i < first_exhausted(s) {
                BucketModel { available: (s[i].available - 1) as nat, ..s[i] }
            } else {
                s[i]
            },
    )
}

/// The state after `n` successive acquisition passes.
pub open spec fn acquire_n(s: Seq<BucketModel>, n: nat) -> Seq<BucketModel>
    decreases n,
{
    if n == 0 {
        s
    } else {
        acquire_result(acquire_n(s, (n - 1) as nat))
    }
}

/// An ordered collection of token buckets. The order matters only for
/// the order in which an acquisition pass visits them.
pub struct QuotaSet {
    buckets: Vec<Limiter>,
}

impl View for QuotaSet {
    type V = Seq<BucketModel>;

    closed spec fn view(&self) -> Seq<BucketModel> {
        self.buckets@.map(|_i: int, b: Limiter| b@)
    }
}

impl QuotaSet {
    /// Every member bucket satisfies the bucket bound.
    pub open spec fn wf(&self) -> bool {
        forall|i: int| 0 <= i < self@.len() ==> self@[i].wf()
    }

    /// The capacities and refill periods of the members, in order; the
    /// part of the state that no operation changes.
    pub open spec fn shape(s: Seq<BucketModel>) -> Seq<(nat, nat)> {
        s.map(|_i: int, b: BucketModel| (b.capacity, b.refill_period_secs))
    }

    /// A quota set over the given buckets, in the given order.
    pub fn new(buckets: Vec<Limiter>) -> (r: QuotaSet)
        ensures
            r@ == buckets@.map(|_i: int, b: Limiter| b@),
    {
        QuotaSet { buckets }
    }

    /// How many buckets the set holds.
    pub fn len(&self) -> (r: usize)
        ensures
            r == self@.len(),
    {
        self.buckets.len()
    }

    /// The tokens currently available in bucket `i`.
    pub fn available(&self, i: usize) -> (r: usize)
        requires
            i < self@.len(),
        ensures
            r == self@[i as int].available,
    {
        self.buckets[i].available()
    }

    /// The fixed capacity of bucket `i`.
    pub fn capacity(&self, i: usize) -> (r: usize)
        requires
            i < self@.len(),
        ensures
            r == self@[i as int].capacity,
    {
        self.buckets[i].capacity()
    }

    /// Seconds between two firings of bucket `i`'s periodic refill timer.
    pub fn refill_period_secs(&self, i: usize) -> (r: u64)
        requires
            i < self@.len(),
        ensures
            r == self@[i as int].refill_period_secs,
    {
        self.buckets[i].refill_period_secs()
    }

    /// Refill bucket `i` alone to its capacity, as its periodic timer
    /// does; the other buckets are untouched.
    pub fn refill_bucket(&mut self, i: usize)
        requires
            i < old(self)@.len(),
        ensures
            final(self)@ == old(self)@.update(
                i as int,
                BucketModel { available: old(self)@[i as int].capacity, ..old(self)@[i as int] },
            ),
            old(self).wf() ==> final(self).wf(),
    {
        let ghost prev = self@;
        self.buckets[i].refill();
        proof {
            assert(self@ =~= prev.update(
                i as int,
                BucketModel { available: prev[i as int].capacity, ..prev[i as int] },
            ));
        }
    }

    /// Try to take one token from every bucket, in order, stopping at the
    /// first bucket that has none.
    ///
    /// On success every bucket gave up one token. On failure the buckets
    /// before the first exhausted one have already given up a token and
    /// are not given it back — the caller retries the whole acquisition
    /// after a delay, accepting that minor over-consumption.
    pub fn acquire_all(&mut self) -> (r: Result<(), Exhausted>)
        ensures
            final(self)@.len() == old(self)@.len(),
            Self::shape(final(self)@) == Self::shape(old(self)@),
            final(self)@ == acquire_result(old(self)@),
            r is Ok <==> first_exhausted(old(self)@) == old(self)@.len(),
            forall|i: int|
                0 <= i < first_exhausted(old(self)@)
                    ==> final(self)@[i].available == old(self)@[i].available - 1,
            forall|i: int|
                first_exhausted(old(self)@) <= i < old(self)@.len()
                    ==> final(self)@[i] == old(self)@[i],
            old(self).wf() ==> final(self).wf(),
    {
        proof {
            lemma_first_exhausted(self@);
        }
        let ghost orig = self@;
        let n = self.buckets.len();
        let mut i: usize = 0;
        while i < n
            invariant
                orig == old(self)@,
                n == orig.len(),
                self@.len() == orig.len(),
                0 <= i <= n,
                Self::shape(self@) == Self::shape(orig),
                forall|k: int| 0 <= k < i ==> orig[k].available > 0,
                forall|k: int| 0 <= k < i ==> self@[k].available == orig[k].available - 1,
                forall|k: int| i <= k < orig.len() ==> self@[k] == orig[k],
            decreases n - i,
        {
            let ghost prev = self@;
            let taken = self.buckets[i].take();
            proof {
                assert(self@ =~= prev.update(i as int, self@[i as int]));
                assert(Self::shape(self@) =~= Self::shape(orig));
            }
            if taken.is_err() {
                proof {
                    lemma_first_exhausted_is(orig, i as int);
                    assert forall|k: int| 0 <= k < self@.len() implies self@[k]
                        == acquire_result(orig)[k] by {
                        assert(Self::shape(self@)[k] == Self::shape(orig)[k]);
                    }
                    assert(self@ =~= acquire_result(orig));
                    if old(self).wf() {
                        assert forall|k: int| 0 <= k < self@.len() implies self@[k].wf() by {
                            assert(Self::shape(self@)[k] == Self::shape(old(self)@)[k]);
                            assert(old(self)@[k].wf());
                        }
                    }
                }
                return Err(Exhausted);
            }
            i = i + 1;
        }
        proof {
            lemma_first_exhausted_is(orig, orig.len() as int);
            assert forall|k: int| 0 <= k < self@.len() implies self@[k] == acquire_result(orig)[k]
                by {
                assert(Self::shape(self@)[k] == Self::shape(orig)[k]);
            }
            assert(self@ =~= acquire_result(orig));
        }
        proof {
            if old(self).wf() {
                assert forall|k: int| 0 <= k < self@.len() implies self@[k].wf() by {
                    assert(Self::shape(self@)[k] == Self::shape(old(self)@)[k]);
                    assert(old(self)@[k].wf());
                }
            }
        }
        Ok(())
    }

    /// Empty every bucket, halting all consumption: used when entering a
    /// throttle pause.
    pub fn drain_all(&mut self)
        ensures
            final(self)@.len() == old(self)@.len(),
            Self::shape(final(self)@) == Self::shape(old(self)@),
            forall|i: int| 0 <= i < final(self)@.len() ==> final(self)@[i].available == 0,
            old(self).wf() ==> final(self).wf(),
    {
        let ghost orig = self@;
        let n = self.buckets.len();
        let mut i: usize = 0;
        while i < n
            invariant
                orig == old(self)@,
                n == orig.len(),
                self@.len() == orig.len(),
                0 <= i <= n,
                Self::shape(self@) == Self::shape(orig),
                forall|k: int| 0 <= k < i ==> self@[k].available == 0,
                forall|k: int| i <= k < orig.len() ==> self@[k] == orig[k],
            decreases n - i,
        {
            let ghost prev = self@;
            self.buckets[i].empty();
            proof {
                assert(self@ =~= prev.update(i as int, self@[i as int]));
                assert(Self::shape(self@) =~= Self::shape(orig));
            }
            i = i + 1;
        }
        proof {
            if old(self).wf() {
                assert forall|k: int| 0 <= k < self@.len() implies self@[k].wf() by {
                    assert(Self::shape(self@)[k] == Self::shape(old(self)@)[k]);
                    assert(old(self)@[k].wf());
                }
            }
        }
    }

    /// Refill every bucket to its capacity: used by the periodic timers
    /// and when leaving a throttle pause.
    pub fn refill_all(&mut self)
        ensures
            final(self)@.len() == old(self)@.len(),
            Self::shape(final(self)@) == Self::shape(old(self)@),
            forall|i: int|
                0 <= i < final(self)@.len()
                    ==> final(self)@[i].available == final(self)@[i].capacity,
            old(self).wf() ==> final(self).wf(),
    {
        let ghost orig = self@;
        let n = self.buckets.len();
        let mut i: usize = 0;
        while i < n
            invariant
                orig == old(self)@,
                n == orig.len(),
                self@.len() == orig.len(),
                0 <= i <= n,
                Self::shape(self@) == Self::shape(orig),
                forall|k: int| 0 <= k < i ==> self@[k].available == self@[k].capacity,
                forall|k: int| i <= k < orig.len() ==> self@[k] == orig[k],
            decreases n - i,
        {
            let ghost prev = self@;
            self.buckets[i].refill();
            proof {
                assert(self@ =~= prev.update(i as int, self@[i as int]));
                assert(Self::shape(self@) =~= Self::shape(orig));
            }
            i = i + 1;
        }
        proof {
            if old(self).wf() {
                assert forall|k: int| 0 <= k < self@.len() implies self@[k].wf() by {
                    assert(Self::shape(self@)[k] == Self::shape(old(self)@)[k]);
                    assert(old(self)@[k].wf());
                }
            }
        }
    }
}

/// The request quotas the upstream game-data API enforces: a short
/// window of 20 requests per second and a long window of 100 requests
/// per two minutes. A request must fit under both ceilings.
impl Default for QuotaSet {
    /// The pair of buckets every orchestrator is built with.
    fn default() -> (r: QuotaSet)
        ensures
            r@.len() == 2,
            r@[0] == (BucketModel { capacity: 20, available: 20, refill_period_secs: 1 }),
            r@[1] == (BucketModel { capacity: 100, available: 100, refill_period_secs: 120 }),
            r.wf(),
    {
        let mut buckets: Vec<Limiter> = Vec::new();
        buckets.push(Limiter::new(20, 1));
        buckets.push(Limiter::new(100, 120));
        let r = QuotaSet::new(buckets);
        proof {
            assert(r@[0] =~= BucketModel { capacity: 20, available: 20, refill_period_secs: 1 });
            assert(r@[1] =~= (BucketModel {
                capacity: 100,
                available: 100,
                refill_period_secs: 120,
            }));
        }
        r
    }
}

/// Repeated-acquisition law: starting from a full quota set, `n`
/// acquisition passes all succeed as long as `n` does not exceed any
/// bucket's capacity, and they leave every bucket exactly `n` tokens
/// short of full.
pub proof fn lemma_acquire_n_from_full(s: Seq<BucketModel>, n: nat)
    requires
        forall|i: int| 0 <= i < s.len() ==> s[i].available == s[i].capacity,
        forall|i: int| 0 <= i < s.len() ==> n <= s[i].capacity,
    ensures
        acquire_n(s, n).len() == s.len(),
        forall|i: int| 0 <= i < s.len() ==> acquire_n(s, n)[i].available == s[i].capacity - n,
        forall|i: int| 0 <= i < s.len() ==> acquire_n(s, n)[i].capacity == s[i].capacity,
        forall|k: nat| k < n ==> first_exhausted(acquire_n(s, k)) == s.len(),
    decreases n,
{
    if n > 0 {
        lemma_acquire_n_from_full(s, (n - 1) as nat);
        let t = acquire_n(s, (n - 1) as nat);
        assert forall|i: int| 0 <= i < t.len() implies t[i].available > 0 by {
            assert(t[i].available == s[i].capacity - (n - 1));
        }
        lemma_first_exhausted_is(t, t.len() as int);
        assert forall|k: nat| k < n implies first_exhausted(acquire_n(s, k)) == s.len() by {
            if k == n - 1 {
                assert(acquire_n(s, k) == t);
            }
        }
    }
}

/// Two bucket sequences with the same shape agree pointwise on
/// capacities and refill periods.
pub proof fn lemma_shape_eq_pointwise(a: Seq<BucketModel>, b: Seq<BucketModel>)
    requires
        a.len() == b.len(),
        QuotaSet::shape(a) == QuotaSet::shape(b),
    ensures
        forall|i: int|
            0 <= i < a.len() ==> a[i].capacity == b[i].capacity && a[i].refill_period_secs
                == b[i].refill_period_secs,
{
    assert forall|i: int|
        0 <= i < a.len() implies a[i].capacity == b[i].capacity && a[i].refill_period_secs
        == b[i].refill_period_secs by {
        assert(QuotaSet::shape(a)[i] == QuotaSet::shape(b)[i]);
    }
}

/// Throttle-halt law: once `drain_all` has run, an acquisition pass over
/// a non-empty quota set fails at its very first bucket and changes
/// nothing, however often it is retried, until some refill occurs.
pub proof fn lemma_drained_acquire_fails(s: Seq<BucketModel>)
    requires
        s.len() > 0,
        forall|i: int| 0 <= i < s.len() ==> s[i].available == 0,
    ensures
        first_exhausted(s) == 0,
{
    lemma_first_exhausted_is(s, 0);
}

} // verus!
