//! Ranked-ladder entries, and the lookup of the solo-queue entry.

use vstd::prelude::*;

verus! {

/// One ranked-ladder entry of a summoner.
#[derive(Debug, PartialEq)]
pub struct LeagueRank {
    pub league_id: String,
    pub queue_type: String,
    pub tier: String,
    pub rank: String,
    pub summoner_id: String,
    pub summoner_name: String,
    pub league_points: i64,
    pub wins: i64,
    pub losses: i64,
    pub veteran: bool,
    pub inactive: bool,
    pub fresh_blood: bool,
    pub hot_streak: bool,
}

/// Whether an entry belongs to the ranked solo queue.
pub open spec fn is_solo_queue(l: LeagueRank) -> bool {
    l.queue_type@ == "RANKED_SOLO_5x5"@
}

/// The first solo-queue entry of `ranks`, if any.
pub open spec fn first_solo_queue(ranks: Seq<LeagueRank>) -> Option<LeagueRank>
    decreases ranks.len(),
{
    if ranks.len() == 0 {
        None
    } else if is_solo_queue(ranks[0]) {
        Some(ranks[0])
    } else {
        first_solo_queue(ranks.skip(1))
    }
}

/// `first_solo_queue` picks the entry at the first matching index.
proof fn lemma_first_solo_queue_is(ranks: Seq<LeagueRank>, j: int)
    requires
        0 <= j <= ranks.len(),
        forall|k: int| 0 <= k < j ==> !is_solo_queue(ranks[k]),
        j < ranks.len() ==> is_solo_queue(ranks[j]),
    ensures
        first_solo_queue(ranks) == if j < ranks.len() {
            Some(ranks[j])
        } else {
            None::<LeagueRank>
        },
    decreases ranks.len(),
{
    if ranks.len() > 0 && !is_solo_queue(ranks[0]) {
        assert forall|k: int| 0 <= k < j - 1 implies !is_solo_queue(ranks.skip(1)[k]) by {
            assert(ranks.skip(1)[k] == ranks[k + 1]);
        }
        if j - 1 < ranks.len() - 1 {
            assert(ranks.skip(1)[j - 1] == ranks[j]);
        }
        lemma_first_solo_queue_is(ranks.skip(1), j - 1);
    }
}

/// The first solo-queue entry among `ranks`, in order; `None` when no
/// entry is for the solo queue.
pub fn solo_queue_rank(ranks: Vec<LeagueRank>) -> (r: Option<LeagueRank>)
    ensures
        r == first_solo_queue(ranks@),
{
    let mut v = ranks;
    let ghost orig = v@;
    let solo = "RANKED_SOLO_5x5".to_owned();
    let n = v.len();
    let mut i: usize = 0;
    while i < n
        invariant
            v@ == orig,
            orig == ranks@,
            n == orig.len(),
            i <= n,
            solo@ == "RANKED_SOLO_5x5"@,
            forall|k: int| 0 <= k < i ==> !is_solo_queue(orig[k]),
        decreases n - i,
    {
        if v[i].queue_type.eq(&solo) {
            proof {
                lemma_first_solo_queue_is(orig, i as int);
            }
            return Some(v.remove(i));
        }
        i = i + 1;
    }
    proof {
        lemma_first_solo_queue_is(orig, n as int);
    }
    None
}

} // verus!
