//! Win-rate statistics for one champion, and the ordering the results
//! table is sorted by.

use vstd::prelude::*;
use vstd::string::StringExecFns;

use crate::util::dec_digits;
use crate::util::title_case_spec;
use crate::util::u64_to_string;
use crate::util::StringExt;

verus! {

broadcast use vstd::seq_lib::group_to_multiset_ensures, vstd::multiset::group_multiset_axioms;

/// A player's record on one champion: how often they won it recently,
/// with the display fields the results table shows.
#[derive(Debug)]
pub struct ChampionWinRate {
    pub champion_id: i64,
    pub champion_name: String,
    pub total_games: u8,
    pub win_rate: u16,
    pub team_id: u8,
    pub rank: String,
    pub summoner_name: String,
}

/// The percentage of games won, rounded down; 0 when no game was
/// played.
pub open spec fn win_rate_of(wins: nat, losses: nat) -> nat {
    if wins + losses == 0 {
        0
    } else {
        wins * 100 / (wins + losses)
    }
}

/// The sentence the table shows for a record, naming the win rate and
/// the number of games.
pub open spec fn win_rate_string_spec(c: ChampionWinRate) -> Seq<char> {
    if c.total_games > 0 {
        dec_digits(c.win_rate as nat) + "% in last "@ + dec_digits(c.total_games as nat) + " "@ + (
        if c.total_games == 1 {
            "game"@
        } else {
            "games"@
        }) + "."@
    } else {
        "No games played."@
    }
}

impl ChampionWinRate {
    /// A fresh record from a win/loss tally: the win rate is the
    /// percentage of games won, the team, rank and summoner name start
    /// at their placeholders.
    pub fn new(champion_id: i64, champion_name: String, wins: u8, losses: u8) -> (r:
        ChampionWinRate)
        requires
            wins + losses <= 255,
        ensures
            r.champion_id == champion_id,
            r.champion_name == champion_name,
            r.total_games == wins + losses,
            r.win_rate == win_rate_of(wins as nat, losses as nat),
            r.team_id == 0,
            r.rank@ == "Unranked"@,
            r.summoner_name@ == "Unknown"@,
    {
        let total: u16 = wins as u16 + losses as u16;
        let win_rate: u16 = if total == 0 {
            0
        } else {
            (wins as u16 * 100) / total
        };
        ChampionWinRate {
            champion_id,
            champion_name,
            win_rate,
            total_games: wins + losses,
            team_id: 0,
            rank: "Unranked".to_owned(),
            summoner_name: "Unknown".to_owned(),
        }
    }

    /// Exec mirror of [`win_rate_string_spec`].
    pub fn win_rate_string(&self) -> (r: String)
        ensures
            r@ == win_rate_string_spec(*self),
    {
        if self.total_games > 0 {
            u64_to_string(self.win_rate as u64).concat("% in last ").concat(
                u64_to_string(self.total_games as u64).as_str(),
            ).concat(" ").concat(
                if self.total_games == 1 {
                    "game"
                } else {
                    "games"
                },
            ).concat(".")
        } else {
            "No games played.".to_owned()
        }
    }
}

/// The rank label shown beside a record: the tier in title case, a
/// space, and the division.
pub fn rank_label(tier: String, rank: &str) -> (r: String)
    requires
        tier@.len() >= 1,
    ensures
        r@ == title_case_spec(tier@) + " "@ + rank@,
{
    tier.title_case().concat(" ").concat(rank)
}

/// The table order: ascending team, and within a team descending win
/// rate, so each team reads best-first.
pub open spec fn cwr_le(a: ChampionWinRate, b: ChampionWinRate) -> bool {
    a.team_id < b.team_id || (a.team_id == b.team_id && a.win_rate >= b.win_rate)
}

/// Exec mirror of [`cwr_le`].
fn cwr_le_exec(a: &ChampionWinRate, b: &ChampionWinRate) -> (r: bool)
    ensures
        r == cwr_le(*a, *b),
{
    a.team_id < b.team_id || (a.team_id == b.team_id && a.win_rate >= b.win_rate)
}

/// Sort the records into table order ([`cwr_le`]), keeping exactly the
/// given records.
pub fn sort_champion_win_rates(results: Vec<ChampionWinRate>) -> (r: Vec<ChampionWinRate>)
    ensures
        r@.len() == results@.len(),
        r@.to_multiset() == results@.to_multiset(),
        forall|x: int, y: int| 0 <= x < y < r@.len() ==> cwr_le(r@[x], r@[y]),
{
    let mut v = results;
    let mut i: usize = 1;
    while i < v.len()
        invariant
            v@.len() == results@.len(),
            v@.to_multiset() == results@.to_multiset(),
            1 <= i,
            i <= v@.len() || v@.len() == 0,
            forall|x: int, y: int| 0 <= x < y < i ==> cwr_le(v@[x], v@[y]),
        decreases v@.len() - i,
    {
        let ghost before = v@;
        let x = v.remove(i);
        let mut p: usize = 0;
        while p < i && cwr_le_exec(&v[p], &x)
            invariant
                i < before.len(),
                before.len() == results@.len(),
                before.to_multiset() == results@.to_multiset(),
                v@ == before.remove(i as int),
                x == before[i as int],
                i <= v@.len(),
                p <= i,
                forall|a: int, b: int| 0 <= a < b < i ==> cwr_le(before[a], before[b]),
                forall|k: int| 0 <= k < p ==> cwr_le(v@[k], x),
            decreases i - p,
        {
            p = p + 1;
        }
        let ghost after_remove = v@;
        v.insert(p, x);
        proof {
            before.remove_ensures(i as int);
            after_remove.insert_ensures(p as int, x);
            assert(before[i as int] == x);
            assert(before.contains(x));
            assert(v@.to_multiset() =~= results@.to_multiset());
            assert forall|a: int, b: int| 0 <= a < b < i + 1 implies cwr_le(v@[a], v@[b]) by {
                assert forall|k: int| 0 <= k < i implies after_remove[k] == before[k] by {}
                if p < i {
                    assert(!cwr_le(after_remove[p as int], x));
                }
                if a < p {
                    assert(v@[a] == after_remove[a]);
                } else if a == p {
                    assert(v@[a] == x);
                } else {
                    assert(v@[a] == after_remove[a - 1]);
                }
                if b < p {
                    assert(v@[b] == after_remove[b]);
                } else if b == p {
                    assert(v@[b] == x);
                } else {
                    assert(v@[b] == after_remove[b - 1]);
                }
                if b < p {
                    assert(cwr_le(before[a], before[b]));
                } else if b == p {
                    assert(cwr_le(after_remove[a], x));
                } else if a < p {
                    assert(cwr_le(before[a], before[b - 1]));
                } else if a == p {
                    assert(cwr_le(x, after_remove[p as int]));
                    if p < b - 1 {
                        assert(cwr_le(before[p as int], before[b - 1]));
                    }
                } else {
                    assert(cwr_le(before[a - 1], before[b - 1]));
                }
            }
        }
        i = i + 1;
    }
    v
}

} // verus!
