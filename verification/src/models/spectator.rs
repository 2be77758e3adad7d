//! Live-game (spectator) data, and the lookup of a participant's
//! champion and team.

use vstd::prelude::*;

verus! {

/// The live game a summoner is playing.
#[derive(Debug, PartialEq)]
pub struct SpectatorInfo {
    pub game_id: i64,
    pub map_id: i64,
    pub game_mode: String,
    pub game_type: String,
    pub game_queue_config_id: i64,
    pub participants: Vec<Participant>,
    pub observers: Observers,
    pub platform_id: String,
    pub banned_champions: Vec<BannedChampion>,
    pub game_start_time: i64,
    pub game_length: i64,
}

/// One player in a live game.
#[derive(Debug, PartialEq)]
pub struct Participant {
    pub team_id: i64,
    pub spell1_id: i64,
    pub spell2_id: i64,
    pub champion_id: i64,
    pub profile_icon_id: i64,
    pub summoner_name: String,
    pub bot: bool,
    pub summoner_id: String,
    pub perks: Perks,
}

/// The rune selection of a live-game participant.
#[derive(Debug, PartialEq)]
pub struct Perks {
    pub perk_ids: Vec<i64>,
    pub perk_style: Option<i64>,
    pub perk_sub_style: Option<i64>,
}

/// The spectator encryption key of a live game.
#[derive(Debug, PartialEq)]
pub struct Observers {
    pub encryption_key: String,
}

/// One banned champion of a live game.
#[derive(Debug, PartialEq)]
pub struct BannedChampion {
    pub champion_id: i64,
    pub team_id: i64,
    pub pick_turn: i64,
}

/// The champion and team of the first participant with the given
/// summoner id, if any.
pub open spec fn first_champion_and_team(ps: Seq<Participant>, summoner_id: Seq<char>) -> Option<
    (i64, i64),
>
    decreases ps.len(),
{
    if ps.len() == 0 {
        None
    } else if ps[0].summoner_id@ == summoner_id {
        Some((ps[0].champion_id, ps[0].team_id))
    } else {
        first_champion_and_team(ps.skip(1), summoner_id)
    }
}

/// Which champion the participant with the given summoner id plays, and
/// on which team; `None` when no participant has that id. Takes the
/// first participant when several share the id.
pub fn champion_and_team_for(ps: &Vec<Participant>, summoner_id: &String) -> (r: Option<
    (i64, i64),
>)
    ensures
        r == first_champion_and_team(ps@, summoner_id@),
{
    let r = champion_and_team_from(ps, summoner_id, 0);
    proof {
        assert(ps@.skip(0) =~= ps@);
    }
    r
}

fn champion_and_team_from(ps: &Vec<Participant>, summoner_id: &String, i: usize) -> (r: Option<
    (i64, i64),
>)
    requires
        i <= ps@.len(),
    ensures
        r == first_champion_and_team(ps@.skip(i as int), summoner_id@),
    decreases ps@.len() - i,
{
    proof {
        if i < ps@.len() {
            assert(ps@.skip(i as int)[0] == ps@[i as int]);
            assert(ps@.skip(i as int).skip(1) =~= ps@.skip(i as int + 1));
        }
    }
    if i == ps.len() {
        None
    } else if ps[i].summoner_id.eq(summoner_id) {
        Some((ps[i].champion_id, ps[i].team_id))
    } else {
        champion_and_team_from(ps, summoner_id, i + 1)
    }
}

} // verus!
