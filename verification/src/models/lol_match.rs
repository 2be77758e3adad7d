//! Finished-match data, and the lookup of a player's result in it.

use vstd::prelude::*;

verus! {

/// The full record of one finished match.
#[derive(Debug, Default, PartialEq)]
pub struct MatchData {
    pub metadata: Metadata,
    pub info: Info,
}

/// Identity of a match and its participants.
#[derive(Debug, Default, PartialEq)]
pub struct Metadata {
    pub data_version: String,
    pub match_id: String,
    pub participants: Vec<String>,
}

/// Everything that happened in one match.
#[derive(Debug, Default, PartialEq)]
pub struct Info {
    pub game_creation: i64,
    pub game_duration: i64,
    pub game_end_timestamp: i64,
    pub game_id: i64,
    pub game_mode: String,
    pub game_name: String,
    pub game_start_timestamp: i64,
    pub game_type: String,
    pub game_version: String,
    pub map_id: i64,
    pub participants: Vec<Participant>,
    pub platform_id: String,
    pub queue_id: i64,
    pub teams: Vec<Team>,
    pub tournament_code: String,
}

/// One player's full statistics in a finished match.
#[derive(Debug, Default, PartialEq)]
pub struct Participant {
    pub assists: i64,
    pub baron_kills: i64,
    pub bounty_level: i64,
    pub champ_experience: i64,
    pub champ_level: i64,
    pub champion_id: i64,
    pub champion_name: String,
    pub champion_transform: i64,
    pub consumables_purchased: i64,
    pub damage_dealt_to_buildings: i64,
    pub damage_dealt_to_objectives: i64,
    pub damage_dealt_to_turrets: i64,
    pub damage_self_mitigated: i64,
    pub deaths: i64,
    pub detector_wards_placed: i64,
    pub double_kills: i64,
    pub dragon_kills: i64,
    pub first_blood_assist: bool,
    pub first_blood_kill: bool,
    pub first_tower_assist: bool,
    pub first_tower_kill: bool,
    pub game_ended_in_early_surrender: bool,
    pub game_ended_in_surrender: bool,
    pub gold_earned: i64,
    pub gold_spent: i64,
    pub individual_position: String,
    pub inhibitor_kills: i64,
    pub inhibitor_takedowns: i64,
    pub inhibitors_lost: i64,
    pub item0: i64,
    pub item1: i64,
    pub item2: i64,
    pub item3: i64,
    pub item4: i64,
    pub item5: i64,
    pub item6: i64,
    pub items_purchased: i64,
    pub killing_sprees: i64,
    pub kills: i64,
    pub lane: String,
    pub largest_critical_strike: i64,
    pub largest_killing_spree: i64,
    pub largest_multi_kill: i64,
    pub longest_time_spent_living: i64,
    pub magic_damage_dealt: i64,
    pub magic_damage_dealt_to_champions: i64,
    pub magic_damage_taken: i64,
    pub neutral_minions_killed: i64,
    pub nexus_kills: i64,
    pub nexus_lost: i64,
    pub nexus_takedowns: i64,
    pub objectives_stolen: i64,
    pub objectives_stolen_assists: i64,
    pub participant_id: i64,
    pub penta_kills: i64,
    pub perks: Perks,
    pub physical_damage_dealt: i64,
    pub physical_damage_dealt_to_champions: i64,
    pub physical_damage_taken: i64,
    pub profile_icon: i64,
    pub puuid: String,
    pub quadra_kills: i64,
    pub riot_id_name: String,
    pub riot_id_tagline: String,
    pub role: String,
    pub sight_wards_bought_in_game: i64,
    pub spell1casts: i64,
    pub spell2casts: i64,
    pub spell3casts: i64,
    pub spell4casts: i64,
    pub summoner1casts: i64,
    pub summoner1id: i64,
    pub summoner2casts: i64,
    pub summoner2id: i64,
    pub summoner_id: String,
    pub summoner_level: i64,
    pub summoner_name: String,
    pub team_early_surrendered: bool,
    pub team_id: i64,
    pub team_position: String,
    pub time_ccing_others: i64,
    pub time_played: i64,
    pub total_damage_dealt: i64,
    pub total_damage_dealt_to_champions: i64,
    pub total_damage_shielded_on_teammates: i64,
    pub total_damage_taken: i64,
    pub total_heal: i64,
    pub total_heals_on_teammates: i64,
    pub total_minions_killed: i64,
    pub total_time_ccdealt: i64,
    pub total_time_spent_dead: i64,
    pub total_units_healed: i64,
    pub triple_kills: i64,
    pub true_damage_dealt: i64,
    pub true_damage_dealt_to_champions: i64,
    pub true_damage_taken: i64,
    pub turret_kills: i64,
    pub turret_takedowns: i64,
    pub turrets_lost: i64,
    pub unreal_kills: i64,
    pub vision_score: i64,
    pub vision_wards_bought_in_game: i64,
    pub wards_killed: i64,
    pub wards_placed: i64,
    pub win: bool,
}

/// A participant's rune pages.
#[derive(Debug, Default, PartialEq)]
pub struct Perks {
    pub stat_perks: StatPerks,
    pub styles: Vec<Style>,
}

/// The stat shards of a rune page.
#[derive(Debug, Default, PartialEq)]
pub struct StatPerks {
    pub defense: i64,
    pub flex: i64,
    pub offense: i64,
}

/// One rune style and its selections.
#[derive(Debug, Default, PartialEq)]
pub struct Style {
    pub description: String,
    pub selections: Vec<Selection>,
    pub style: i64,
}

/// One selected rune and its values.
#[derive(Debug, Default, PartialEq)]
pub struct Selection {
    pub perk: i64,
    pub var1: i64,
    pub var2: i64,
    pub var3: i64,
}

/// One team's summary in a finished match.
#[derive(Debug, Default, PartialEq)]
pub struct Team {
    pub bans: Vec<Ban>,
    pub objectives: Objectives,
    pub team_id: i64,
    pub win: bool,
}

/// One banned champion.
#[derive(Debug, Default, PartialEq)]
pub struct Ban {
    pub champion_id: i64,
    pub pick_turn: i64,
}

/// A team's objective tallies.
#[derive(Debug, Default, PartialEq)]
pub struct Objectives {
    pub baron: Baron,
    pub champion: Champion,
    pub dragon: Dragon,
    pub inhibitor: Inhibitor,
    pub rift_herald: RiftHerald,
    pub tower: Tower,
}

/// Baron kills of one team.
#[derive(Debug, Default, PartialEq)]
pub struct Baron {
    pub first: bool,
    pub kills: i64,
}

/// Champion kills of one team.
#[derive(Debug, Default, PartialEq)]
pub struct Champion {
    pub first: bool,
    pub kills: i64,
}

/// Dragon kills of one team.
#[derive(Debug, Default, PartialEq)]
pub struct Dragon {
    pub first: bool,
    pub kills: i64,
}

/// Inhibitor kills of one team.
#[derive(Debug, Default, PartialEq)]
pub struct Inhibitor {
    pub first: bool,
    pub kills: i64,
}

/// Rift herald kills of one team.
#[derive(Debug, Default, PartialEq)]
pub struct RiftHerald {
    pub first: bool,
    pub kills: i64,
}

/// Tower kills of one team.
#[derive(Debug, Default, PartialEq)]
pub struct Tower {
    pub first: bool,
    pub kills: i64,
}

/// Whether this participant record is the given player on the given
/// champion.
pub open spec fn played_this(p: Participant, puuid: Seq<char>, champion_id: i64) -> bool {
    p.puuid@ == puuid && p.champion_id == champion_id
}

/// The win flag of the first participant that is the given player on the
/// given champion, if any.
pub open spec fn first_outcome(ps: Seq<Participant>, puuid: Seq<char>, champion_id: i64) -> Option<
    bool,
>
    decreases ps.len(),
{
    if ps.len() == 0 {
        None
    } else if played_this(ps[0], puuid, champion_id) {
        Some(ps[0].win)
    } else {
        first_outcome(ps.skip(1), puuid, champion_id)
    }
}

/// Whether the given player won this match on the given champion:
/// `None` when they did not appear on that champion in it.
pub fn match_result_for(data: &MatchData, puuid: &String, champion_id: i64) -> (r: Option<bool>)
    ensures
        r == first_outcome(data.info.participants@, puuid@, champion_id),
{
    let r = outcome_from(&data.info.participants, puuid, champion_id, 0);
    proof {
        assert(data.info.participants@.skip(0) =~= data.info.participants@);
    }
    r
}

fn outcome_from(ps: &Vec<Participant>, puuid: &String, champion_id: i64, i: usize) -> (r: Option<
    bool,
>)
    requires
        i <= ps@.len(),
    ensures
        r == first_outcome(ps@.skip(i as int), puuid@, champion_id),
    decreases ps@.len() - i,
{
    proof {
        if i < ps@.len() {
            assert(ps@.skip(i as int)[0] == ps@[i as int]);
            assert(ps@.skip(i as int).skip(1) =~= ps@.skip(i as int + 1));
        }
    }
    if i == ps.len() {
        None
    } else if ps[i].puuid.eq(puuid) && ps[i].champion_id == champion_id {
        Some(ps[i].win)
    } else {
        outcome_from(ps, puuid, champion_id, i + 1)
    }
}

/// How many of these matches the player won on the given champion.
pub open spec fn wins_count(datas: Seq<MatchData>, puuid: Seq<char>, champion_id: i64) -> nat
    decreases datas.len(),
{
    if datas.len() == 0 {
        0
    } else {
        wins_count(datas.drop_last(), puuid, champion_id) + (if first_outcome(
            datas.last().info.participants@,
            puuid,
            champion_id,
        ) == Some(true) {
            1nat
        } else {
            0nat
        })
    }
}

/// How many of these matches the player lost on the given champion.
pub open spec fn losses_count(datas: Seq<MatchData>, puuid: Seq<char>, champion_id: i64) -> nat
    decreases datas.len(),
{
    if datas.len() == 0 {
        0
    } else {
        losses_count(datas.drop_last(), puuid, champion_id) + (if first_outcome(
            datas.last().info.participants@,
            puuid,
            champion_id,
        ) == Some(false) {
            1nat
        } else {
            0nat
        })
    }
}

/// Count the player's wins and losses on the given champion over these
/// matches; a match they did not play on that champion counts as
/// neither.
pub fn count_wins(datas: &Vec<MatchData>, puuid: &String, champion_id: i64) -> (r: (u8, u8))
    requires
        datas@.len() <= 255,
    ensures
        r.0 == wins_count(datas@, puuid@, champion_id),
        r.1 == losses_count(datas@, puuid@, champion_id),
{
    let mut wins: u8 = 0;
    let mut losses: u8 = 0;
    let n = datas.len();
    let mut i: usize = 0;
    while i < n
        invariant
            n == datas@.len(),
            n <= 255,
            i <= n,
            wins == wins_count(datas@.take(i as int), puuid@, champion_id),
            losses == losses_count(datas@.take(i as int), puuid@, champion_id),
            wins + losses <= i,
        decreases n - i,
    {
        proof {
            assert(datas@.take(i + 1).drop_last() =~= datas@.take(i as int));
            assert(datas@.take(i + 1).last() == datas@[i as int]);
        }
        match match_result_for(&datas[i], puuid, champion_id) {
            Some(true) => {
                wins = wins + 1;
            },
            Some(false) => {
                losses = losses + 1;
            },
            None => (),
        }
        i = i + 1;
    }
    proof {
        assert(datas@.take(n as int) =~= datas@);
    }
    (wins, losses)
}

} // verus!
