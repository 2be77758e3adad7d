use league_notifier::models::champion::rank_label;
use league_notifier::models::champion::sort_champion_win_rates;
use league_notifier::models::champion::ChampionWinRate;
use league_notifier::models::ddragon_champions::champion_name_for_key;
use league_notifier::models::ddragon_champions::Champion;
use league_notifier::models::ddragon_champions::Image;
use league_notifier::models::ddragon_champions::Info;
use league_notifier::models::errors::ApiError;
use league_notifier::models::leagues::solo_queue_rank;
use league_notifier::models::leagues::LeagueRank;
use league_notifier::models::lol_match::count_wins;
use league_notifier::models::lol_match::match_result_for;
use league_notifier::models::lol_match::MatchData;
use league_notifier::models::lol_match::Participant;
use league_notifier::models::spectator::champion_and_team_for;
use league_notifier::models::spectator::Participant as LiveParticipant;
use league_notifier::models::spectator::Perks as LivePerks;
use league_notifier::table::table_rows;
use league_notifier::table::RowColor;

fn rank(queue_type: &str, tier: &str, division: &str) -> LeagueRank {
    LeagueRank {
        league_id: "L1".to_string(),
        queue_type: queue_type.to_string(),
        tier: tier.to_string(),
        rank: division.to_string(),
        summoner_id: "s1".to_string(),
        summoner_name: "Someone".to_string(),
        league_points: 10,
        wins: 1,
        losses: 2,
        veteran: false,
        inactive: false,
        fresh_blood: false,
        hot_streak: false,
    }
}

fn live_participant(summoner_id: &str, champion_id: i64, team_id: i64) -> LiveParticipant {
    LiveParticipant {
        team_id,
        spell1_id: 4,
        spell2_id: 12,
        champion_id,
        profile_icon_id: 1,
        summoner_name: "Someone".to_string(),
        bot: false,
        summoner_id: summoner_id.to_string(),
        perks: LivePerks {
            perk_ids: vec![],
            perk_style: None,
            perk_sub_style: None,
        },
    }
}

fn match_with(puuid: &str, champion_id: i64, win: bool) -> MatchData {
    let mut data = MatchData::default();
    let participant = Participant {
        puuid: puuid.to_string(),
        champion_id,
        win,
        ..Participant::default()
    };
    data.info.participants.push(participant);
    data
}

fn champion(key: u64, name: &str) -> Champion {
    Champion {
        version: "13.1.1".to_string(),
        id: name.to_string(),
        key,
        name: name.to_string(),
        title: "the Example".to_string(),
        blurb: "".to_string(),
        info: Info {
            attack: 1,
            defense: 2,
            magic: 3,
            difficulty: 4,
        },
        image: Image {
            full: "x.png".to_string(),
            sprite: "s.png".to_string(),
            group: "champion".to_string(),
            x: 0,
            y: 0,
            w: 48,
            h: 48,
        },
        tags: vec![],
        partype: "Mana".to_string(),
    }
}

fn record(team_id: u8, win_rate_games: (u8, u8), name: &str) -> ChampionWinRate {
    let mut cwr = ChampionWinRate::new(
        7,
        name.to_string(),
        win_rate_games.0,
        win_rate_games.1,
    );
    cwr.team_id = team_id;
    cwr.summoner_name = name.to_string();
    cwr
}

#[test]
fn win_rate_is_the_truncated_percentage() {
    let cwr = ChampionWinRate::new(1, "Ahri".to_string(), 1, 2);
    assert_eq!(cwr.total_games, 3);
    assert_eq!(cwr.win_rate, 33);
    assert_eq!(cwr.rank, "Unranked");
    assert_eq!(cwr.summoner_name, "Unknown");
    let none = ChampionWinRate::new(1, "Ahri".to_string(), 0, 0);
    assert_eq!(none.win_rate, 0);
    let all = ChampionWinRate::new(1, "Ahri".to_string(), 4, 0);
    assert_eq!(all.win_rate, 100);
}

#[test]
fn win_rate_sentence_names_rate_and_games() {
    let cwr = ChampionWinRate::new(1, "Ahri".to_string(), 1, 2);
    assert_eq!(cwr.win_rate_string(), "33% in last 3 games.");
    let one = ChampionWinRate::new(1, "Ahri".to_string(), 1, 0);
    assert_eq!(one.win_rate_string(), "100% in last 1 game.");
    let none = ChampionWinRate::new(1, "Ahri".to_string(), 0, 0);
    assert_eq!(none.win_rate_string(), "No games played.");
}

#[test]
fn rank_label_is_title_cased_tier_and_division() {
    assert_eq!(rank_label("GOLD".to_string(), "IV"), "Gold IV");
}

#[test]
fn solo_queue_rank_picks_the_first_solo_entry() {
    let ranks = vec![
        rank("RANKED_FLEX_SR", "GOLD", "I"),
        rank("RANKED_SOLO_5x5", "SILVER", "II"),
        rank("RANKED_SOLO_5x5", "BRONZE", "III"),
    ];
    let solo = solo_queue_rank(ranks).expect("a solo-queue entry exists");
    assert_eq!(solo.tier, "SILVER");
    assert!(solo_queue_rank(vec![rank("RANKED_FLEX_SR", "GOLD", "I")]).is_none());
    assert!(solo_queue_rank(vec![]).is_none());
}

#[test]
fn champion_and_team_found_by_summoner_id() {
    let ps = vec![
        live_participant("a", 10, 100),
        live_participant("b", 20, 200),
    ];
    assert_eq!(champion_and_team_for(&ps, &"b".to_string()), Some((20, 200)));
    assert_eq!(champion_and_team_for(&ps, &"c".to_string()), None);
}

#[test]
fn match_result_finds_the_player_on_the_champion() {
    let data = match_with("pu1", 10, true);
    assert_eq!(match_result_for(&data, &"pu1".to_string(), 10), Some(true));
    assert_eq!(match_result_for(&data, &"pu1".to_string(), 11), None);
    assert_eq!(match_result_for(&data, &"pu2".to_string(), 10), None);
}

#[test]
fn count_wins_tallies_wins_and_losses() {
    let datas = vec![
        match_with("pu1", 10, true),
        match_with("pu1", 10, false),
        match_with("pu1", 10, true),
        match_with("pu1", 11, true),
        match_with("pu2", 10, false),
    ];
    let (wins, losses) = count_wins(&datas, &"pu1".to_string(), 10);
    assert_eq!(wins, 2);
    assert_eq!(losses, 1);
}

#[test]
fn champion_name_found_by_key() {
    let list = vec![champion(103, "Ahri"), champion(64, "Lee Sin")];
    assert_eq!(champion_name_for_key(&list, 64), Some("Lee Sin".to_string()));
    assert_eq!(champion_name_for_key(&list, 1), None);
}

#[test]
fn sort_orders_by_team_then_descending_win_rate() {
    let records = vec![
        record(200, (1, 3), "d"),
        record(100, (1, 1), "b"),
        record(200, (3, 1), "c"),
        record(100, (3, 0), "a"),
    ];
    let sorted = sort_champion_win_rates(records);
    let order: Vec<(u8, u16)> = sorted.iter().map(|c| (c.team_id, c.win_rate)).collect();
    assert_eq!(order, vec![(100, 100), (100, 50), (200, 75), (200, 25)]);
}

#[test]
fn table_rows_colour_by_player_and_team() {
    let me = "a".to_string();
    let records = vec![
        record(100, (3, 0), "a"),
        record(100, (1, 1), "b"),
        record(200, (3, 1), "c"),
        record(0, (1, 3), "d"),
    ];
    let rows = table_rows(&me, &records);
    assert_eq!(rows.len(), 4);
    assert_eq!(rows[0].color, RowColor::Player);
    assert_eq!(rows[1].color, RowColor::TeamOne);
    assert_eq!(rows[2].color, RowColor::TeamTwo);
    assert_eq!(rows[3].color, RowColor::Plain);
    assert_eq!(rows[0].champion_name, "a");
    assert_eq!(rows[0].win_rate, "100% in last 3 games.");
    assert_eq!(rows[0].rank, "Unranked");
}

#[test]
fn api_error_keeps_its_message() {
    let err = ApiError::new("something went wrong");
    assert_eq!(err.message(), "something went wrong");
    let from_string = ApiError::from("boom".to_string());
    assert_eq!(from_string.message(), "boom");
}
