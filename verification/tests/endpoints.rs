use league_notifier::api::full_url;
use league_notifier::api::ApiRegion;
use league_notifier::endpoints::ByPuiidParamsBuilder;
use league_notifier::endpoints::Endpoint;
use league_notifier::endpoints::LeagueRankEndpoint;
use league_notifier::endpoints::MatchEndpoint;
use league_notifier::endpoints::SpectatorEndpoint;
use league_notifier::endpoints::SummonerEndpointBy;

#[test]
fn league_rank_url() {
    let url = LeagueRankEndpoint::BySummonerId("abc-123").url();
    assert_eq!(url, "lol/league/v4/entries/by-summoner/abc-123");
}

#[test]
fn spectator_urls() {
    assert_eq!(
        SpectatorEndpoint::BySummonerId("id9").url(),
        "lol/spectator/v4/active-games/by-summoner/id9"
    );
    assert_eq!(
        SpectatorEndpoint::FeaturedGames.url(),
        "lol/spectator/v4/featured-games"
    );
}

#[test]
fn summoner_urls() {
    assert_eq!(
        SummonerEndpointBy::Account("a1").url(),
        "lol/summoner/v4/summoners/by-account/a1"
    );
    assert_eq!(
        SummonerEndpointBy::Name("Zed Fan").url(),
        "lol/summoner/v4/summoners/by-name/Zed Fan"
    );
    assert_eq!(
        SummonerEndpointBy::Puuid("p7").url(),
        "lol/summoner/v4/summoners/by-puuid/p7"
    );
    assert_eq!(
        SummonerEndpointBy::SummonerId("s3").url(),
        "lol/summoner/v4/summoners/s3"
    );
}

#[test]
fn match_urls() {
    assert_eq!(
        MatchEndpoint::ByMatchId("NA1_55").url(),
        "lol/match/v5/matches/NA1_55"
    );
    assert_eq!(
        MatchEndpoint::TimelineByMatchId("NA1_55").url(),
        "lol/match/v5/matches/NA1_55/timeline"
    );
    assert_eq!(
        MatchEndpoint::ByPuuid("pu1", None).url(),
        "lol/match/v5/matches/by-puuid/pu1/ids"
    );
}

#[test]
fn match_url_with_count_filter() {
    let params = ByPuiidParamsBuilder::default().count(25).build();
    assert_eq!(
        MatchEndpoint::ByPuuid("pu1", Some(params)).url(),
        "lol/match/v5/matches/by-puuid/pu1/ids?count=25"
    );
}

#[test]
fn match_url_with_every_filter_in_declaration_order() {
    let params = ByPuiidParamsBuilder::default()
        .start_time(-5)
        .end_time(1700000000)
        .queue(42)
        .match_type("ranked".to_string())
        .start(0)
        .count(25)
        .build();
    assert_eq!(
        MatchEndpoint::ByPuuid("pu1", Some(params)).url(),
        "lol/match/v5/matches/by-puuid/pu1/ids?startTime=-5&endTime=1700000000&queue=42&type=ranked&start=0&count=25"
    );
}

#[test]
fn match_url_with_empty_filters_keeps_the_question_mark() {
    let params = ByPuiidParamsBuilder::default().build();
    assert_eq!(
        MatchEndpoint::ByPuuid("pu1", Some(params)).url(),
        "lol/match/v5/matches/by-puuid/pu1/ids?"
    );
}

#[test]
fn region_root_endpoints() {
    assert_eq!(
        ApiRegion::EUW1.get_root_endpoint(),
        "https://euw1.api.riotgames.com"
    );
    assert_eq!(
        ApiRegion::KR.get_root_endpoint(),
        "https://kr.api.riotgames.com"
    );
    assert_eq!(
        ApiRegion::NA1.get_v5_root_endpoint(),
        "https://americas.api.riotgames.com"
    );
    assert_eq!(
        ApiRegion::EUW1.get_v5_root_endpoint(),
        "https://europe.api.riotgames.com"
    );
    assert_eq!(
        ApiRegion::JP1.get_v5_root_endpoint(),
        "https://asia.api.riotgames.com"
    );
}

#[test]
fn full_url_joins_root_and_path() {
    assert_eq!(
        full_url(
            "https://euw1.api.riotgames.com",
            "lol/spectator/v4/featured-games"
        ),
        "https://euw1.api.riotgames.com/lol/spectator/v4/featured-games"
    );
}
