//! Logical endpoint descriptors and the URL paths they resolve to.
//!
//! Each descriptor resolves, purely, to the path fragment that is
//! appended to a region's root URL; the contract of every `url` method
//! states the resulting character sequence exactly.

use vstd::prelude::*;
use vstd::string::StringExecFns;

use crate::util::dec_digits;
use crate::util::dec_digits_signed;
use crate::util::i64_to_string;
use crate::util::u64_to_string;

verus! {

/// A logical request description that resolves to a URL path.
pub trait Endpoint: Sized {
    /// The path this descriptor resolves to.
    spec fn url_spec(&self) -> Seq<char>;

    /// Resolve the descriptor; pure, never fails.
    fn url(self) -> (r: String)
        ensures
            r@ == self.url_spec(),
    ;
}

/// League (ranked ladder) endpoints.
pub enum LeagueRankEndpoint<'a> {
    /// The ranked entries of one summoner.
    BySummonerId(&'a str),
}

impl<'a> Endpoint for LeagueRankEndpoint<'a> {
    open spec fn url_spec(&self) -> Seq<char> {
        match self {
            LeagueRankEndpoint::BySummonerId(id) => "lol/league/v4/entries/by-summoner/"@ + id@,
        }
    }

    fn url(self) -> (r: String) {
        match self {
            LeagueRankEndpoint::BySummonerId(id) => "lol/league/v4/entries/by-summoner/".to_owned()
                .concat(id),
        }
    }
}

/// Live-game (spectator) endpoints.
pub enum SpectatorEndpoint<'a> {
    /// The game a summoner is currently playing.
    BySummonerId(&'a str),
    /// The featured games list.
    FeaturedGames,
}

impl<'a> Endpoint for SpectatorEndpoint<'a> {
    open spec fn url_spec(&self) -> Seq<char> {
        match self {
            SpectatorEndpoint::BySummonerId(id) => "lol/spectator/v4/active-games/by-summoner/"@
                + id@,
            SpectatorEndpoint::FeaturedGames => "lol/spectator/v4/featured-games"@,
        }
    }

    fn url(self) -> (r: String) {
        match self {
            SpectatorEndpoint::BySummonerId(id) => "lol/spectator/v4/active-games/by-summoner/"
                .to_owned().concat(id),
            SpectatorEndpoint::FeaturedGames => "lol/spectator/v4/featured-games".to_owned(),
        }
    }
}

/// Summoner lookup endpoints, by each supported key.
pub enum SummonerEndpointBy<'a> {
    Account(&'a str),
    Name(&'a str),
    Puuid(&'a str),
    SummonerId(&'a str),
}

impl<'a> Endpoint for SummonerEndpointBy<'a> {
    open spec fn url_spec(&self) -> Seq<char> {
        match self {
            SummonerEndpointBy::Account(id) => "lol/summoner/v4/summoners/by-account/"@ + id@,
            SummonerEndpointBy::Name(name) => "lol/summoner/v4/summoners/by-name/"@ + name@,
            SummonerEndpointBy::Puuid(id) => "lol/summoner/v4/summoners/by-puuid/"@ + id@,
            SummonerEndpointBy::SummonerId(id) => "lol/summoner/v4/summoners/"@ + id@,
        }
    }

    fn url(self) -> (r: String) {
        match self {
            SummonerEndpointBy::Account(id) => "lol/summoner/v4/summoners/by-account/".to_owned()
                .concat(id),
            SummonerEndpointBy::Name(name) => "lol/summoner/v4/summoners/by-name/".to_owned()
                .concat(name),
            SummonerEndpointBy::Puuid(id) => "lol/summoner/v4/summoners/by-puuid/".to_owned()
                .concat(id),
            SummonerEndpointBy::SummonerId(id) => "lol/summoner/v4/summoners/".to_owned().concat(
                id,
            ),
        }
    }
}

/// Optional filters for a match-id listing, rendered as a query string.
/// Fields are rendered in declaration order under their camel-case keys;
/// absent fields are skipped.
pub struct ByPuiidParams {
    pub start_time: Option<i64>,
    pub end_time: Option<i64>,
    pub queue: Option<u8>,
    /// Rendered under the key `type`.
    pub match_type: Option<String>,
    pub start: Option<u8>,
    pub count: Option<u8>,
}

/// The `key=value` pairs of the present fields, in declaration order.
pub open spec fn param_pairs(p: ByPuiidParams) -> Seq<Seq<char>> {
    (match p.start_time {
        Some(v) => seq!["startTime="@ + dec_digits_signed(v as int)],
        None => Seq::empty(),
    }) + (match p.end_time {
        Some(v) => seq!["endTime="@ + dec_digits_signed(v as int)],
        None => Seq::empty(),
    }) + (match p.queue {
        Some(v) => seq!["queue="@ + dec_digits(v as nat)],
        None => Seq::empty(),
    }) + (match p.match_type {
        Some(s) => seq!["type="@ + s@],
        None => Seq::empty(),
    }) + (match p.start {
        Some(v) => seq!["start="@ + dec_digits(v as nat)],
        None => Seq::empty(),
    }) + (match p.count {
        Some(v) => seq!["count="@ + dec_digits(v as nat)],
        None => Seq::empty(),
    })
}

/// Parts joined with `&` between them.
pub open spec fn join_amp(parts: Seq<Seq<char>>) -> Seq<char>
    decreases parts.len(),
{
    if parts.len() == 0 {
        Seq::empty()
    } else if parts.len() == 1 {
        parts[0]
    } else {
        parts[0] + "&"@ + join_amp(parts.skip(1))
    }
}

/// The query string of the present filters, without the leading `?`.
pub open spec fn query_spec(p: ByPuiidParams) -> Seq<char> {
    join_amp(param_pairs(p))
}

impl ByPuiidParams {
    /// Render the present filters as a query string, joined with `&`.
    pub fn query_string(&self) -> (r: String)
        ensures
            r@ == query_spec(*self),
    {
        let mut parts: Vec<String> = Vec::new();
        if let Some(v) = self.start_time {
            parts.push("startTime=".to_owned().concat(i64_to_string(v).as_str()));
        }
        if let Some(v) = self.end_time {
            parts.push("endTime=".to_owned().concat(i64_to_string(v).as_str()));
        }
        if let Some(v) = self.queue {
            parts.push("queue=".to_owned().concat(u64_to_string(v as u64).as_str()));
        }
        match &self.match_type {
            Some(s) => parts.push("type=".to_owned().concat(s.as_str())),
            None => (),
        }
        if let Some(v) = self.start {
            parts.push("start=".to_owned().concat(u64_to_string(v as u64).as_str()));
        }
        if let Some(v) = self.count {
            parts.push("count=".to_owned().concat(u64_to_string(v as u64).as_str()));
        }
        proof {
            assert(parts@.map_values(|s: String| s@) =~= param_pairs(*self));
        }
        let r = join_parts(&parts, 0);
        proof {
            assert(parts@.map_values(|s: String| s@).skip(0) =~= parts@.map_values(
                |s: String| s@,
            ));
        }
        r
    }
}

/// Join `parts[i..]` with `&` between them.
fn join_parts(parts: &Vec<String>, i: usize) -> (r: String)
    requires
        i <= parts@.len(),
    ensures
        r@ == join_amp(parts@.map_values(|s: String| s@).skip(i as int)),
    decreases parts@.len() - i,
{
    let ghost views = parts@.map_values(|s: String| s@);
    if i == parts.len() {
        let r = String::new();
        proof {
            assert(views.skip(i as int) =~= Seq::<Seq<char>>::empty());
        }
        r
    } else if i + 1 == parts.len() {
        let r = parts[i].clone();
        proof {
            assert(views.skip(i as int).len() == 1);
            assert(views.skip(i as int)[0] == views[i as int]);
        }
        r
    } else {
        let rest = join_parts(parts, i + 1);
        let r = parts[i].clone().concat("&").concat(rest.as_str());
        proof {
            assert(views.skip(i as int)[0] == views[i as int]);
            assert(views.skip(i as int).skip(1) =~= views.skip(i as int + 1));
        }
        r
    }
}

/// Match-history endpoints.
pub enum MatchEndpoint<'a> {
    /// The match-id listing of one player, optionally filtered.
    ByPuuid(&'a str, Option<ByPuiidParams>),
    /// The full data of one match.
    ByMatchId(&'a str),
    /// The timeline of one match.
    TimelineByMatchId(&'a str),
}

impl<'a> Endpoint for MatchEndpoint<'a> {
    open spec fn url_spec(&self) -> Seq<char> {
        match self {
            MatchEndpoint::ByPuuid(puuid, params) => {
                let base = "lol/match/v5/matches/by-puuid/"@ + puuid@ + "/ids"@;
                match params {
                    Some(p) => base + "?"@ + query_spec(*p),
                    None => base,
                }
            },
            MatchEndpoint::ByMatchId(id) => "lol/match/v5/matches/"@ + id@,
            MatchEndpoint::TimelineByMatchId(id) => "lol/match/v5/matches/"@ + id@ + "/timeline"@,
        }
    }

    fn url(self) -> (r: String) {
        match self {
            MatchEndpoint::ByPuuid(puuid, params) => {
                let base = "lol/match/v5/matches/by-puuid/".to_owned().concat(puuid).concat("/ids");
                match params {
                    Some(p) => base.concat("?").concat(p.query_string().as_str()),
                    None => base,
                }
            },
            MatchEndpoint::ByMatchId(id) => "lol/match/v5/matches/".to_owned().concat(id),
            MatchEndpoint::TimelineByMatchId(id) => "lol/match/v5/matches/".to_owned().concat(
                id,
            ).concat("/timeline"),
        }
    }
}

/// Step-by-step builder for [`ByPuiidParams`]; every field starts absent.
pub struct ByPuiidParamsBuilder {
    start_time: Option<i64>,
    end_time: Option<i64>,
    queue: Option<u8>,
    match_type: Option<String>,
    start: Option<u8>,
    count: Option<u8>,
}

impl Default for ByPuiidParamsBuilder {
    /// A builder with every filter absent.
    fn default() -> (r: ByPuiidParamsBuilder)
        ensures
            r.build_spec() == (ByPuiidParams {
                start_time: None,
                end_time: None,
                queue: None,
                match_type: None,
                start: None,
                count: None,
            }),
    {
        ByPuiidParamsBuilder {
            start_time: None,
            end_time: None,
            queue: None,
            match_type: None,
            start: None,
            count: None,
        }
    }
}

impl ByPuiidParamsBuilder {
    /// The parameters this builder currently describes.
    pub closed spec fn build_spec(&self) -> ByPuiidParams {
        ByPuiidParams {
            start_time: self.start_time,
            end_time: self.end_time,
            queue: self.queue,
            match_type: self.match_type,
            start: self.start,
            count: self.count,
        }
    }

    pub fn start_time(self, value: i64) -> (r: Self)
        ensures
            r.build_spec() == (ByPuiidParams { start_time: Some(value), ..self.build_spec() }),
    {
        ByPuiidParamsBuilder { start_time: Some(value), ..self }
    }

    pub fn end_time(self, value: i64) -> (r: Self)
        ensures
            r.build_spec() == (ByPuiidParams { end_time: Some(value), ..self.build_spec() }),
    {
        ByPuiidParamsBuilder { end_time: Some(value), ..self }
    }

    pub fn queue(self, value: u8) -> (r: Self)
        ensures
            r.build_spec() == (ByPuiidParams { queue: Some(value), ..self.build_spec() }),
    {
        ByPuiidParamsBuilder { queue: Some(value), ..self }
    }

    pub fn match_type(self, value: String) -> (r: Self)
        ensures
            r.build_spec() == (ByPuiidParams { match_type: Some(value), ..self.build_spec() }),
    {
        ByPuiidParamsBuilder { match_type: Some(value), ..self }
    }

    pub fn start(self, value: u8) -> (r: Self)
        ensures
            r.build_spec() == (ByPuiidParams { start: Some(value), ..self.build_spec() }),
    {
        ByPuiidParamsBuilder { start: Some(value), ..self }
    }

    pub fn count(self, value: u8) -> (r: Self)
        ensures
            r.build_spec() == (ByPuiidParams { count: Some(value), ..self.build_spec() }),
    {
        ByPuiidParamsBuilder { count: Some(value), ..self }
    }

    /// The finished parameters; cannot fail, since every field has a
    /// default.
    pub fn build(self) -> (r: ByPuiidParams)
        ensures
            r == self.build_spec(),
    {
        ByPuiidParams {
            start_time: self.start_time,
            end_time: self.end_time,
            queue: self.queue,
            match_type: self.match_type,
            start: self.start,
            count: self.count,
        }
    }
}

} // verus!
