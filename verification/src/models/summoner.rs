//! Summoner account data.

use vstd::prelude::*;

verus! {

/// The account record of one summoner.
#[derive(Debug, PartialEq)]
pub struct SummonerInfo {
    pub id: String,
    pub account_id: String,
    pub puuid: String,
    pub name: String,
    pub profile_icon_id: i64,
    pub revision_date: i64,
    pub summoner_level: i64,
}

} // verus!
