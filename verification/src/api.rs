//! API regions and the root URLs they resolve to.

use vstd::prelude::*;
use vstd::string::StringExecFns;

verus! {

/// The regional shards of the upstream game-data API.
#[derive(Clone, Copy, Debug, PartialEq, Eq, Structural)]
pub enum ApiRegion {
    BR1,
    EUN1,
    EUW1,
    JP1,
    KR,
    LA1,
    LA2,
    NA1,
    OC1,
    RU,
    TR1,
}

impl ApiRegion {
    /// The lower-case region name used as the host prefix.
    pub open spec fn lower_name_spec(&self) -> Seq<char> {
        match self {
            ApiRegion::BR1 => "br1"@,
            ApiRegion::EUN1 => "eun1"@,
            ApiRegion::EUW1 => "euw1"@,
            ApiRegion::JP1 => "jp1"@,
            ApiRegion::KR => "kr"@,
            ApiRegion::LA1 => "la1"@,
            ApiRegion::LA2 => "la2"@,
            ApiRegion::NA1 => "na1"@,
            ApiRegion::OC1 => "oc1"@,
            ApiRegion::RU => "ru"@,
            ApiRegion::TR1 => "tr1"@,
        }
    }

    /// Exec mirror of [`Self::lower_name_spec`].
    pub fn lower_name(&self) -> (r: &'static str)
        ensures
            r@ == self.lower_name_spec(),
    {
        match self {
            ApiRegion::BR1 => "br1",
            ApiRegion::EUN1 => "eun1",
            ApiRegion::EUW1 => "euw1",
            ApiRegion::JP1 => "jp1",
            ApiRegion::KR => "kr",
            ApiRegion::LA1 => "la1",
            ApiRegion::LA2 => "la2",
            ApiRegion::NA1 => "na1",
            ApiRegion::OC1 => "oc1",
            ApiRegion::RU => "ru",
            ApiRegion::TR1 => "tr1",
        }
    }

    /// The continental routing value serving this region's match data.
    pub open spec fn routing_value_spec(&self) -> Seq<char> {
        match self {
            ApiRegion::NA1 | ApiRegion::BR1 | ApiRegion::LA1 | ApiRegion::LA2 | ApiRegion::OC1 =>
                "americas"@,
            ApiRegion::EUN1 | ApiRegion::EUW1 | ApiRegion::RU | ApiRegion::TR1 => "europe"@,
            ApiRegion::JP1 | ApiRegion::KR => "asia"@,
        }
    }

    /// Exec mirror of [`Self::routing_value_spec`].
    pub fn routing_value(&self) -> (r: &'static str)
        ensures
            r@ == self.routing_value_spec(),
    {
        match self {
            ApiRegion::NA1 | ApiRegion::BR1 | ApiRegion::LA1 | ApiRegion::LA2 | ApiRegion::OC1 =>
                "americas",
            ApiRegion::EUN1 | ApiRegion::EUW1 | ApiRegion::RU | ApiRegion::TR1 => "europe",
            ApiRegion::JP1 | ApiRegion::KR => "asia",
        }
    }

    /// The root URL every regional endpoint path is appended to.
    pub open spec fn root_endpoint_spec(&self) -> Seq<char> {
        "https://"@ + self.lower_name_spec() + ".api.riotgames.com"@
    }

    /// Exec mirror of [`Self::root_endpoint_spec`].
    pub fn get_root_endpoint(&self) -> (r: String)
        ensures
            r@ == self.root_endpoint_spec(),
    {
        "https://".to_owned().concat(self.lower_name()).concat(".api.riotgames.com")
    }

    /// The root URL for the continentally-routed match endpoints.
    pub open spec fn v5_root_endpoint_spec(&self) -> Seq<char> {
        "https://"@ + self.routing_value_spec() + ".api.riotgames.com"@
    }

    /// Exec mirror of [`Self::v5_root_endpoint_spec`].
    pub fn get_v5_root_endpoint(&self) -> (r: String)
        ensures
            r@ == self.v5_root_endpoint_spec(),
    {
        "https://".to_owned().concat(self.routing_value()).concat(".api.riotgames.com")
    }
}

/// The full URL of one exchange: the regional or continental root,
/// a slash, and the endpoint path.
pub open spec fn full_url_spec(root: Seq<char>, path: Seq<char>) -> Seq<char> {
    root + "/"@ + path
}

/// Exec mirror of [`full_url_spec`].
pub fn full_url(root: &str, path: &str) -> (r: String)
    ensures
        r@ == full_url_spec(root@, path@),
{
    root.to_owned().concat("/").concat(path)
}

} // verus!
