//! Static champion reference data, and the lookup of a champion's name
//! by its numeric key.

use vstd::prelude::*;

verus! {

/// The static champion catalogue one data-dragon version ships.
#[derive(Debug, PartialEq)]
pub struct ChampionData {
    pub data_type: String,
    pub format: String,
    pub version: String,
    pub champion_list: Vec<Champion>,
}

/// One champion's static reference entry.
#[derive(Debug, PartialEq)]
pub struct Champion {
    pub version: String,
    pub id: String,
    pub key: u64,
    pub name: String,
    pub title: String,
    pub blurb: String,
    pub info: Info,
    pub image: Image,
    pub tags: Vec<String>,
    pub partype: String,
}

/// Coarse difficulty ratings of a champion.
#[derive(Debug, PartialEq)]
pub struct Info {
    pub attack: i64,
    pub defense: i64,
    pub magic: i64,
    pub difficulty: i64,
}

/// Where a champion's icon sits in the sprite sheets.
#[derive(Debug, PartialEq)]
pub struct Image {
    pub full: String,
    pub sprite: String,
    pub group: String,
    pub x: i64,
    pub y: i64,
    pub w: i64,
    pub h: i64,
}

/// The name of the first champion with the given key, if any.
pub open spec fn first_name_for_key(cs: Seq<Champion>, key: u64) -> Option<Seq<char>>
    decreases cs.len(),
{
    if cs.len() == 0 {
        None
    } else if cs[0].key == key {
        Some(cs[0].name@)
    } else {
        first_name_for_key(cs.skip(1), key)
    }
}

/// The display name of the champion with the given numeric key; `None`
/// when the catalogue has no such key.
pub fn champion_name_for_key(cs: &Vec<Champion>, key: u64) -> (r: Option<String>)
    ensures
        r is Some <==> first_name_for_key(cs@, key) is Some,
        r matches Some(name) ==> Some(name@) == first_name_for_key(cs@, key),
{
    let r = name_for_key_from(cs, key, 0);
    proof {
        assert(cs@.skip(0) =~= cs@);
    }
    r
}

fn name_for_key_from(cs: &Vec<Champion>, key: u64, i: usize) -> (r: Option<String>)
    requires
        i <= cs@.len(),
    ensures
        r is Some <==> first_name_for_key(cs@.skip(i as int), key) is Some,
        r matches Some(name) ==> Some(name@) == first_name_for_key(cs@.skip(i as int), key),
    decreases cs@.len() - i,
{
    proof {
        if i < cs@.len() {
            assert(cs@.skip(i as int)[0] == cs@[i as int]);
            assert(cs@.skip(i as int).skip(1) =~= cs@.skip(i as int + 1));
        }
    }
    if i == cs.len() {
        None
    } else if cs[i].key == key {
        Some(cs[i].name.clone())
    } else {
        name_for_key_from(cs, key, i + 1)
    }
}

} // verus!
