//! The rows of the results table: the cell texts and the colour choice
//! for each record. Turning rows into a drawn table is the rendering
//! layer's job.

use vstd::prelude::*;

use crate::models::champion::win_rate_string_spec;
use crate::models::champion::ChampionWinRate;

verus! {

/// Which colour a row is drawn in.
#[derive(Clone, Copy, Debug, PartialEq, Eq, Structural)]
pub enum RowColor {
    /// The tracked summoner's own row.
    Player,
    /// A row of the first team.
    TeamOne,
    /// A row of the second team.
    TeamTwo,
    /// A row of a record with no recognised team.
    Plain,
}

/// The colour a record's row gets: the tracked summoner's own record is
/// highlighted, every other record is coloured by its team.
pub open spec fn row_color_spec(c: ChampionWinRate, my_name: Seq<char>) -> RowColor {
    if c.summoner_name@ == my_name {
        RowColor::Player
    } else if c.team_id == 100 {
        RowColor::TeamOne
    } else if c.team_id == 200 {
        RowColor::TeamTwo
    } else {
        RowColor::Plain
    }
}

/// One row of the results table.
#[derive(Debug)]
pub struct TableRow {
    /// First cell: the champion's name.
    pub champion_name: String,
    /// Second cell: the win-rate sentence.
    pub win_rate: String,
    /// Third cell: the rank label.
    pub rank: String,
    /// The colour the row is drawn in.
    pub color: RowColor,
}

/// Whether a row shows a record faithfully for the given viewer.
pub open spec fn row_matches(row: TableRow, c: ChampionWinRate, my_name: Seq<char>) -> bool {
    &&& row.champion_name@ == c.champion_name@
    &&& row.win_rate@ == win_rate_string_spec(c)
    &&& row.rank@ == c.rank@
    &&& row.color == row_color_spec(c, my_name)
}

/// The rows of the results table, one per record, in the given order.
pub fn table_rows(my_name: &String, results: &Vec<ChampionWinRate>) -> (r: Vec<TableRow>)
    ensures
        r@.len() == results@.len(),
        forall|i: int| 0 <= i < r@.len() ==> row_matches(r@[i], results@[i], my_name@),
{
    let mut rows: Vec<TableRow> = Vec::new();
    let n = results.len();
    let mut i: usize = 0;
    while i < n
        invariant
            n == results@.len(),
            i <= n,
            rows@.len() == i,
            forall|k: int| 0 <= k < i ==> row_matches(rows@[k], results@[k], my_name@),
        decreases n - i,
    {
        let c = &results[i];
        let color = if c.summoner_name.eq(my_name) {
            RowColor::Player
        } else if c.team_id == 100 {
            RowColor::TeamOne
        } else if c.team_id == 200 {
            RowColor::TeamTwo
        } else {
            RowColor::Plain
        };
        let row = TableRow {
            champion_name: c.champion_name.clone(),
            win_rate: c.win_rate_string(),
            rank: c.rank.clone(),
            color,
        };
        rows.push(row);
        i = i + 1;
    }
    rows
}

} // verus!
