use vstd::prelude::*;

verus! {

/// One entry of a user's catalog collection.
///
/// Absent numeric fields are kept apart from zero; only the filters
/// read them with a default of zero.
#[derive(Debug)]
pub struct GameRecord {
    pub name: String,
    pub min_players: Option<i64>,
    pub max_players: Option<i64>,
    pub playtime: Option<i64>,
    pub year: Option<i64>,
}

/// The value of an optional field, with zero standing for an absent one.
pub open spec fn or_zero(v: Option<i64>) -> int {
    match v {
        Some(x) => x as int,
        None => 0,
    }
}

pub fn value_or_zero(v: Option<i64>) -> (r: i64)
    ensures
        r as int == or_zero(v),
{
    match v {
        Some(x) => x,
        None => 0,
    }
}

impl GameRecord {
    pub fn new(
        name: String,
        min_players: Option<i64>,
        max_players: Option<i64>,
        playtime: Option<i64>,
        year: Option<i64>,
    ) -> (r: GameRecord)
        ensures
            r.name == name,
            r.min_players == min_players,
            r.max_players == max_players,
            r.playtime == playtime,
            r.year == year,
    {
        GameRecord { name, min_players, max_players, playtime, year }
    }

    /// The record's declared player range holds `p`, absent bounds read as zero.
    pub open spec fn spec_fits_players(&self, p: i64) -> bool {
        or_zero(self.min_players) <= p && p <= or_zero(self.max_players)
    }

    /// The record's playtime lies within ten minutes of `t`, an absent playtime read as zero.
    pub open spec fn spec_fits_playtime(&self, t: i64) -> bool {
        t - 10 <= or_zero(self.playtime) && or_zero(self.playtime) <= t + 10
    }

    pub fn fits_players(&self, p: i64) -> (r: bool)
        ensures
            r == self.spec_fits_players(p),
    {
        value_or_zero(self.min_players) <= p && p <= value_or_zero(self.max_players)
    }

    pub fn fits_playtime(&self, t: i64) -> (r: bool)
        ensures
            r == self.spec_fits_playtime(t),
    {
        let pt = value_or_zero(self.playtime) as i128;
        let t = t as i128;
        t - 10 <= pt && pt <= t + 10
    }
}

impl Clone for GameRecord {
    fn clone(&self) -> (r: Self)
        ensures
            r == *self,
    {
        GameRecord {
            name: self.name.clone(),
            min_players: self.min_players,
            max_players: self.max_players,
            playtime: self.playtime,
            year: self.year,
        }
    }
}

} // verus!

verus! {

/// A record-by-record copy of a sequence of records.
pub fn copy_records(v: &Vec<GameRecord>) -> (r: Vec<GameRecord>)
    ensures
        r@ == v@,
{
    let mut out: Vec<GameRecord> = Vec::new();
    let mut i: usize = 0;
    while i < v.len()
        invariant
            i <= v@.len(),
            out@ == v@.subrange(0, i as int),
        decreases v@.len() - i,
    {
        out.push(v[i].clone());
        assert(out@ =~= v@.subrange(0, i as int + 1));
        i = i + 1;
    }
    assert(out@ =~= v@);
    out
}

} // verus!
