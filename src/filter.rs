use vstd::prelude::*;
use crate::record::GameRecord;

verus! {

/// Whether `regex::Regex::new` accepts a pattern text.
pub uninterp spec fn pattern_compiles(pattern: Seq<char>) -> bool;

/// Whether the regular expression written as `pattern` matches somewhere in `text`.
pub uninterp spec fn pattern_matches(pattern: Seq<char>, text: Seq<char>) -> bool;

#[verifier::external_type_specification]
#[verifier::external_body]
pub struct ExRegex(regex::Regex);

#[verifier::external_type_specification]
#[verifier::external_body]
pub struct ExRegexError(regex::Error);

/// Relies on `regex::Regex::new`: whether it succeeds depends on the pattern text alone.
#[verifier::external_body]
fn compile_regex(pattern: &str) -> (r: Result<regex::Regex, regex::Error>)
    ensures
        r is Ok <==> pattern_compiles(pattern@),
{
    regex::Regex::new(pattern)
}

/// A criterion the filter pipeline refuses before it runs.
#[derive(Debug, PartialEq, Eq, Structural)]
pub enum FilterError {
    InvalidPattern,
}

/// A compiled title pattern, kept together with the text it was compiled from.
pub struct TitlePattern {
    source: String,
    compiled: regex::Regex,
}

impl TitlePattern {
    /// The pattern text this value was compiled from.
    pub closed spec fn text(&self) -> Seq<char> {
        self.source@
    }

    /// Compiles `pattern`; a pattern that does not compile is `InvalidPattern`.
    pub fn new(pattern: &str) -> (r: Result<TitlePattern, FilterError>)
        ensures
            r is Ok <==> pattern_compiles(pattern@),
            r matches Ok(tp) ==> tp.text() == pattern@,
            r matches Err(e) ==> e == FilterError::InvalidPattern,
    {
        match compile_regex(pattern) {
            Ok(compiled) => Ok(TitlePattern { source: pattern.to_owned(), compiled }),
            Err(_) => Err(FilterError::InvalidPattern),
        }
    }

    /// Relies on `regex::Regex::is_match`. `compiled` is only ever built by
    /// `new` from `source`, so the answer is that of the pattern text.
    #[verifier::external_body]
    fn regex_is_match(&self, text: &str) -> (r: bool)
        ensures
            r == pattern_matches(self.source@, text@),
    {
        self.compiled.is_match(text)
    }

    pub fn matches_title(&self, name: &str) -> (r: bool)
        ensures
            r == pattern_matches(self.text(), name@),
    {
        self.regex_is_match(name)
    }
}

/// The criteria of one filter invocation; an absent criterion keeps every record.
pub struct FilterCriteria {
    pub title: Option<TitlePattern>,
    pub players: Option<i64>,
    pub time: Option<i64>,
}

impl FilterCriteria {
    /// Criteria that keep every record.
    pub fn none() -> (r: FilterCriteria)
        ensures
            r.title is None,
            r.players is None,
            r.time is None,
    {
        FilterCriteria { title: None, players: None, time: None }
    }

    pub open spec fn is_empty(&self) -> bool {
        self.title is None && self.players is None && self.time is None
    }
}

/// Whether a record passes the player and time criteria, given whether
/// its title passed the title criterion.
pub open spec fn spec_admits(g: GameRecord, title_ok: bool, players: Option<i64>, time: Option<i64>) -> bool {
    &&& title_ok
    &&& (players matches Some(p) ==> g.spec_fits_players(p))
    &&& (time matches Some(t) ==> g.spec_fits_playtime(t))
}

/// Whether the record's title passes the title criterion.
pub open spec fn title_passes(g: GameRecord, title: Option<TitlePattern>) -> bool {
    match title {
        Some(tp) => pattern_matches(tp.text(), g.name@),
        None => true,
    }
}

/// Whether the criteria keep a record.
pub open spec fn keeps(g: GameRecord, c: FilterCriteria) -> bool {
    spec_admits(g, title_passes(g, c.title), c.players, c.time)
}

/// The records the criteria keep, in their original order.
pub open spec fn filtered(s: Seq<GameRecord>, c: FilterCriteria) -> Seq<GameRecord> {
    s.filter(|g: GameRecord| keeps(g, c))
}

/// Decides one record, given the outcome of the title match.
pub fn admits(g: &GameRecord, title_ok: bool, players: Option<i64>, time: Option<i64>) -> (r: bool)
    ensures
        r == spec_admits(*g, title_ok, players, time),
{
    if !title_ok {
        return false;
    }
    let players_ok = match players {
        Some(p) => g.fits_players(p),
        None => true,
    };
    let time_ok = match time {
        Some(t) => g.fits_playtime(t),
        None => true,
    };
    players_ok && time_ok
}

/// Keeps the records that meet every present criterion, in input order.
pub fn apply(records: &Vec<GameRecord>, criteria: &FilterCriteria) -> (r: Vec<GameRecord>)
    ensures
        r@ == filtered(records@, *criteria),
{
    let mut out: Vec<GameRecord> = Vec::new();
    let n = records.len();
    let mut i: usize = 0;
    while i < n
        invariant
            n == records@.len(),
            i <= n,
            out@ == filtered(records@.subrange(0, i as int), *criteria),
        decreases n - i,
    {
        let g = &records[i];
        let title_ok = match &criteria.title {
            Some(tp) => tp.matches_title(g.name.as_str()),
            None => true,
        };
        let keep = admits(g, title_ok, criteria.players, criteria.time);
        proof {
            let prefix = records@.subrange(0, i as int + 1);
            assert(prefix.drop_last() =~= records@.subrange(0, i as int));
            assert(prefix.last() == records@[i as int]);
            reveal(Seq::filter);
        }
        if keep {
            out.push(g.clone());
        }
        i = i + 1;
    }
    assert(records@.subrange(0, n as int) =~= records@);
    out
}

/// With no criteria, filtering hands back the input sequence itself:
/// every record, in the same order.
pub proof fn lemma_no_criteria_is_identity(s: Seq<GameRecord>, c: FilterCriteria)
    requires
        c.is_empty(),
    ensures
        filtered(s, c) == s,
    decreases s.len(),
{
    reveal(Seq::filter);
    if s.len() > 0 {
        lemma_no_criteria_is_identity(s.drop_last(), c);
        assert(s.drop_last().push(s.last()) =~= s);
    }
}

/// A record that declares neither a minimum nor a maximum player count is
/// kept by a player-count criterion only for zero players, and by criteria
/// without one whatever its players.
pub proof fn lemma_undeclared_players_need_zero(g: GameRecord, c: FilterCriteria)
    requires
        g.min_players is None,
        g.max_players is None,
        c.title is None,
        c.time is None,
    ensures
        c.players matches Some(p) ==> (keeps(g, c) <==> p == 0),
        c.players is None ==> keeps(g, c),
{
}

} // verus!
