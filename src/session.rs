use vstd::prelude::*;
use crate::filter::{FilterCriteria, FilterError, TitlePattern, pattern_compiles};
use crate::state::{AsyncState, begun};

verus! {

/// The options of one batch invocation: whose collection to fetch, how to
/// filter it, and whether to export it instead of listing it.
pub struct Args {
    pub username: Option<String>,
    /// A regular expression the titles must match.
    pub filter: Option<String>,
    /// The wanted play time in minutes, give or take ten.
    pub time: Option<i64>,
    /// The number of players.
    pub players: Option<i64>,
    /// Export to a TOML document.
    pub export: bool,
}

impl Args {
    /// The filter criteria these options ask for; a title pattern that does
    /// not compile is `InvalidPattern`.
    pub fn criteria(&self) -> (r: Result<FilterCriteria, FilterError>)
        ensures
            r is Ok <==> (self.filter matches Some(p) ==> pattern_compiles(p@)),
            r matches Err(e) ==> e == FilterError::InvalidPattern,
            r matches Ok(c) ==> {
                &&& c.players == self.players
                &&& c.time == self.time
                &&& (self.filter is None <==> c.title is None)
                &&& (c.title matches Some(tp) ==> self.filter matches Some(p) && tp.text() == p@)
            },
    {
        let title = match &self.filter {
            Some(p) => match TitlePattern::new(p.as_str()) {
                Ok(tp) => Some(tp),
                Err(e) => return Err(e),
            },
            None => None,
        };
        Ok(FilterCriteria { title, players: self.players, time: self.time })
    }
}

/// The interactive session: the username being edited and the load it triggers.
pub struct MyApp {
    pub username: String,
}

impl MyApp {
    pub fn new() -> (r: MyApp)
        ensures
            r.username@ == Seq::<char>::empty(),
    {
        MyApp { username: String::new() }
    }

    /// Starts a load: marks the state as loading before any request goes
    /// out, and hands back the username to fetch. A load already in flight
    /// is not refused; the later publish wins.
    pub fn start_load(&self, state: &mut AsyncState) -> (r: String)
        ensures
            r@ == self.username@,
            final(state)@ == begun(old(state)@),
    {
        state.begin_loading();
        self.username.clone()
    }
}

/// How the provider answered one poll, by its HTTP status.
#[derive(Debug, Clone, Copy, PartialEq, Eq, Structural)]
pub enum StatusClass {
    /// 202: the request is queued; poll again later.
    Queued,
    /// 200: the body holds the answer.
    Answered,
    /// Any other status: a definitive failure.
    Refused,
}

/// Classifies an HTTP status of the collection endpoint.
pub fn classify_status(status: u16) -> (r: StatusClass)
    ensures
        status == 202 ==> r == StatusClass::Queued,
        status == 200 ==> r == StatusClass::Answered,
        status != 200 && status != 202 ==> r == StatusClass::Refused,
{
    if status == 202 {
        StatusClass::Queued
    } else if status == 200 {
        StatusClass::Answered
    } else {
        StatusClass::Refused
    }
}

} // verus!
