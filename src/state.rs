use vstd::prelude::*;
use crate::fetch::FetchError;
use crate::record::{GameRecord, copy_records};

verus! {

/// What a reader of the fetch state sees: whether a fetch is in flight,
/// and the records of the last successful fetch.
pub type StateView = (bool, Seq<GameRecord>);

/// The state after a fetch has been requested.
pub open spec fn begun(v: StateView) -> StateView {
    (true, v.1)
}

/// The state after a fetch has ended with `result`: an error keeps the records.
pub open spec fn published(v: StateView, result: Result<Seq<GameRecord>, FetchError>) -> StateView {
    match result {
        Ok(records) => (false, records),
        Err(_) => (false, v.1),
    }
}

/// The view of a fetch result.
pub open spec fn result_view(result: Result<Vec<GameRecord>, FetchError>) -> Result<Seq<GameRecord>, FetchError> {
    match result {
        Ok(v) => Ok(v@),
        Err(e) => Err(e),
    }
}

/// The state shared between a fetch in flight and the readers of its result.
/// Every operation replaces the whole value at once, so a reader that holds
/// it behind one lock never sees half of an update.
pub struct AsyncState {
    games: Vec<GameRecord>,
    is_loading: bool,
}

impl View for AsyncState {
    type V = StateView;

    closed spec fn view(&self) -> StateView {
        (self.is_loading, self.games@)
    }
}

impl AsyncState {
    /// No records, nothing loading.
    pub fn new() -> (r: AsyncState)
        ensures
            r@ == (false, Seq::<GameRecord>::empty()),
    {
        AsyncState { games: Vec::new(), is_loading: false }
    }

    /// Marks a fetch as in flight; the records stay as they are.
    pub fn begin_loading(&mut self)
        ensures
            final(self)@ == begun(old(self)@),
    {
        self.is_loading = true;
    }

    /// Ends the fetch in flight: records from a success replace the stored
    /// ones, an error leaves them.
    pub fn publish(&mut self, result: Result<Vec<GameRecord>, FetchError>)
        ensures
            final(self)@ == published(old(self)@, result_view(result)),
    {
        match result {
            Ok(games) => {
                self.games = games;
            },
            Err(_) => {},
        }
        self.is_loading = false;
    }

    /// Whether a fetch is in flight, and a copy of the stored records.
    pub fn snapshot(&self) -> (r: (bool, Vec<GameRecord>))
        ensures
            r.0 == self@.0,
            r.1@ == self@.1,
    {
        (self.is_loading, copy_records(&self.games))
    }

    pub fn is_loading(&self) -> (r: bool)
        ensures
            r == self@.0,
    {
        self.is_loading
    }
}

/// A snapshot never pairs "loading" with records of the fetch in flight, nor
/// "not loading" with part of a write: while a fetch runs, readers see the
/// records from before it; once it is published, they see all of its records
/// (or, after an error, all of the earlier ones).
pub proof fn lemma_snapshot_never_torn(v: StateView, result: Result<Seq<GameRecord>, FetchError>)
    ensures
        begun(v).0,
        begun(v).1 == v.1,
        !published(begun(v), result).0,
        result matches Ok(records) ==> published(begun(v), result).1 == records,
        result is Err ==> published(begun(v), result).1 == v.1,
{
}

} // verus!
