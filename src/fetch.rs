use vstd::prelude::*;
use crate::record::GameRecord;

verus! {

/// Why a fetch of a collection ended without records.
#[derive(Debug)]
pub enum FetchError {
    /// The provider kept answering "not ready" past the time budget.
    Timeout,
    /// The provider refused the request for good.
    ProviderError { message: String },
    /// The request did not reach the provider, or its answer did not come back.
    TransportError,
    /// The answer did not have the expected structure.
    ParseError,
}

/// Timing of the polling protocol, in milliseconds.
#[derive(Debug, Clone, Copy, PartialEq, Eq, Structural)]
pub struct PollConfig {
    pub backoff_ms: u64,
    pub timeout_ms: u64,
}

impl PollConfig {
    pub open spec fn valid(&self) -> bool {
        self.backoff_ms > 0 && self.timeout_ms < u64::MAX
    }

    /// A configuration with a positive backoff; `None` for a zero backoff,
    /// which would let polling spin without ever spending its budget.
    pub fn new(backoff_ms: u64, timeout_ms: u64) -> (r: Option<PollConfig>)
        ensures
            r is Some <==> (backoff_ms > 0 && timeout_ms < u64::MAX),
            r matches Some(c) ==> c.backoff_ms == backoff_ms && c.timeout_ms == timeout_ms,
    {
        if backoff_ms > 0 && timeout_ms < u64::MAX {
            Some(PollConfig { backoff_ms, timeout_ms })
        } else {
            None
        }
    }

    /// Three seconds between polls, a minute in all.
    pub fn standard() -> (r: PollConfig)
        ensures
            r.valid(),
            r.backoff_ms == 3000,
            r.timeout_ms == 60000,
    {
        PollConfig { backoff_ms: 3000, timeout_ms: 60000 }
    }
}

/// Where a fetch stands in the polling protocol.
#[derive(Debug, Clone, Copy, PartialEq, Eq, Structural)]
pub enum Phase {
    /// A request is out; its answer is awaited.
    Requesting,
    /// The provider said "not ready"; the backoff is running.
    Waiting,
    /// Records came back.
    Ready,
    /// The fetch ended with an error.
    Failed,
}

/// What happened since the last action.
#[derive(Debug)]
pub enum PollEvent {
    /// The provider queued the request and asks to retry later.
    NotReady,
    /// The provider answered with the collection.
    Records(Vec<GameRecord>),
    /// The provider refused the request, with its message.
    Rejected(String),
    /// The request or its answer was lost in transport.
    TransportFailed,
    /// The answer could not be read as a collection.
    Malformed,
    /// The backoff interval has passed.
    WaitOver,
}

/// What the driver of a fetch must do next.
#[derive(Debug)]
pub enum FetchAction {
    /// Send the collection request again.
    SendRequest,
    /// Wait this many milliseconds, then report `WaitOver`.
    Sleep(u64),
    /// The fetch is over, with this result.
    Finish(Result<Vec<GameRecord>, FetchError>),
    /// The event does not apply in this phase; nothing to do.
    Ignore,
}

/// The polling protocol of one fetch: a request, then on each "not ready"
/// a backoff and a new request, until data, an error, or the time budget runs out.
#[derive(Debug, Clone, Copy, PartialEq, Eq, Structural)]
pub struct Fetcher {
    pub config: PollConfig,
    pub phase: Phase,
    /// Milliseconds spent waiting so far.
    pub elapsed_ms: u64,
    /// Requests sent so far.
    pub attempts: u64,
}

/// The state of a fetch whose first request has just been sent.
pub open spec fn initial(config: PollConfig) -> Fetcher {
    Fetcher { config, phase: Phase::Requesting, elapsed_ms: 0, attempts: 1 }
}

/// The state a retry of `f` starts in.
pub open spec fn retried(f: Fetcher) -> Fetcher {
    initial(f.config)
}

/// Whether a "not ready" answer now would overrun the time budget.
pub open spec fn out_of_budget(f: Fetcher) -> bool {
    f.elapsed_ms + f.config.backoff_ms > f.config.timeout_ms
}

/// The state after an event.
pub open spec fn next_state(f: Fetcher, ev: PollEvent) -> Fetcher {
    match (f.phase, ev) {
        (Phase::Requesting, PollEvent::NotReady) => if out_of_budget(f) {
            Fetcher { phase: Phase::Failed, ..f }
        } else {
            Fetcher {
                phase: Phase::Waiting,
                elapsed_ms: (f.elapsed_ms + f.config.backoff_ms) as u64,
                ..f
            }
        },
        (Phase::Requesting, PollEvent::Records(_)) => Fetcher { phase: Phase::Ready, ..f },
        (Phase::Requesting, PollEvent::WaitOver) => f,
        (Phase::Requesting, _) => Fetcher { phase: Phase::Failed, ..f },
        (Phase::Waiting, PollEvent::WaitOver) => Fetcher {
            phase: Phase::Requesting,
            attempts: (f.attempts + 1) as u64,
            ..f
        },
        _ => f,
    }
}

/// The state after a sequence of events.
pub open spec fn run(f: Fetcher, events: Seq<PollEvent>) -> Fetcher
    decreases events.len(),
{
    if events.len() == 0 {
        f
    } else {
        next_state(run(f, events.drop_last()), events.last())
    }
}

/// The action an event calls for, apart from the records a success carries.
pub open spec fn action_fits(f: Fetcher, ev: PollEvent, a: FetchAction) -> bool {
    match (f.phase, ev) {
        (Phase::Requesting, PollEvent::NotReady) => if out_of_budget(f) {
            a matches FetchAction::Finish(Err(FetchError::Timeout))
        } else {
            a == FetchAction::Sleep(f.config.backoff_ms)
        },
        (Phase::Requesting, PollEvent::Records(v)) => a matches FetchAction::Finish(Ok(w)) && w@ == v@,
        (Phase::Requesting, PollEvent::Rejected(m)) => a matches FetchAction::Finish(
            Err(FetchError::ProviderError { message }),
        ) && message@ == m@,
        (Phase::Requesting, PollEvent::TransportFailed) => a matches FetchAction::Finish(
            Err(FetchError::TransportError),
        ),
        (Phase::Requesting, PollEvent::Malformed) => a matches FetchAction::Finish(
            Err(FetchError::ParseError),
        ),
        (Phase::Waiting, PollEvent::WaitOver) => a is SendRequest,
        _ => a is Ignore,
    }
}

impl Fetcher {
    pub open spec fn wf(&self) -> bool {
        &&& self.config.valid()
        &&& self.elapsed_ms <= self.config.timeout_ms
        &&& self.attempts >= 1
        &&& match self.phase {
            Phase::Waiting => self.attempts <= self.elapsed_ms,
            _ => self.attempts <= self.elapsed_ms + 1,
        }
    }

    /// A fetch whose first request goes out now.
    pub fn start(config: PollConfig) -> (r: Fetcher)
        requires
            config.valid(),
        ensures
            r == initial(config),
            r.wf(),
    {
        Fetcher { config, phase: Phase::Requesting, elapsed_ms: 0, attempts: 1 }
    }

    /// A new fetch with this fetch's configuration; nothing else carries over.
    pub fn retry(&self) -> (r: Fetcher)
        requires
            self.wf(),
        ensures
            r == retried(*self),
            r.wf(),
    {
        Fetcher::start(self.config)
    }

    pub fn is_finished(&self) -> (r: bool)
        ensures
            r == (self.phase is Ready || self.phase is Failed),
    {
        match self.phase {
            Phase::Ready | Phase::Failed => true,
            _ => false,
        }
    }

    /// Takes one event, moves to the next phase and says what to do.
    pub fn step(&mut self, ev: PollEvent) -> (a: FetchAction)
        requires
            old(self).wf(),
        ensures
            final(self).wf(),
            *final(self) == next_state(*old(self), ev),
            action_fits(*old(self), ev, a),
    {
        match (self.phase, ev) {
            (Phase::Requesting, PollEvent::NotReady) => {
                if self.config.backoff_ms > self.config.timeout_ms - self.elapsed_ms {
                    self.phase = Phase::Failed;
                    FetchAction::Finish(Err(FetchError::Timeout))
                } else {
                    self.phase = Phase::Waiting;
                    self.elapsed_ms = self.elapsed_ms + self.config.backoff_ms;
                    FetchAction::Sleep(self.config.backoff_ms)
                }
            },
            (Phase::Requesting, PollEvent::Records(v)) => {
                self.phase = Phase::Ready;
                FetchAction::Finish(Ok(v))
            },
            (Phase::Requesting, PollEvent::Rejected(message)) => {
                self.phase = Phase::Failed;
                FetchAction::Finish(Err(FetchError::ProviderError { message }))
            },
            (Phase::Requesting, PollEvent::TransportFailed) => {
                self.phase = Phase::Failed;
                FetchAction::Finish(Err(FetchError::TransportError))
            },
            (Phase::Requesting, PollEvent::Malformed) => {
                self.phase = Phase::Failed;
                FetchAction::Finish(Err(FetchError::ParseError))
            },
            (Phase::Waiting, PollEvent::WaitOver) => {
                self.phase = Phase::Requesting;
                self.attempts = self.attempts + 1;
                FetchAction::SendRequest
            },
            _ => FetchAction::Ignore,
        }
    }
}

} // verus!

verus! {

/// A finished fetch takes no further event: whatever comes later, a failed
/// or completed fetch stays as it ended, so trying again means a new fetch.
pub proof fn lemma_finished_is_final(f: Fetcher, events: Seq<PollEvent>)
    requires
        f.phase is Ready || f.phase is Failed,
    ensures
        run(f, events) == f,
    decreases events.len(),
{
    if events.len() > 0 {
        lemma_finished_is_final(f, events.drop_last());
    }
}

/// Retrying after a failed fetch is independent of that failure: the new
/// fetch goes through the same states on the same answers as a fetch made
/// with that configuration when nothing had failed before it.
pub proof fn lemma_retry_is_independent(failed: Fetcher, events: Seq<PollEvent>)
    requires
        failed.wf(),
        failed.phase is Failed,
    ensures
        run(failed, events) == failed,
        run(retried(failed), events) == run(initial(failed.config), events),
{
    lemma_finished_is_final(failed, events);
}

} // verus!
