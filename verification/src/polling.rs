//! The polling engine: a state machine that owns the cursor and the pending
//! buffer, drives the fetch loop one consumer pull at a time, applies the
//! backoff policy to recoverable failures, and honours the cooperative stop
//! protocol without dropping already-fetched updates.
//!
//! The engine never performs a network call itself. Each transition either
//! hands out an update, asks the embedding to run one fetch (`Step::Fetch`),
//! or declares the sequence over (`Step::End`); the embedding reports the
//! fetch outcome back through [`PollingEngine::on_fetch`]. This keeps a
//! single fetch in flight per engine and makes every decision checkable.

use vstd::prelude::*;

use crate::types::{
    AllowedUpdate, ConfigModel, FetchError, FetchRequest, ListenerError, PollingConfig, StopState,
    Update,
};
use crate::update_listeners::Fetcher;

verus! {

/// Ids strictly increase along the sequence: no duplicates, no reordering.
pub open spec fn strictly_ascending(s: Seq<Update>) -> bool {
    forall|i: int, j: int| 0 <= i < j < s.len() ==> s[i].id < s[j].id
}

/// The mathematical state of a polling engine. `delivered` records every
/// update already handed to the consumer, in order; together with `pending`
/// it is exactly the concatenation of all batches accepted so far.
#[verifier::ext_equal]
pub struct EngineModel {
    pub config: ConfigModel,
    pub cursor: Option<u64>,
    pub pending: Seq<Update>,
    pub failures: u64,
    pub stop: StopState,
    pub fatal: bool,
    pub delivered: Seq<Update>,
}

impl EngineModel {
    /// Everything accepted from the remote so far, in order: what was already
    /// handed to the consumer followed by what is still buffered.
    pub open spec fn accepted(self) -> Seq<Update> {
        self.delivered + self.pending
    }

    /// Invariant of every reachable engine state: accepted updates are
    /// strictly ascending by id, and the cursor sits exactly one past the
    /// last accepted id (or is unset while nothing was accepted). Ids below
    /// the cursor are therefore acknowledged and never requested again.
    pub open spec fn wf(self) -> bool {
        &&& strictly_ascending(self.accepted())
        &&& match self.cursor {
            Option::None => self.accepted().len() == 0,
            Option::Some(c) => self.accepted().len() > 0 && self.accepted().last().id + 1 == c,
        }
    }

    /// A terminal engine: nothing buffered, and no fetch will ever be issued
    /// again, either because a fatal error was observed or because a stop
    /// request was fully honoured.
    pub open spec fn terminal(self) -> bool {
        self.pending.len() == 0 && (self.fatal || self.stop is FullyStopped)
    }
}

/// What one state-machine transition asks of the embedding.
#[derive(Clone, Copy, Debug, PartialEq, Eq)]
pub enum Step {
    /// Hand this update to the consumer; more may follow.
    Yield(Update),
    /// Run one fetch call with these parameters and report its outcome
    /// through [`PollingEngine::on_fetch`].
    Fetch(FetchRequest),
    /// The sequence has ended; it will never produce another item.
    End,
}

/// The state of a freshly created engine: cursor unset, nothing buffered,
/// no failures, running.
pub open spec fn spec_initial(config: ConfigModel) -> EngineModel {
    EngineModel {
        config,
        cursor: Option::None,
        pending: Seq::empty(),
        failures: 0,
        stop: StopState::Running,
        fatal: false,
        delivered: Seq::empty(),
    }
}

/// Requesting a stop moves `Running` to `StopRequested` and changes nothing
/// else; on any other stop state it is a no-op, which makes it idempotent.
pub open spec fn spec_request_stop(e: EngineModel) -> EngineModel {
    if e.stop is Running {
        EngineModel { stop: StopState::StopRequested, ..e }
    } else {
        e
    }
}

/// One "produce the next item" transition:
/// - a non-empty pending buffer is drained first, whatever the stop state,
///   so a stop request never discards already-fetched updates;
/// - with an empty buffer, a fatal error or a stop request ends the sequence
///   for good;
/// - otherwise the engine asks for one fetch at the current cursor.
pub open spec fn spec_step(e: EngineModel) -> (EngineModel, Step) {
    if e.pending.len() > 0 {
        (
            EngineModel {
                pending: e.pending.drop_first(),
                delivered: e.delivered.push(e.pending[0]),
                ..e
            },
            Step::Yield(e.pending[0]),
        )
    } else if e.fatal || !(e.stop is Running) {
        (EngineModel { stop: StopState::FullyStopped, ..e }, Step::End)
    } else {
        (
            e,
            Step::Fetch(
                FetchRequest { cursor: e.cursor, timeout_secs: e.config.timeout_secs },
            ),
        )
    }
}

/// The remote's side of the contract for one batch: ids strictly ascending,
/// none below the cursor already acknowledged, and small enough that the
/// cursor can still advance past them.
pub open spec fn batch_valid(cursor: Option<u64>, batch: Seq<Update>) -> bool {
    &&& strictly_ascending(batch)
    &&& (batch.len() > 0 ==> batch.last().id < u64::MAX)
    &&& match cursor {
        Option::None => true,
        Option::Some(c) => batch.len() > 0 ==> batch[0].id >= c,
    }
}

/// The consecutive-failure counter grows by one, saturating at its
/// representation limit.
pub open spec fn bump_failures(f: u64) -> u64 {
    if f == u64::MAX {
        f
    } else {
        (f + 1) as u64
    }
}

/// The value of a fetch outcome: the batch as a sequence.
pub open spec fn outcome_view(o: Result<Vec<Update>, FetchError>) -> Result<
    Seq<Update>,
    FetchError,
> {
    match o {
        Result::Ok(v) => Result::Ok(v@),
        Result::Err(e) => Result::Err(e),
    }
}

/// Processing one fetch outcome, given an empty pending buffer:
/// - a recoverable failure surfaces one error item, bumps the failure
///   counter, and leaves the cursor untouched, so the same range is retried;
/// - a fatal failure surfaces one error item and makes the engine terminal;
/// - a batch breaking the remote contract surfaces `MalformedBatch` and
///   makes the engine terminal, since delivery order can no longer be kept;
/// - an empty batch ("long poll timed out with no news") surfaces nothing
///   and changes nothing — it is not an error and does not touch backoff;
/// - a valid non-empty batch advances the cursor to one past its largest id,
///   resets the failure counter, hands out the first update at once and
///   buffers the rest.
pub open spec fn spec_on_fetch(e: EngineModel, out: Result<Seq<Update>, FetchError>) -> (
    EngineModel,
    Option<Result<Update, ListenerError>>,
) {
    match out {
        Result::Err(err) => match err {
            FetchError::Recoverable(_) => (
                EngineModel { failures: bump_failures(e.failures), ..e },
                Option::Some(Result::Err(ListenerError::Fetch(err))),
            ),
            FetchError::Fatal(_) => (
                EngineModel { fatal: true, ..e },
                Option::Some(Result::Err(ListenerError::Fetch(err))),
            ),
        },
        Result::Ok(batch) => {
            if !batch_valid(e.cursor, batch) {
                (
                    EngineModel { fatal: true, ..e },
                    Option::Some(Result::Err(ListenerError::MalformedBatch)),
                )
            } else if batch.len() == 0 {
                (e, Option::None)
            } else {
                (
                    EngineModel {
                        cursor: Option::Some((batch.last().id + 1) as u64),
                        pending: batch.drop_first(),
                        failures: 0,
                        delivered: e.delivered.push(batch[0]),
                        ..e
                    },
                    Option::Some(Result::Ok(batch[0])),
                )
            }
        },
    }
}

/// Milliseconds to wait before the next fetch after `failures` consecutive
/// recoverable failures: linear in the failure count and capped, so the
/// delay never decreases with further failures and never stalls unboundedly.
pub open spec fn spec_backoff(failures: u64) -> u64 {
    if failures >= 16 {
        BACKOFF_MAX_MILLIS
    } else {
        (failures * BACKOFF_STEP_MILLIS) as u64
    }
}

pub const BACKOFF_STEP_MILLIS: u64 = 500;

pub const BACKOFF_MAX_MILLIS: u64 = 8000;

/// Stepping a well-formed engine keeps it well-formed: handing out the front
/// of the buffer reorders nothing, and the other transitions only touch the
/// stop flag.
pub proof fn lemma_step_preserves_wf(e: EngineModel)
    requires
        e.wf(),
    ensures
        spec_step(e).0.wf(),
{
    assert(spec_step(e).0.accepted() =~= e.accepted());
}

/// Accepting a fetch outcome on an empty buffer keeps the engine
/// well-formed: a valid batch starts at or after the cursor, so appending it
/// to what was already delivered keeps ids strictly ascending, and the new
/// cursor again sits one past the last accepted id.
pub proof fn lemma_on_fetch_preserves_wf(e: EngineModel, out: Result<Seq<Update>, FetchError>)
    requires
        e.wf(),
        e.pending.len() == 0,
    ensures
        spec_on_fetch(e, out).0.wf(),
{
    let d = e.delivered;
    assert(e.accepted() =~= d);
    match out {
        Result::Ok(b) => {
            if batch_valid(e.cursor, b) && b.len() > 0 {
                let e2 = spec_on_fetch(e, out).0;
                assert(e2.accepted() =~= d + b);
                assert forall|i: int, j: int|
                    0 <= i < j < (d + b).len() implies (d + b)[i].id < (d + b)[j].id by {
                    if j < d.len() {
                        assert(d[i].id < d[j].id);
                    } else if i >= d.len() {
                        assert(b[i - d.len()].id < b[j - d.len()].id);
                    } else {
                        let c = e.cursor->Some_0;
                        assert(d.last().id + 1 == c);
                        if i < d.len() - 1 {
                            assert(d[i].id < d.last().id);
                        }
                        if j - d.len() > 0 {
                            assert(b[0].id < b[j - d.len()].id);
                        }
                    }
                }
                assert((d + b).last() == b.last());
            } else {
                assert(spec_on_fetch(e, out).0.accepted() =~= e.accepted());
            }
        },
        Result::Err(_) => {
            assert(spec_on_fetch(e, out).0.accepted() =~= e.accepted());
        },
    }
}

} // verus!

verus! {

/// The polling engine. Fields are public so that the specification functions
/// above can speak about them directly; `new` is the supported way to build
/// one, and a state built by hand is covered by the contracts only where it
/// satisfies [`EngineModel::wf`].
pub struct PollingEngine {
    /// Tuning parameters, immutable for the lifetime of the engine.
    pub config: PollingConfig,
    /// Smallest id not yet acknowledged; `None` until the first non-empty
    /// batch is accepted.
    pub cursor: Option<u64>,
    /// The tail of the most recent batch not yet handed to the consumer.
    pub pending: Vec<Update>,
    /// Consecutive recoverable fetch failures since the last accepted
    /// non-empty batch.
    pub failures: u64,
    /// The cooperative stop flag.
    pub stop: StopState,
    /// Set once a fatal or malformed outcome was observed.
    pub fatal: bool,
    /// Every update handed to the consumer so far, in order.
    pub delivered: Ghost<Seq<Update>>,
}

impl View for PollingEngine {
    type V = EngineModel;

    open spec fn view(&self) -> EngineModel {
        EngineModel {
            config: self.config@,
            cursor: self.cursor,
            pending: self.pending@,
            failures: self.failures,
            stop: self.stop,
            fatal: self.fatal,
            delivered: self.delivered@,
        }
    }
}

impl PollingEngine {
    /// Creates an engine with an unset cursor, an empty buffer and the given
    /// tuning parameters.
    pub fn new(config: PollingConfig) -> (engine: PollingEngine)
        ensures
            engine@ =~= spec_initial(config@),
            engine@.wf(),
    {
        PollingEngine {
            config,
            cursor: Option::None,
            pending: Vec::new(),
            failures: 0,
            stop: StopState::Running,
            fatal: false,
            delivered: Ghost(Seq::empty()),
        }
    }

    /// Requests a cooperative stop. Buffered updates are still delivered;
    /// no new fetch is started once the buffer is drained. Requesting a stop
    /// more than once has the effect of requesting it once.
    pub fn request_stop(&mut self)
        ensures
            final(self)@ =~= spec_request_stop(old(self)@),
            old(self)@.wf() ==> final(self)@.wf(),
    {
        match self.stop {
            StopState::Running => {
                self.stop = StopState::StopRequested;
            },
            _ => {},
        }
    }

    /// Performs one state-machine transition and says what the embedding
    /// should do next: deliver an update, run one fetch, or report the end
    /// of the sequence.
    pub fn step(&mut self) -> (r: Step)
        requires
            old(self)@.wf(),
        ensures
            final(self)@ =~= spec_step(old(self)@).0,
            r == spec_step(old(self)@).1,
            final(self)@.wf(),
    {
        proof {
            lemma_step_preserves_wf(old(self)@);
        }
        if self.pending.len() > 0 {
            let u = self.pending.remove(0);
            self.delivered = Ghost(self.delivered@.push(u));
            proof {
                assert(self@ =~= spec_step(old(self)@).0);
            }
            Step::Yield(u)
        } else if self.fatal {
            self.stop = StopState::FullyStopped;
            proof {
                assert(self@ =~= spec_step(old(self)@).0);
            }
            Step::End
        } else {
            match self.stop {
                StopState::Running => {
                    proof {
                        assert(self@ =~= spec_step(old(self)@).0);
                    }
                    Step::Fetch(
                        FetchRequest {
                            cursor: self.cursor,
                            timeout_secs: self.config.timeout_secs,
                        },
                    )
                },
                _ => {
                    self.stop = StopState::FullyStopped;
                    proof {
                        assert(self@ =~= spec_step(old(self)@).0);
                    }
                    Step::End
                },
            }
        }
    }

    /// Decides whether one batch honours the remote contract relative to the
    /// current cursor: strictly ascending ids, starting at or after the
    /// cursor, with room left for the cursor to advance.
    #[verifier::rlimit(50)]
    fn check_batch(cursor: Option<u64>, batch: &Vec<Update>) -> (r: bool)
        ensures
            r == batch_valid(cursor, batch@),
    {
        let n = batch.len();
        if n == 0 {
            return true;
        }
        if batch[n - 1].id == u64::MAX {
            return false;
        }
        if let Option::Some(c) = cursor {
            if batch[0].id < c {
                return false;
            }
        }
        let mut k: usize = 0;
        while k + 1 < n
            invariant
                n == batch@.len(),
                k < n,
                forall|i: int| 0 <= i < k ==> #[trigger] batch@[i].id < batch@[i + 1].id,
            decreases n - k,
        {
            if batch[k].id >= batch[k + 1].id {
                return false;
            }
            k += 1;
        }
        proof {
            lemma_ascending_from_adjacent(batch@);
        }
        true
    }

    /// Feeds the outcome of the fetch requested by the last [`Self::step`]
    /// back into the engine and returns what, if anything, to hand to the
    /// consumer this round (`None` is the empty-batch case: no news, keep
    /// going). The caller owes the engine an empty buffer and a live state,
    /// which is exactly what holds right after `step` asked for a fetch.
    pub fn on_fetch(&mut self, outcome: Result<Vec<Update>, FetchError>) -> (r: Option<
        Result<Update, ListenerError>,
    >)
        requires
            old(self)@.wf(),
            old(self)@.pending.len() == 0,
        ensures
            final(self)@ =~= spec_on_fetch(old(self)@, outcome_view(outcome)).0,
            r == spec_on_fetch(old(self)@, outcome_view(outcome)).1,
            final(self)@.wf(),
    {
        proof {
            lemma_on_fetch_preserves_wf(old(self)@, outcome_view(outcome));
        }
        match outcome {
            Result::Err(err) => {
                match err {
                    FetchError::Recoverable(_) => {
                        self.failures = if self.failures == u64::MAX {
                            self.failures
                        } else {
                            self.failures + 1
                        };
                    },
                    FetchError::Fatal(_) => {
                        self.fatal = true;
                    },
                }
                proof {
                    assert(self@ =~= spec_on_fetch(old(self)@, outcome_view(outcome)).0);
                }
                Option::Some(Result::Err(ListenerError::Fetch(err)))
            },
            Result::Ok(batch) => {
                let ghost b = batch@;
                if !Self::check_batch(self.cursor, &batch) {
                    self.fatal = true;
                    proof {
                        assert(self@ =~= spec_on_fetch(old(self)@, outcome_view(outcome)).0);
                    }
                    Option::Some(Result::Err(ListenerError::MalformedBatch))
                } else if batch.len() == 0 {
                    proof {
                        assert(self@ =~= spec_on_fetch(old(self)@, outcome_view(outcome)).0);
                    }
                    Option::None
                } else {
                    let mut batch = batch;
                    let last_id = batch[batch.len() - 1].id;
                    let first = batch.remove(0);
                    self.cursor = Option::Some(last_id + 1);
                    self.failures = 0;
                    self.pending = batch;
                    self.delivered = Ghost(self.delivered@.push(first));
                    proof {
                        assert(first == b[0]);
                        assert(self@.pending =~= b.drop_first());
                        assert(self@ =~= spec_on_fetch(old(self)@, outcome_view(outcome)).0);
                    }
                    Option::Some(Result::Ok(first))
                }
            },
        }
    }

    /// Milliseconds the embedding should wait before the next fetch retry,
    /// computed from the consecutive-failure counter.
    pub fn retry_delay_millis(&self) -> (r: u64)
        ensures
            r == spec_backoff(self@.failures),
    {
        if self.failures >= 16 {
            BACKOFF_MAX_MILLIS
        } else {
            self.failures * BACKOFF_STEP_MILLIS
        }
    }

    /// Milliseconds to wait before the next fetch: the configured inter-call
    /// delay, or the backoff delay after failures, whichever is larger.
    pub fn next_fetch_delay_millis(&self) -> (r: u64)
        ensures
            r == if spec_backoff(self@.failures) > self@.config.delay_millis {
                spec_backoff(self@.failures)
            } else {
                self@.config.delay_millis
            },
    {
        let backoff = self.retry_delay_millis();
        if backoff > self.config.delay_millis {
            backoff
        } else {
            self.config.delay_millis
        }
    }

    /// How often the consumer should expect a response from the stream: the
    /// configured long-poll timeout.
    pub fn timeout_hint(&self) -> (r: Option<u64>)
        ensures
            r == Option::Some(self@.config.timeout_secs),
    {
        Option::Some(self.config.timeout_secs)
    }

    /// Replaces the advisory allowed-update filter handed to the fetch
    /// collaborator. Purely an optimisation hint; correctness never depends
    /// on it.
    pub fn set_allowed_updates(&mut self, hint: Vec<AllowedUpdate>)
        ensures
            final(self)@ =~= (EngineModel {
                config: ConfigModel { allowed: Option::Some(hint@), ..old(self)@.config },
                ..old(self)@
            }),
            old(self)@.wf() ==> final(self)@.wf(),
    {
        self.config.allowed = Option::Some(hint);
    }

    /// The advisory allowed-update filter to pass along with a fetch.
    pub fn allowed_updates(&self) -> (r: &Option<Vec<AllowedUpdate>>)
        ensures
            self@.config.allowed == match *r {
                Option::None => Option::<Seq<AllowedUpdate>>::None,
                Option::Some(v) => Option::Some(v@),
            },
    {
        &self.config.allowed
    }

    /// Whether the sequence has ended for good.
    pub fn is_terminal(&self) -> (r: bool)
        ensures
            r == self@.terminal(),
    {
        self.pending.len() == 0 && (self.fatal || match self.stop {
            StopState::FullyStopped => true,
            _ => false,
        })
    }

    /// One pull of the lazy update sequence: performs one state-machine
    /// transition, running at most one fetch through the supplied
    /// collaborator, and reports one item, the permanent end of the
    /// sequence, or that the long poll returned with no news (in which case
    /// nothing at all changed, and the embedding should simply pull again
    /// after [`Self::next_fetch_delay_millis`]). Whatever the collaborator
    /// returns, the engine stays well-formed, the cursor never moves
    /// backwards, a stop request is never forgotten, and an update handed
    /// out is exactly the one appended to the delivery history.
    pub fn pull_once<F: Fetcher>(&mut self, fetcher: &mut F) -> (r: PullOutcome)
        requires
            old(self)@.wf(),
        ensures
            final(self)@.wf(),
            // inputs the collaborator does not decide are pinned outright: a
            // buffered update is handed out exactly as `spec_step` says, and
            // a terminal-bound engine ends without the fetcher being called
            old(self)@.pending.len() > 0 ==> r == PullOutcome::Item(
                Result::<Update, ListenerError>::Ok(old(self)@.pending[0]),
            ) && final(self)@ =~= spec_step(old(self)@).0,
            (old(self)@.pending.len() == 0 && (old(self)@.fatal || !(old(self)@.stop is Running)))
                ==> (r is Ended && final(self)@ =~= spec_step(old(self)@).0),
            r is Ended ==> final(self)@.terminal(),
            r is NoNews ==> final(self)@ =~= old(self)@,
            match r {
                PullOutcome::Item(Result::Ok(u)) => final(self)@.delivered =~= old(
                    self,
                )@.delivered.push(u),
                _ => final(self)@.delivered =~= old(self)@.delivered,
            },
            cursor_advances(old(self)@.cursor, final(self)@.cursor),
            !(old(self)@.stop is Running) ==> !(final(self)@.stop is Running),
    {
        let next = self.step();
        match next {
            Step::Yield(u) => PullOutcome::Item(Result::Ok(u)),
            Step::End => PullOutcome::Ended,
            Step::Fetch(request) => {
                let outcome = fetcher.fetch(request, &self.config.allowed);
                let item = self.on_fetch(outcome);
                match item {
                    Option::Some(produced) => PullOutcome::Item(produced),
                    Option::None => PullOutcome::NoNews,
                }
            },
        }
    }
}

/// What one pull of the update sequence produced.
#[derive(Clone, Copy, Debug, PartialEq, Eq)]
pub enum PullOutcome {
    /// One item for the consumer: an update, or a surfaced fetch failure.
    Item(Result<Update, ListenerError>),
    /// The fetch returned an empty batch: no news is not an error and not
    /// the end; pull again later.
    NoNews,
    /// The sequence has permanently ended; every later pull would say the
    /// same.
    Ended,
}

/// The cursor only ever moves forward: once set it stays set and never
/// decreases.
pub open spec fn cursor_advances(before: Option<u64>, after: Option<u64>) -> bool {
    match before {
        Option::None => true,
        Option::Some(b) => match after {
            Option::None => false,
            Option::Some(a) => b <= a,
        },
    }
}

/// If every adjacent pair of ids increases, the whole sequence is strictly
/// ascending.
proof fn lemma_ascending_from_adjacent(s: Seq<Update>)
    requires
        forall|i: int| 0 <= i < s.len() - 1 ==> #[trigger] s[i].id < s[i + 1].id,
    ensures
        strictly_ascending(s),
{
    assert forall|i: int, j: int| 0 <= i < j < s.len() implies s[i].id < s[j].id by {
        lemma_ascending_pair(s, i, j);
    }
}

proof fn lemma_ascending_pair(s: Seq<Update>, i: int, j: int)
    requires
        forall|i: int| 0 <= i < s.len() - 1 ==> #[trigger] s[i].id < s[i + 1].id,
        0 <= i < j < s.len(),
    ensures
        s[i].id < s[j].id,
    decreases j - i,
{
    if i + 1 < j {
        lemma_ascending_pair(s, i, j - 1);
    }
}

} // verus!
