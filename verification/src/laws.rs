//! The engine's guarantees, stated and proved once over the specification
//! transitions: delivery order, cursor discipline, the stop protocol, the
//! no-news rule, the backoff policy and the fatal-error protocol.

use vstd::prelude::*;

use crate::polling::{
    batch_valid, bump_failures, lemma_on_fetch_preserves_wf, lemma_step_preserves_wf, spec_backoff,
    spec_on_fetch, spec_request_stop, spec_step, EngineModel, Step, BACKOFF_MAX_MILLIS,
};
use crate::types::{FetchError, FetchRequest, ListenerError, StopState, Update};

verus! {

/// Updates are handed to the consumer in strictly ascending id order: no
/// duplicates and no reordering, within one batch and across batches.
pub proof fn lemma_delivery_ordered(e: EngineModel)
    requires
        e.wf(),
    ensures
        forall|i: int, j: int|
            0 <= i < j < e.delivered.len() ==> e.delivered[i].id < e.delivered[j].id,
{
    assert forall|i: int, j: int|
        0 <= i < j < e.delivered.len() implies e.delivered[i].id < e.delivered[j].id by {
        assert(e.accepted()[i] == e.delivered[i]);
        assert(e.accepted()[j] == e.delivered[j]);
    }
}

/// A successful, non-empty, contract-honouring batch is accepted whole —
/// its first update handed out at once, the rest buffered, nothing dropped
/// and nothing invented — the cursor advances to exactly one past its
/// largest id, and the failure counter is reset.
pub proof fn lemma_fetch_appends_batch(e: EngineModel, b: Seq<Update>)
    requires
        e.wf(),
        e.pending.len() == 0,
        batch_valid(e.cursor, b),
        b.len() > 0,
    ensures
        spec_on_fetch(e, Result::Ok(b)).1 == Option::Some(Result::<Update, ListenerError>::Ok(b[0])),
        spec_on_fetch(e, Result::Ok(b)).0.accepted() =~= e.accepted() + b,
        spec_on_fetch(e, Result::Ok(b)).0.cursor == Option::Some((b.last().id + 1) as u64),
        spec_on_fetch(e, Result::Ok(b)).0.failures == 0,
        spec_on_fetch(e, Result::Ok(b)).0.wf(),
{
    lemma_on_fetch_preserves_wf(e, Result::Ok(b));
    assert(spec_on_fetch(e, Result::Ok(b)).0.accepted() =~= e.accepted() + b);
}

/// A failing fetch leaves the cursor untouched, and the next fetch the
/// engine asks for uses the identical cursor: the retry is idempotent from
/// the remote's point of view. The failure is surfaced as exactly one error
/// item, the failure counter grows, and the backoff delay never shrinks.
pub proof fn lemma_recoverable_fetch_retries_same_cursor(e: EngineModel, code: u32)
    requires
        e.wf(),
        e.pending.len() == 0,
        !e.fatal,
        e.stop is Running,
    ensures
        spec_on_fetch(e, Result::Err(FetchError::Recoverable(code))).0.cursor == e.cursor,
        spec_on_fetch(e, Result::Err(FetchError::Recoverable(code))).1 == Option::Some(
            Result::<Update, ListenerError>::Err(ListenerError::Fetch(FetchError::Recoverable(code))),
        ),
        spec_on_fetch(e, Result::Err(FetchError::Recoverable(code))).0.failures == bump_failures(
            e.failures,
        ),
        spec_backoff(bump_failures(e.failures)) >= spec_backoff(e.failures),
        spec_step(spec_on_fetch(e, Result::Err(FetchError::Recoverable(code))).0).1 == Step::Fetch(
            FetchRequest { cursor: e.cursor, timeout_secs: e.config.timeout_secs },
        ),
{
    lemma_backoff_monotone(e.failures, bump_failures(e.failures));
}

/// Draining a stopped engine: the updates still produced after a stop
/// request are exactly the `k` buffered ones, in order; then the sequence
/// ends without one further fetch being started. With an empty buffer
/// (`k == 0`) the very next transition is the end.
pub proof fn lemma_stop_drains_then_ends(e: EngineModel)
    requires
        e.wf(),
        e.stop is StopRequested,
    ensures
        drain_items(e) =~= e.pending,
        drain_state(e).pending.len() == 0,
        spec_step(drain_state(e)).1 == Step::End,
    decreases e.pending.len(),
{
    lemma_step_preserves_wf(e);
    if e.pending.len() > 0 {
        lemma_stop_drains_then_ends(spec_step(e).0);
        assert(drain_items(e) =~= e.pending);
    }
}

/// The items still produced by an engine that is repeatedly asked for the
/// next update, as long as its buffer lasts.
pub open spec fn drain_items(e: EngineModel) -> Seq<Update>
    decreases e.pending.len(),
{
    if e.pending.len() == 0 {
        Seq::empty()
    } else {
        seq![e.pending[0]] + drain_items(spec_step(e).0)
    }
}

/// The engine state once its buffer is drained.
pub open spec fn drain_state(e: EngineModel) -> EngineModel
    decreases e.pending.len(),
{
    if e.pending.len() == 0 {
        e
    } else {
        drain_state(spec_step(e).0)
    }
}

/// Requesting a stop twice has the same effect as requesting it once.
pub proof fn lemma_stop_idempotent(e: EngineModel)
    ensures
        spec_request_stop(spec_request_stop(e)) == spec_request_stop(e),
{
}

/// No news is not an error and not the end: an idle running engine always
/// asks for a fetch, and an empty batch changes nothing and surfaces
/// nothing — in particular it leaves the backoff state untouched — so a
/// fetcher that always returns empty batches yields no item and no end
/// until a stop is requested.
pub proof fn lemma_empty_fetch_is_not_an_end(e: EngineModel)
    requires
        e.wf(),
        e.pending.len() == 0,
        !e.fatal,
        e.stop is Running,
    ensures
        spec_step(e).1 matches Step::Fetch(_),
        spec_on_fetch(e, Result::Ok(Seq::<Update>::empty())).0 == e,
        spec_on_fetch(e, Result::Ok(Seq::<Update>::empty())).1 is None,
{
}

/// The backoff delay is monotonically non-decreasing in the consecutive
/// failure count.
pub proof fn lemma_backoff_monotone(a: u64, b: u64)
    requires
        a <= b,
    ensures
        spec_backoff(a) <= spec_backoff(b),
{
}

/// The backoff delay is bounded above: the engine never stalls unboundedly.
pub proof fn lemma_backoff_bounded(f: u64)
    ensures
        spec_backoff(f) <= BACKOFF_MAX_MILLIS,
{
}

/// A fatal failure is surfaced as exactly one error item, after which the
/// sequence ends and the engine is terminal: the fetcher is never called
/// again.
pub proof fn lemma_fatal_ends_sequence(e: EngineModel, code: u32)
    requires
        e.wf(),
        e.pending.len() == 0,
    ensures
        spec_on_fetch(e, Result::Err(FetchError::Fatal(code))).1 == Option::Some(
            Result::<Update, ListenerError>::Err(ListenerError::Fetch(FetchError::Fatal(code))),
        ),
        spec_on_fetch(e, Result::Err(FetchError::Fatal(code))).0.terminal(),
        spec_step(spec_on_fetch(e, Result::Err(FetchError::Fatal(code))).0).1 == Step::End,
{
}

/// Terminal states are absorbing: every further transition reports the end
/// of the sequence, stays terminal, and never asks for a fetch.
pub proof fn lemma_terminal_is_forever(e: EngineModel)
    requires
        e.terminal(),
    ensures
        spec_step(e).1 == Step::End,
        spec_step(e).0.terminal(),
        spec_step(e).0.stop is FullyStopped,
{
}

/// The concatenation, in fetch order, of a run of batches.
pub open spec fn concat_batches(bs: Seq<Seq<Update>>) -> Seq<Update>
    decreases bs.len(),
{
    if bs.len() == 0 {
        Seq::empty()
    } else {
        bs[0] + concat_batches(bs.drop_first())
    }
}

/// The engine state after draining the buffer and then accepting one more
/// batch.
pub open spec fn accept_batch(e: EngineModel, b: Seq<Update>) -> EngineModel {
    spec_on_fetch(drain_state(e), Result::Ok(b)).0
}

/// The engine state after accepting each batch of a run in turn, each once
/// the previous one was drained — the shape every actual run has, since the
/// engine only fetches with an empty buffer.
pub open spec fn run_batches(e: EngineModel, bs: Seq<Seq<Update>>) -> EngineModel
    decreases bs.len(),
{
    if bs.len() == 0 {
        e
    } else {
        run_batches(accept_batch(e, bs[0]), bs.drop_first())
    }
}

/// Every batch of the run honours the remote contract at its own turn,
/// relative to the cursor the engine holds by then.
pub open spec fn batches_valid(e: EngineModel, bs: Seq<Seq<Update>>) -> bool
    decreases bs.len(),
{
    bs.len() == 0 || (batch_valid(drain_state(e).cursor, bs[0]) && batches_valid(
        accept_batch(e, bs[0]),
        bs.drop_first(),
    ))
}

/// Draining the buffer hands updates over without touching anything else:
/// the accepted history, cursor, failure counter, stop flag and fatal flag
/// all stay, and the buffer ends empty.
pub proof fn lemma_drain_state_preserves(e: EngineModel)
    requires
        e.wf(),
    ensures
        drain_state(e).wf(),
        drain_state(e).pending.len() == 0,
        drain_state(e).accepted() =~= e.accepted(),
        drain_state(e).cursor == e.cursor,
        drain_state(e).failures == e.failures,
        drain_state(e).stop == e.stop,
        drain_state(e).fatal == e.fatal,
        drain_state(e).config == e.config,
    decreases e.pending.len(),
{
    if e.pending.len() > 0 {
        lemma_step_preserves_wf(e);
        assert(spec_step(e).0.accepted() =~= e.accepted());
        lemma_drain_state_preserves(spec_step(e).0);
    }
}

/// Over a whole run of batches, however long: the engine accepts every
/// batch whole and in fetch order — what was handed to the consumer plus
/// what is still buffered is exactly the history it started with followed
/// by the concatenation of the batches. With well-formedness this is the
/// general delivery law: no fetched update is skipped, none is delivered
/// twice, and delivery order is ascending by id.
pub proof fn lemma_run_delivers_everything(e: EngineModel, bs: Seq<Seq<Update>>)
    requires
        e.wf(),
        batches_valid(e, bs),
    ensures
        run_batches(e, bs).wf(),
        run_batches(e, bs).accepted() =~= e.accepted() + concat_batches(bs),
    decreases bs.len(),
{
    if bs.len() == 0 {
        assert(run_batches(e, bs).accepted() =~= e.accepted() + concat_batches(bs));
    } else {
        lemma_drain_state_preserves(e);
        let d = drain_state(e);
        lemma_on_fetch_preserves_wf(d, Result::Ok(bs[0]));
        let e1 = accept_batch(e, bs[0]);
        assert(e1.accepted() =~= d.accepted() + bs[0]);
        lemma_run_delivers_everything(e1, bs.drop_first());
        assert(run_batches(e, bs).accepted() =~= e.accepted() + concat_batches(bs));
    }
}

/// The cursor moves only as a consequence of a successful non-empty batch:
/// draining the buffer, requesting a stop, failed fetches and empty batches
/// all leave it in place, and when it does move it moves to exactly one
/// past the batch's largest id.
pub proof fn lemma_cursor_changes_only_on_accepted_batch(
    e: EngineModel,
    out: Result<Seq<Update>, FetchError>,
)
    requires
        e.wf(),
    ensures
        spec_step(e).0.cursor == e.cursor,
        spec_request_stop(e).cursor == e.cursor,
        ({
            let e2 = spec_on_fetch(e, out).0;
            e2.cursor != e.cursor ==> (out matches Result::Ok(b) && b.len() > 0 && batch_valid(
                e.cursor,
                b,
            ) && e2.cursor == Option::Some((b.last().id + 1) as u64))
        }),
{
}

/// The engine state after a run of consecutive recoverable failures, one
/// surfaced error item each.
pub open spec fn after_recoverable_errors(e: EngineModel, codes: Seq<u32>) -> EngineModel
    decreases codes.len(),
{
    if codes.len() == 0 {
        e
    } else {
        after_recoverable_errors(
            spec_on_fetch(e, Result::Err(FetchError::Recoverable(codes[0]))).0,
            codes.drop_first(),
        )
    }
}

/// Two error runs in a row are one longer run.
proof fn lemma_error_run_append(e: EngineModel, a: Seq<u32>, b: Seq<u32>)
    ensures
        after_recoverable_errors(e, a + b) == after_recoverable_errors(
            after_recoverable_errors(e, a),
            b,
        ),
    decreases a.len(),
{
    if a.len() == 0 {
        assert(a + b =~= b);
    } else {
        let e1 = spec_on_fetch(e, Result::Err(FetchError::Recoverable(a[0]))).0;
        lemma_error_run_append(e1, a.drop_first(), b);
        assert((a + b).drop_first() =~= a.drop_first() + b);
    }
}

/// A run of recoverable failures only grows the failure counter; cursor,
/// history, buffer, stop flag and fatal flag stay untouched.
proof fn lemma_error_run_grows(e: EngineModel, codes: Seq<u32>)
    ensures
        after_recoverable_errors(e, codes).failures >= e.failures,
        after_recoverable_errors(e, codes).cursor == e.cursor,
        after_recoverable_errors(e, codes).pending == e.pending,
        after_recoverable_errors(e, codes).delivered == e.delivered,
        after_recoverable_errors(e, codes).stop == e.stop,
        after_recoverable_errors(e, codes).fatal == e.fatal,
        after_recoverable_errors(e, codes).config == e.config,
        e.wf() ==> after_recoverable_errors(e, codes).wf(),
    decreases codes.len(),
{
    if codes.len() > 0 {
        let e1 = spec_on_fetch(e, Result::Err(FetchError::Recoverable(codes[0]))).0;
        assert(e1.accepted() =~= e.accepted());
        lemma_error_run_grows(e1, codes.drop_first());
    }
}

/// Over any run of consecutive recoverable failures, however long: the
/// cursor never moves, so every retry asks for the identical range; the
/// backoff delay the engine advises is monotonically non-decreasing as the
/// run goes on and stays bounded; and the next accepted non-empty batch
/// resets the failure counter to zero.
pub proof fn lemma_error_run_backoff(
    e: EngineModel,
    codes: Seq<u32>,
    more: Seq<u32>,
    b: Seq<Update>,
)
    requires
        e.wf(),
    ensures
        after_recoverable_errors(e, codes).wf(),
        after_recoverable_errors(e, codes).cursor == e.cursor,
        spec_backoff(after_recoverable_errors(e, codes + more).failures) >= spec_backoff(
            after_recoverable_errors(e, codes).failures,
        ),
        spec_backoff(after_recoverable_errors(e, codes).failures) <= BACKOFF_MAX_MILLIS,
        (e.pending.len() == 0 && batch_valid(e.cursor, b) && b.len() > 0) ==> spec_on_fetch(
            after_recoverable_errors(e, codes),
            Result::Ok(b),
        ).0.failures == 0,
{
    lemma_error_run_grows(e, codes);
    lemma_error_run_append(e, codes, more);
    lemma_error_run_grows(after_recoverable_errors(e, codes), more);
    lemma_backoff_monotone(
        after_recoverable_errors(e, codes).failures,
        after_recoverable_errors(e, codes + more).failures,
    );
    lemma_backoff_bounded(after_recoverable_errors(e, codes).failures);
    if e.pending.len() == 0 && batch_valid(e.cursor, b) && b.len() > 0 {
        lemma_fetch_appends_batch(after_recoverable_errors(e, codes), b);
    }
}

} // verus!
