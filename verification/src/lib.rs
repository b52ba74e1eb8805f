//! A cursor-tracking update listener: a long/short-polling engine that turns a
//! pull-style "fetch the next batch of updates since a cursor" capability into
//! an ordered, de-duplicated sequence of updates, with cooperative stop,
//! backoff on recoverable failures, and in-order delivery of everything
//! fetched within one engine's lifetime.
//!
//! The engine itself is a pure state machine: it decides, one consumer pull at
//! a time, whether to hand out a buffered update, issue a fetch with the
//! current cursor, or end the sequence. The network call itself is performed
//! by a [`Fetcher`] supplied by the embedding.

mod laws;
mod polling;
mod sticker;
mod types;
mod update_listeners;

pub use laws::{
    accept_batch, after_recoverable_errors, batches_valid, concat_batches, drain_items,
    drain_state, lemma_backoff_bounded, lemma_backoff_monotone,
    lemma_cursor_changes_only_on_accepted_batch, lemma_delivery_ordered,
    lemma_drain_state_preserves, lemma_empty_fetch_is_not_an_end, lemma_error_run_backoff,
    lemma_fatal_ends_sequence, lemma_fetch_appends_batch,
    lemma_recoverable_fetch_retries_same_cursor, lemma_run_delivers_everything,
    lemma_stop_drains_then_ends, lemma_stop_idempotent, lemma_terminal_is_forever, run_batches,
};
pub use polling::{
    batch_valid, bump_failures, cursor_advances, spec_backoff, spec_initial, spec_on_fetch,
    spec_request_stop, spec_step, strictly_ascending, EngineModel, PollingEngine, PullOutcome,
    Step, BACKOFF_MAX_MILLIS, BACKOFF_STEP_MILLIS,
};
pub use sticker::{AddStickerToSet, InputFile, MaskPoint, MaskPosition};
pub use types::{
    AllowedUpdate, ConfigModel, FetchError, FetchRequest, ListenerError, PollingConfig, StopState,
    Update,
};
pub use update_listeners::{Fetcher, UpdateListener};
