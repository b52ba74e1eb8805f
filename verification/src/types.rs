//! Plain data carried between the polling engine, the fetch collaborator and
//! the consumer: updates, error classification, fetch parameters.

use vstd::prelude::*;

verus! {

/// Kinds of updates a listener can be asked to watch for; also the payload
/// discriminant carried by each update.
#[derive(Clone, Copy, Debug, PartialEq, Eq, Structural)]
pub enum AllowedUpdate {
    Message,
    EditedMessage,
    ChannelPost,
    EditedChannelPost,
    InlineQuery,
    ChosenInlineResult,
    CallbackQuery,
    ShippingQuery,
    PreCheckoutQuery,
    Poll,
    PollAnswer,
}

/// One update fetched from the remote service, identified by a monotonically
/// increasing id assigned remotely. Batches arrive sorted by `id`.
#[derive(Clone, Copy, Debug, PartialEq, Eq, Structural)]
pub struct Update {
    /// Remote-assigned identifier.
    pub id: u64,
    /// What kind of update this is.
    pub kind: AllowedUpdate,
}

/// The cooperative stop signal, shared in spirit between the consumer (who
/// requests a stop) and the engine (who observes it). The only transitions
/// are `Running` to `StopRequested` (requested from outside) and
/// `StopRequested` to `FullyStopped` (taken by the engine once the pending
/// buffer is drained and no more fetches will be issued): the flag never
/// moves backwards.
#[derive(Clone, Copy, Debug, PartialEq, Eq, Structural)]
pub enum StopState {
    /// No stop requested; the engine keeps fetching.
    Running,
    /// A stop was requested; buffered updates are still delivered, but no
    /// new fetch is started once the buffer is empty.
    StopRequested,
    /// The engine has observed the request with an empty buffer; the
    /// sequence has ended and will never produce another item.
    FullyStopped,
}

/// A fetch failure, classified by the fetch collaborator (not by the engine):
/// recoverable failures are retried with backoff, fatal ones end the sequence.
/// The payload is a collaborator-chosen diagnostic code.
#[derive(Clone, Copy, Debug, PartialEq, Eq, Structural)]
pub enum FetchError {
    /// A transient failure (network error, throttling): the engine retries
    /// the same cursor after a backoff delay.
    Recoverable(u32),
    /// A failure that cannot be retried (for example rejected credentials):
    /// the engine performs no further fetches.
    Fatal(u32),
}

/// An error item surfaced to the consumer of the update sequence.
#[derive(Clone, Copy, Debug, PartialEq, Eq, Structural)]
pub enum ListenerError {
    /// The fetch collaborator reported a failure.
    Fetch(FetchError),
    /// The remote returned a batch violating its own contract (ids not
    /// strictly ascending, or overlapping an already-acknowledged range).
    /// Treated as fatal: the remote can no longer be trusted not to break
    /// the delivery order.
    MalformedBatch,
}

/// The parameters of one fetch call: which range to ask for and how long the
/// remote may hold the call open waiting for news (`0` means short polling).
/// The advisory allowed-update filter travels separately, by reference.
#[derive(Clone, Copy, Debug, PartialEq, Eq)]
pub struct FetchRequest {
    /// Smallest id the remote should return; `None` lets the remote choose
    /// where to start.
    pub cursor: Option<u64>,
    /// Longest time, in seconds, the remote may block this call.
    pub timeout_secs: u64,
}

/// Tuning parameters fixed for the lifetime of one engine instance.
#[derive(Clone, Debug)]
pub struct PollingConfig {
    /// Longest time, in seconds, the remote may hold one fetch call open
    /// waiting for new updates; `0` means short polling.
    pub timeout_secs: u64,
    /// Minimum spacing, in milliseconds, between two fetch calls.
    pub delay_millis: u64,
    /// Advisory filter passed through to the fetch collaborator; the remote
    /// may ignore it.
    pub allowed: Option<Vec<AllowedUpdate>>,
}

/// The mathematical value of a `PollingConfig`.
#[verifier::ext_equal]
pub struct ConfigModel {
    pub timeout_secs: u64,
    pub delay_millis: u64,
    pub allowed: Option<Seq<AllowedUpdate>>,
}

impl View for PollingConfig {
    type V = ConfigModel;

    open spec fn view(&self) -> ConfigModel {
        ConfigModel {
            timeout_secs: self.timeout_secs,
            delay_millis: self.delay_millis,
            allowed: match self.allowed {
                Option::None => Option::None,
                Option::Some(v) => Option::Some(v@),
            },
        }
    }
}

} // verus!
