use teloxide::{
    AllowedUpdate, FetchError, FetchRequest, Fetcher, ListenerError, PollingConfig, PollingEngine,
    PullOutcome, Update, UpdateListener,
};

/// A scripted fetch collaborator: returns the scripted outcomes in order,
/// then empty batches forever, and records every call it receives.
struct ScriptedFetcher {
    script: Vec<Result<Vec<Update>, FetchError>>,
    calls: Vec<FetchRequest>,
    allowed_seen: Vec<Option<Vec<AllowedUpdate>>>,
}

impl ScriptedFetcher {
    fn new(script: Vec<Result<Vec<Update>, FetchError>>) -> Self {
        ScriptedFetcher { script, calls: Vec::new(), allowed_seen: Vec::new() }
    }
}

impl Fetcher for ScriptedFetcher {
    fn fetch(
        &mut self,
        request: FetchRequest,
        allowed: &Option<Vec<AllowedUpdate>>,
    ) -> Result<Vec<Update>, FetchError> {
        self.calls.push(request);
        self.allowed_seen.push(allowed.clone());
        if self.script.is_empty() {
            Ok(Vec::new())
        } else {
            self.script.remove(0)
        }
    }
}

fn upd(id: u64) -> Update {
    Update { id, kind: AllowedUpdate::Message }
}

fn config() -> PollingConfig {
    PollingConfig { timeout_secs: 10, delay_millis: 0, allowed: None }
}

/// Pulls until the sequence ends or `max_pulls` is spent; returns the items
/// seen and whether the sequence ended.
fn drive(
    engine: &mut PollingEngine,
    fetcher: &mut ScriptedFetcher,
    max_pulls: usize,
) -> (Vec<Result<Update, ListenerError>>, bool) {
    let mut items = Vec::new();
    for _ in 0..max_pulls {
        match engine.pull_once(fetcher) {
            PullOutcome::Item(item) => items.push(item),
            PullOutcome::NoNews => {}
            PullOutcome::Ended => return (items, true),
        }
    }
    (items, false)
}

#[test]
fn delivers_all_fetched_updates_in_ascending_order() {
    let mut fetcher = ScriptedFetcher::new(vec![
        Ok(vec![upd(1), upd(2), upd(3)]),
        Ok(vec![]),
        Ok(vec![upd(5), upd(7)]),
    ]);
    let mut engine = PollingEngine::new(config());
    let mut ids = Vec::new();
    for _ in 0..8 {
        match engine.pull_once(&mut fetcher) {
            PullOutcome::Item(Ok(u)) => ids.push(u.id),
            PullOutcome::Item(Err(e)) => panic!("unexpected error item: {:?}", e),
            PullOutcome::NoNews => {}
            PullOutcome::Ended => panic!("sequence must not end on its own"),
        }
    }
    // everything fetched is delivered, in strictly ascending order, no
    // duplicates, no gaps relative to what was fetched
    assert_eq!(ids, vec![1, 2, 3, 5, 7]);
}

#[test]
fn cursor_advances_one_past_batch_max_and_only_on_success() {
    let mut fetcher = ScriptedFetcher::new(vec![
        Ok(vec![upd(3), upd(5)]),
        Err(FetchError::Recoverable(429)),
        Ok(vec![upd(6)]),
    ]);
    let mut engine = PollingEngine::new(config());
    let (items, ended) = drive(&mut engine, &mut fetcher, 7);
    assert!(!ended);
    assert_eq!(items.len(), 4);
    assert_eq!(items[0], Ok(upd(3)));
    assert_eq!(items[1], Ok(upd(5)));
    assert_eq!(items[2], Err(ListenerError::Fetch(FetchError::Recoverable(429))));
    assert_eq!(items[3], Ok(upd(6)));
    // first call with the cursor unset; after accepting max id 5 the cursor
    // is exactly 6; the failed fetch leaves it at 6, and the retry uses the
    // identical cursor
    assert_eq!(fetcher.calls[0].cursor, None);
    assert_eq!(fetcher.calls[1].cursor, Some(6));
    assert_eq!(fetcher.calls[2].cursor, Some(6));
    assert_eq!(fetcher.calls[3].cursor, Some(7));
}

#[test]
fn stop_with_pending_buffer_still_yields_buffered_updates() {
    let mut fetcher = ScriptedFetcher::new(vec![Ok(vec![upd(1), upd(2), upd(3)])]);
    let mut engine = PollingEngine::new(config());
    // first pull fetches the batch and hands out its first update
    assert_eq!(engine.pull_once(&mut fetcher), PullOutcome::Item(Ok(upd(1))));
    // stop while k = 2 updates are still buffered
    engine.request_stop();
    assert_eq!(engine.pull_once(&mut fetcher), PullOutcome::Item(Ok(upd(2))));
    assert_eq!(engine.pull_once(&mut fetcher), PullOutcome::Item(Ok(upd(3))));
    assert_eq!(engine.pull_once(&mut fetcher), PullOutcome::Ended);
    // the one fetch before the stop is the only fetch ever made
    assert_eq!(fetcher.calls.len(), 1);
}

#[test]
fn stop_while_idle_ends_without_another_fetch() {
    let mut fetcher = ScriptedFetcher::new(vec![]);
    let mut engine = PollingEngine::new(config());
    engine.request_stop();
    assert_eq!(engine.pull_once(&mut fetcher), PullOutcome::Ended);
    assert!(engine.is_terminal());
    assert_eq!(fetcher.calls.len(), 0);
}

#[test]
fn stopping_twice_has_the_same_effect_as_once() {
    let mut fetcher_once = ScriptedFetcher::new(vec![Ok(vec![upd(1), upd(2)])]);
    let mut engine_once = PollingEngine::new(config());
    assert_eq!(engine_once.pull_once(&mut fetcher_once), PullOutcome::Item(Ok(upd(1))));
    engine_once.request_stop();
    let (items_once, ended_once) = drive(&mut engine_once, &mut fetcher_once, 5);

    let mut fetcher_twice = ScriptedFetcher::new(vec![Ok(vec![upd(1), upd(2)])]);
    let mut engine_twice = PollingEngine::new(config());
    assert_eq!(engine_twice.pull_once(&mut fetcher_twice), PullOutcome::Item(Ok(upd(1))));
    engine_twice.request_stop();
    engine_twice.request_stop();
    let (items_twice, ended_twice) = drive(&mut engine_twice, &mut fetcher_twice, 5);

    assert_eq!(items_once, items_twice);
    assert_eq!(ended_once, ended_twice);
    assert_eq!(fetcher_once.calls, fetcher_twice.calls);
}

#[test]
fn empty_batches_yield_nothing_and_never_end() {
    let mut fetcher = ScriptedFetcher::new(vec![]);
    let mut engine = PollingEngine::new(config());
    for _ in 0..5 {
        assert_eq!(engine.pull_once(&mut fetcher), PullOutcome::NoNews);
    }
    assert_eq!(fetcher.calls.len(), 5);
    // no news never touches the cursor or the backoff state
    assert!(fetcher.calls.iter().all(|c| c.cursor == None));
    assert_eq!(engine.retry_delay_millis(), 0);
    // only a stop request ends the sequence
    engine.request_stop();
    assert_eq!(engine.pull_once(&mut fetcher), PullOutcome::Ended);
}

#[test]
fn three_recoverable_errors_then_success_resets_backoff() {
    let mut fetcher = ScriptedFetcher::new(vec![
        Ok(vec![upd(1)]),
        Err(FetchError::Recoverable(500)),
        Err(FetchError::Recoverable(500)),
        Err(FetchError::Recoverable(500)),
        Ok(vec![upd(4), upd(5)]),
    ]);
    let mut engine = PollingEngine::new(config());
    assert_eq!(engine.pull_once(&mut fetcher), PullOutcome::Item(Ok(upd(1))));

    let mut delays = Vec::new();
    for _ in 0..3 {
        match engine.pull_once(&mut fetcher) {
            PullOutcome::Item(Err(ListenerError::Fetch(FetchError::Recoverable(500)))) => {
                delays.push(engine.next_fetch_delay_millis());
            }
            other => panic!("expected a recoverable error item, got {:?}", other),
        }
    }
    // non-decreasing backoff delay over consecutive failures
    assert_eq!(delays, vec![500, 1000, 1500]);

    assert_eq!(engine.pull_once(&mut fetcher), PullOutcome::Item(Ok(upd(4))));
    // success resets the failure counter, and with it the backoff delay
    assert_eq!(engine.retry_delay_millis(), 0);
    assert_eq!(engine.pull_once(&mut fetcher), PullOutcome::Item(Ok(upd(5))));

    // every retry used the identical cursor the failed fetch used
    assert_eq!(fetcher.calls[1].cursor, Some(2));
    assert_eq!(fetcher.calls[2].cursor, Some(2));
    assert_eq!(fetcher.calls[3].cursor, Some(2));
    assert_eq!(fetcher.calls[4].cursor, Some(2));
}

#[test]
fn backoff_delay_is_bounded() {
    let mut script = Vec::new();
    for _ in 0..20 {
        script.push(Err(FetchError::Recoverable(500)));
    }
    let mut fetcher = ScriptedFetcher::new(script);
    let mut engine = PollingEngine::new(config());
    let mut last: u64 = 0;
    for _ in 0..20 {
        match engine.pull_once(&mut fetcher) {
            PullOutcome::Item(Err(_)) => {
                let d = engine.retry_delay_millis();
                assert!(d >= last, "backoff must never decrease");
                assert!(d <= 8000, "backoff must stay bounded");
                last = d;
            }
            other => panic!("expected an error item, got {:?}", other),
        }
    }
    assert_eq!(last, 8000);
}

#[test]
fn fatal_error_surfaces_once_then_the_sequence_ends() {
    let mut fetcher = ScriptedFetcher::new(vec![Err(FetchError::Fatal(401))]);
    let mut engine = PollingEngine::new(config());
    assert_eq!(
        engine.pull_once(&mut fetcher),
        PullOutcome::Item(Err(ListenerError::Fetch(FetchError::Fatal(401))))
    );
    assert_eq!(engine.pull_once(&mut fetcher), PullOutcome::Ended);
    assert_eq!(engine.pull_once(&mut fetcher), PullOutcome::Ended);
    assert!(engine.is_terminal());
    // the fetcher is never called again after the fatal outcome
    assert_eq!(fetcher.calls.len(), 1);
}

#[test]
fn unsorted_batch_is_surfaced_as_malformed_and_fatal() {
    let mut fetcher = ScriptedFetcher::new(vec![Ok(vec![upd(5), upd(3)])]);
    let mut engine = PollingEngine::new(config());
    assert_eq!(
        engine.pull_once(&mut fetcher),
        PullOutcome::Item(Err(ListenerError::MalformedBatch))
    );
    assert_eq!(engine.pull_once(&mut fetcher), PullOutcome::Ended);
    assert_eq!(fetcher.calls.len(), 1);
}

#[test]
fn batch_overlapping_acknowledged_range_is_malformed() {
    let mut fetcher =
        ScriptedFetcher::new(vec![Ok(vec![upd(1), upd(2)]), Ok(vec![upd(1), upd(2)])]);
    let mut engine = PollingEngine::new(config());
    assert_eq!(engine.pull_once(&mut fetcher), PullOutcome::Item(Ok(upd(1))));
    assert_eq!(engine.pull_once(&mut fetcher), PullOutcome::Item(Ok(upd(2))));
    // the remote repeats ids below the cursor: delivering them again would
    // break order and de-duplication
    assert_eq!(
        engine.pull_once(&mut fetcher),
        PullOutcome::Item(Err(ListenerError::MalformedBatch))
    );
    assert_eq!(engine.pull_once(&mut fetcher), PullOutcome::Ended);
}

#[test]
fn listener_surface_stop_hint_and_timeout() {
    let mut fetcher = ScriptedFetcher::new(vec![]);
    let mut engine = PollingEngine::new(config());

    // the timeout hint reports the configured long-poll timeout
    assert_eq!(UpdateListener::timeout_hint(&engine), Some(10));

    // the advisory filter is passed through to the fetch collaborator
    UpdateListener::hint_allowed_updates(
        &mut engine,
        vec![AllowedUpdate::Message, AllowedUpdate::CallbackQuery],
    );
    assert_eq!(engine.pull_once(&mut fetcher), PullOutcome::NoNews);
    assert_eq!(
        fetcher.allowed_seen[0],
        Some(vec![AllowedUpdate::Message, AllowedUpdate::CallbackQuery])
    );

    // stopping through the listener surface ends the sequence
    UpdateListener::stop(&mut engine);
    assert_eq!(engine.pull_once(&mut fetcher), PullOutcome::Ended);
    assert_eq!(fetcher.calls.len(), 1);
}

#[test]
fn short_polling_passes_zero_timeout() {
    let mut fetcher = ScriptedFetcher::new(vec![]);
    let mut engine = PollingEngine::new(PollingConfig {
        timeout_secs: 0,
        delay_millis: 25,
        allowed: None,
    });
    assert_eq!(engine.pull_once(&mut fetcher), PullOutcome::NoNews);
    assert_eq!(fetcher.calls[0].timeout_secs, 0);
    // with no failures the fetch spacing is the configured inter-call delay
    assert_eq!(engine.next_fetch_delay_millis(), 25);
}
