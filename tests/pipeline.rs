use usdc_transfer::intent::{TransferIntent, TransferParams};
use usdc_transfer::nonce::{resolve_from_count, NonceCache, NonceState, Resolution};
use usdc_transfer::pipeline::{Action, Event, FailureStage, Outcome, Phase, Pipeline, TxHash};

fn params() -> TransferParams {
    TransferParams {
        token: [0x1c; 20],
        from: [0xe0; 20],
        to: [0x55; 20],
        amount: 10000,
        chain_id: 11155111,
    }
}

fn intent(nonce: u64) -> TransferIntent {
    TransferIntent {
        token: [0x1c; 20],
        from: [0xe0; 20],
        to: [0x55; 20],
        amount: 10000,
        chain_id: 11155111,
        nonce,
    }
}

const HASH: TxHash = [0xab; 32];

/// Runs the trigger and, when asked, answers the count query with `count`.
/// Returns the action that follows.
fn start(p: &mut Pipeline, count: Option<u64>) -> Action {
    let a = p.step(Event::Trigger);
    if a == Action::QueryCount {
        p.step(Event::CountQueried(count))
    } else {
        a
    }
}

#[test]
fn cold_start_uses_network_count_and_commits_mined_nonce() {
    let mut p = Pipeline::new(params());
    assert_eq!(p.step(Event::Trigger), Action::QueryCount);
    assert_eq!(p.phase(), Phase::AwaitingCount);
    assert_eq!(p.step(Event::CountQueried(Some(5))), Action::Send(intent(5)));
    assert_eq!(p.step(Event::Sent(Ok(HASH))), Action::Lookup(HASH));
    assert_eq!(
        p.step(Event::LookedUp(Ok(Some(5)))),
        Action::Finish(Outcome::Confirmed { mined_nonce: 5, tx_hash: HASH })
    );
    assert_eq!(p.nonce_state(), NonceState::Known(5));
    assert_eq!(p.phase(), Phase::Idle);
}

#[test]
fn cached_nonce_is_used_and_advanced() {
    let mut p = Pipeline::with_nonce_state(params(), NonceState::Known(5));
    assert_eq!(p.step(Event::Trigger), Action::Send(intent(6)));
    assert_eq!(p.step(Event::Sent(Ok(HASH))), Action::Lookup(HASH));
    assert_eq!(
        p.step(Event::LookedUp(Ok(Some(6)))),
        Action::Finish(Outcome::Confirmed { mined_nonce: 6, tx_hash: HASH })
    );
    assert_eq!(p.nonce_state(), NonceState::Known(6));
}

#[test]
fn broadcast_failure_keeps_nonce_and_retries_it() {
    let mut p = Pipeline::with_nonce_state(params(), NonceState::Known(6));
    assert_eq!(p.step(Event::Trigger), Action::Send(intent(7)));
    assert_eq!(
        p.step(Event::Sent(Err("connection reset".to_string()))),
        Action::Finish(Outcome::RpcFailure {
            stage: FailureStage::Submission,
            reason: "connection reset".to_string(),
        })
    );
    assert_eq!(p.nonce_state(), NonceState::Known(6));
    assert_eq!(p.step(Event::Trigger), Action::Send(intent(7)));
}

#[test]
fn missing_transaction_is_not_found_and_keeps_nonce() {
    let mut p = Pipeline::with_nonce_state(params(), NonceState::Known(6));
    assert_eq!(p.step(Event::Trigger), Action::Send(intent(7)));
    assert_eq!(p.step(Event::Sent(Ok(HASH))), Action::Lookup(HASH));
    let a = p.step(Event::LookedUp(Ok(None)));
    assert_eq!(a, Action::Finish(Outcome::NotFound { tx_hash: HASH }));
    assert_eq!(p.nonce_state(), NonceState::Known(6));
    let broadcast_failure = Action::Finish(Outcome::RpcFailure {
        stage: FailureStage::Submission,
        reason: "Could not get transaction.".to_string(),
    });
    assert_ne!(a, broadcast_failure);
    assert_ne!(format!("{:?}", a), format!("{:?}", broadcast_failure));
}

#[test]
fn known_state_never_queries_network() {
    for n in [0u64, 1, 41, u64::MAX - 1] {
        let mut p = Pipeline::with_nonce_state(params(), NonceState::Known(n));
        assert_eq!(p.step(Event::Trigger), Action::Send(intent(n + 1)));
    }
    let mut p = Pipeline::with_nonce_state(params(), NonceState::Known(u64::MAX));
    assert_ne!(p.step(Event::Trigger), Action::QueryCount);
}

#[test]
fn failed_count_query_falls_back_to_zero() {
    let mut p = Pipeline::new(params());
    assert_eq!(p.step(Event::Trigger), Action::QueryCount);
    assert_eq!(p.step(Event::CountQueried(None)), Action::Send(intent(0)));
    assert_eq!(resolve_from_count(None), 0);
    assert_eq!(resolve_from_count(Some(9)), 9);
}

#[test]
fn not_found_retry_resolves_same_nonce() {
    for (state, count) in [(NonceState::Known(3), None), (NonceState::Unknown, Some(12))] {
        let mut p = Pipeline::with_nonce_state(params(), state);
        let first = start(&mut p, count);
        assert_eq!(p.step(Event::Sent(Ok(HASH))), Action::Lookup(HASH));
        assert_eq!(
            p.step(Event::LookedUp(Ok(None))),
            Action::Finish(Outcome::NotFound { tx_hash: HASH })
        );
        assert_eq!(p.nonce_state(), state);
        assert_eq!(start(&mut p, count), first);
    }
}

#[test]
fn nonce_only_increases_over_attempts() {
    let mut p = Pipeline::new(params());
    let mut seen: Vec<u64> = Vec::new();
    let lookups = [Ok(Some(2u64)), Ok(None), Err("timeout".to_string()), Ok(Some(3)), Ok(Some(9))];
    for lookup in lookups {
        let before = p.nonce_state();
        match start(&mut p, Some(2)) {
            Action::Send(i) => {
                assert_eq!(p.step(Event::Sent(Ok(HASH))), Action::Lookup(HASH));
                let a = p.step(Event::LookedUp(lookup));
                match a {
                    Action::Finish(Outcome::Confirmed { mined_nonce, .. }) => {
                        assert_eq!(mined_nonce, i.nonce);
                        seen.push(mined_nonce);
                    }
                    _ => assert_eq!(p.nonce_state(), before),
                }
            }
            other => panic!("unexpected action {:?}", other),
        }
    }
    assert_eq!(seen, vec![2, 3]);
    assert_eq!(p.nonce_state(), NonceState::Known(3));
}

#[test]
fn mined_nonce_mismatch_is_surfaced() {
    let mut p = Pipeline::with_nonce_state(params(), NonceState::Known(6));
    assert_eq!(p.step(Event::Trigger), Action::Send(intent(7)));
    p.step(Event::Sent(Ok(HASH)));
    assert_eq!(
        p.step(Event::LookedUp(Ok(Some(9)))),
        Action::Finish(Outcome::NonceMismatch { requested: 7, mined: 9, tx_hash: HASH })
    );
    assert_eq!(p.nonce_state(), NonceState::Known(6));
}

#[test]
fn lookup_failure_keeps_nonce() {
    let mut p = Pipeline::with_nonce_state(params(), NonceState::Known(1));
    p.step(Event::Trigger);
    p.step(Event::Sent(Ok(HASH)));
    assert_eq!(
        p.step(Event::LookedUp(Err("bad gateway".to_string()))),
        Action::Finish(Outcome::RpcFailure {
            stage: FailureStage::Lookup,
            reason: "bad gateway".to_string(),
        })
    );
    assert_eq!(p.nonce_state(), NonceState::Known(1));
    assert_eq!(p.phase(), Phase::Idle);
}

#[test]
fn largest_nonce_is_exhausted() {
    let mut p = Pipeline::with_nonce_state(params(), NonceState::Known(u64::MAX));
    assert_eq!(p.step(Event::Trigger), Action::Finish(Outcome::NonceExhausted));
    assert_eq!(p.nonce_state(), NonceState::Known(u64::MAX));
    assert_eq!(p.phase(), Phase::Idle);
    assert_eq!(NonceState::Known(u64::MAX).resolve(), Resolution::Exhausted);
}

#[test]
fn trigger_during_attempt_waits() {
    let mut p = Pipeline::with_nonce_state(params(), NonceState::Known(4));
    assert_eq!(p.step(Event::Trigger), Action::Send(intent(5)));
    assert_eq!(p.step(Event::Trigger), Action::Wait);
    assert_eq!(p.phase(), Phase::AwaitingSend { nonce: 5 });
    p.step(Event::Sent(Ok(HASH)));
    assert_eq!(p.step(Event::Trigger), Action::Wait);
    assert_eq!(p.phase(), Phase::AwaitingLookup { nonce: 5, tx_hash: HASH });
}

#[test]
fn out_of_phase_events_are_ignored() {
    let mut p = Pipeline::with_nonce_state(params(), NonceState::Known(4));
    assert_eq!(p.step(Event::CountQueried(Some(1))), Action::Wait);
    assert_eq!(p.step(Event::Sent(Ok(HASH))), Action::Wait);
    assert_eq!(p.step(Event::LookedUp(Ok(Some(5)))), Action::Wait);
    assert_eq!(p.nonce_state(), NonceState::Known(4));
    assert_eq!(p.phase(), Phase::Idle);
    assert_eq!(p.params(), params());
}

#[test]
fn resolution_follows_state() {
    assert_eq!(NonceState::Unknown.resolve(), Resolution::QueryNetwork);
    assert_eq!(NonceState::Known(5).resolve(), Resolution::Cached(6));
}

#[test]
fn cache_commit_and_read() {
    let mut c = NonceCache::new();
    assert_eq!(c.read(), NonceState::Unknown);
    c.commit(5);
    assert_eq!(c.read(), NonceState::Known(5));
    c.commit(6);
    assert_eq!(NonceCache::with_state(NonceState::Known(2)).read(), NonceState::Known(2));
    assert_eq!(c.read(), NonceState::Known(6));
}

#[test]
fn build_attaches_nonce_and_chain() {
    let i = params().build(42);
    assert_eq!(i, intent(42));
    assert_eq!(i.chain_id, 11155111);
    assert_eq!(i.amount, 10000);
}
