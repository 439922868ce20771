//! Properties of the pipeline that hold over every state and every sequence
//! of events.
use vstd::prelude::*;
use crate::intent::intent_of;
use crate::nonce::{advances, NonceState};
use crate::pipeline::{next, well_formed, Action, Event, Outcome, Phase, PipelineView, TxHash};

verus! {

/// The view reached by feeding `events` to the machine one after the other.
pub open spec fn run(v: PipelineView, events: Seq<Event>) -> PipelineView
    decreases events.len(),
{
    if events.len() == 0 {
        v
    } else {
        run(next(v, events[0]).0, events.drop_first())
    }
}

/// `t` is `s` itself, or a `Known` state whose nonce may follow `s`.
pub open spec fn same_or_ahead(s: NonceState, t: NonceState) -> bool {
    t == s || (t matches NonceState::Known(n) && advances(s, n))
}

/// The first part of an attempt from an idle pipeline: the trigger, then the
/// network's count answer if the machine asks for one.
pub open spec fn start_attempt(v: PipelineView, count: Option<u64>) -> (PipelineView, Action) {
    if next(v, Event::Trigger).1 is QueryCount {
        next(next(v, Event::Trigger).0, Event::CountQueried(count))
    } else {
        next(v, Event::Trigger)
    }
}

/// One event keeps the machine well formed and its parameters fixed. The
/// nonce register changes only on an attempt that ends confirmed, and then
/// to the confirmed nonce, strictly past the old one; an attempt that ends in
/// any other way leaves it as it was.
pub proof fn lemma_step_keeps_nonce_order(v: PipelineView, e: Event)
    requires
        well_formed(v),
    ensures
        well_formed(next(v, e).0),
        next(v, e).0.params == v.params,
        next(v, e).0.state == v.state || (next(v, e).1 matches Action::Finish(
            Outcome::Confirmed { mined_nonce, .. },
        ) && next(v, e).0.state == NonceState::Known(mined_nonce) && advances(
            v.state,
            mined_nonce,
        )),
        !(next(v, e).1 matches Action::Finish(Outcome::Confirmed { .. })) ==> next(v, e).0.state
            == v.state,
{
}

/// Over any sequence of events the nonce register stays where it was or
/// moves to a `Known` nonce strictly past it: it never goes back, never
/// forgets a nonce, and never repeats one.
pub proof fn lemma_nonce_monotone(v: PipelineView, events: Seq<Event>)
    requires
        well_formed(v),
    ensures
        well_formed(run(v, events)),
        same_or_ahead(v.state, run(v, events).state),
    decreases events.len(),
{
    if events.len() > 0 {
        lemma_step_keeps_nonce_order(v, events[0]);
        lemma_nonce_monotone(next(v, events[0]).0, events.drop_first());
    }
}

/// With a nonce `n` cached and no attempt in flight, the trigger never asks
/// the network for a count; below the largest nonce it sends the transfer
/// with nonce `n + 1` at once.
pub proof fn lemma_cache_short_circuit(v: PipelineView, n: u64)
    requires
        well_formed(v),
        v.phase is Idle,
        v.state == NonceState::Known(n),
    ensures
        !(next(v, Event::Trigger).1 is QueryCount),
        n < u64::MAX ==> next(v, Event::Trigger).1 == Action::Send(
            intent_of(v.params, (n + 1) as u64),
        ),
{
}

/// With nothing known and no attempt in flight, the trigger asks for the
/// count, and a failed query makes the attempt go on with nonce zero.
pub proof fn lemma_cold_start_fallback(v: PipelineView)
    requires
        well_formed(v),
        v.phase is Idle,
        v.state is Unknown,
    ensures
        next(v, Event::Trigger).1 == Action::QueryCount,
        start_attempt(v, None).1 == Action::Send(intent_of(v.params, 0)),
{
}

/// An attempt whose transaction is sent but then not found leaves the
/// pipeline exactly as it was before the attempt, so the next attempt, given
/// the same network answer, sends the same transfer with the same nonce.
pub proof fn lemma_retry_after_not_found(v: PipelineView, count: Option<u64>, h: TxHash)
    requires
        well_formed(v),
        v.phase is Idle,
        start_attempt(v, count).1 is Send,
    ensures
        next(start_attempt(v, count).0, Event::Sent(Ok(h))).1 == Action::Lookup(h),
        next(next(start_attempt(v, count).0, Event::Sent(Ok(h))).0, Event::LookedUp(Ok(None))).1
            == Action::Finish(Outcome::NotFound { tx_hash: h }),
        next(next(start_attempt(v, count).0, Event::Sent(Ok(h))).0, Event::LookedUp(Ok(None))).0
            == v,
        start_attempt(
            next(next(start_attempt(v, count).0, Event::Sent(Ok(h))).0, Event::LookedUp(Ok(None))).0,
            count,
        ) == start_attempt(v, count),
{
}

} // verus!
