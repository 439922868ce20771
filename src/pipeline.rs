//! One submission attempt as a state machine: resolve the nonce, build and
//! send the transfer, look it up once, then commit the nonce or leave it.
//!
//! The network work is done by whoever drives the machine: `step` takes what
//! the network answered as an `Event` and returns the next `Action`.
use vstd::prelude::*;
use crate::intent::{intent_of, TransferIntent, TransferParams};
use crate::nonce::{
    advances, nonce_from_count, resolution_of, resolve_from_count, NonceCache, NonceState,
    Resolution,
};

verus! {

/// A 32-byte transaction hash.
pub type TxHash = [u8; 32];

/// Where the current attempt stands.
#[derive(Clone, Copy, Debug, PartialEq, Eq)]
pub enum Phase {
    /// No attempt is in flight.
    Idle,
    /// Waiting for the network's transaction count of the account.
    AwaitingCount,
    /// Waiting for the transfer with this nonce to be built, signed and sent.
    AwaitingSend { nonce: u64 },
    /// The transfer was sent; waiting for the lookup of its hash.
    AwaitingLookup { nonce: u64, tx_hash: TxHash },
}

/// The part of an attempt that failed at the transport level.
#[derive(Clone, Copy, Debug, PartialEq, Eq, Structural)]
pub enum FailureStage {
    /// Building the call, estimating gas, signing or broadcasting.
    Submission,
    /// Looking the sent transaction up by its hash.
    Lookup,
}

/// How an attempt ended.
#[derive(Debug, PartialEq, Eq)]
pub enum Outcome {
    /// The transaction was found, mined with the nonce that was requested,
    /// and that nonce is now the cached one.
    Confirmed { mined_nonce: u64, tx_hash: TxHash },
    /// A network call failed; the cache is untouched.
    RpcFailure { stage: FailureStage, reason: String },
    /// The transaction was sent but the node reported no such transaction;
    /// whether its nonce was consumed is unknown, and the cache is untouched.
    NotFound { tx_hash: TxHash },
    /// The node reported the transaction with a nonce other than the one
    /// requested; the cache is untouched.
    NonceMismatch { requested: u64, mined: u64, tx_hash: TxHash },
    /// The cached nonce is the largest one, so no attempt can be made.
    NonceExhausted,
}

/// What the network answered, or that the scheduler fired.
#[derive(Debug, PartialEq, Eq)]
pub enum Event {
    /// The periodic trigger: start an attempt if none is in flight.
    Trigger,
    /// The account's transaction count, or `None` when the query failed.
    CountQueried(Option<u64>),
    /// The hash of the sent transaction, or why building, signing or sending failed.
    Sent(Result<TxHash, String>),
    /// The nonce of the transaction found by hash, `None` when the node has no
    /// such transaction, or why the lookup failed.
    LookedUp(Result<Option<u64>, String>),
}

/// What the driver is to do next.
#[derive(Debug, PartialEq, Eq)]
pub enum Action {
    /// Query the account's transaction count and report it as `CountQueried`.
    QueryCount,
    /// Build, sign and send this transfer and report it as `Sent`.
    Send(TransferIntent),
    /// Look this transaction up once and report it as `LookedUp`.
    Lookup(TxHash),
    /// The attempt is over with this outcome.
    Finish(Outcome),
    /// Nothing to do: an attempt is already in flight, or the event does not
    /// belong to the current phase.
    Wait,
}

/// The abstract state of a pipeline.
pub struct PipelineView {
    pub state: NonceState,
    pub params: TransferParams,
    pub phase: Phase,
}

/// The nonce held by a phase that has one.
pub open spec fn phase_nonce(p: Phase) -> Option<u64> {
    match p {
        Phase::AwaitingSend { nonce } => Some(nonce),
        Phase::AwaitingLookup { nonce, .. } => Some(nonce),
        _ => None,
    }
}

/// The network is asked for a count only while the cache is empty, and the
/// nonce of an attempt in flight may always follow the cached one.
pub open spec fn well_formed(v: PipelineView) -> bool {
    &&& (v.phase is AwaitingCount ==> v.state is Unknown)
    &&& (phase_nonce(v.phase) matches Some(n) ==> advances(v.state, n))
}

/// `v` with its phase replaced.
pub open spec fn with_phase(v: PipelineView, phase: Phase) -> PipelineView {
    PipelineView { state: v.state, params: v.params, phase }
}

/// The attempt ends: back to `Idle`, the cache as it was.
pub open spec fn finish(v: PipelineView, o: Outcome) -> (PipelineView, Action) {
    (with_phase(v, Phase::Idle), Action::Finish(o))
}

/// Heads for sending the transfer with nonce `n`.
pub open spec fn send_with(v: PipelineView, n: u64) -> (PipelineView, Action) {
    (with_phase(v, Phase::AwaitingSend { nonce: n }), Action::Send(intent_of(v.params, n)))
}

/// The transition of the machine on one event.
pub open spec fn next(v: PipelineView, e: Event) -> (PipelineView, Action) {
    match (v.phase, e) {
        (Phase::Idle, Event::Trigger) => match resolution_of(v.state) {
            Resolution::Cached(n) => send_with(v, n),
            Resolution::QueryNetwork => (with_phase(v, Phase::AwaitingCount), Action::QueryCount),
            Resolution::Exhausted => finish(v, Outcome::NonceExhausted),
        },
        (Phase::AwaitingCount, Event::CountQueried(c)) => send_with(v, nonce_from_count(c)),
        (Phase::AwaitingSend { nonce }, Event::Sent(r)) => match r {
            Ok(h) => (
                with_phase(v, Phase::AwaitingLookup { nonce, tx_hash: h }),
                Action::Lookup(h),
            ),
            Err(reason) => finish(
                v,
                Outcome::RpcFailure { stage: FailureStage::Submission, reason },
            ),
        },
        (Phase::AwaitingLookup { nonce, tx_hash }, Event::LookedUp(r)) => match r {
            Err(reason) => finish(v, Outcome::RpcFailure { stage: FailureStage::Lookup, reason }),
            Ok(None) => finish(v, Outcome::NotFound { tx_hash }),
            Ok(Some(m)) => if m == nonce {
                (
                    PipelineView {
                        state: NonceState::Known(m),
                        params: v.params,
                        phase: Phase::Idle,
                    },
                    Action::Finish(Outcome::Confirmed { mined_nonce: m, tx_hash }),
                )
            } else {
                finish(v, Outcome::NonceMismatch { requested: nonce, mined: m, tx_hash })
            },
        },
        _ => (v, Action::Wait),
    }
}

/// The submission pipeline: the nonce register, the fixed transfer
/// parameters, and the phase of the attempt in flight, if any.
#[derive(Debug)]
pub struct Pipeline {
    cache: NonceCache,
    params: TransferParams,
    phase: Phase,
}

impl View for Pipeline {
    type V = PipelineView;

    closed spec fn view(&self) -> PipelineView {
        PipelineView { state: self.cache.state(), params: self.params, phase: self.phase }
    }
}

impl Pipeline {
    /// A pipeline at process start: nothing known of the nonce, nothing in flight.
    pub fn new(params: TransferParams) -> (p: Pipeline)
        ensures
            p@ == (PipelineView { state: NonceState::Unknown, params, phase: Phase::Idle }),
            well_formed(p@),
    {
        Pipeline { cache: NonceCache::new(), params, phase: Phase::Idle }
    }

    /// An idle pipeline whose register starts from `state`.
    pub fn with_nonce_state(params: TransferParams, state: NonceState) -> (p: Pipeline)
        ensures
            p@ == (PipelineView { state, params, phase: Phase::Idle }),
            well_formed(p@),
    {
        Pipeline { cache: NonceCache::with_state(state), params, phase: Phase::Idle }
    }

    /// The nonce register's state.
    pub fn nonce_state(&self) -> (s: NonceState)
        ensures
            s == self@.state,
    {
        self.cache.read()
    }

    /// The phase of the attempt in flight.
    pub fn phase(&self) -> (p: Phase)
        ensures
            p == self@.phase,
    {
        self.phase
    }

    /// The fixed transfer parameters.
    pub fn params(&self) -> (p: TransferParams)
        ensures
            p == self@.params,
    {
        self.params
    }

    /// Ends the attempt with `o`, leaving the register as it is.
    fn finish(&mut self, o: Outcome) -> (a: Action)
        ensures
            (final(self)@, a) == finish(old(self)@, o),
    {
        self.phase = Phase::Idle;
        Action::Finish(o)
    }

    /// Heads for sending the transfer with nonce `n`.
    fn send_with(&mut self, n: u64) -> (a: Action)
        ensures
            (final(self)@, a) == send_with(old(self)@, n),
    {
        self.phase = Phase::AwaitingSend { nonce: n };
        Action::Send(self.params.build(n))
    }

    /// Takes one event and returns what to do next. The register changes only
    /// when a lookup confirms the transaction with the nonce that was
    /// requested, and then to that nonce.
    pub fn step(&mut self, e: Event) -> (a: Action)
        requires
            well_formed(old(self)@),
        ensures
            (final(self)@, a) == next(old(self)@, e),
            well_formed(final(self)@),
    {
        match (self.phase, e) {
            (Phase::Idle, Event::Trigger) => match self.cache.read().resolve() {
                Resolution::Cached(n) => self.send_with(n),
                Resolution::QueryNetwork => {
                    self.phase = Phase::AwaitingCount;
                    Action::QueryCount
                },
                Resolution::Exhausted => self.finish(Outcome::NonceExhausted),
            },
            (Phase::AwaitingCount, Event::CountQueried(c)) => self.send_with(resolve_from_count(c)),
            (Phase::AwaitingSend { nonce }, Event::Sent(r)) => match r {
                Ok(h) => {
                    self.phase = Phase::AwaitingLookup { nonce, tx_hash: h };
                    Action::Lookup(h)
                },
                Err(reason) => self.finish(
                    Outcome::RpcFailure { stage: FailureStage::Submission, reason },
                ),
            },
            (Phase::AwaitingLookup { nonce, tx_hash }, Event::LookedUp(r)) => match r {
                Err(reason) => self.finish(
                    Outcome::RpcFailure { stage: FailureStage::Lookup, reason },
                ),
                Ok(None) => self.finish(Outcome::NotFound { tx_hash }),
                Ok(Some(m)) => if m == nonce {
                    self.cache.commit(m);
                    self.finish(Outcome::Confirmed { mined_nonce: m, tx_hash })
                } else {
                    self.finish(Outcome::NonceMismatch { requested: nonce, mined: m, tx_hash })
                },
            },
            (_, _) => Action::Wait,
        }
    }
}

} // verus!
