//! The in-memory nonce register and the rule that picks the next nonce.
use vstd::prelude::*;

verus! {

/// What this process knows about the account's nonce.
#[derive(Clone, Copy, Debug, PartialEq, Eq, Structural)]
pub enum NonceState {
    /// No transaction of this account has been confirmed since start-up.
    Unknown,
    /// The last confirmed transaction of this account used this nonce.
    Known(u64),
}

/// How the nonce of the next attempt is to be obtained.
#[derive(Clone, Copy, Debug, PartialEq, Eq, Structural)]
pub enum Resolution {
    /// The cache answers: use this nonce, with no network query.
    Cached(u64),
    /// The cache is empty: ask the network for the account's transaction count.
    QueryNetwork,
    /// The last confirmed nonce is the largest one; no next nonce exists.
    Exhausted,
}

/// `n` may follow `s`: any nonce may follow `Unknown`, and only a strictly
/// larger one may follow `Known(m)`.
pub open spec fn advances(s: NonceState, n: u64) -> bool {
    match s {
        NonceState::Unknown => true,
        NonceState::Known(m) => m < n,
    }
}

/// `t` is the same state as `s`, or lies further along than it.
pub open spec fn not_behind(s: NonceState, t: NonceState) -> bool {
    match (s, t) {
        (NonceState::Unknown, _) => true,
        (NonceState::Known(a), NonceState::Known(b)) => a <= b,
        (NonceState::Known(_), NonceState::Unknown) => false,
    }
}

/// The resolution that a state calls for.
pub open spec fn resolution_of(s: NonceState) -> Resolution {
    match s {
        NonceState::Unknown => Resolution::QueryNetwork,
        NonceState::Known(n) => if n < u64::MAX {
            Resolution::Cached((n + 1) as u64)
        } else {
            Resolution::Exhausted
        },
    }
}

/// The nonce taken from the network's answer: the reported transaction
/// count, or zero when the query failed.
pub open spec fn nonce_from_count(count: Option<u64>) -> u64 {
    match count {
        Some(c) => c,
        None => 0,
    }
}

impl NonceState {
    /// Decides where the next attempt's nonce comes from.
    pub fn resolve(&self) -> (r: Resolution)
        ensures
            r == resolution_of(*self),
    {
        match *self {
            NonceState::Unknown => Resolution::QueryNetwork,
            NonceState::Known(n) => if n < u64::MAX {
                Resolution::Cached(n + 1)
            } else {
                Resolution::Exhausted
            },
        }
    }
}

/// Picks the nonce after a network query of the transaction count: the count
/// itself, or zero when the query failed, so that the attempt goes on.
pub fn resolve_from_count(count: Option<u64>) -> (r: u64)
    ensures
        r == nonce_from_count(count),
        count.is_none() ==> r == 0,
{
    match count {
        Some(c) => c,
        None => 0,
    }
}

/// The single in-memory register of the account's nonce. It is read freely
/// and written only through `commit`, which moves it strictly forward.
#[derive(Debug)]
pub struct NonceCache {
    state: NonceState,
}

impl NonceCache {
    /// The state that the register holds.
    pub closed spec fn state(&self) -> NonceState {
        self.state
    }

    /// An empty register, as at process start.
    pub fn new() -> (c: NonceCache)
        ensures
            c.state() == NonceState::Unknown,
    {
        NonceCache { state: NonceState::Unknown }
    }

    /// A register that starts from the given state.
    pub fn with_state(state: NonceState) -> (c: NonceCache)
        ensures
            c.state() == state,
    {
        NonceCache { state }
    }

    /// The state that the register holds.
    pub fn read(&self) -> (s: NonceState)
        ensures
            s == self.state(),
    {
        self.state
    }

    /// Records `n` as the nonce of the last confirmed transaction.
    pub fn commit(&mut self, n: u64)
        requires
            advances(old(self).state(), n),
        ensures
            final(self).state() == NonceState::Known(n),
    {
        self.state = NonceState::Known(n);
    }
}

} // verus!
