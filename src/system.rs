use vstd::prelude::*;
use crate::numeric::{Counter, Identifier};
use crate::storage::StorageMap;

verus! {

/// The types that every module agrees on.
pub trait SystemConfig {
    type AccountId: Identifier;

    type BlockNumber: Counter;

    type Nonce: Counter;
}

/// What the system module holds, as numbers: the step counter and each
/// account's sequence counter.
#[verifier::reject_recursive_types(A)]
pub struct SystemState<A> {
    pub block_number: nat,
    pub nonces: Map<A, nat>,
}

/// `n + 1`, or `n` itself where `n + 1` would pass `limit`.
pub open spec fn saturating_succ(n: nat, limit: nat) -> nat {
    if n + 1 <= limit {
        n + 1
    } else {
        n
    }
}

/// A counter stored in `m` under `k`, zero where there is none.
pub open spec fn count_in<A>(m: Map<A, nat>, k: A) -> nat {
    if m.contains_key(k) {
        m[k]
    } else {
        0
    }
}

/// The state after the step counter advanced once.
pub open spec fn advance_step<A>(s: SystemState<A>, limit: nat) -> SystemState<A> {
    SystemState { block_number: saturating_succ(s.block_number, limit), ..s }
}

/// The state after `who`'s sequence counter advanced once.
pub open spec fn advance_nonce<A>(s: SystemState<A>, who: A, limit: nat) -> SystemState<A> {
    SystemState { nonces: s.nonces.insert(who, saturating_succ(count_in(s.nonces, who), limit)), ..s }
}

/// The system module: the global step counter and a sequence counter per account.
#[derive(Debug)]
pub struct SystemPallet<T: SystemConfig> {
    pub block_number: T::BlockNumber,
    pub nonce: StorageMap<T::AccountId, T::Nonce>,
}

impl<T: SystemConfig> View for SystemPallet<T> {
    type V = SystemState<<T::AccountId as View>::V>;

    open spec fn view(&self) -> Self::V {
        SystemState {
            block_number: self.block_number.value(),
            nonces: Map::new(|k| self.nonce@.contains_key(k), |k| self.nonce@[k].value()),
        }
    }
}

impl<T: SystemConfig> SystemPallet<T> {
    pub fn new() -> (r: Self)
        ensures
            r@.block_number == 0,
            r@.nonces == Map::<<T::AccountId as View>::V, nat>::empty(),
    {
        let r = SystemPallet { block_number: T::BlockNumber::zero(), nonce: StorageMap::new() };
        assert(r@.nonces =~= Map::<<T::AccountId as View>::V, nat>::empty());
        r
    }

    pub fn block_number(&self) -> (r: T::BlockNumber)
        ensures
            r.value() == self@.block_number,
    {
        self.block_number
    }

    /// Advances the step counter by one; at the type's largest value it stays there.
    pub fn inc_block_number(&mut self)
        ensures
            final(self)@ == advance_step(old(self)@, T::BlockNumber::limit()),
    {
        match self.block_number.checked_add(&T::BlockNumber::one()) {
            Some(n) => {
                self.block_number = n;
            },
            None => {},
        }
        assert(self@.nonces =~= old(self)@.nonces);
    }

    /// The sequence counter of `who`, zero where none is stored.
    pub fn nonce_of(&self, who: &T::AccountId) -> (r: T::Nonce)
        ensures
            r.value() == count_in(self@.nonces, who@),
    {
        match self.nonce.get(who) {
            Some(n) => *n,
            None => T::Nonce::zero(),
        }
    }

    /// Advances the sequence counter of `who` by one; at the type's largest
    /// value it stays there.
    pub fn inc_nonce(&mut self, who: &T::AccountId)
        ensures
            final(self)@ == advance_nonce(old(self)@, who@, T::Nonce::limit()),
    {
        let nonce = self.nonce_of(who);
        let next = match nonce.checked_add(&T::Nonce::one()) {
            Some(n) => n,
            None => nonce,
        };
        self.nonce.insert(who.duplicate(), next);
        assert(self@.nonces =~= advance_nonce(old(self)@, who@, T::Nonce::limit()).nonces);
    }
}

} // verus!
