use vstd::prelude::*;
use crate::numeric::{Counter, Identifier};
use crate::storage::StorageMap;
use crate::support::{Dispatch, DispatchError, DispatchResult};
use crate::system::{count_in, SystemConfig};

verus! {

/// The balances module's own type on top of the shared ones.
pub trait BalancesConfig: SystemConfig {
    type Balance: Counter;
}

/// What `transfer` does to the balances `m`, for balances up to `limit`.
///
/// Both checks come before any write: the sender must hold `amount`, and
/// the receiver's balance plus `amount` must fit. A transfer from an
/// account to itself moves nothing.
pub open spec fn transfer_spec<A>(m: Map<A, nat>, from: A, to: A, amount: nat, limit: nat) -> (
    Map<A, nat>,
    DispatchResult,
) {
    let from_balance = count_in(m, from);
    let to_balance = count_in(m, to);
    if amount > from_balance {
        (m, Err(DispatchError::InsufficientFunds))
    } else if to_balance + amount > limit {
        (m, Err(DispatchError::BalanceOverflow))
    } else if from == to {
        (m, Ok(()))
    } else {
        (m.insert(from, (from_balance - amount) as nat).insert(to, to_balance + amount), Ok(()))
    }
}

/// The sum of the balances of two accounts.
pub open spec fn pair_total<A>(m: Map<A, nat>, a: A, b: A) -> nat {
    count_in(m, a) + count_in(m, b)
}

/// A successful transfer between two distinct accounts takes exactly
/// `amount` from the sender, gives exactly `amount` to the receiver, keeps
/// their sum, and leaves every other account alone.
pub proof fn lemma_transfer_conserves<A>(m: Map<A, nat>, from: A, to: A, amount: nat, limit: nat)
    requires
        from != to,
        amount <= count_in(m, from),
        transfer_spec(m, from, to, amount, limit).1 is Ok,
    ensures
        ({
            let after = transfer_spec(m, from, to, amount, limit).0;
            &&& count_in(after, from) == count_in(m, from) - amount
            &&& count_in(after, to) == count_in(m, to) + amount
            &&& pair_total(after, from, to) == pair_total(m, from, to)
            &&& forall|k: A| k != from && k != to ==> count_in(after, k) == count_in(m, k)
        }),
{
}

/// A transfer of more than the sender holds fails with `InsufficientFunds`
/// and changes no balance.
pub proof fn lemma_transfer_insufficient<A>(m: Map<A, nat>, from: A, to: A, amount: nat, limit: nat)
    requires
        amount > count_in(m, from),
    ensures
        transfer_spec(m, from, to, amount, limit) == (m, Err::<(), DispatchError>(
            DispatchError::InsufficientFunds,
        )),
{
}

/// The balances module: a balance per account, zero where none is stored.
#[derive(Debug)]
pub struct BalancesPallet<T: BalancesConfig> {
    pub balances: StorageMap<T::AccountId, T::Balance>,
}

/// The calls of the balances module.
pub enum Call<T: BalancesConfig> {
    Transfer { to: T::AccountId, amount: T::Balance },
}

impl<T: BalancesConfig> View for BalancesPallet<T> {
    type V = Map<<T::AccountId as View>::V, nat>;

    open spec fn view(&self) -> Self::V {
        Map::new(|k| self.balances@.contains_key(k), |k| self.balances@[k].value())
    }
}

impl<T: BalancesConfig> BalancesPallet<T> {
    pub fn new() -> (r: Self)
        ensures
            r@ == Map::<<T::AccountId as View>::V, nat>::empty(),
    {
        let r = BalancesPallet { balances: StorageMap::new() };
        assert(r@ =~= Map::<<T::AccountId as View>::V, nat>::empty());
        r
    }

    /// Overwrites the balance of `who`; meant for setting up state, not a call.
    pub fn set_balance(&mut self, who: &T::AccountId, amount: T::Balance)
        ensures
            final(self)@ == old(self)@.insert(who@, amount.value()),
    {
        self.balances.insert(who.duplicate(), amount);
        assert(self@ =~= old(self)@.insert(who@, amount.value()));
    }

    /// The balance of `who`, zero for an account that was never written.
    pub fn balance(&self, who: &T::AccountId) -> (r: T::Balance)
        ensures
            r.value() == count_in(self@, who@),
            !self@.contains_key(who@) ==> r.value() == 0,
    {
        match self.balances.get(who) {
            Some(b) => *b,
            None => T::Balance::zero(),
        }
    }

    /// Moves `amount` from `from` to `to`, all or nothing.
    pub fn transfer(&mut self, from: &T::AccountId, to: &T::AccountId, amount: T::Balance) -> (r:
        DispatchResult)
        ensures
            (final(self)@, r) == transfer_spec(
                old(self)@,
                from@,
                to@,
                amount.value(),
                T::Balance::limit(),
            ),
    {
        let caller_balance = self.balance(from);
        let to_balance = self.balance(to);
        let new_from_balance = match caller_balance.checked_sub(&amount) {
            Some(b) => b,
            None => {
                return Err(DispatchError::InsufficientFunds);
            },
        };
        let new_to_balance = match to_balance.checked_add(&amount) {
            Some(b) => b,
            None => {
                return Err(DispatchError::BalanceOverflow);
            },
        };
        if from.same(to) {
            return Ok(());
        }
        self.set_balance(from, new_from_balance);
        self.set_balance(to, new_to_balance);
        Ok(())
    }
}

impl<T: BalancesConfig> Dispatch for BalancesPallet<T> {
    type Caller = T::AccountId;

    type Call = Call<T>;

    open spec fn transition(
        state: Map<<T::AccountId as View>::V, nat>,
        caller: <T::AccountId as View>::V,
        call: Call<T>,
    ) -> (Map<<T::AccountId as View>::V, nat>, DispatchResult) {
        match call {
            Call::Transfer { to, amount } => transfer_spec(
                state,
                caller,
                to@,
                amount.value(),
                T::Balance::limit(),
            ),
        }
    }

    fn dispatch(&mut self, caller: T::AccountId, call: Call<T>) -> (r: DispatchResult) {
        match call {
            Call::Transfer { to, amount } => self.transfer(&caller, &to, amount),
        }
    }
}

} // verus!
