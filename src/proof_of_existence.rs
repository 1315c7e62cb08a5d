use vstd::prelude::*;
use crate::numeric::Identifier;
use crate::storage::StorageMap;
use crate::support::{Dispatch, DispatchError, DispatchResult};
use crate::system::SystemConfig;

verus! {

/// The claims module's own type on top of the shared ones.
pub trait Config: SystemConfig {
    /// What can be claimed: the content itself, or better a digest of it.
    type Content: Identifier;
}

/// What `create_claim` does to the claims `m`: the caller owns content that
/// nobody owned.
pub open spec fn create_claim_spec<C, A>(m: Map<C, A>, caller: A, claim: C) -> (
    Map<C, A>,
    DispatchResult,
) {
    if m.contains_key(claim) {
        (m, Err(DispatchError::ClaimAlreadyExists))
    } else {
        (m.insert(claim, caller), Ok(()))
    }
}

/// What `revoke_claim` does to the claims `m`: only the owner can give a
/// claim up, after which the content is free again.
pub open spec fn revoke_claim_spec<C, A>(m: Map<C, A>, caller: A, claim: C) -> (
    Map<C, A>,
    DispatchResult,
) {
    if !m.contains_key(claim) {
        (m, Err(DispatchError::ClaimNotFound))
    } else if m[claim] != caller {
        (m, Err(DispatchError::NotClaimOwner))
    } else {
        (m.remove(claim), Ok(()))
    }
}

/// Once one account has claimed some content, a claim of it by any account
/// fails with `ClaimAlreadyExists` and the first owner keeps it.
pub proof fn lemma_claim_unique<C, A>(m: Map<C, A>, first: A, second: A, claim: C)
    requires
        create_claim_spec(m, first, claim).1 is Ok,
    ensures
        ({
            let claimed = create_claim_spec(m, first, claim).0;
            &&& create_claim_spec(claimed, second, claim) == (claimed, Err::<(), DispatchError>(
                DispatchError::ClaimAlreadyExists,
            ))
            &&& claimed.contains_key(claim)
            &&& claimed[claim] == first
        }),
{
}

/// Only the owner of a claim can revoke it: anyone else gets
/// `NotClaimOwner` and nothing changes; the owner succeeds and the content
/// is unclaimed afterwards.
pub proof fn lemma_revoke_by_owner_only<C, A>(m: Map<C, A>, owner: A, other: A, claim: C)
    requires
        m.contains_key(claim),
        m[claim] == owner,
        other != owner,
    ensures
        revoke_claim_spec(m, other, claim) == (m, Err::<(), DispatchError>(
            DispatchError::NotClaimOwner,
        )),
        revoke_claim_spec(m, owner, claim).1 is Ok,
        !revoke_claim_spec(m, owner, claim).0.contains_key(claim),
{
}

/// The proof-of-existence module: each piece of content has at most one owner.
#[derive(Debug)]
pub struct Pallet<T: Config> {
    pub claims: StorageMap<T::Content, T::AccountId>,
}

/// The calls of the proof-of-existence module.
pub enum Call<T: Config> {
    CreateClaim { claim: T::Content },
    RevokeClaim { claim: T::Content },
}

impl<T: Config> View for Pallet<T> {
    type V = Map<<T::Content as View>::V, <T::AccountId as View>::V>;

    open spec fn view(&self) -> Self::V {
        Map::new(|c| self.claims@.contains_key(c), |c| self.claims@[c]@)
    }
}

impl<T: Config> Pallet<T> {
    pub fn new() -> (r: Self)
        ensures
            r@ == Map::<<T::Content as View>::V, <T::AccountId as View>::V>::empty(),
    {
        let r = Pallet { claims: StorageMap::new() };
        assert(r@ =~= Map::<<T::Content as View>::V, <T::AccountId as View>::V>::empty());
        r
    }

    /// The owner of `claim`, if anyone owns it.
    pub fn get_claim(&self, claim: &T::Content) -> (r: Option<&T::AccountId>)
        ensures
            match r {
                Some(owner) => self@.contains_key(claim@) && owner@ == self@[claim@],
                None => !self@.contains_key(claim@),
            },
    {
        self.claims.get(claim)
    }

    pub fn create_claim(&mut self, caller: T::AccountId, claim: T::Content) -> (r: DispatchResult)
        ensures
            (final(self)@, r) == create_claim_spec(old(self)@, caller@, claim@),
    {
        if self.claims.contains_key(&claim) {
            return Err(DispatchError::ClaimAlreadyExists);
        }
        let ghost c = claim@;
        let ghost a = caller@;
        self.claims.insert(claim, caller);
        assert(self@ =~= old(self)@.insert(c, a));
        Ok(())
    }

    pub fn revoke_claim(&mut self, caller: T::AccountId, claim: T::Content) -> (r: DispatchResult)
        ensures
            (final(self)@, r) == revoke_claim_spec(old(self)@, caller@, claim@),
    {
        match self.get_claim(&claim) {
            None => {
                return Err(DispatchError::ClaimNotFound);
            },
            Some(owner) => {
                if !owner.same(&caller) {
                    return Err(DispatchError::NotClaimOwner);
                }
            },
        }
        self.claims.remove(&claim);
        assert(self@ =~= old(self)@.remove(claim@));
        Ok(())
    }
}

impl<T: Config> Dispatch for Pallet<T> {
    type Caller = T::AccountId;

    type Call = Call<T>;

    open spec fn transition(
        state: Map<<T::Content as View>::V, <T::AccountId as View>::V>,
        caller: <T::AccountId as View>::V,
        call: Call<T>,
    ) -> (Map<<T::Content as View>::V, <T::AccountId as View>::V>, DispatchResult) {
        match call {
            Call::CreateClaim { claim } => create_claim_spec(state, caller, claim@),
            Call::RevokeClaim { claim } => revoke_claim_spec(state, caller, claim@),
        }
    }

    fn dispatch(&mut self, caller: T::AccountId, call: Call<T>) -> (r: DispatchResult) {
        match call {
            Call::CreateClaim { claim } => self.create_claim(caller, claim),
            Call::RevokeClaim { claim } => self.revoke_claim(caller, claim),
        }
    }
}

} // verus!
