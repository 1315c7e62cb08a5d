use vstd::prelude::*;
use crate::balances::{self, BalancesConfig, BalancesPallet};
use crate::numeric::{Counter, Identifier};
use crate::proof_of_existence;
use crate::support::{Dispatch, DispatchError, DispatchResult};
use crate::system::{advance_nonce, count_in, advance_step, SystemConfig, SystemPallet, SystemState};

verus! {

pub type AccountId = String;

pub type Balance = u128;

pub type Nonce = u32;

pub type BlockNumber = u32;

pub type Content = String;

pub type Extrinsic = crate::support::Extrinsic<AccountId, RuntimeCall>;

pub type Header = crate::support::Header<BlockNumber>;

pub type Block = crate::support::Block<Header, Extrinsic>;

/// The concrete types that the runtime's modules are built on.
#[derive(Debug)]
pub struct RuntimeConfig;

/// The runtime: one instance of each module, owned here and nowhere else.
#[derive(Debug)]
pub struct Runtime {
    pub system: SystemPallet<RuntimeConfig>,
    pub balances: BalancesPallet<RuntimeConfig>,
    pub proof_of_existence: proof_of_existence::Pallet<RuntimeConfig>,
}

impl SystemConfig for RuntimeConfig {
    type AccountId = AccountId;

    type BlockNumber = BlockNumber;

    type Nonce = Nonce;
}

impl BalancesConfig for RuntimeConfig {
    type Balance = Balance;
}

impl proof_of_existence::Config for RuntimeConfig {
    type Content = Content;
}

/// Every call of every module of the runtime.
pub enum RuntimeCall {
    Balances(balances::Call<RuntimeConfig>),
    ProofOfExistence(proof_of_existence::Call<RuntimeConfig>),
}

/// The runtime's state, module by module.
pub struct RuntimeState {
    pub system: SystemState<Seq<char>>,
    pub balances: Map<Seq<char>, nat>,
    pub claims: Map<Seq<char>, Seq<char>>,
}

/// A failed extrinsic of an applied block: its position, its caller and why.
#[derive(Debug)]
pub struct ExtrinsicFailure {
    pub index: usize,
    pub caller: AccountId,
    pub error: DispatchError,
}

/// A failure as numbers and views: position, caller, error.
pub open spec fn failure_view(f: ExtrinsicFailure) -> (nat, Seq<char>, DispatchError) {
    (f.index as nat, f.caller@, f.error)
}

impl View for Runtime {
    type V = RuntimeState;

    open spec fn view(&self) -> RuntimeState {
        RuntimeState {
            system: self.system@,
            balances: self.balances@,
            claims: self.proof_of_existence@,
        }
    }
}

/// One extrinsic: the caller's sequence counter advances, then the call runs.
pub open spec fn apply_extrinsic(s: RuntimeState, e: Extrinsic) -> (RuntimeState, DispatchResult) {
    let counted = RuntimeState {
        system: advance_nonce(s.system, e.caller@, Nonce::limit()),
        ..s
    };
    Runtime::transition(counted, e.caller@, e.call)
}

/// The extrinsics `exts` applied in order, none of them stopping the rest,
/// with the position, caller and error of each one that failed.
pub open spec fn apply_extrinsics(s: RuntimeState, exts: Seq<Extrinsic>) -> (
    RuntimeState,
    Seq<(nat, Seq<char>, DispatchError)>,
)
    decreases exts.len(),
{
    if exts.len() == 0 {
        (s, Seq::empty())
    } else {
        let before = apply_extrinsics(s, exts.drop_last());
        let e = exts.last();
        let after = apply_extrinsic(before.0, e);
        match after.1 {
            Ok(_) => (after.0, before.1),
            Err(err) => (after.0, before.1.push(((exts.len() - 1) as nat, e.caller@, err))),
        }
    }
}

/// A whole block: the step counter advances, and the block's extrinsics are
/// applied only where its number is the new step.
pub open spec fn execute_block_spec(s: RuntimeState, block: Block) -> (
    RuntimeState,
    Result<Seq<(nat, Seq<char>, DispatchError)>, DispatchError>,
) {
    let stepped = RuntimeState { system: advance_step(s.system, BlockNumber::limit()), ..s };
    if block.header.block_number as nat != stepped.system.block_number {
        (stepped, Err(DispatchError::BlockNumberMismatch))
    } else {
        let done = apply_extrinsics(stepped, block.extrinsics@);
        (done.0, Ok(done.1))
    }
}

/// How many of the extrinsics `exts` the account `c` made.
pub open spec fn calls_by(exts: Seq<Extrinsic>, c: Seq<char>) -> nat
    decreases exts.len(),
{
    if exts.len() == 0 {
        0
    } else {
        calls_by(exts.drop_last(), c) + if exts.last().caller@ == c {
            1nat
        } else {
            0nat
        }
    }
}

/// Dispatching a call leaves the system module's counters alone.
pub proof fn lemma_dispatch_keeps_system(s: RuntimeState, caller: Seq<char>, call: RuntimeCall)
    ensures
        Runtime::transition(s, caller, call).0.system == s.system,
{
}

/// Each extrinsic advances its caller's sequence counter exactly once,
/// whether its call succeeds or fails: after `exts`, the counter of `c` has
/// grown by the number of extrinsics that `c` made, up to the type's limit.
pub proof fn lemma_nonce_counts_extrinsics(s: RuntimeState, exts: Seq<Extrinsic>, c: Seq<char>)
    requires
        count_in(s.system.nonces, c) <= Nonce::limit(),
    ensures
        count_in(apply_extrinsics(s, exts).0.system.nonces, c) == if count_in(s.system.nonces, c)
            + calls_by(exts, c) <= Nonce::limit() {
            count_in(s.system.nonces, c) + calls_by(exts, c)
        } else {
            Nonce::limit()
        },
    decreases exts.len(),
{
    if exts.len() > 0 {
        let e = exts.last();
        lemma_nonce_counts_extrinsics(s, exts.drop_last(), c);
        let before = apply_extrinsics(s, exts.drop_last()).0;
        let counted = RuntimeState {
            system: advance_nonce(before.system, e.caller@, Nonce::limit()),
            ..before
        };
        lemma_dispatch_keeps_system(counted, e.caller@, e.call);
    }
}

/// A call that fails leaves every module as it was.
pub proof fn lemma_failed_call_changes_nothing(s: RuntimeState, caller: Seq<char>, call: RuntimeCall)
    requires
        Runtime::transition(s, caller, call).1 is Err,
    ensures
        Runtime::transition(s, caller, call).0 == s,
{
}

/// A failed extrinsic does not stop the one after it: in a block of two
/// whose first call fails, the first only advances its caller's sequence
/// counter, and the second is applied on top of that.
pub proof fn lemma_failure_does_not_stop(s: RuntimeState, first: Extrinsic, second: Extrinsic)
    requires
        apply_extrinsic(s, first).1 is Err,
    ensures
        apply_extrinsics(s, seq![first, second]).0 == apply_extrinsic(
            RuntimeState { system: advance_nonce(s.system, first.caller@, Nonce::limit()), ..s },
            second,
        ).0,
{
    let exts = seq![first, second];
    assert(exts.drop_last() =~= seq![first]);
    assert(seq![first].drop_last() =~= Seq::<Extrinsic>::empty());
    let counted = RuntimeState { system: advance_nonce(s.system, first.caller@, Nonce::limit()), ..s };
    lemma_failed_call_changes_nothing(counted, first.caller@, first.call);
    assert(apply_extrinsics(s, Seq::<Extrinsic>::empty()).0 == s);
    assert(apply_extrinsics(s, seq![first]).0 == counted);
    assert(exts.last() == second);
}

/// A block whose number is not the step after the current one is refused
/// with `BlockNumberMismatch`: only the step counter moves, and no balance,
/// claim or sequence counter changes.
pub proof fn lemma_block_number_mismatch(s: RuntimeState, block: Block)
    requires
        s.system.block_number <= BlockNumber::limit(),
        block.header.block_number as nat != s.system.block_number + 1,
        s.system.block_number < BlockNumber::limit() || block.header.block_number as nat
            != s.system.block_number,
    ensures
        execute_block_spec(s, block).1 == Err::<Seq<(nat, Seq<char>, DispatchError)>, DispatchError>(
            DispatchError::BlockNumberMismatch,
        ),
        execute_block_spec(s, block).0.balances == s.balances,
        execute_block_spec(s, block).0.claims == s.claims,
        execute_block_spec(s, block).0.system.nonces == s.system.nonces,
{
}

impl Runtime {
    pub fn new() -> (r: Self)
        ensures
            r@.system.block_number == 0,
            r@.system.nonces == Map::<Seq<char>, nat>::empty(),
            r@.balances == Map::<Seq<char>, nat>::empty(),
            r@.claims == Map::<Seq<char>, Seq<char>>::empty(),
    {
        Runtime {
            system: SystemPallet::new(),
            balances: BalancesPallet::new(),
            proof_of_existence: proof_of_existence::Pallet::new(),
        }
    }

    /// Applies `block`. A wrong block number refuses the whole block (after
    /// the step counter advanced); otherwise every extrinsic runs, and the
    /// ones that failed are returned in order.
    pub fn execute_block(&mut self, block: Block) -> (r: Result<Vec<ExtrinsicFailure>, DispatchError>)
        ensures
            final(self)@ == execute_block_spec(old(self)@, block).0,
            match r {
                Ok(failures) => execute_block_spec(old(self)@, block).1 == Ok::<
                    Seq<(nat, Seq<char>, DispatchError)>,
                    DispatchError,
                >(failures@.map_values(|f: ExtrinsicFailure| failure_view(f))),
                Err(e) => execute_block_spec(old(self)@, block).1 == Err::<
                    Seq<(nat, Seq<char>, DispatchError)>,
                    DispatchError,
                >(e),
            },
    {
        self.system.inc_block_number();
        if block.header.block_number != self.system.block_number() {
            return Err(DispatchError::BlockNumberMismatch);
        }
        let ghost stepped = self@;
        let ghost all = block.extrinsics@;
        let mut rest = block.extrinsics;
        let mut failures: Vec<ExtrinsicFailure> = Vec::new();
        let mut i: usize = 0;
        assert(all.len() == rest.len());
        assert(all.subrange(0, 0) =~= Seq::<Extrinsic>::empty());
        assert(failures@.map_values(|f: ExtrinsicFailure| failure_view(f)) =~= Seq::<
            (nat, Seq<char>, DispatchError),
        >::empty());
        while rest.len() > 0
            invariant
                i <= all.len(),
                all.len() <= usize::MAX,
                rest@ == all.subrange(i as int, all.len() as int),
                self@ == apply_extrinsics(stepped, all.subrange(0, i as int)).0,
                failures@.map_values(|f: ExtrinsicFailure| failure_view(f)) == apply_extrinsics(
                    stepped,
                    all.subrange(0, i as int),
                ).1,
            decreases rest.len(),
        {
            let ghost before = self@;
            let ghost fails_before = failures@;
            let e = rest.remove(0);
            let crate::support::Extrinsic { caller, call } = e;
            assert(e == all[i as int]);
            assert(all.subrange(0, i + 1).drop_last() =~= all.subrange(0, i as int));
            self.system.inc_nonce(&caller);
            let who = caller.duplicate();
            let outcome = self.dispatch(caller, call);
            match outcome {
                Ok(()) => {},
                Err(error) => {
                    failures.push(ExtrinsicFailure { index: i, caller: who, error });
                    assert(failures@.map_values(|f: ExtrinsicFailure| failure_view(f)) =~= fails_before.map_values(
                        |f: ExtrinsicFailure| failure_view(f),
                    ).push((i as nat, e.caller@, error)));
                },
            }
            assert(rest@ =~= all.subrange(i + 1, all.len() as int));
            i = i + 1;
        }
        assert(all.subrange(0, i as int) =~= all);
        Ok(failures)
    }
}

impl Dispatch for Runtime {
    type Caller = AccountId;

    type Call = RuntimeCall;

    open spec fn transition(state: RuntimeState, caller: Seq<char>, call: RuntimeCall) -> (
        RuntimeState,
        DispatchResult,
    ) {
        match call {
            RuntimeCall::Balances(c) => {
                let (b, r) = BalancesPallet::<RuntimeConfig>::transition(state.balances, caller, c);
                (RuntimeState { balances: b, ..state }, r)
            },
            RuntimeCall::ProofOfExistence(c) => {
                let (m, r) = proof_of_existence::Pallet::<RuntimeConfig>::transition(
                    state.claims,
                    caller,
                    c,
                );
                (RuntimeState { claims: m, ..state }, r)
            },
        }
    }

    /// Routes `call` to the module it belongs to.
    fn dispatch(&mut self, caller: AccountId, call: RuntimeCall) -> (r: DispatchResult) {
        match call {
            RuntimeCall::Balances(c) => self.balances.dispatch(caller, c),
            RuntimeCall::ProofOfExistence(c) => self.proof_of_existence.dispatch(caller, c),
        }
    }
}

} // verus!
