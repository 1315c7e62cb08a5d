use vstd::prelude::*;

verus! {

/// Why an operation, or a whole block, was refused.
#[derive(Debug, Clone, Copy, PartialEq, Eq, Structural)]
pub enum DispatchError {
    BlockNumberMismatch,
    InsufficientFunds,
    BalanceOverflow,
    ClaimAlreadyExists,
    ClaimNotFound,
    NotClaimOwner,
}

/// The description that `message` gives for each error.
pub open spec fn message_spec(e: DispatchError) -> Seq<char> {
    match e {
        DispatchError::BlockNumberMismatch => "Block number mismatch"@,
        DispatchError::InsufficientFunds => "Not enough funds."@,
        DispatchError::BalanceOverflow => "Funds overflow"@,
        DispatchError::ClaimAlreadyExists => "Claim already exists"@,
        DispatchError::ClaimNotFound => "Claim doesn't exist"@,
        DispatchError::NotClaimOwner => "Caller is not owner of claim"@,
    }
}

impl DispatchError {
    /// A short human-readable description of the error.
    pub fn message(&self) -> (r: &'static str)
        ensures
            r@ == message_spec(*self),
    {
        match self {
            DispatchError::BlockNumberMismatch => "Block number mismatch",
            DispatchError::InsufficientFunds => "Not enough funds.",
            DispatchError::BalanceOverflow => "Funds overflow",
            DispatchError::ClaimAlreadyExists => "Claim already exists",
            DispatchError::ClaimNotFound => "Claim doesn't exist",
            DispatchError::NotClaimOwner => "Caller is not owner of claim",
        }
    }
}

/// The outcome of dispatching one call.
pub type DispatchResult = Result<(), DispatchError>;

/// The header of a block: the step number it claims to be.
pub struct Header<BlockNumber> {
    pub block_number: BlockNumber,
}

/// One call, together with the account on whose behalf it runs.
pub struct Extrinsic<Caller, Call> {
    pub caller: Caller,
    pub call: Call,
}

/// An ordered batch of extrinsics under one header.
pub struct Block<Header, Extrinsic> {
    pub header: Header,
    pub extrinsics: Vec<Extrinsic>,
}

/// A module that runs a closed set of calls on behalf of a caller.
///
/// `transition` is what one call does to the module's view: the new view
/// and the result. `dispatch` performs exactly that.
pub trait Dispatch: View + Sized {
    type Caller: View;

    type Call;

    spec fn transition(
        state: Self::V,
        caller: <Self::Caller as View>::V,
        call: Self::Call,
    ) -> (Self::V, DispatchResult);

    fn dispatch(&mut self, caller: Self::Caller, call: Self::Call) -> (r: DispatchResult)
        ensures
            (final(self)@, r) == Self::transition(old(self)@, caller@, call),
    ;
}

} // verus!
