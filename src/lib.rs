pub mod numeric;
pub mod storage;
pub mod support;
pub mod system;
pub mod balances;
pub mod proof_of_existence;
pub mod runtime;
