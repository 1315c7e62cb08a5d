use state_machine::balances;
use state_machine::proof_of_existence;
use state_machine::runtime::{Block, Extrinsic, Header, Runtime, RuntimeCall};
use state_machine::storage::StorageMap;
use state_machine::support::DispatchError;

fn transfer(caller: &str, to: &str, amount: u128) -> Extrinsic {
    Extrinsic {
        caller: caller.to_string(),
        call: RuntimeCall::Balances(balances::Call::Transfer { to: to.to_string(), amount }),
    }
}

fn create(caller: &str, claim: &str) -> Extrinsic {
    Extrinsic {
        caller: caller.to_string(),
        call: RuntimeCall::ProofOfExistence(proof_of_existence::Call::CreateClaim {
            claim: claim.to_string(),
        }),
    }
}

fn revoke(caller: &str, claim: &str) -> Extrinsic {
    Extrinsic {
        caller: caller.to_string(),
        call: RuntimeCall::ProofOfExistence(proof_of_existence::Call::RevokeClaim {
            claim: claim.to_string(),
        }),
    }
}

fn block(number: u32, extrinsics: Vec<Extrinsic>) -> Block {
    Block { header: Header { block_number: number }, extrinsics }
}

fn account(name: &str) -> String {
    name.to_string()
}

#[test]
fn two_transfers_in_one_block() {
    let mut runtime = Runtime::new();
    runtime.balances.set_balance(&account("alice"), 100);
    let failures = runtime
        .execute_block(block(1, vec![transfer("alice", "bob", 30), transfer("alice", "charlie", 20)]))
        .unwrap();
    assert!(failures.is_empty());
    assert_eq!(runtime.system.block_number(), 1);
    assert_eq!(runtime.balances.balance(&account("alice")), 50);
    assert_eq!(runtime.balances.balance(&account("bob")), 30);
    assert_eq!(runtime.balances.balance(&account("charlie")), 20);
    assert_eq!(runtime.system.nonce_of(&account("alice")), 2);
    assert_eq!(runtime.system.nonce_of(&account("bob")), 0);
}

#[test]
fn second_claim_in_later_block_fails_alone() {
    let mut runtime = Runtime::new();
    let first = runtime.execute_block(block(1, vec![create("alice", "X")])).unwrap();
    assert!(first.is_empty());
    let second = runtime.execute_block(block(2, vec![create("bob", "X")])).unwrap();
    assert_eq!(second.len(), 1);
    assert_eq!(second[0].index, 0);
    assert_eq!(second[0].caller, account("bob"));
    assert_eq!(second[0].error, DispatchError::ClaimAlreadyExists);
    assert_eq!(runtime.proof_of_existence.get_claim(&"X".to_string()), Some(&account("alice")));
    assert_eq!(runtime.system.block_number(), 2);
    assert_eq!(runtime.system.nonce_of(&account("bob")), 1);
}

#[test]
fn wrong_block_number_applies_nothing() {
    let mut runtime = Runtime::new();
    runtime.balances.set_balance(&account("alice"), 100);
    let result = runtime.execute_block(block(2, vec![transfer("alice", "bob", 10)]));
    assert_eq!(result.err(), Some(DispatchError::BlockNumberMismatch));
    assert_eq!(DispatchError::BlockNumberMismatch.message(), "Block number mismatch");
    assert_eq!(runtime.balances.balance(&account("alice")), 100);
    assert_eq!(runtime.balances.balance(&account("bob")), 0);
    assert_eq!(runtime.system.nonce_of(&account("alice")), 0);
    assert_eq!(runtime.system.block_number(), 1);
}

#[test]
fn nonce_advances_for_failed_and_successful_extrinsics() {
    let mut runtime = Runtime::new();
    runtime.balances.set_balance(&account("alice"), 10);
    let failures = runtime
        .execute_block(block(1, vec![transfer("alice", "bob", 5), transfer("alice", "bob", 50)]))
        .unwrap();
    assert_eq!(failures.len(), 1);
    assert_eq!(failures[0].index, 1);
    assert_eq!(failures[0].error, DispatchError::InsufficientFunds);
    assert_eq!(runtime.system.nonce_of(&account("alice")), 2);
    assert_eq!(runtime.balances.balance(&account("alice")), 5);
    assert_eq!(runtime.balances.balance(&account("bob")), 5);
}

#[test]
fn later_extrinsic_runs_after_a_failure() {
    let mut runtime = Runtime::new();
    let failures = runtime
        .execute_block(block(1, vec![revoke("alice", "X"), create("bob", "Y")]))
        .unwrap();
    assert_eq!(failures.len(), 1);
    assert_eq!(failures[0].index, 0);
    assert_eq!(failures[0].caller, account("alice"));
    assert_eq!(failures[0].error, DispatchError::ClaimNotFound);
    assert_eq!(runtime.proof_of_existence.get_claim(&"Y".to_string()), Some(&account("bob")));
    assert_eq!(runtime.system.nonce_of(&account("alice")), 1);
    assert_eq!(runtime.system.nonce_of(&account("bob")), 1);
}

#[test]
fn three_blocks_in_sequence() {
    let mut runtime = Runtime::new();
    runtime.balances.set_balance(&account("alice"), 100);
    assert!(runtime
        .execute_block(block(1, vec![transfer("alice", "bob", 30), transfer("alice", "charlie", 20)]))
        .unwrap()
        .is_empty());
    let second = runtime
        .execute_block(block(2, vec![create("alice", "Hello, world!"), create("bob", "Hello, world!")]))
        .unwrap();
    assert_eq!(second.len(), 1);
    assert_eq!(second[0].index, 1);
    let third = runtime
        .execute_block(block(3, vec![revoke("alice", "Hello, world!"), create("bob", "Hello, world!")]))
        .unwrap();
    assert!(third.is_empty());
    assert_eq!(
        runtime.proof_of_existence.get_claim(&"Hello, world!".to_string()),
        Some(&account("bob"))
    );
    assert_eq!(runtime.system.block_number(), 3);
    assert_eq!(runtime.system.nonce_of(&account("alice")), 4);
    assert_eq!(runtime.system.nonce_of(&account("bob")), 2);
    assert_eq!(runtime.execute_block(block(3, vec![])).err(), Some(DispatchError::BlockNumberMismatch));
}

#[test]
fn empty_block_only_advances_the_step() {
    let mut runtime = Runtime::new();
    assert!(runtime.execute_block(block(1, vec![])).unwrap().is_empty());
    assert_eq!(runtime.system.block_number(), 1);
    assert_eq!(runtime.system.nonce_of(&account("alice")), 0);
}

#[test]
fn storage_map_insert_replace_remove() {
    let mut map = StorageMap::<String, u32>::new();
    map.insert("a".to_string(), 1);
    map.insert("b".to_string(), 2);
    map.insert("a".to_string(), 3);
    assert_eq!(map.get(&"a".to_string()), Some(&3));
    assert_eq!(map.get(&"b".to_string()), Some(&2));
    assert!(map.contains_key(&"b".to_string()));
    map.remove(&"a".to_string());
    assert_eq!(map.get(&"a".to_string()), None);
    assert_eq!(map.get(&"b".to_string()), Some(&2));
    map.remove(&"zzz".to_string());
    assert_eq!(map.get(&"b".to_string()), Some(&2));
}
