use suitdrop::claim::{
    claim, execute, execute_register_merkle_root, execute_update_config, instantiate, migrate,
    query, query_claim_info, query_config, query_merkle_root, try_withdraw_all, CallContext,
    ClaimInfo, ClaimState, ContractError, ExecuteMsg, InstantiateMsg, MigrateMsg, QueryAnswer,
    QueryMsg,
};
use suitdrop::hashing::HexError;

// sha256("alice"), as a hex text: the root of a one-leaf tree.
const ALICE_ROOT: &str = "2bd806c97f0e00af1a1fc3328fa763a9269723c8db8fac4f93af71db186d6e90";
// sha256("x"): the sibling hash next to bob's leaf.
const BOB_SIBLING: &str = "2d711642b726b04401627ca9fbac32f5c8530fb1903cc4db02258717921a4881";
// sha256 of the sorted concatenation of bob's leaf and the sibling.
const BOB_ROOT: &str = "c669cc7f4d692b7a8a85efc2e2fbaf29ad947c02f7a04a60bfd2b2bbd4d0ee1c";

fn owner_bytes() -> Vec<u8> {
    b"owner-canonical".to_vec()
}

fn new_state() -> ClaimState {
    instantiate(
        owner_bytes(),
        InstantiateMsg {
            cw20_token_address: "cw20token".to_string(),
            claim_amount: 500,
        },
    )
}

fn register(state: &mut ClaimState, root: Option<&str>) {
    let r = execute_register_merkle_root(state, &owner_bytes(), root.map(|s| s.to_string()));
    assert_eq!(r, Ok(()));
}

#[test]
fn claim_succeeds_with_empty_proof_and_records_info() {
    let mut state = new_state();
    register(&mut state, Some(ALICE_ROOT));
    let r = claim(&mut state, &"alice".to_string(), &vec![], 500, 777);
    let msg = r.expect("claim should succeed");
    assert_eq!(msg.recipient, "alice".to_string());
    assert_eq!(msg.amount, 500);
    let info = query_claim_info(&state, &"alice".to_string());
    assert_eq!(
        info,
        ClaimInfo {
            amount: 500,
            claimed_timestamp: 777
        }
    );
}

#[test]
fn empty_proof_scenario_pays_and_records_the_block_time() {
    // The root is the claimant's own leaf: sha256("x").
    let root = "2d711642b726b04401627ca9fbac32f5c8530fb1903cc4db02258717921a4881";
    let mut state = new_state();
    register(&mut state, Some(root));
    let r = claim(&mut state, &"x".to_string(), &vec![], 500, 42);
    let msg = r.expect("the leaf is the root");
    assert_eq!(msg.recipient, "x".to_string());
    assert_eq!(msg.amount, 500);
    let info = query_claim_info(&state, &"x".to_string());
    assert_eq!(info.amount, 500);
    assert_eq!(info.claimed_timestamp, 42);
}

#[test]
fn second_claim_fails_with_claimed() {
    let mut state = new_state();
    register(&mut state, Some(ALICE_ROOT));
    let first = claim(&mut state, &"alice".to_string(), &vec![], 500, 777);
    assert!(first.is_ok());
    let second = claim(&mut state, &"alice".to_string(), &vec![], 500, 778);
    assert_eq!(second, Err(ContractError::Claimed));
    // The record still shows the first claim.
    let info = query_claim_info(&state, &"alice".to_string());
    assert_eq!(info.claimed_timestamp, 777);
}

#[test]
fn claim_without_root_is_unauthorized() {
    let mut state = new_state();
    let r = claim(&mut state, &"alice".to_string(), &vec![], 500, 777);
    assert_eq!(r, Err(ContractError::Unauthorized));
}

#[test]
fn cleared_root_disables_claiming() {
    let mut state = new_state();
    register(&mut state, None);
    let r = claim(&mut state, &"alice".to_string(), &vec![], 500, 777);
    assert_eq!(
        r,
        Err(ContractError::Hex(HexError::InvalidStringLength))
    );
}

#[test]
fn claim_by_non_member_fails_verification() {
    let mut state = new_state();
    register(&mut state, Some(ALICE_ROOT));
    let r = claim(&mut state, &"carol".to_string(), &vec![], 500, 777);
    assert_eq!(r, Err(ContractError::VerificationFailed));
}

#[test]
fn claim_with_zero_balance_is_insufficient() {
    let mut state = new_state();
    register(&mut state, Some(ALICE_ROOT));
    let r = claim(&mut state, &"alice".to_string(), &vec![], 0, 777);
    assert_eq!(r, Err(ContractError::Insufficient));
}

#[test]
fn one_level_proof_verifies() {
    let mut state = new_state();
    register(&mut state, Some(BOB_ROOT));
    let r = claim(
        &mut state,
        &"bob".to_string(),
        &vec![BOB_SIBLING.to_string()],
        500,
        1,
    );
    assert!(r.is_ok());
}

#[test]
fn register_root_rejects_malformed_hex() {
    let mut state = new_state();
    let r = execute_register_merkle_root(&mut state, &owner_bytes(), Some("zz".to_string()));
    assert_eq!(
        r,
        Err(ContractError::Hex(HexError::InvalidStringLength))
    );
    let r = execute_register_merkle_root(&mut state, &owner_bytes(), Some("abc".to_string()));
    assert_eq!(r, Err(ContractError::Hex(HexError::OddLength)));
    let mut bad = "a".repeat(63);
    bad.push('g');
    let r = execute_register_merkle_root(&mut state, &owner_bytes(), Some(bad));
    assert_eq!(
        r,
        Err(ContractError::Hex(HexError::InvalidHexCharacter {
            c: 'g',
            index: 63
        }))
    );
    // Nothing was stored.
    assert!(query_merkle_root(&state).is_none());
}

#[test]
fn non_owner_is_rejected_everywhere() {
    let mut state = new_state();
    let intruder = b"someone-else".to_vec();
    let r = execute_register_merkle_root(&mut state, &intruder, Some(ALICE_ROOT.to_string()));
    assert_eq!(r, Err(ContractError::Unauthorized));
    let r = execute_update_config(&mut state, &intruder, None, None, Some(1));
    assert_eq!(r, Err(ContractError::Unauthorized));
    let r = try_withdraw_all(&state, &"mallory".to_string(), &intruder, 1000);
    assert_eq!(r, Err(ContractError::Unauthorized));
    // Nothing changed.
    let cfg = query_config(&state);
    assert_eq!(cfg.claim_amount, 500);
    assert!(query_merkle_root(&state).is_none());
}

#[test]
fn owner_updates_config() {
    let mut state = new_state();
    let new_owner = b"new-owner".to_vec();
    let r = execute_update_config(
        &mut state,
        &owner_bytes(),
        Some(new_owner.clone()),
        Some("other-token".to_string()),
        Some(42),
    );
    assert_eq!(r, Ok(()));
    let cfg = query_config(&state);
    assert_eq!(cfg.owner, new_owner);
    assert_eq!(cfg.cw20_token_address, "other-token".to_string());
    assert_eq!(cfg.claim_amount, 42);
    // The old owner lost its authority.
    let r = execute_update_config(&mut state, &owner_bytes(), None, None, Some(1));
    assert_eq!(r, Err(ContractError::Unauthorized));
}

#[test]
fn withdraw_all_transfers_entire_balance() {
    let state = new_state();
    let r = try_withdraw_all(&state, &"ownerhuman".to_string(), &owner_bytes(), 123456);
    let msg = r.expect("owner may sweep");
    assert_eq!(msg.recipient, "ownerhuman".to_string());
    assert_eq!(msg.amount, 123456);
}

#[test]
fn execute_dispatches_commands() {
    let mut state = new_state();
    let owner_ctx = CallContext {
        sender: "ownerhuman".to_string(),
        sender_canonical: owner_bytes(),
        balance: 500,
        block_time: 9,
    };
    let r = execute(
        &mut state,
        &owner_ctx,
        ExecuteMsg::RegisterMerkleRoot {
            root: Some(ALICE_ROOT.to_string()),
        },
    );
    assert_eq!(r, Ok(None));
    let alice_ctx = CallContext {
        sender: "alice".to_string(),
        sender_canonical: b"alice-canonical".to_vec(),
        balance: 500,
        block_time: 9,
    };
    let r = execute(
        &mut state,
        &alice_ctx,
        ExecuteMsg::Claim {
            merkle_proof: vec![],
        },
    );
    let transfer = r.expect("claim via dispatch").expect("one transfer comes back");
    assert_eq!(transfer.recipient, "alice".to_string());
    assert_eq!(transfer.amount, 500);
    let r = execute(&mut state, &owner_ctx, ExecuteMsg::WithdrawAll);
    let sweep = r.expect("owner sweeps").expect("one transfer comes back");
    assert_eq!(sweep.recipient, "ownerhuman".to_string());
    assert_eq!(sweep.amount, 500);
    let r = execute(
        &mut state,
        &owner_ctx,
        ExecuteMsg::UpdateConfig {
            owner: None,
            cw20_token_address: None,
            claim_amount: Some(7),
        },
    );
    assert_eq!(r, Ok(None));
    assert_eq!(query_config(&state).claim_amount, 7);
}

#[test]
fn queries_report_state() {
    let mut state = new_state();
    match query(&state, QueryMsg::Config) {
        Some(QueryAnswer::Config(c)) => {
            assert_eq!(c.owner, owner_bytes());
            assert_eq!(c.cw20_token_address, "cw20token".to_string());
            assert_eq!(c.claim_amount, 500);
        }
        other => panic!("unexpected answer: {:?}", other.is_some()),
    }
    assert!(query(&state, QueryMsg::MerkleRoot).is_none());
    register(&mut state, Some(ALICE_ROOT));
    match query(&state, QueryMsg::MerkleRoot) {
        Some(QueryAnswer::MerkleRoot(m)) => assert_eq!(m.root, ALICE_ROOT.to_string()),
        other => panic!("unexpected answer: {:?}", other.is_some()),
    }
    match query(
        &state,
        QueryMsg::ClaimInfo {
            address: "nobody".to_string(),
        },
    ) {
        Some(QueryAnswer::ClaimInfo(info)) => {
            assert_eq!(
                info,
                ClaimInfo {
                    amount: 0,
                    claimed_timestamp: 0
                }
            );
        }
        other => panic!("unexpected answer: {:?}", other.is_some()),
    }
}

#[test]
fn migrate_is_a_noop() {
    assert_eq!(migrate(MigrateMsg {}), Ok(()));
}

#[test]
fn registry_round_trips_through_entries() {
    let mut state = new_state();
    register(&mut state, Some(ALICE_ROOT));
    claim(&mut state, &"alice".to_string(), &vec![], 500, 777).expect("claim");
    let entries = state.claims.entries().clone();
    assert_eq!(entries.len(), 1);
    let rebuilt = suitdrop::claim::ClaimRegistry::from_entries(entries.clone())
        .expect("unique keys rebuild");
    assert_eq!(
        rebuilt.get(&"alice".to_string()),
        Some(ClaimInfo {
            amount: 500,
            claimed_timestamp: 777
        })
    );
    // A repeated key is refused.
    let mut doubled = entries.clone();
    doubled.push(entries[0].clone());
    assert!(suitdrop::claim::ClaimRegistry::from_entries(doubled).is_none());
}
