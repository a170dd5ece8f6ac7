use epoch_keeper::codec::EPOCH_ACCOUNT_LEN;
use epoch_keeper::engine::{EngineError, Executor};
use epoch_keeper::instruction::{build_advance_plan, build_resolve_plan, ActionKind};
use epoch_keeper::ledger::{FetchScript, ScriptedLedger, SubmitRecord};
use epoch_keeper::resolve::ResolveExecutor;
use epoch_keeper::state::{Address, EpochResultState, TaskAccount};
use sha2::{Digest, Sha256};
use solana_pubkey::Pubkey;

const PROGRAM: [u8; 32] = [9u8; 32];

fn encode_epoch_account(epoch: u64, end_at: i64, state_tag: u8, pool_count: u8) -> Vec<u8> {
    let mut d = vec![0u8; 8];
    d.extend_from_slice(&epoch.to_le_bytes());
    d.extend_from_slice(&77u64.to_le_bytes());
    d.extend_from_slice(&99u64.to_le_bytes());
    d.extend_from_slice(&end_at.to_le_bytes());
    d.push(2);
    d.push(state_tag);
    d.push(pool_count);
    for i in 0..10u64 {
        d.extend_from_slice(&i.to_le_bytes());
    }
    assert_eq!(d.len(), EPOCH_ACCOUNT_LEN);
    d
}

fn task(epoch: u64, state: EpochResultState, pool_count: u8) -> TaskAccount {
    TaskAccount {
        config_pda: Address { bytes: vec![1u8; 32] },
        epoch_result_pda: Address { bytes: vec![2u8; 32] },
        program_id: Address { bytes: PROGRAM.to_vec() },
        epoch,
        end_at: 1000,
        epoch_result_state: state,
        pool_count,
        custom_pda: None,
    }
}

fn executor(ledger: ScriptedLedger) -> ResolveExecutor<ScriptedLedger> {
    ResolveExecutor::new(ledger, Address { bytes: vec![8u8; 32] })
}

fn accepted_of(submits: &[SubmitRecord], kind: ActionKind) -> usize {
    submits.iter().filter(|s| s.accepted && s.kind == kind).count()
}

#[test]
fn active_submits_one_resolve() {
    let mut ledger = ScriptedLedger::new();
    ledger.fetch_script.push(FetchScript::Bytes(encode_epoch_account(5, 1000, 1, 4)));
    let mut ex = executor(ledger);
    let mut state = task(5, EpochResultState::Active, 4);
    ex.execute(&mut state).unwrap();
    assert_eq!(accepted_of(&ex.port.submits, ActionKind::Resolve), 1);
    assert_eq!(accepted_of(&ex.port.submits, ActionKind::AdvanceEpoch), 0);
    assert_eq!(ex.port.submits.len(), 1);
    assert_eq!(state.epoch, 5);
    // The refresh overwrote the observed result state from the ledger.
    assert_eq!(state.epoch_result_state, EpochResultState::Pending);
}

#[test]
fn resolved_submits_one_advance_and_increments_epoch() {
    let mut ledger = ScriptedLedger::new();
    ledger.fetch_script.push(FetchScript::Bytes(encode_epoch_account(6, 2000, 0, 4)));
    let mut ex = executor(ledger);
    let mut state = task(5, EpochResultState::Resolved, 4);
    ex.execute(&mut state).unwrap();
    assert_eq!(accepted_of(&ex.port.submits, ActionKind::AdvanceEpoch), 1);
    assert_eq!(accepted_of(&ex.port.submits, ActionKind::Resolve), 0);
    assert_eq!(state.epoch, 6);
    assert_eq!(state.end_at, 2000);
}

#[test]
fn resolved_plan_carries_next_epoch_pool_accounts() {
    let mut ledger = ScriptedLedger::new();
    ledger.fetch_script.push(FetchScript::Bytes(encode_epoch_account(6, 2000, 0, 4)));
    let mut ex = executor(ledger);
    let mut state = task(5, EpochResultState::Resolved, 4);
    ex.execute(&mut state).unwrap();
    assert_eq!(state.epoch, 6);

    let plan = &ex.port.submits[0].plan;
    assert_eq!(plan.program.bytes, PROGRAM.to_vec());

    // Payload: the 8-byte action identifier, then the fixed argument byte.
    let digest = Sha256::digest(b"global:initialize_pool");
    let mut want_data = digest[..8].to_vec();
    want_data.push(4);
    assert_eq!(plan.data, want_data);

    // Accounts: signer, config, next epoch's result account, system program,
    // then the four pool accounts of epoch 6.
    assert_eq!(plan.accounts.len(), 8);
    let program_key = Pubkey::new_from_array(PROGRAM);
    let next_epoch: u64 = 6;
    let (want_result, _) = Pubkey::find_program_address(
        &[b"epoch_result", &next_epoch.to_le_bytes()],
        &program_key,
    );
    assert!(plan.accounts[0].is_signer);
    assert_eq!(plan.accounts[0].address.bytes, vec![8u8; 32]);
    assert_eq!(plan.accounts[1].address.bytes, vec![1u8; 32]);
    assert_eq!(plan.accounts[2].address.bytes, want_result.to_bytes().to_vec());
    assert_eq!(plan.accounts[3].address.bytes, vec![0u8; 32]);
    for index in 0u8..4 {
        let (want_pool, _) = Pubkey::find_program_address(
            &[b"pool", &[index], &next_epoch.to_le_bytes()],
            &program_key,
        );
        assert_eq!(
            plan.accounts[4 + index as usize].address.bytes,
            want_pool.to_bytes().to_vec()
        );
        assert!(plan.accounts[4 + index as usize].is_writable);
        assert!(!plan.accounts[4 + index as usize].is_signer);
    }
}

#[test]
fn active_plan_account_layout() {
    let mut ledger = ScriptedLedger::new();
    ledger.fetch_script.push(FetchScript::Bytes(encode_epoch_account(5, 1000, 1, 2)));
    let mut ex = executor(ledger);
    let mut state = task(5, EpochResultState::Active, 2);
    state.custom_pda = Some(Address { bytes: vec![6u8; 32] });
    ex.execute(&mut state).unwrap();

    let plan = &ex.port.submits[0].plan;
    let digest = Sha256::digest(b"global:resolve");
    let mut want_data = digest[..8].to_vec();
    want_data.push(0);
    assert_eq!(plan.data, want_data);

    // signer, config, epoch result, auxiliary, system, identity, randomness
    // provider, slot-hashes sysvar, then two pool accounts of epoch 5.
    assert_eq!(plan.accounts.len(), 10);
    let program_key = Pubkey::new_from_array(PROGRAM);
    assert_eq!(plan.accounts[0].address.bytes, vec![8u8; 32]);
    assert_eq!(plan.accounts[1].address.bytes, vec![1u8; 32]);
    assert_eq!(plan.accounts[2].address.bytes, vec![2u8; 32]);
    assert_eq!(plan.accounts[3].address.bytes, vec![6u8; 32]);
    assert_eq!(plan.accounts[4].address.bytes, vec![0u8; 32]);
    let (want_identity, _) = Pubkey::find_program_address(&[b"identity"], &program_key);
    assert_eq!(plan.accounts[5].address.bytes, want_identity.to_bytes().to_vec());
    assert!(!plan.accounts[5].is_writable);
    let epoch: u64 = 5;
    for index in 0u8..2 {
        let (want_pool, _) = Pubkey::find_program_address(
            &[b"pool", &[index], &epoch.to_le_bytes()],
            &program_key,
        );
        assert_eq!(
            plan.accounts[8 + index as usize].address.bytes,
            want_pool.to_bytes().to_vec()
        );
    }
}

#[test]
fn pending_without_transition_submits_nothing() {
    let mut ledger = ScriptedLedger::new();
    ledger.fetch_script.push(FetchScript::Bytes(encode_epoch_account(5, 1000, 1, 4)));
    let mut ex = executor(ledger);
    let mut state = task(5, EpochResultState::Pending, 4);
    ex.execute(&mut state).unwrap();
    assert!(ex.port.submits.is_empty());
    assert_eq!(state.epoch, 5);
    assert_eq!(state.epoch_result_state, EpochResultState::Pending);
}

#[test]
fn pending_transition_to_resolved_cascades_into_advance() {
    let mut ledger = ScriptedLedger::new();
    // First refresh observes the transition to resolved; the second refresh,
    // after the advance, reads the next epoch's account.
    ledger.fetch_script.push(FetchScript::Bytes(encode_epoch_account(5, 1000, 2, 4)));
    ledger.fetch_script.push(FetchScript::Bytes(encode_epoch_account(6, 2000, 0, 4)));
    let mut ex = executor(ledger);
    let mut state = task(5, EpochResultState::Pending, 4);
    ex.execute(&mut state).unwrap();
    assert_eq!(accepted_of(&ex.port.submits, ActionKind::AdvanceEpoch), 1);
    assert_eq!(accepted_of(&ex.port.submits, ActionKind::Resolve), 0);
    assert_eq!(ex.port.submits.len(), 1);
    assert_eq!(state.epoch, 6);
}

#[test]
fn retry_succeeds_on_third_attempt() {
    let mut ledger = ScriptedLedger::new();
    ledger.submit_script = vec![false, false, true];
    ledger.fetch_script.push(FetchScript::Bytes(encode_epoch_account(5, 1000, 1, 4)));
    let mut ex = executor(ledger);
    let mut state = task(5, EpochResultState::Active, 4);
    ex.execute(&mut state).unwrap();
    assert_eq!(ex.port.submits.len(), 3);
    assert_eq!(accepted_of(&ex.port.submits, ActionKind::Resolve), 1);
}

#[test]
fn retry_exhaustion_fails_the_tick() {
    let mut ledger = ScriptedLedger::new();
    ledger.submit_script = vec![false, false, false];
    let mut ex = executor(ledger);
    let mut state = task(5, EpochResultState::Active, 4);
    match ex.execute(&mut state) {
        Err(EngineError::Submission(_)) => {}
        other => panic!("expected a submission error, got {:?}", other),
    }
    assert_eq!(ex.port.submits.len(), 3);
    assert_eq!(accepted_of(&ex.port.submits, ActionKind::Resolve), 0);
    // No refresh was reached: the fetch script was never consulted.
    assert!(ex.port.fetches.is_empty());
}

#[test]
fn missing_account_on_refresh_is_fatal() {
    let mut ledger = ScriptedLedger::new();
    ledger.fetch_script.push(FetchScript::Missing);
    let mut ex = executor(ledger);
    let mut state = task(5, EpochResultState::Active, 4);
    match ex.execute(&mut state) {
        Err(EngineError::AccountMissing(a)) => assert_eq!(a.bytes.len(), 32),
        other => panic!("expected a missing account, got {:?}", other),
    }
}

#[test]
fn undecodable_account_on_refresh_is_fatal() {
    let mut ledger = ScriptedLedger::new();
    ledger.fetch_script.push(FetchScript::Bytes(vec![0u8; 7]));
    let mut ex = executor(ledger);
    let mut state = task(5, EpochResultState::Pending, 4);
    assert!(matches!(ex.execute(&mut state), Err(EngineError::Malformed(_))));
    // A failed refresh leaves the snapshot untouched.
    assert_eq!(state.epoch_result_state, EpochResultState::Pending);
    assert_eq!(state.end_at, 1000);
}

#[test]
fn fetch_fault_on_refresh_propagates() {
    let mut ledger = ScriptedLedger::new();
    ledger.fetch_script.push(FetchScript::Fault);
    let mut ex = executor(ledger);
    let mut state = task(5, EpochResultState::Pending, 4);
    assert!(matches!(ex.execute(&mut state), Err(EngineError::Ledger(_))));
}

#[test]
fn malformed_snapshot_is_rejected_before_acting() {
    let mut ex = executor(ScriptedLedger::new());
    let mut state = task(5, EpochResultState::Active, 4);
    state.program_id = Address { bytes: vec![9u8; 31] };
    assert_eq!(ex.execute(&mut state), Err(EngineError::Derivation));
    assert!(ex.port.submits.is_empty());
}

#[test]
fn refresh_targets_the_current_epoch_result_account() {
    let mut ledger = ScriptedLedger::new();
    ledger.fetch_script.push(FetchScript::Bytes(encode_epoch_account(5, 1000, 1, 4)));
    let mut ex = executor(ledger);
    let mut state = task(5, EpochResultState::Pending, 4);
    ex.execute(&mut state).unwrap();
    let program_key = Pubkey::new_from_array(PROGRAM);
    let epoch: u64 = 5;
    let (want, _) =
        Pubkey::find_program_address(&[b"epoch_result", &epoch.to_le_bytes()], &program_key);
    assert_eq!(ex.port.fetches.len(), 1);
    assert_eq!(ex.port.fetches[0].bytes, want.to_bytes().to_vec());
    assert_eq!(state.epoch_result_pda.bytes, want.to_bytes().to_vec());
}

#[test]
fn epoch_at_numeric_limit_is_refused() {
    let mut ex = executor(ScriptedLedger::new());
    let mut state = task(u64::MAX, EpochResultState::Resolved, 1);
    assert_eq!(ex.execute(&mut state), Err(EngineError::Derivation));
    assert!(ex.port.submits.is_empty());
    assert_eq!(state.epoch, u64::MAX);
}

#[test]
fn largest_pool_count_plans_every_pool() {
    let signer = Address { bytes: vec![8u8; 32] };
    let state = task(u64::MAX - 1, EpochResultState::Resolved, 255);
    let plan = build_advance_plan(&signer, &state).unwrap();
    assert_eq!(plan.accounts.len(), 4 + 255);
    let program_key = Pubkey::new_from_array(PROGRAM);
    let next_epoch = u64::MAX;
    let (want_last, _) = Pubkey::find_program_address(
        &[b"pool", &[254u8], &next_epoch.to_le_bytes()],
        &program_key,
    );
    assert_eq!(plan.accounts[4 + 254].address.bytes, want_last.to_bytes().to_vec());
}

#[test]
fn zero_pools_plan_has_only_fixed_accounts() {
    let signer = Address { bytes: vec![8u8; 32] };
    let state = task(5, EpochResultState::Active, 0);
    let plan = build_resolve_plan(&signer, &state).unwrap();
    assert_eq!(plan.accounts.len(), 7);
}
