use epoch_keeper::instruction::calculate_discriminator;
use epoch_keeper::pda::{config_address, epoch_result_address, identity_address, pool_address};
use epoch_keeper::state::Address;
use sha2::{Digest, Sha256};
use solana_pubkey::Pubkey;

fn addr(bytes: [u8; 32]) -> Address {
    Address { bytes: bytes.to_vec() }
}

#[test]
fn discriminator_matches_sha256() {
    for name in ["global:resolve", "global:initialize_pool", "global:other"] {
        let preimage: Vec<u8> = name.as_bytes().to_vec();
        let got = calculate_discriminator(&preimage);
        let digest = Sha256::digest(name.as_bytes());
        assert_eq!(got.as_slice(), &digest[..8]);
    }
}

#[test]
fn epoch_result_derivation_matches_ledger() {
    let program = addr([9u8; 32]);
    let epoch: u64 = 5;
    let got = epoch_result_address(&program, epoch).unwrap();
    let program_key = Pubkey::new_from_array([9u8; 32]);
    let (want, _bump) =
        Pubkey::find_program_address(&[b"epoch_result", &epoch.to_le_bytes()], &program_key);
    assert_eq!(got.bytes, want.to_bytes().to_vec());
}

#[test]
fn pool_derivation_matches_ledger() {
    let program = addr([7u8; 32]);
    let epoch: u64 = 6;
    for index in 0u8..4 {
        let got = pool_address(&program, index, epoch).unwrap();
        let program_key = Pubkey::new_from_array([7u8; 32]);
        let (want, _bump) = Pubkey::find_program_address(
            &[b"pool", &[index], &epoch.to_le_bytes()],
            &program_key,
        );
        assert_eq!(got.bytes, want.to_bytes().to_vec());
    }
}

#[test]
fn config_and_identity_derivation_match_ledger() {
    let program = addr([3u8; 32]);
    let program_key = Pubkey::new_from_array([3u8; 32]);
    let got = config_address(&program).unwrap();
    let (want, _bump) = Pubkey::find_program_address(&[b"config"], &program_key);
    assert_eq!(got.bytes, want.to_bytes().to_vec());
    let got = identity_address(&program).unwrap();
    let (want, _bump) = Pubkey::find_program_address(&[b"identity"], &program_key);
    assert_eq!(got.bytes, want.to_bytes().to_vec());
}

#[test]
fn derivation_is_deterministic() {
    // A fixed linear-congruential generator drives the inputs, so the run is
    // reproducible; every derivation is repeated and must be byte-identical.
    let mut seed: u64 = 0x2545F4914F6CDD1D;
    let mut next = move || {
        seed = seed.wrapping_mul(6364136223846793005).wrapping_add(1442695040888963407);
        seed
    };
    for _ in 0..1000 {
        let epoch = next();
        let mut program_bytes = [0u8; 32];
        for chunk in program_bytes.chunks_mut(8) {
            chunk.copy_from_slice(&next().to_le_bytes());
        }
        let program = addr(program_bytes);
        let first = epoch_result_address(&program, epoch);
        let second = epoch_result_address(&program, epoch);
        assert!(first.is_some());
        assert_eq!(
            first.as_ref().map(|a| a.bytes.clone()),
            second.as_ref().map(|a| a.bytes.clone())
        );
    }
}

#[test]
fn fixed_account_constants_match_their_known_addresses() {
    // The resolve plan embeds three fixed addresses: the system program, the
    // randomness provider's program and the slot-hashes sysvar. Pin each
    // byte constant to the address it claims to be.
    let program = addr([5u8; 32]);
    let state = epoch_keeper::state::TaskAccount {
        config_pda: addr([1u8; 32]),
        epoch_result_pda: addr([2u8; 32]),
        program_id: program,
        epoch: 5,
        end_at: 1000,
        epoch_result_state: epoch_keeper::state::EpochResultState::Active,
        pool_count: 0,
        custom_pda: None,
    };
    let signer = addr([8u8; 32]);
    let plan = epoch_keeper::instruction::build_resolve_plan(&signer, &state).unwrap();
    assert_eq!(plan.accounts.len(), 7);
    assert_eq!(
        plan.accounts[3].address.bytes,
        solana_sdk_ids::system_program::ID.to_bytes().to_vec()
    );
    let vrf: Pubkey = "Vrf1RNUjXmQGjmQrQLvJHs9SNkvDJEsRVFPkfSQUwGz".parse().unwrap();
    assert_eq!(plan.accounts[5].address.bytes, vrf.to_bytes().to_vec());
    let slot_hashes: Pubkey = "SysvarS1otHashes111111111111111111111111111".parse().unwrap();
    assert_eq!(plan.accounts[6].address.bytes, slot_hashes.to_bytes().to_vec());
}
