use epoch_keeper::codec::{decode_config_account, decode_epoch_account, DecodeError,
    CONFIG_ACCOUNT_LEN, EPOCH_ACCOUNT_LEN};
use epoch_keeper::state::{EpochResultState, ResolutionType, WeightModel};

fn encode_epoch_account(epoch: u64, end_at: i64, state_tag: u8, pool_count: u8) -> Vec<u8> {
    let mut d = vec![0u8; 8];
    d.extend_from_slice(&epoch.to_le_bytes());
    d.extend_from_slice(&77u64.to_le_bytes());
    d.extend_from_slice(&99u64.to_le_bytes());
    d.extend_from_slice(&end_at.to_le_bytes());
    d.push(2);
    d.push(state_tag);
    d.push(pool_count);
    for i in 0..10u64 {
        d.extend_from_slice(&(i * 3).to_le_bytes());
    }
    assert_eq!(d.len(), EPOCH_ACCOUNT_LEN);
    d
}

#[test]
fn epoch_account_fields_decode() {
    let bytes = encode_epoch_account(5, 1000, 0, 4);
    let a = decode_epoch_account(&bytes).unwrap();
    assert_eq!(a._epoch, 5);
    assert_eq!(a._weight, 77);
    assert_eq!(a._total_position_amount, 99);
    assert_eq!(a.end_at, 1000);
    assert_eq!(a._winning_pool_id, 2);
    assert_eq!(a.epoch_result_state, EpochResultState::Active);
    assert_eq!(a.pool_count, 4);
    assert_eq!(a._pool_weights, vec![0, 3, 6, 9, 12, 15, 18, 21, 24, 27]);
}

#[test]
fn epoch_account_state_tags() {
    for (tag, want) in [
        (0u8, EpochResultState::Active),
        (1, EpochResultState::Pending),
        (2, EpochResultState::Resolved),
    ] {
        let bytes = encode_epoch_account(1, 10, tag, 0);
        assert_eq!(decode_epoch_account(&bytes).unwrap().epoch_result_state, want);
    }
}

#[test]
fn epoch_account_negative_deadline() {
    let bytes = encode_epoch_account(1, -42, 2, 1);
    assert_eq!(decode_epoch_account(&bytes).unwrap().end_at, -42);
}

#[test]
fn epoch_account_wrong_length() {
    let mut bytes = encode_epoch_account(1, 10, 0, 0);
    bytes.pop();
    assert_eq!(decode_epoch_account(&bytes), Err(DecodeError::WrongLength));
    assert_eq!(decode_epoch_account(&vec![]), Err(DecodeError::WrongLength));
}

#[test]
fn epoch_account_invalid_tag() {
    let bytes = encode_epoch_account(1, 10, 3, 0);
    assert_eq!(decode_epoch_account(&bytes), Err(DecodeError::InvalidTag));
}

fn encode_config_account(current_epoch: u64, weight_tag: u8, resolution_tag: u8) -> Vec<u8> {
    let mut d = vec![0u8; 8];
    d.extend_from_slice(&[1u8; 32]);
    d.extend_from_slice(&[2u8; 32]);
    d.extend_from_slice(&current_epoch.to_le_bytes());
    d.extend_from_slice(&10u64.to_le_bytes());
    d.extend_from_slice(&11u64.to_le_bytes());
    d.extend_from_slice(&12u64.to_le_bytes());
    d.extend_from_slice(&[3u8; 32]);
    d.extend_from_slice(&[4u8; 32]);
    d.push(weight_tag);
    d.push(resolution_tag);
    d.extend_from_slice(&86400i64.to_le_bytes());
    assert_eq!(d.len(), CONFIG_ACCOUNT_LEN);
    d
}

#[test]
fn config_account_fields_decode() {
    let bytes = encode_config_account(7, 1, 0);
    let c = decode_config_account(&bytes).unwrap();
    assert_eq!(c._admin.bytes, vec![1u8; 32]);
    assert_eq!(c._resolver.bytes, vec![2u8; 32]);
    assert_eq!(c.current_epoch, 7);
    assert_eq!(c._total_positions_minted, 10);
    assert_eq!(c._position_price, 11);
    assert_eq!(c._remaining_total_position, 12);
    assert_eq!(c._allowed_mint.bytes, vec![3u8; 32]);
    assert_eq!(c._treasury_ata.bytes, vec![4u8; 32]);
    assert_eq!(c._weight_model, WeightModel::TimeBased);
    assert_eq!(c._resolution_type, ResolutionType::Admin);
    assert_eq!(c._epoch_duration, 86400);
}

#[test]
fn config_account_wrong_length() {
    let mut bytes = encode_config_account(7, 0, 0);
    bytes.push(0);
    assert_eq!(decode_config_account(&bytes), Err(DecodeError::WrongLength));
}

#[test]
fn config_account_invalid_tag() {
    assert_eq!(decode_config_account(&encode_config_account(7, 2, 0)), Err(DecodeError::InvalidTag));
    assert_eq!(decode_config_account(&encode_config_account(7, 0, 5)), Err(DecodeError::InvalidTag));
}
