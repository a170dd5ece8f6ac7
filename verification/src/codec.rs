//! Fixed-layout decoding of the remote accounts.
//!
//! Account bytes are framed as an 8-byte owner discriminator (ignored here)
//! followed by a little-endian encoding of the typed fields, positionally,
//! with enums encoded as a leading variant index byte.

use vstd::prelude::*;
use vstd::bytes::*;
use vstd::slice::slice_subrange;
use crate::state::{Address, ConfigAccount, EpochAccount, EpochResultState, ResolutionType,
    WeightModel};

verus! {

/// Why account bytes could not be decoded.
#[derive(Clone, Copy, Debug, PartialEq, Eq, Structural)]
pub enum DecodeError {
    /// The byte length does not match the account's fixed layout.
    WrongLength,
    /// An enum field holds a variant index that the type does not have.
    InvalidTag,
}

/// Length of an epoch-result account: the 8-byte prefix and 115 field bytes.
pub const EPOCH_ACCOUNT_LEN: usize = 123;

/// Length of the configuration account: the 8-byte prefix and 170 field bytes.
pub const CONFIG_ACCOUNT_LEN: usize = 178;

/// A signed 64-bit little-endian value: the unsigned value, reinterpreted in
/// two's complement.
pub open spec fn spec_i64_from_le_bytes(s: Seq<u8>) -> i64
    recommends
        s.len() == 8,
{
    spec_u64_from_le_bytes(s) as i64
}

/// The epoch result state that a variant index byte denotes.
pub open spec fn epoch_state_of_tag(tag: u8) -> EpochResultState
    recommends
        tag <= 2,
{
    if tag == 0 {
        EpochResultState::Active
    } else if tag == 1 {
        EpochResultState::Pending
    } else {
        EpochResultState::Resolved
    }
}

/// The weight model that a variant index byte denotes.
pub open spec fn weight_model_of_tag(tag: u8) -> WeightModel
    recommends
        tag <= 1,
{
    if tag == 0 {
        WeightModel::Constant
    } else {
        WeightModel::TimeBased
    }
}

/// The resolution type that a variant index byte denotes.
pub open spec fn resolution_type_of_tag(tag: u8) -> ResolutionType
    recommends
        tag <= 1,
{
    if tag == 0 {
        ResolutionType::Admin
    } else {
        ResolutionType::Oracle
    }
}

/// Reads the 32 address bytes at `off`.
fn read_address(data: &Vec<u8>, off: usize) -> (r: Address)
    requires
        off + 32 <= data@.len(),
    ensures
        r@ == data@.subrange(off as int, off as int + 32),
        r.wf(),
{
    let n = data.len();
    let mut b: Vec<u8> = Vec::new();
    let mut i: usize = 0;
    while i < 32
        invariant
            i <= 32,
            off + 32 <= n == data@.len(),
            b@ == data@.subrange(off as int, off as int + i as int),
        decreases 32 - i,
    {
        b.push(data[off + i]);
        i = i + 1;
    }
    Address { bytes: b }
}

/// Reads the little-endian `u64` at `off`.
fn read_u64(data: &Vec<u8>, off: usize) -> (r: u64)
    requires
        off + 8 <= data@.len(),
    ensures
        r == spec_u64_from_le_bytes(data@.subrange(off as int, off as int + 8)),
{
    let n = data.len();
    proof {
        assert(off + 8 <= n);
    }
    u64_from_le_bytes(slice_subrange(data.as_slice(), off, off + 8))
}

/// Reads the little-endian `i64` at `off`.
fn read_i64(data: &Vec<u8>, off: usize) -> (r: i64)
    requires
        off + 8 <= data@.len(),
    ensures
        r == spec_i64_from_le_bytes(data@.subrange(off as int, off as int + 8)),
{
    read_u64(data, off) as i64
}

/// Decodes an epoch-result account from its full on-chain bytes.
///
/// Succeeds exactly on inputs of the fixed length whose result-state byte is
/// a known variant index; every field of the result is pinned to its bytes.
pub fn decode_epoch_account(data: &Vec<u8>) -> (r: Result<EpochAccount, DecodeError>)
    ensures
        r is Ok <==> (data@.len() == EPOCH_ACCOUNT_LEN && data@[41] <= 2),
        (r matches Err(DecodeError::WrongLength)) <==> data@.len() != EPOCH_ACCOUNT_LEN,
        (r matches Err(DecodeError::InvalidTag)) <==> (data@.len() == EPOCH_ACCOUNT_LEN
            && data@[41] > 2),
        r matches Ok(a) ==> ({
            &&& a._epoch == spec_u64_from_le_bytes(data@.subrange(8, 16))
            &&& a._weight == spec_u64_from_le_bytes(data@.subrange(16, 24))
            &&& a._total_position_amount == spec_u64_from_le_bytes(data@.subrange(24, 32))
            &&& a.end_at == spec_i64_from_le_bytes(data@.subrange(32, 40))
            &&& a._winning_pool_id == data@[40]
            &&& a.epoch_result_state == epoch_state_of_tag(data@[41])
            &&& a.pool_count == data@[42]
            &&& a._pool_weights@.len() == 10
            &&& forall|i: int|
                0 <= i < 10 ==> a._pool_weights@[i] == spec_u64_from_le_bytes(
                    data@.subrange(43 + 8 * i, 51 + 8 * i),
                )
        }),
{
    if data.len() != EPOCH_ACCOUNT_LEN {
        return Err(DecodeError::WrongLength);
    }
    let tag = data[41];
    if tag > 2 {
        return Err(DecodeError::InvalidTag);
    }
    let epoch_result_state = if tag == 0 {
        EpochResultState::Active
    } else if tag == 1 {
        EpochResultState::Pending
    } else {
        EpochResultState::Resolved
    };
    let mut weights: Vec<u64> = Vec::new();
    let mut i: usize = 0;
    while i < 10
        invariant
            i <= 10,
            data@.len() == EPOCH_ACCOUNT_LEN,
            weights@.len() == i,
            forall|j: int|
                0 <= j < i ==> weights@[j] == spec_u64_from_le_bytes(
                    data@.subrange(43 + 8 * j, 51 + 8 * j),
                ),
        decreases 10 - i,
    {
        weights.push(read_u64(data, 43 + 8 * i));
        i = i + 1;
    }
    Ok(EpochAccount {
        _epoch: read_u64(data, 8),
        _weight: read_u64(data, 16),
        _total_position_amount: read_u64(data, 24),
        end_at: read_i64(data, 32),
        _winning_pool_id: data[40],
        epoch_result_state,
        pool_count: data[42],
        _pool_weights: weights,
    })
}

/// Decodes the configuration account from its full on-chain bytes.
///
/// Succeeds exactly on inputs of the fixed length whose two variant index
/// bytes are known; every field of the result is pinned to its bytes.
pub fn decode_config_account(data: &Vec<u8>) -> (r: Result<ConfigAccount, DecodeError>)
    ensures
        r is Ok <==> (data@.len() == CONFIG_ACCOUNT_LEN && data@[168] <= 1 && data@[169] <= 1),
        (r matches Err(DecodeError::WrongLength)) <==> data@.len() != CONFIG_ACCOUNT_LEN,
        (r matches Err(DecodeError::InvalidTag)) <==> (data@.len() == CONFIG_ACCOUNT_LEN
            && (data@[168] > 1 || data@[169] > 1)),
        r matches Ok(c) ==> ({
            &&& c._admin@ == data@.subrange(8, 40)
            &&& c._resolver@ == data@.subrange(40, 72)
            &&& c.current_epoch == spec_u64_from_le_bytes(data@.subrange(72, 80))
            &&& c._total_positions_minted == spec_u64_from_le_bytes(data@.subrange(80, 88))
            &&& c._position_price == spec_u64_from_le_bytes(data@.subrange(88, 96))
            &&& c._remaining_total_position == spec_u64_from_le_bytes(data@.subrange(96, 104))
            &&& c._allowed_mint@ == data@.subrange(104, 136)
            &&& c._treasury_ata@ == data@.subrange(136, 168)
            &&& c._weight_model == weight_model_of_tag(data@[168])
            &&& c._resolution_type == resolution_type_of_tag(data@[169])
            &&& c._epoch_duration == spec_i64_from_le_bytes(data@.subrange(170, 178))
        }),
{
    if data.len() != CONFIG_ACCOUNT_LEN {
        return Err(DecodeError::WrongLength);
    }
    let weight_tag = data[168];
    let resolution_tag = data[169];
    if weight_tag > 1 || resolution_tag > 1 {
        return Err(DecodeError::InvalidTag);
    }
    let _weight_model = if weight_tag == 0 {
        WeightModel::Constant
    } else {
        WeightModel::TimeBased
    };
    let _resolution_type = if resolution_tag == 0 {
        ResolutionType::Admin
    } else {
        ResolutionType::Oracle
    };
    Ok(ConfigAccount {
        _admin: read_address(data, 8),
        _resolver: read_address(data, 40),
        current_epoch: read_u64(data, 72),
        _total_positions_minted: read_u64(data, 80),
        _position_price: read_u64(data, 88),
        _remaining_total_position: read_u64(data, 96),
        _allowed_mint: read_address(data, 104),
        _treasury_ata: read_address(data, 136),
        _weight_model,
        _resolution_type,
        _epoch_duration: read_i64(data, 170),
    })
}

} // verus!
