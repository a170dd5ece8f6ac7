//! The domain state observed from the remote ledger.

use vstd::prelude::*;

verus! {

/// A 32-byte on-chain account address, held as plain bytes.
#[derive(Clone, Debug, PartialEq, Eq)]
pub struct Address {
    pub bytes: Vec<u8>,
}

impl View for Address {
    type V = Seq<u8>;

    open spec fn view(&self) -> Seq<u8> {
        self.bytes@
    }
}

impl Address {
    /// A well-formed address holds exactly 32 bytes.
    pub open spec fn wf(&self) -> bool {
        self.bytes@.len() == 32
    }

    /// An exact copy; unlike a derived `Clone`, its contract pins the bytes.
    pub fn dup(&self) -> (r: Address)
        ensures
            r@ == self@,
    {
        let mut b: Vec<u8> = Vec::new();
        let mut i: usize = 0;
        while i < self.bytes.len()
            invariant
                i <= self.bytes@.len(),
                b@ == self.bytes@.subrange(0, i as int),
            decreases self.bytes@.len() - i,
        {
            b.push(self.bytes[i]);
            i = i + 1;
        }
        proof {
            assert(b@ =~= self.bytes@);
        }
        Address { bytes: b }
    }

    /// Runtime check of well-formedness, for callers outside the proof.
    pub fn is_wf(&self) -> (r: bool)
        ensures
            r == self.wf(),
    {
        self.bytes.len() == 32
    }
}

/// How position weight is computed by the remote protocol.
#[derive(Clone, Copy, Debug, PartialEq, Eq, Structural)]
pub enum WeightModel {
    Constant,
    TimeBased,
}

/// Who resolves an epoch on the remote protocol.
#[derive(Clone, Copy, Debug, PartialEq, Eq, Structural)]
pub enum ResolutionType {
    Admin,
    Oracle,
}

/// The lifecycle state of an epoch's result, as the remote program reports it.
#[derive(Clone, Copy, Debug, PartialEq, Eq, Structural)]
pub enum EpochResultState {
    Active,
    Pending,
    Resolved,
}

/// The protocol configuration account, decoded from its on-chain bytes.
#[derive(Clone, Debug, PartialEq, Eq)]
pub struct ConfigAccount {
    pub _admin: Address,
    pub _resolver: Address,
    pub current_epoch: u64,
    pub _total_positions_minted: u64,
    pub _position_price: u64,
    pub _remaining_total_position: u64,
    pub _allowed_mint: Address,
    pub _treasury_ata: Address,
    pub _weight_model: WeightModel,
    pub _resolution_type: ResolutionType,
    pub _epoch_duration: i64,
}

/// The per-epoch result account, decoded from its on-chain bytes.
#[derive(Clone, Debug, PartialEq, Eq)]
pub struct EpochAccount {
    pub _epoch: u64,
    pub _weight: u64,
    pub _total_position_amount: u64,
    pub end_at: i64,
    pub _winning_pool_id: u8,
    pub epoch_result_state: EpochResultState,
    pub pool_count: u8,
    pub _pool_weights: Vec<u64>,
}

/// The keeper's snapshot of the accounts it acts on: identifiers of the
/// remote accounts, the current epoch, its deadline and result state.
#[derive(Clone, Debug, PartialEq, Eq)]
pub struct TaskAccount {
    pub config_pda: Address,
    pub epoch_result_pda: Address,
    pub program_id: Address,
    pub epoch: u64,
    pub end_at: i64,
    pub epoch_result_state: EpochResultState,
    pub pool_count: u8,
    pub custom_pda: Option<Address>,
}

impl TaskAccount {
    /// Every address the snapshot holds is 32 bytes.
    pub open spec fn wf(&self) -> bool {
        &&& self.config_pda.wf()
        &&& self.epoch_result_pda.wf()
        &&& self.program_id.wf()
        &&& (self.custom_pda matches Some(a) ==> a.wf())
    }

    /// Runtime check of well-formedness, for callers outside the proof.
    pub fn is_wf(&self) -> (r: bool)
        ensures
            r == self.wf(),
    {
        self.config_pda.is_wf() && self.epoch_result_pda.is_wf() && self.program_id.is_wf()
            && (match &self.custom_pda {
            Some(a) => a.is_wf(),
            None => true,
        })
    }
}

} // verus!
