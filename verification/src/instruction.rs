//! Planning of the on-chain actions.
//!
//! An action's wire payload is a fixed 8-byte identifier — a domain-separated
//! hash of a namespace string and an action name, truncated to 8 bytes —
//! followed by the action's arguments in a fixed byte order. The account
//! list of each action mirrors the remote program's expected layout exactly;
//! both are a wire contract, not an implementation detail.

use vstd::prelude::*;
use crate::engine::EngineError;
use crate::pda::{epoch_result_address, epoch_result_seeds, identity_address, identity_seeds,
    pda_of, pool_address, pool_seeds};
use crate::state::{Address, TaskAccount};

verus! {

/// The 32-byte digest that SHA-256 assigns to the bytes; what it is, only
/// the outside hash defines.
pub uninterp spec fn sha256_of(data: Seq<u8>) -> Seq<u8>;

/// Relies on `sha2::Sha256`: the digest is a function of the input bytes
/// alone, and is 32 bytes long.
#[verifier::external_body]
fn sha256(data: &Vec<u8>) -> (r: Vec<u8>)
    ensures
        r@ == sha256_of(data@),
        r@.len() == 32,
{
    <sha2::Sha256 as sha2::Digest>::digest(data.as_slice()).to_vec()
}

/// An action's 8-byte identifier: the SHA-256 digest of its namespaced name,
/// truncated to 8 bytes.
pub open spec fn discriminator_of(preimage: Seq<u8>) -> Seq<u8> {
    sha256_of(preimage).subrange(0, 8)
}

/// The preimage bytes `b"global:resolve"`.
pub open spec fn resolve_preimage() -> Seq<u8> {
    seq![103u8, 108u8, 111u8, 98u8, 97u8, 108u8, 58u8, 114u8, 101u8, 115u8, 111u8, 108u8, 118u8,
        101u8]
}

/// The preimage bytes `b"global:initialize_pool"`.
pub open spec fn advance_preimage() -> Seq<u8> {
    seq![103u8, 108u8, 111u8, 98u8, 97u8, 108u8, 58u8, 105u8, 110u8, 105u8, 116u8, 105u8, 97u8,
        108u8, 105u8, 122u8, 101u8, 95u8, 112u8, 111u8, 111u8, 108u8]
}

fn resolve_preimage_bytes() -> (v: Vec<u8>)
    ensures
        v@ == resolve_preimage(),
{
    let mut v: Vec<u8> = Vec::new();
    v.push(103u8);
    v.push(108u8);
    v.push(111u8);
    v.push(98u8);
    v.push(97u8);
    v.push(108u8);
    v.push(58u8);
    v.push(114u8);
    v.push(101u8);
    v.push(115u8);
    v.push(111u8);
    v.push(108u8);
    v.push(118u8);
    v.push(101u8);
    proof {
        assert(v@ =~= resolve_preimage());
    }
    v
}

fn advance_preimage_bytes() -> (v: Vec<u8>)
    ensures
        v@ == advance_preimage(),
{
    let mut v: Vec<u8> = Vec::new();
    v.push(103u8);
    v.push(108u8);
    v.push(111u8);
    v.push(98u8);
    v.push(97u8);
    v.push(108u8);
    v.push(58u8);
    v.push(105u8);
    v.push(110u8);
    v.push(105u8);
    v.push(116u8);
    v.push(105u8);
    v.push(97u8);
    v.push(108u8);
    v.push(105u8);
    v.push(122u8);
    v.push(101u8);
    v.push(95u8);
    v.push(112u8);
    v.push(111u8);
    v.push(111u8);
    v.push(108u8);
    proof {
        assert(v@ =~= advance_preimage());
    }
    v
}

/// Computes an action's 8-byte identifier from its namespaced name.
pub fn calculate_discriminator(preimage: &Vec<u8>) -> (r: Vec<u8>)
    ensures
        r@ == discriminator_of(preimage@),
        r@.len() == 8,
{
    let digest = sha256(preimage);
    let mut r: Vec<u8> = Vec::new();
    let mut i: usize = 0;
    while i < 8
        invariant
            i <= 8,
            digest@ == sha256_of(preimage@),
            digest@.len() == 32,
            r@ == sha256_of(preimage@).subrange(0, i as int),
        decreases 8 - i,
    {
        r.push(digest[i]);
        proof {
            assert(sha256_of(preimage@).subrange(0, i as int).push(digest@[i as int]) =~= sha256_of(
                preimage@,
            ).subrange(0, i as int + 1));
        }
        i = i + 1;
    }
    r
}

/// The payload of the "resolve" action: its identifier, then one zero
/// argument byte.
pub open spec fn resolve_instruction_data() -> Seq<u8> {
    discriminator_of(resolve_preimage()).push(0u8)
}

/// The payload of the "advance epoch" action: its identifier, then one fixed
/// argument byte.
pub open spec fn advance_instruction_data() -> Seq<u8> {
    discriminator_of(advance_preimage()).push(4u8)
}

/// One account in an action's account list.
#[derive(Clone, Debug, PartialEq, Eq)]
pub struct AccountSpec {
    pub address: Address,
    pub is_signer: bool,
    pub is_writable: bool,
}

/// A fully planned action: the program to invoke, its account list in wire
/// order, and its payload bytes.
#[derive(Clone, Debug, PartialEq, Eq)]
pub struct InstructionPlan {
    pub program: Address,
    pub accounts: Vec<AccountSpec>,
    pub data: Vec<u8>,
}

/// Which of the two on-chain actions a submission carries.
#[derive(Clone, Copy, Debug, PartialEq, Eq, Structural)]
pub enum ActionKind {
    Resolve,
    AdvanceEpoch,
}

/// The account entry holds the given address with the given flags.
pub open spec fn acct_is(a: AccountSpec, addr: Seq<u8>, signer: bool, writable: bool) -> bool {
    &&& a.address@ == addr
    &&& a.is_signer == signer
    &&& a.is_writable == writable
}

/// The system program's address: 32 zero bytes.
pub open spec fn system_program_id() -> Seq<u8> {
    Seq::new(32, |i: int| 0u8)
}

fn system_program_bytes() -> (r: Address)
    ensures
        r@ == system_program_id(),
        r.wf(),
{
    let mut v: Vec<u8> = Vec::new();
    let mut i: usize = 0;
    while i < 32
        invariant
            i <= 32,
            v@ =~= Seq::new(i as nat, |j: int| 0u8),
        decreases 32 - i,
    {
        v.push(0u8);
        i = i + 1;
    }
    proof {
        assert(v@ =~= system_program_id());
    }
    Address { bytes: v }
}

/// The randomness provider's program address
/// (`Vrf1RNUjXmQGjmQrQLvJHs9SNkvDJEsRVFPkfSQUwGz`).
pub open spec fn vrf_program_id() -> Seq<u8> {
    seq![7u8, 100u8, 104u8, 119u8, 200u8, 241u8, 253u8, 43u8, 158u8, 185u8, 243u8, 92u8, 234u8,
        235u8, 93u8, 25u8, 63u8, 162u8, 158u8, 196u8, 92u8, 7u8, 181u8, 101u8, 242u8, 27u8, 167u8,
        177u8, 39u8, 172u8, 247u8, 127u8]
}

fn vrf_program_bytes() -> (r: Address)
    ensures
        r@ == vrf_program_id(),
        r.wf(),
{
    let mut v: Vec<u8> = Vec::new();
    v.push(7u8);
    v.push(100u8);
    v.push(104u8);
    v.push(119u8);
    v.push(200u8);
    v.push(241u8);
    v.push(253u8);
    v.push(43u8);
    v.push(158u8);
    v.push(185u8);
    v.push(243u8);
    v.push(92u8);
    v.push(234u8);
    v.push(235u8);
    v.push(93u8);
    v.push(25u8);
    v.push(63u8);
    v.push(162u8);
    v.push(158u8);
    v.push(196u8);
    v.push(92u8);
    v.push(7u8);
    v.push(181u8);
    v.push(101u8);
    v.push(242u8);
    v.push(27u8);
    v.push(167u8);
    v.push(177u8);
    v.push(39u8);
    v.push(172u8);
    v.push(247u8);
    v.push(127u8);
    proof {
        assert(v@ =~= vrf_program_id());
    }
    Address { bytes: v }
}

/// The slot-hashes sysvar address
/// (`SysvarS1otHashes111111111111111111111111111`).
pub open spec fn slot_hashes_sysvar_id() -> Seq<u8> {
    seq![6u8, 167u8, 213u8, 23u8, 25u8, 47u8, 10u8, 175u8, 198u8, 242u8, 101u8, 227u8, 251u8,
        119u8, 204u8, 122u8, 218u8, 130u8, 197u8, 41u8, 208u8, 190u8, 59u8, 19u8, 110u8, 45u8,
        0u8, 85u8, 32u8, 0u8, 0u8, 0u8]
}

fn slot_hashes_sysvar_bytes() -> (r: Address)
    ensures
        r@ == slot_hashes_sysvar_id(),
        r.wf(),
{
    let mut v: Vec<u8> = Vec::new();
    v.push(6u8);
    v.push(167u8);
    v.push(213u8);
    v.push(23u8);
    v.push(25u8);
    v.push(47u8);
    v.push(10u8);
    v.push(175u8);
    v.push(198u8);
    v.push(242u8);
    v.push(101u8);
    v.push(227u8);
    v.push(251u8);
    v.push(119u8);
    v.push(204u8);
    v.push(122u8);
    v.push(218u8);
    v.push(130u8);
    v.push(197u8);
    v.push(41u8);
    v.push(208u8);
    v.push(190u8);
    v.push(59u8);
    v.push(19u8);
    v.push(110u8);
    v.push(45u8);
    v.push(0u8);
    v.push(85u8);
    v.push(32u8);
    v.push(0u8);
    v.push(0u8);
    v.push(0u8);
    proof {
        assert(v@ =~= slot_hashes_sysvar_id());
    }
    Address { bytes: v }
}

/// Appends the `count` pool accounts of `epoch`, in index order.
fn push_pool_accounts(
    accounts: &mut Vec<AccountSpec>,
    program: &Address,
    epoch: u64,
    count: u8,
) -> (r: Result<(), EngineError>)
    requires
        program.wf(),
    ensures
        r is Ok ==> ({
            &&& final(accounts)@.len() == old(accounts)@.len() + count as int
            &&& (forall|j: int|
                0 <= j < old(accounts)@.len() ==> final(accounts)@[j] == old(accounts)@[j])
            &&& (forall|i: int|
                0 <= i < count as int ==> ((#[trigger] pda_of(pool_seeds(i, epoch), program@))
                    matches Some(pp) && acct_is(
                    final(accounts)@[old(accounts)@.len() + i],
                    pp,
                    false,
                    true,
                )))
        }),
        r is Err ==> ((r matches Err(EngineError::Derivation)) && (exists|i: int|
            0 <= i < count as int && (#[trigger] pda_of(pool_seeds(i, epoch), program@)) is None)),
{
    let mut i: u8 = 0;
    while i < count
        invariant
            i <= count,
            program.wf(),
            accounts@.len() == old(accounts)@.len() + i as int,
            forall|j: int| 0 <= j < old(accounts)@.len() ==> accounts@[j] == old(accounts)@[j],
            forall|k: int|
                0 <= k < i as int ==> ((#[trigger] pda_of(pool_seeds(k, epoch), program@))
                    matches Some(pp) && acct_is(
                    accounts@[old(accounts)@.len() + k],
                    pp,
                    false,
                    true,
                )),
        decreases count - i,
    {
        match pool_address(program, i, epoch) {
            Some(a) => {
                accounts.push(AccountSpec { address: a, is_signer: false, is_writable: true });
            },
            None => {
                return Err(EngineError::Derivation);
            },
        }
        i = i + 1;
    }
    Ok(())
}

/// Number of fixed accounts ahead of the pool accounts in a "resolve" plan.
pub open spec fn resolve_base_len(state: TaskAccount) -> int {
    if state.custom_pda is Some {
        8
    } else {
        7
    }
}

/// Plans the "resolve" action for the current epoch.
///
/// The account list is, in order: the signer, the configuration account, the
/// epoch's result account, the auxiliary account when one is configured, the
/// system program, the program's identity address, the randomness provider,
/// the slot-hashes sysvar, and one account per pool of the current epoch.
pub fn build_resolve_plan(signer: &Address, state: &TaskAccount) -> (r: Result<
    InstructionPlan,
    EngineError,
>)
    requires
        signer.wf(),
        state.wf(),
    ensures
        r matches Ok(p) ==> ({
            let base = resolve_base_len(*state);
            &&& p.program@ == state.program_id@
            &&& p.data@ == resolve_instruction_data()
            &&& p.data@.len() == 9
            &&& p.accounts@.len() == base + state.pool_count as int
            &&& acct_is(p.accounts@[0], signer@, true, true)
            &&& acct_is(p.accounts@[1], state.config_pda@, false, true)
            &&& acct_is(p.accounts@[2], state.epoch_result_pda@, false, true)
            &&& (state.custom_pda matches Some(c) ==> acct_is(p.accounts@[3], c@, false, true))
            &&& acct_is(p.accounts@[base - 4], system_program_id(), false, true)
            &&& (pda_of(identity_seeds(), state.program_id@) matches Some(idp) && acct_is(
                p.accounts@[base - 3],
                idp,
                false,
                false,
            ))
            &&& acct_is(p.accounts@[base - 2], vrf_program_id(), false, false)
            &&& acct_is(p.accounts@[base - 1], slot_hashes_sysvar_id(), false, false)
            &&& (forall|i: int|
                0 <= i < state.pool_count as int ==> ((#[trigger] pda_of(
                    pool_seeds(i, state.epoch),
                    state.program_id@,
                )) matches Some(pp) && acct_is(p.accounts@[base + i], pp, false, true)))
        }),
        r is Err ==> r matches Err(EngineError::Derivation),
        r is Err ==> pda_of(identity_seeds(), state.program_id@) is None || (exists|i: int|
            0 <= i < state.pool_count as int && (#[trigger] pda_of(
                pool_seeds(i, state.epoch),
                state.program_id@,
            )) is None),
{
    let preimage = resolve_preimage_bytes();
    let mut data = calculate_discriminator(&preimage);
    data.push(0u8);
    let mut accounts: Vec<AccountSpec> = Vec::new();
    accounts.push(AccountSpec { address: signer.dup(), is_signer: true, is_writable: true });
    accounts.push(
        AccountSpec { address: state.config_pda.dup(), is_signer: false, is_writable: true },
    );
    accounts.push(
        AccountSpec { address: state.epoch_result_pda.dup(), is_signer: false, is_writable: true },
    );
    match &state.custom_pda {
        Some(c) => {
            accounts.push(AccountSpec { address: c.dup(), is_signer: false, is_writable: true });
        },
        None => {},
    }
    accounts.push(
        AccountSpec { address: system_program_bytes(), is_signer: false, is_writable: true },
    );
    let identity = match identity_address(&state.program_id) {
        Some(a) => a,
        None => {
            return Err(EngineError::Derivation);
        },
    };
    accounts.push(AccountSpec { address: identity, is_signer: false, is_writable: false });
    accounts.push(
        AccountSpec { address: vrf_program_bytes(), is_signer: false, is_writable: false },
    );
    accounts.push(
        AccountSpec { address: slot_hashes_sysvar_bytes(), is_signer: false, is_writable: false },
    );
    match push_pool_accounts(&mut accounts, &state.program_id, state.epoch, state.pool_count) {
        Ok(()) => {},
        Err(e) => {
            return Err(e);
        },
    }
    Ok(InstructionPlan { program: state.program_id.dup(), accounts, data })
}

/// Plans the "advance epoch" action, initializing the next epoch's accounts.
///
/// The account list is, in order: the signer, the configuration account, the
/// next epoch's result account, the system program, and one account per pool
/// of the next epoch.
pub fn build_advance_plan(signer: &Address, state: &TaskAccount) -> (r: Result<
    InstructionPlan,
    EngineError,
>)
    requires
        signer.wf(),
        state.wf(),
        state.epoch < u64::MAX,
    ensures
        r matches Ok(p) ==> ({
            let next = (state.epoch + 1) as u64;
            &&& p.program@ == state.program_id@
            &&& p.data@ == advance_instruction_data()
            &&& p.data@.len() == 9
            &&& p.accounts@.len() == 4 + state.pool_count as int
            &&& acct_is(p.accounts@[0], signer@, true, true)
            &&& acct_is(p.accounts@[1], state.config_pda@, false, true)
            &&& (pda_of(epoch_result_seeds(next), state.program_id@) matches Some(e) && acct_is(
                p.accounts@[2],
                e,
                false,
                true,
            ))
            &&& acct_is(p.accounts@[3], system_program_id(), false, true)
            &&& (forall|i: int|
                0 <= i < state.pool_count as int ==> ((#[trigger] pda_of(
                    pool_seeds(i, next),
                    state.program_id@,
                )) matches Some(pp) && acct_is(p.accounts@[4 + i], pp, false, true)))
        }),
        r is Err ==> r matches Err(EngineError::Derivation),
        r is Err ==> pda_of(epoch_result_seeds((state.epoch + 1) as u64), state.program_id@)
            is None || (exists|i: int|
            0 <= i < state.pool_count as int && (#[trigger] pda_of(
                pool_seeds(i, (state.epoch + 1) as u64),
                state.program_id@,
            )) is None),
{
    let preimage = advance_preimage_bytes();
    let mut data = calculate_discriminator(&preimage);
    data.push(4u8);
    let next_epoch = state.epoch + 1;
    let epoch_result = match epoch_result_address(&state.program_id, next_epoch) {
        Some(a) => a,
        None => {
            return Err(EngineError::Derivation);
        },
    };
    let mut accounts: Vec<AccountSpec> = Vec::new();
    accounts.push(AccountSpec { address: signer.dup(), is_signer: true, is_writable: true });
    accounts.push(
        AccountSpec { address: state.config_pda.dup(), is_signer: false, is_writable: true },
    );
    accounts.push(AccountSpec { address: epoch_result, is_signer: false, is_writable: true });
    accounts.push(
        AccountSpec { address: system_program_bytes(), is_signer: false, is_writable: true },
    );
    match push_pool_accounts(&mut accounts, &state.program_id, next_epoch, state.pool_count) {
        Ok(()) => {},
        Err(e) => {
            return Err(e);
        },
    }
    Ok(InstructionPlan { program: state.program_id.dup(), accounts, data })
}

} // verus!
