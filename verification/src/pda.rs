//! Deterministic derivation of the protocol's account addresses.
//!
//! Every address the keeper touches is derived from fixed seed bytes, the
//! program's address, and numeric state (epoch number, pool index). The
//! derivation is a pure function of those inputs; the remote program derives
//! the same addresses independently, so the seed layouts here are a wire
//! contract.

use vstd::prelude::*;
use vstd::bytes::{spec_u64_to_le_bytes, u64_to_le_bytes};
use crate::state::Address;

verus! {

/// The address that the remote ledger's derivation assigns to seed bytes and
/// a program address, when one exists; `None` when no derived address is
/// valid for the seeds.
pub uninterp spec fn pda_of(seeds: Seq<Seq<u8>>, program: Seq<u8>) -> Option<Seq<u8>>;

/// Relies on `solana_pubkey::Pubkey::try_find_program_address`: the result is
/// a function of the seed bytes and the program address alone; an address,
/// when found, is 32 bytes.
#[verifier::external_body]
fn derive_address(seeds: &Vec<Vec<u8>>, program: &Address) -> (r: Option<Address>)
    requires
        program.wf(),
    ensures
        r is Some <==> pda_of(seeds@.map_values(|s: Vec<u8>| s@), program@) is Some,
        r matches Some(a) ==> ({
            &&& pda_of(seeds@.map_values(|s: Vec<u8>| s@), program@) matches Some(b) && a@ == b
            &&& a@.len() == 32
        }),
{
    let seed_slices: Vec<&[u8]> = seeds.iter().map(|s| s.as_slice()).collect();
    let program_key = solana_pubkey::Pubkey::try_from(program.bytes.as_slice()).unwrap();
    solana_pubkey::Pubkey::try_find_program_address(&seed_slices, &program_key).map(
        |(key, _bump)| Address { bytes: key.to_bytes().to_vec() },
    )
}

/// The seed bytes `b"config"`.
pub open spec fn seed_config() -> Seq<u8> {
    seq![99u8, 111u8, 110u8, 102u8, 105u8, 103u8]
}

/// The seed bytes `b"epoch_result"`.
pub open spec fn seed_epoch_result() -> Seq<u8> {
    seq![101u8, 112u8, 111u8, 99u8, 104u8, 95u8, 114u8, 101u8, 115u8, 117u8, 108u8, 116u8]
}

/// The seed bytes `b"pool"`.
pub open spec fn seed_pool() -> Seq<u8> {
    seq![112u8, 111u8, 111u8, 108u8]
}

/// The seed bytes `b"identity"`.
pub open spec fn seed_identity() -> Seq<u8> {
    seq![105u8, 100u8, 101u8, 110u8, 116u8, 105u8, 116u8, 121u8]
}

/// Seeds of the configuration account.
pub open spec fn config_seeds() -> Seq<Seq<u8>> {
    seq![seed_config()]
}

/// Seeds of an epoch's result account: the tag and the epoch number.
pub open spec fn epoch_result_seeds(epoch: u64) -> Seq<Seq<u8>> {
    seq![seed_epoch_result(), spec_u64_to_le_bytes(epoch)]
}

/// Seeds of a pool account: the tag, the pool index, and the epoch number.
pub open spec fn pool_seeds(index: int, epoch: u64) -> Seq<Seq<u8>> {
    seq![seed_pool(), seq![index as u8], spec_u64_to_le_bytes(epoch)]
}

/// Seeds of the program's identity account.
pub open spec fn identity_seeds() -> Seq<Seq<u8>> {
    seq![seed_identity()]
}

fn seed_config_bytes() -> (v: Vec<u8>)
    ensures
        v@ == seed_config(),
{
    let mut v: Vec<u8> = Vec::new();
    v.push(99u8);
    v.push(111u8);
    v.push(110u8);
    v.push(102u8);
    v.push(105u8);
    v.push(103u8);
    proof {
        assert(v@ =~= seed_config());
    }
    v
}

fn seed_epoch_result_bytes() -> (v: Vec<u8>)
    ensures
        v@ == seed_epoch_result(),
{
    let mut v: Vec<u8> = Vec::new();
    v.push(101u8);
    v.push(112u8);
    v.push(111u8);
    v.push(99u8);
    v.push(104u8);
    v.push(95u8);
    v.push(114u8);
    v.push(101u8);
    v.push(115u8);
    v.push(117u8);
    v.push(108u8);
    v.push(116u8);
    proof {
        assert(v@ =~= seed_epoch_result());
    }
    v
}

fn seed_pool_bytes() -> (v: Vec<u8>)
    ensures
        v@ == seed_pool(),
{
    let mut v: Vec<u8> = Vec::new();
    v.push(112u8);
    v.push(111u8);
    v.push(111u8);
    v.push(108u8);
    proof {
        assert(v@ =~= seed_pool());
    }
    v
}

fn seed_identity_bytes() -> (v: Vec<u8>)
    ensures
        v@ == seed_identity(),
{
    let mut v: Vec<u8> = Vec::new();
    v.push(105u8);
    v.push(100u8);
    v.push(101u8);
    v.push(110u8);
    v.push(116u8);
    v.push(105u8);
    v.push(116u8);
    v.push(121u8);
    proof {
        assert(v@ =~= seed_identity());
    }
    v
}

/// The configuration account's address under `program`, when derivable.
pub fn config_address(program: &Address) -> (r: Option<Address>)
    requires
        program.wf(),
    ensures
        r is Some <==> pda_of(config_seeds(), program@) is Some,
        r matches Some(a) ==> ({
            &&& pda_of(config_seeds(), program@) matches Some(b) && a@ == b
            &&& a.wf()
        }),
{
    let mut seeds: Vec<Vec<u8>> = Vec::new();
    seeds.push(seed_config_bytes());
    proof {
        assert(seeds@.map_values(|s: Vec<u8>| s@) =~= config_seeds());
    }
    derive_address(&seeds, program)
}

/// The result account's address for `epoch` under `program`, when derivable.
pub fn epoch_result_address(program: &Address, epoch: u64) -> (r: Option<Address>)
    requires
        program.wf(),
    ensures
        r is Some <==> pda_of(epoch_result_seeds(epoch), program@) is Some,
        r matches Some(a) ==> ({
            &&& pda_of(epoch_result_seeds(epoch), program@) matches Some(b) && a@ == b
            &&& a.wf()
        }),
{
    let mut seeds: Vec<Vec<u8>> = Vec::new();
    seeds.push(seed_epoch_result_bytes());
    seeds.push(u64_to_le_bytes(epoch));
    proof {
        assert(seeds@.map_values(|s: Vec<u8>| s@) =~= epoch_result_seeds(epoch));
    }
    derive_address(&seeds, program)
}

/// The pool account's address for `index` in `epoch` under `program`, when
/// derivable.
pub fn pool_address(program: &Address, index: u8, epoch: u64) -> (r: Option<Address>)
    requires
        program.wf(),
    ensures
        r is Some <==> pda_of(pool_seeds(index as int, epoch), program@) is Some,
        r matches Some(a) ==> ({
            &&& pda_of(pool_seeds(index as int, epoch), program@) matches Some(b) && a@ == b
            &&& a.wf()
        }),
{
    let mut seeds: Vec<Vec<u8>> = Vec::new();
    seeds.push(seed_pool_bytes());
    let mut index_seed: Vec<u8> = Vec::new();
    index_seed.push(index);
    seeds.push(index_seed);
    seeds.push(u64_to_le_bytes(epoch));
    proof {
        assert(seeds@.map_values(|s: Vec<u8>| s@) =~= pool_seeds(index as int, epoch));
    }
    derive_address(&seeds, program)
}

/// The program's identity account address under `program`, when derivable.
pub fn identity_address(program: &Address) -> (r: Option<Address>)
    requires
        program.wf(),
    ensures
        r is Some <==> pda_of(identity_seeds(), program@) is Some,
        r matches Some(a) ==> ({
            &&& pda_of(identity_seeds(), program@) matches Some(b) && a@ == b
            &&& a.wf()
        }),
{
    let mut seeds: Vec<Vec<u8>> = Vec::new();
    seeds.push(seed_identity_bytes());
    proof {
        assert(seeds@.map_values(|s: Vec<u8>| s@) =~= identity_seeds());
    }
    derive_address(&seeds, program)
}

} // verus!
