//! The external custody service's side of the protocol: its fixed identity,
//! the derivation of the collection-scoped delegated authority, and the two
//! calls the unstake operation issues against it.

use vstd::prelude::*;
use crate::ids::AccountId;
use crate::state::CollectionInfo;

verus! {

/// The custody program's fixed, well-known 32-byte address.
pub open spec fn custody_program_id_bytes() -> Seq<u8> {
    seq![
        175u8,
        84u8,
        171u8,
        16u8,
        189u8,
        151u8,
        165u8,
        66u8,
        160u8,
        158u8,
        247u8,
        179u8,
        152u8,
        137u8,
        221u8,
        12u8,
        211u8,
        148u8,
        164u8,
        204u8,
        233u8,
        223u8,
        166u8,
        205u8,
        201u8,
        126u8,
        190u8,
        45u8,
        35u8,
        91u8,
        167u8,
        72u8,
    ]
}

/// Relies on `mpl_core::ID`, the custody program's fixed address
/// `CoREENxT6tW1HoK8ypY1SxRMZTcVPm7R94rH4PZNhX7d`; the bytes stated by
/// `custody_program_id_bytes` are its decoded form.
#[verifier::external_body]
pub fn custody_program_id() -> (r: AccountId)
    ensures
        r@ == custody_program_id_bytes(),
{
    AccountId { bytes: mpl_core::ID.to_bytes() }
}

/// The domain-separation tag of the collection-authority derivation:
/// the bytes of the string `collection_info`.
pub open spec fn authority_seed_tag() -> Seq<u8> {
    seq![
        99u8,
        111u8,
        108u8,
        108u8,
        101u8,
        99u8,
        116u8,
        105u8,
        111u8,
        110u8,
        95u8,
        105u8,
        110u8,
        102u8,
        111u8,
    ]
}

/// Builds the domain-separation tag as bytes.
pub fn authority_seed_tag_bytes() -> (r: Vec<u8>)
    ensures
        r@ == authority_seed_tag(),
{
    let r: Vec<u8> = vec![99u8, 111u8, 108u8, 108u8, 101u8, 99u8, 116u8, 105u8, 111u8, 110u8, 95u8, 105u8, 110u8, 102u8, 111u8];
    proof {
        assert(r@ =~= authority_seed_tag());
    }
    r
}

/// Derives the seed material of the collection-scoped delegated authority:
/// the domain tag, the collection identity, and the stored structural token,
/// in that order. The external custody service re-derives the authority from
/// exactly this material, so the credential is reproducible, not a secret.
pub fn derive_authority_seeds(collection: &AccountId, info: &CollectionInfo) -> (r: Vec<Vec<u8>>)
    ensures
        r@.len() == 3,
        r@[0]@ == authority_seed_tag(),
        r@[1]@ == collection@,
        r@[2]@ == seq![info.bump],
{
    let mut seeds: Vec<Vec<u8>> = Vec::new();
    seeds.push(authority_seed_tag_bytes());
    seeds.push(vstd::slice::slice_to_vec(collection.bytes.as_slice()));
    let mut bump_seed: Vec<u8> = Vec::new();
    bump_seed.push(info.bump);
    seeds.push(bump_seed);
    proof {
        assert(seeds@[2]@ =~= seq![info.bump]);
    }
    seeds
}

/// The first custody call of a withdrawal: clear the asset's lock flag,
/// scoped to its collection, authorized by the derived collection authority,
/// paid for by the user.
#[derive(Clone, Debug)]
pub struct UnlockCall {
    /// The asset whose lock flag is cleared.
    pub asset: AccountId,
    /// The collection the asset belongs to.
    pub collection: AccountId,
    /// The user paying for the call.
    pub payer: AccountId,
    /// Seed material of the collection authority that signs the call.
    pub authority_seeds: Vec<Vec<u8>>,
    /// The new value of the lock flag; a withdrawal always clears it.
    pub frozen: bool,
}

/// The second custody call of a withdrawal: remove the lock-flag capability
/// from the asset entirely, authorized by the user directly.
#[derive(Clone, Copy, Debug)]
pub struct RemoveLockCall {
    /// The asset whose lock capability is removed.
    pub asset: AccountId,
    /// The collection the asset belongs to.
    pub collection: AccountId,
    /// The user, who authorizes and pays for the call.
    pub authority: AccountId,
}

} // verus!
