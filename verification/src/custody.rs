//! Custody addresses: where the deposit of a trade and its record live, and
//! who may sign for them.
//!
//! An address is derived from a role, the creator and the order id, under the
//! engine's own identity. No key exists for it: only the engine, by giving the
//! same seeds again, can sign for it.

use vstd::prelude::*;
use vstd::slice::slice_to_vec;
use anchor_lang::prelude::Pubkey;
use crate::constant::{program_id, PROGRAM_ID};
use crate::identity::Identity;
use crate::seed::{derivation_seeds, seed_bytes, seeds_of, signing_seeds, Role};

verus! {

/// The address and bump that the ledger's search for a program address gives
/// for a list of seeds under a program, if it finds any.
pub uninterp spec fn program_address(seeds: Seq<Seq<u8>>, program: Seq<u8>) -> Option<(Seq<u8>, u8)>;

/// The address that the ledger gives to a list of seeds under a program when
/// no bump is searched for, if the seeds have one.
pub uninterp spec fn created_address(seeds: Seq<Seq<u8>>, program: Seq<u8>) -> Option<Seq<u8>>;

/// Calls `Pubkey::try_find_program_address` of solana-program.
///
/// Claims that the result is a function of the seeds and the program alone,
/// and that an address found with a bump is the address that
/// `Pubkey::create_program_address` gives to the seeds followed by that bump:
/// the search returns only what that function returned.
#[verifier::external_body]
pub(crate) fn find_program_address(seeds: &Vec<Vec<u8>>, program: &Identity) -> (found: Option<
    (Identity, u8),
>)
    ensures
        match found {
            Some((address, bump)) => {
                &&& program_address(seed_bytes(seeds@), program@) == Some((address@, bump))
                &&& created_address(seed_bytes(seeds@).push(seq![bump]), program@) == Some(
                    address@,
                )
            },
            None => program_address(seed_bytes(seeds@), program@) is None,
        },
{
    let parts: Vec<&[u8]> = seeds.iter().map(|seed| seed.as_slice()).collect();
    match Pubkey::try_find_program_address(&parts, &Pubkey::new_from_array(program.bytes)) {
        Some((address, bump)) => Some((Identity { bytes: address.to_bytes() }, bump)),
        None => None,
    }
}

/// Calls `Pubkey::create_program_address` of solana-program.
///
/// Claims that the result is a function of the seeds and the program alone.
/// A list of seeds that has no address (too many seeds, a seed too long, or
/// a point on the curve) gives `None`.
#[verifier::external_body]
pub(crate) fn create_program_address(seeds: &Vec<Vec<u8>>, program: &Identity) -> (made: Option<
    Identity,
>)
    ensures
        match made {
            Some(address) => created_address(seed_bytes(seeds@), program@) == Some(address@),
            None => created_address(seed_bytes(seeds@), program@) is None,
        },
{
    let parts: Vec<&[u8]> = seeds.iter().map(|seed| seed.as_slice()).collect();
    match Pubkey::create_program_address(&parts, &Pubkey::new_from_array(program.bytes)) {
        Ok(address) => Some(Identity { bytes: address.to_bytes() }),
        Err(_) => None,
    }
}

/// Calls `bytemuck::bytes_of` on a bump.
///
/// Claims that the bytes of a `u8` are that one byte.
#[verifier::external_body]
pub(crate) fn bump_bytes(bump: &u8) -> (out: &[u8])
    ensures
        out@ == seq![*bump],
{
    bytemuck::bytes_of(bump)
}

/// The right to sign for the vault of a trade, made of what the vault's
/// address is derived from.
#[derive(Clone, Copy, Debug, PartialEq, Eq)]
pub struct VaultAuthority {
    pub creator: Identity,
    pub order_id: u64,
    pub bump: u8,
}

/// The right to sign for the record of a trade, made of what the record's
/// address is derived from. The record holds the tokens in the vault.
#[derive(Clone, Copy, Debug, PartialEq, Eq)]
pub struct RecordAuthority {
    pub creator: Identity,
    pub order_id: u64,
    pub bump: u8,
}

/// The address that a role's signing seeds stand for under the engine's
/// identity, if they stand for one.
pub open spec fn signed_address(role: Role, creator: Identity, order_id: u64, bump: u8) -> Option<
    Seq<u8>,
> {
    created_address(signing_seeds(role, creator, order_id, bump), PROGRAM_ID@)
}

/// Builds the signing seeds of a role.
pub fn signers_seeds(role: Role, creator: &Identity, order_id: u64, bump: u8) -> (out: Vec<
    Vec<u8>,
>)
    ensures
        seed_bytes(out@) == signing_seeds(role, *creator, order_id, bump),
{
    let mut out = seeds_of(role, creator, order_id);
    let ghost before = out@;
    out.push(slice_to_vec(bump_bytes(&bump)));
    assert(seed_bytes(out@) =~= seed_bytes(before).push(seq![bump]));
    out
}

/// The address that the signing seeds of a role stand for, if any.
pub fn address_of(role: Role, creator: &Identity, order_id: u64, bump: u8) -> (address: Option<
    Identity,
>)
    ensures
        match address {
            Some(a) => signed_address(role, *creator, order_id, bump) == Some(a@),
            None => signed_address(role, *creator, order_id, bump) is None,
        },
{
    let seeds = signers_seeds(role, creator, order_id, bump);
    create_program_address(&seeds, &program_id())
}

/// Tests whether an address is the one that the signing seeds of a role stand
/// for.
pub fn signs_for(role: Role, creator: &Identity, order_id: u64, bump: u8, address: &Identity) -> (r:
    bool)
    ensures
        r == (signed_address(role, *creator, order_id, bump) == Some(address@)),
{
    match address_of(role, creator, order_id, bump) {
        Some(made) => {
            proof {
                Identity::lemma_view_injective(made, *address);
            }
            made == *address
        },
        None => false,
    }
}

impl VaultAuthority {
    /// The authority over the vault of a creator's order.
    pub fn new(creator: Identity, order_id: u64, bump: u8) -> (authority: VaultAuthority)
        ensures
            authority == (VaultAuthority { creator, order_id, bump }),
    {
        VaultAuthority { creator, order_id, bump }
    }

    /// The seeds that sign for the vault.
    pub open spec fn seeds(&self) -> Seq<Seq<u8>> {
        signing_seeds(Role::Vault, self.creator, self.order_id, self.bump)
    }

    /// The address that the authority signs for, if its seeds stand for one.
    pub open spec fn signed(&self) -> Option<Seq<u8>> {
        signed_address(Role::Vault, self.creator, self.order_id, self.bump)
    }

    /// The vault that the authority signs for, if its seeds stand for one.
    pub fn address(&self) -> (address: Option<Identity>)
        ensures
            match address {
                Some(a) => self.signed() == Some(a@),
                None => self.signed() is None,
            },
    {
        address_of(Role::Vault, &self.creator, self.order_id, self.bump)
    }

    /// Builds the seeds that sign for the vault.
    pub fn signer_seeds(&self) -> (out: Vec<Vec<u8>>)
        ensures
            seed_bytes(out@) == self.seeds(),
    {
        signers_seeds(Role::Vault, &self.creator, self.order_id, self.bump)
    }
}

impl RecordAuthority {
    /// The authority over the record of a creator's order.
    pub fn new(creator: Identity, order_id: u64, bump: u8) -> (authority: RecordAuthority)
        ensures
            authority == (RecordAuthority { creator, order_id, bump }),
    {
        RecordAuthority { creator, order_id, bump }
    }

    /// The seeds that sign for the record.
    pub open spec fn seeds(&self) -> Seq<Seq<u8>> {
        signing_seeds(Role::Record, self.creator, self.order_id, self.bump)
    }

    /// The address that the authority signs for, if its seeds stand for one.
    pub open spec fn signed(&self) -> Option<Seq<u8>> {
        signed_address(Role::Record, self.creator, self.order_id, self.bump)
    }

    /// The record account that the authority signs for, if its seeds stand
    /// for one.
    pub fn address(&self) -> (address: Option<Identity>)
        ensures
            match address {
                Some(a) => self.signed() == Some(a@),
                None => self.signed() is None,
            },
    {
        address_of(Role::Record, &self.creator, self.order_id, self.bump)
    }

    /// Builds the seeds that sign for the record.
    pub fn signer_seeds(&self) -> (out: Vec<Vec<u8>>)
        ensures
            seed_bytes(out@) == self.seeds(),
    {
        signers_seeds(Role::Record, &self.creator, self.order_id, self.bump)
    }
}

/// The address and bump derived for a role of a creator's order under the
/// engine's identity, if the search finds any.
pub open spec fn derived(role: Role, creator: Identity, order_id: u64) -> Option<(Identity, u8)> {
    match program_address(derivation_seeds(role, creator, order_id), PROGRAM_ID@) {
        Some((address, bump)) => Some((Identity::of(address), bump)),
        None => None,
    }
}

/// Derives the address of a role of a creator's order, with the bump that
/// completes the seeds which sign for it.
///
/// The result is a function of the role, the creator and the order id. An
/// address that is found is the one its signing seeds stand for.
pub fn derive(role: Role, creator: &Identity, order_id: u64) -> (found: Option<(Identity, u8)>)
    ensures
        found == derived(role, *creator, order_id),
        found matches Some((address, bump)) ==> signed_address(role, *creator, order_id, bump)
            == Some(address@),
{
    let seeds = seeds_of(role, creator, order_id);
    let found = find_program_address(&seeds, &program_id());
    proof {
        if let Some((address, bump)) = found {
            Identity::lemma_of_view(address);
        }
    }
    found
}

/// Derives the vault of a creator's order: its address, and the authority
/// that signs for it.
pub fn derive_vault(creator: &Identity, order_id: u64) -> (found: Option<(Identity, VaultAuthority)>)
    ensures
        match found {
            Some((address, authority)) => {
                &&& derived(Role::Vault, *creator, order_id) == Some((address, authority.bump))
                &&& authority.creator == *creator
                &&& authority.order_id == order_id
                &&& authority.signed() == Some(address@)
            },
            None => derived(Role::Vault, *creator, order_id) is None,
        },
{
    match derive(Role::Vault, creator, order_id) {
        Some((address, bump)) => Some((address, VaultAuthority::new(*creator, order_id, bump))),
        None => None,
    }
}

/// Derives the record account of a creator's order: its address, and the
/// authority that signs for it.
pub fn derive_record(creator: &Identity, order_id: u64) -> (found: Option<
    (Identity, RecordAuthority),
>)
    ensures
        match found {
            Some((address, authority)) => {
                &&& derived(Role::Record, *creator, order_id) == Some((address, authority.bump))
                &&& authority.creator == *creator
                &&& authority.order_id == order_id
                &&& authority.signed() == Some(address@)
            },
            None => derived(Role::Record, *creator, order_id) is None,
        },
{
    match derive(Role::Record, creator, order_id) {
        Some((address, bump)) => Some((address, RecordAuthority::new(*creator, order_id, bump))),
        None => None,
    }
}

/// The address of a role is settled by the role, the creator and the order
/// id: the same three always give the same address and bump.
pub proof fn lemma_derived_is_settled(
    role_a: Role,
    creator_a: Identity,
    order_a: u64,
    role_b: Role,
    creator_b: Identity,
    order_b: u64,
)
    requires
        role_a == role_b,
        creator_a@ == creator_b@,
        order_a == order_b,
    ensures
        derived(role_a, creator_a, order_a) == derived(role_b, creator_b, order_b),
{
    Identity::lemma_view_injective(creator_a, creator_b);
}

} // verus!
