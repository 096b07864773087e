//! The byte sequences from which custody addresses are derived.

use vstd::prelude::*;
use vstd::bytes::{lemma_auto_spec_u64_to_from_le_bytes, spec_u64_to_le_bytes, u64_to_le_bytes};
use crate::constant::{STATE_PDA_SEED, VAULT_PDA_SEED};
use crate::identity::Identity;

verus! {

/// What a derived address is for. The two roles never stand in for each other.
#[derive(Clone, Copy, Debug, PartialEq, Eq, Structural)]
pub enum Role {
    /// The custody account that holds the creator's deposit.
    Vault,
    /// The account that holds the escrow record.
    Record,
}

impl Role {
    /// The tag that separates the derivations of the two roles.
    pub open spec fn tag(self) -> Seq<u8> {
        match self {
            Role::Vault => VAULT_PDA_SEED@,
            Role::Record => STATE_PDA_SEED@,
        }
    }

    /// The role's tag as bytes.
    pub fn tag_bytes(&self) -> (out: Vec<u8>)
        ensures
            out@ == self.tag(),
    {
        let tag: [u8; 5] = match self {
            Role::Vault => VAULT_PDA_SEED,
            Role::Record => STATE_PDA_SEED,
        };
        let mut out: Vec<u8> = Vec::new();
        let mut i: usize = 0;
        while i < 5
            invariant
                i <= 5,
                tag@ == self.tag(),
                out@ == tag@.take(i as int),
            decreases 5 - i,
        {
            out.push(tag[i]);
            i += 1;
        }
        out
    }
}

/// The bytes of each seed in a list.
pub open spec fn seed_bytes(seeds: Seq<Vec<u8>>) -> Seq<Seq<u8>> {
    Seq::new(seeds.len(), |i: int| seeds[i]@)
}

/// The seeds from which the address of a role is derived: the role's tag, the
/// creator, and the order id in little-endian bytes.
pub open spec fn derivation_seeds(role: Role, creator: Identity, order_id: u64) -> Seq<Seq<u8>> {
    seq![role.tag(), creator@, spec_u64_to_le_bytes(order_id)]
}

/// The seeds that sign for a derived address: the derivation seeds followed
/// by the bump found with the address.
pub open spec fn signing_seeds(role: Role, creator: Identity, order_id: u64, bump: u8) -> Seq<
    Seq<u8>,
> {
    derivation_seeds(role, creator, order_id).push(seq![bump])
}

/// Builds the derivation seeds of a role.
pub fn seeds_of(role: Role, creator: &Identity, order_id: u64) -> (out: Vec<Vec<u8>>)
    ensures
        seed_bytes(out@) == derivation_seeds(role, *creator, order_id),
{
    let mut out: Vec<Vec<u8>> = Vec::new();
    out.push(role.tag_bytes());
    out.push(creator.to_vec());
    out.push(u64_to_le_bytes(order_id));
    assert(seed_bytes(out@) =~= derivation_seeds(role, *creator, order_id));
    out
}

/// Different roles, creators or order ids never share their derivation seeds.
pub proof fn lemma_derivation_seeds_injective(
    role_a: Role,
    creator_a: Identity,
    order_a: u64,
    role_b: Role,
    creator_b: Identity,
    order_b: u64,
)
    ensures
        derivation_seeds(role_a, creator_a, order_a) == derivation_seeds(
            role_b,
            creator_b,
            order_b,
        ) <==> role_a == role_b && creator_a == creator_b && order_a == order_b,
{
    let a = derivation_seeds(role_a, creator_a, order_a);
    let b = derivation_seeds(role_b, creator_b, order_b);
    if a == b {
        assert(a[0] == b[0]);
        assert(a[1] == b[1]);
        assert(a[2] == b[2]);
        assert(Role::Vault.tag()[0] == 118u8);
        assert(Role::Record.tag()[0] == 115u8);
        assert(role_a.tag()[0] == role_b.tag()[0]);
        Identity::lemma_view_injective(creator_a, creator_b);
        lemma_auto_spec_u64_to_from_le_bytes();
    }
}

/// The signing seeds tell apart roles, creators, order ids and bumps.
pub proof fn lemma_signing_seeds_injective(
    role_a: Role,
    creator_a: Identity,
    order_a: u64,
    bump_a: u8,
    role_b: Role,
    creator_b: Identity,
    order_b: u64,
    bump_b: u8,
)
    ensures
        signing_seeds(role_a, creator_a, order_a, bump_a) == signing_seeds(
            role_b,
            creator_b,
            order_b,
            bump_b,
        ) <==> role_a == role_b && creator_a == creator_b && order_a == order_b && bump_a
            == bump_b,
{
    let a = signing_seeds(role_a, creator_a, order_a, bump_a);
    let b = signing_seeds(role_b, creator_b, order_b, bump_b);
    if a == b {
        assert(a[3] == b[3]);
        assert(a[3][0] == bump_a);
        assert(b[3][0] == bump_b);
        assert(derivation_seeds(role_a, creator_a, order_a) =~= a.take(3));
        assert(derivation_seeds(role_b, creator_b, order_b) =~= b.take(3));
        lemma_derivation_seeds_injective(role_a, creator_a, order_a, role_b, creator_b, order_b);
    }
}

} // verus!
