//! Fixed values of the engine.

use vstd::prelude::*;
use crate::identity::Identity;

verus! {

/// The tag that opens the derivation of a vault address: the bytes of `vault`.
pub const VAULT_PDA_SEED: [u8; 5] = [118, 97, 117, 108, 116];

/// The tag that opens the derivation of a record address: the bytes of `state`.
pub const STATE_PDA_SEED: [u8; 5] = [115, 116, 97, 116, 101];

/// The bytes of the engine's own identity on the ledger.
pub const PROGRAM_ID: [u8; 32] = [
    197, 162, 143, 199, 31, 170, 1, 188, 13, 207, 20, 237, 248, 194, 57, 252,
    128, 232, 90, 191, 136, 201, 49, 80, 124, 16, 186, 235, 194, 150, 142, 245,
];

/// The engine's own identity: custody addresses are derived under it, so that
/// only the engine can sign for them.
pub fn program_id() -> (id: Identity)
    ensures
        id@ == PROGRAM_ID@,
{
    Identity::new(PROGRAM_ID)
}

} // verus!
