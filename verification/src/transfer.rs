//! The moves that an operation asks of the ledger, and who authorizes them.
//!
//! The engine never moves anything itself. An operation that is accepted
//! hands back its moves in order; the ledger applies all of them or none.

use vstd::prelude::*;
use crate::custody::{RecordAuthority, VaultAuthority};
use crate::identity::Identity;
use crate::state::TradeType;

verus! {

/// The two kinds of asset that a leg of a trade can move.
#[derive(Clone, Copy, Debug, PartialEq, Eq, Structural)]
pub enum AssetKind {
    /// The ledger's own currency, held as the balance of an account.
    Native,
    /// A tokenized asset, held in a token account.
    Token,
}

impl TradeType {
    /// The kind of asset that the creator deposits.
    pub open spec fn deposit_kind(self) -> AssetKind {
        match self {
            TradeType::TokenToken => AssetKind::Token,
            TradeType::TokenSol => AssetKind::Token,
            TradeType::SolToken => AssetKind::Native,
        }
    }

    /// The kind of asset that the creator receives.
    pub open spec fn receive_kind(self) -> AssetKind {
        match self {
            TradeType::TokenToken => AssetKind::Token,
            TradeType::TokenSol => AssetKind::Native,
            TradeType::SolToken => AssetKind::Token,
        }
    }
}

/// Who authorizes a move.
#[derive(Clone, Copy, Debug, PartialEq, Eq)]
pub enum Authority {
    /// The holder of the source, who signed the operation itself.
    Signature { signer: Identity },
    /// The vault, which signs for its own balance by its derivation.
    Vault { vault: VaultAuthority },
    /// The record, which signs as holder of the vault's tokens by its
    /// derivation.
    Record { account: Identity, record: RecordAuthority },
}

/// One move that an operation asks of the ledger.
#[derive(Clone, Copy, Debug, PartialEq, Eq)]
pub enum Action {
    /// Create the vault at its derived address, paid for by `payer`, with
    /// room for `space` bytes: a token account for a tokenized deposit, a
    /// plain holding account for a native one.
    CreateAccount {
        kind: AssetKind,
        payer: Identity,
        account: Identity,
        space: usize,
        signer: VaultAuthority,
    },
    /// Make the vault a token account of `mint`, held by `holder`.
    InitializeTokenAccount { account: Identity, mint: Identity, holder: Identity },
    /// Move `amount` of an asset from one account to another.
    Transfer { kind: AssetKind, from: Identity, to: Identity, amount: u64, authority: Authority },
    /// Close an emptied account; what balance and storage allowance it still
    /// has goes to `beneficiary`.
    Close { kind: AssetKind, account: Identity, beneficiary: Identity, authority: Authority },
}

/// A move of `amount` from one account to another.
pub fn transfer(kind: AssetKind, from: Identity, to: Identity, amount: u64, authority: Authority) -> (action:
    Action)
    ensures
        action == (Action::Transfer { kind, from, to, amount, authority }),
{
    Action::Transfer { kind, from, to, amount, authority }
}

/// The closing of an emptied account in favour of a beneficiary.
pub fn close(kind: AssetKind, account: Identity, beneficiary: Identity, authority: Authority) -> (action:
    Action)
    ensures
        action == (Action::Close { kind, account, beneficiary, authority }),
{
    Action::Close { kind, account, beneficiary, authority }
}

} // verus!
