//! Accounts as the ledger hands them to an operation, and what the engine
//! reads out of them.

use vstd::prelude::*;
use anchor_lang::prelude::{Account, AccountInfo, Pubkey};
use anchor_spl::token::{Mint, TokenAccount};
use crate::identity::Identity;
use crate::state::EscrowAccount;

verus! {

/// An account as the ledger shows it when an operation starts.
#[derive(Clone, Debug, PartialEq, Eq)]
pub struct LedgerAccount {
    /// The account's address.
    pub key: Identity,
    /// The program that owns the account.
    pub owner: Identity,
    /// The account's balance of native currency.
    pub lamports: u64,
    /// The account's data.
    pub data: Vec<u8>,
}

/// What a token account says of itself.
#[derive(Clone, Copy, Debug, PartialEq, Eq)]
pub struct TokenHolding {
    /// The asset type that the account holds.
    pub mint: Identity,
    /// Who holds the account.
    pub owner: Identity,
    /// How much of the asset the account holds.
    pub amount: u64,
}

/// A descriptor of an asset type as an operation was handed it.
#[derive(Clone, Copy, Debug, PartialEq, Eq)]
pub enum Descriptor {
    /// No account was supplied in this place.
    Absent,
    /// An account was supplied, but it does not describe an asset type.
    Unreadable,
    /// The asset type that the supplied account describes.
    Mint(Identity),
}

/// The record account of a trade as an operation finds it.
#[derive(Clone, Copy, Debug, PartialEq, Eq)]
pub struct StateAccount {
    /// The account's address.
    pub key: Identity,
    /// Whether a record was created at this address before.
    pub initialized: bool,
    /// The record; blank while none was created.
    pub record: EscrowAccount,
}

/// The asset type, holder and amount that the token program's account layout
/// gives for an account with this owner, balance and data, if the account is
/// a token account.
pub uninterp spec fn token_account_of(owner: Seq<u8>, lamports: u64, data: Seq<u8>) -> Option<
    (Seq<u8>, Seq<u8>, u64),
>;

/// Whether an account with this owner, balance and data describes an asset
/// type under the token program's layout.
pub uninterp spec fn mint_account_valid(owner: Seq<u8>, lamports: u64, data: Seq<u8>) -> bool;

/// Calls `Account::<TokenAccount>::try_from` of anchor-lang on an account
/// made of the given key, owner, balance and data.
///
/// Claims that whether the account reads as a token account, and what is
/// read, depends on its owner, balance and data alone. An account that does
/// not read as one gives `None`.
#[verifier::external_body]
pub(crate) fn read_token_account(account: &LedgerAccount) -> (read: Option<TokenHolding>)
    ensures
        match read {
            Some(holding) => token_account_of(
                account.owner@,
                account.lamports,
                account.data@,
            ) == Some((holding.mint@, holding.owner@, holding.amount)),
            None => token_account_of(account.owner@, account.lamports, account.data@) is None,
        },
{
    let key = Pubkey::new_from_array(account.key.bytes);
    let owner = Pubkey::new_from_array(account.owner.bytes);
    let (mut lamports, mut data) = (account.lamports, account.data.clone());
    let info = AccountInfo::new(&key, false, false, &mut lamports, &mut data, &owner, false, 0);
    match Account::<TokenAccount>::try_from(&info) {
        Ok(token) => Some(TokenHolding {
            mint: Identity { bytes: token.mint.to_bytes() },
            owner: Identity { bytes: token.owner.to_bytes() },
            amount: token.amount,
        }),
        Err(_) => None,
    }
}

/// Calls `Account::<Mint>::try_from` of anchor-lang on an account made of the
/// given key, owner, balance and data.
///
/// Claims that whether the account reads as the description of an asset type
/// depends on its owner, balance and data alone.
#[verifier::external_body]
pub(crate) fn read_mint_account(account: &LedgerAccount) -> (valid: bool)
    ensures
        valid == mint_account_valid(account.owner@, account.lamports, account.data@),
{
    let key = Pubkey::new_from_array(account.key.bytes);
    let owner = Pubkey::new_from_array(account.owner.bytes);
    let (mut lamports, mut data) = (account.lamports, account.data.clone());
    let info = AccountInfo::new(&key, false, false, &mut lamports, &mut data, &owner, false, 0);
    Account::<Mint>::try_from(&info).is_ok()
}

/// The room that a token account takes, in bytes.
pub const TOKEN_ACCOUNT_LEN: usize = 165;

/// Reads `TokenAccount::LEN` of anchor-spl.
///
/// Claims that the token program's account layout takes 165 bytes.
#[verifier::external_body]
pub(crate) fn token_account_len() -> (len: usize)
    ensures
        len == TOKEN_ACCOUNT_LEN,
{
    TokenAccount::LEN
}

impl LedgerAccount {
    /// What the account holds, if it is a token account.
    pub open spec fn holding(&self) -> Option<TokenHolding> {
        match token_account_of(self.owner@, self.lamports, self.data@) {
            Some((mint, owner, amount)) => Some(
                TokenHolding { mint: Identity::of(mint), owner: Identity::of(owner), amount },
            ),
            None => None,
        }
    }

    /// The asset type that the account describes, which is named by the
    /// account's own address, if the account describes one.
    pub open spec fn described_mint(&self) -> Option<Identity> {
        if mint_account_valid(self.owner@, self.lamports, self.data@) {
            Some(self.key)
        } else {
            None
        }
    }

    /// Whether the account is a wallet that can sign and pay: it holds
    /// native currency and carries no data.
    pub open spec fn is_wallet(&self) -> bool {
        self.lamports > 0 && self.data@.len() == 0
    }

    /// Reads the account as a token account.
    pub fn token_holding(&self) -> (read: Option<TokenHolding>)
        ensures
            read == self.holding(),
    {
        let read = read_token_account(self);
        proof {
            if let Some(holding) = read {
                Identity::lemma_of_view(holding.mint);
                Identity::lemma_of_view(holding.owner);
            }
        }
        read
    }

    /// Reads the account as the description of an asset type.
    pub fn mint(&self) -> (read: Option<Identity>)
        ensures
            read == self.described_mint(),
    {
        if read_mint_account(self) {
            Some(self.key)
        } else {
            None
        }
    }

    /// Tests whether the account is a wallet that can sign and pay.
    pub fn wallet(&self) -> (r: bool)
        ensures
            r == self.is_wallet(),
    {
        self.lamports > 0 && self.data.len() == 0
    }
}

/// The descriptor in a place of the list of further accounts.
pub open spec fn descriptor_at(accounts: Seq<LedgerAccount>, index: int) -> Descriptor {
    if 0 <= index < accounts.len() {
        match accounts[index].described_mint() {
            Some(mint) => Descriptor::Mint(mint),
            None => Descriptor::Unreadable,
        }
    } else {
        Descriptor::Absent
    }
}

/// Reads the descriptor in a place of the list of further accounts.
pub fn descriptor(accounts: &Vec<LedgerAccount>, index: usize) -> (read: Descriptor)
    ensures
        read == descriptor_at(accounts@, index as int),
{
    if index < accounts.len() {
        match accounts[index].mint() {
            Some(mint) => Descriptor::Mint(mint),
            None => Descriptor::Unreadable,
        }
    } else {
        Descriptor::Absent
    }
}

} // verus!
