//! Why an operation is turned away.

use vstd::prelude::*;

verus! {

/// A rule of the escrow that an operation broke. The operation then has no effect.
#[derive(Clone, Copy, Debug, PartialEq, Eq, Structural)]
pub enum EscrowError {
    /// The record is not in the stage the operation needs, or a stage or trade
    /// type code is unknown.
    InvalidStage,
    /// A balance is below the amount to move.
    InsufficientFunds,
    /// A token account is of another asset type than the descriptor supplied.
    InvalidMint,
    /// A descriptor of an asset type that the trade needs is absent.
    MissingMint,
    /// Neither of the creator's accounts holds a tokenized asset.
    InvalidTradeType,
    /// Accounts that must agree with the record, or with each other, do not.
    InvalidAccount,
    /// Both legs of the trade name the same asset type.
    DuplicateMint,
    /// An account is not held by the identity expected.
    InvalidOwner,
    /// The caller is not the partner that the creator named.
    InvalidPartner,
    /// The trade value or the receive value is zero.
    ZeroValue,
    /// Instruction data lacks a parameter.
    MissingParams,
}

impl EscrowError {
    /// What the error says to a reader.
    pub open spec fn text(self) -> Seq<char> {
        match self {
            EscrowError::InvalidStage => "Invalid stage for exchange or cancel"@,
            EscrowError::InsufficientFunds => "insufficient funds"@,
            EscrowError::InvalidMint => "Invalid mint account for trade"@,
            EscrowError::MissingMint => "Missing mint for trade"@,
            EscrowError::InvalidTradeType => "Invalid trade p2p type. Maybe missing all mint address"@,
            EscrowError::InvalidAccount => "Invalid mint between two token account"@,
            EscrowError::DuplicateMint => "Duplicate two mint"@,
            EscrowError::InvalidOwner => "Account does not have invalid owner!"@,
            EscrowError::InvalidPartner => "Invalid partner with specify partner set in create trade"@,
            EscrowError::ZeroValue => "Trade value and Receive value must be larger than zero"@,
            EscrowError::MissingParams => "instruction data missing params"@,
        }
    }

    /// The message of the error.
    pub fn message(&self) -> (text: &'static str)
        ensures
            text@ == self.text(),
    {
        match self {
            EscrowError::InvalidStage => "Invalid stage for exchange or cancel",
            EscrowError::InsufficientFunds => "insufficient funds",
            EscrowError::InvalidMint => "Invalid mint account for trade",
            EscrowError::MissingMint => "Missing mint for trade",
            EscrowError::InvalidTradeType => "Invalid trade p2p type. Maybe missing all mint address",
            EscrowError::InvalidAccount => "Invalid mint between two token account",
            EscrowError::DuplicateMint => "Duplicate two mint",
            EscrowError::InvalidOwner => "Account does not have invalid owner!",
            EscrowError::InvalidPartner => "Invalid partner with specify partner set in create trade",
            EscrowError::ZeroValue => "Trade value and Receive value must be larger than zero",
            EscrowError::MissingParams => "instruction data missing params",
        }
    }
}

/// A fault in the accounts handed to an operation, found before any rule of
/// the trade itself is applied.
#[derive(Clone, Copy, Debug, PartialEq, Eq, Structural)]
pub enum AccountError {
    /// A record already exists at the address where one is to be created.
    AlreadyInUse,
    /// No record exists at the address given.
    NotInitialized,
    /// An address is not the one derived for its role, creator and order.
    Seeds,
    /// The record names another account than the one supplied.
    HasOne,
    /// A signing wallet is empty or carries data.
    Raw,
}

/// The outcome of an operation that was turned away.
#[derive(Clone, Copy, Debug, PartialEq, Eq, Structural)]
pub enum TradeError {
    /// A rule of the escrow was broken.
    Escrow(EscrowError),
    /// The accounts supplied do not fit together.
    Account(AccountError),
}

} // verus!
