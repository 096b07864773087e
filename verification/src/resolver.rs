//! Which kind of trade the creator's accounts ask for.
//!
//! The kind follows from which of the creator's two accounts hold a
//! tokenized asset, checked against the descriptors of asset types that came
//! with them. It is settled once, when the trade is created.

use vstd::prelude::*;
use crate::account::{Descriptor, TokenHolding};
use crate::error::EscrowError;
use crate::identity::Identity;
use crate::state::TradeType;

verus! {

/// A trade as resolved: its kind, with the asset type of each tokenized leg.
#[derive(Clone, Copy, Debug, PartialEq, Eq)]
pub enum ResolvedTrade {
    /// One tokenized asset for another.
    TokenToken { trade_mint: Identity, receive_mint: Identity },
    /// A tokenized asset for native currency.
    TokenSol { trade_mint: Identity },
    /// Native currency for a tokenized asset.
    SolToken { receive_mint: Identity },
}

impl ResolvedTrade {
    /// The kind of the trade.
    pub open spec fn kind(self) -> TradeType {
        match self {
            ResolvedTrade::TokenToken { .. } => TradeType::TokenToken,
            ResolvedTrade::TokenSol { .. } => TradeType::TokenSol,
            ResolvedTrade::SolToken { .. } => TradeType::SolToken,
        }
    }

    /// The asset type that the creator gives, unless that leg is native.
    pub open spec fn send_mint(self) -> Option<Identity> {
        match self {
            ResolvedTrade::TokenToken { trade_mint, .. } => Some(trade_mint),
            ResolvedTrade::TokenSol { trade_mint } => Some(trade_mint),
            ResolvedTrade::SolToken { .. } => None,
        }
    }

    /// The asset type that the creator receives, unless that leg is native.
    pub open spec fn receive_mint(self) -> Option<Identity> {
        match self {
            ResolvedTrade::TokenToken { receive_mint, .. } => Some(receive_mint),
            ResolvedTrade::TokenSol { .. } => None,
            ResolvedTrade::SolToken { receive_mint } => Some(receive_mint),
        }
    }

    /// The kind of the trade.
    pub fn trade_type(&self) -> (kind: TradeType)
        ensures
            kind == self.kind(),
    {
        match self {
            ResolvedTrade::TokenToken { .. } => TradeType::TokenToken,
            ResolvedTrade::TokenSol { .. } => TradeType::TokenSol,
            ResolvedTrade::SolToken { .. } => TradeType::SolToken,
        }
    }
}

/// The first rule that a trade of one tokenized asset for another breaks.
///
/// In order: each account is of the asset type described for it, each is held
/// by the creator, the two asset types differ, the send account covers the
/// trade value.
pub open spec fn token_token_verdict(
    send: TokenHolding,
    receive: TokenHolding,
    trade_mint: Identity,
    receive_mint: Identity,
    creator: Identity,
    trade_value: u64,
) -> Result<(), EscrowError> {
    if send.mint != trade_mint {
        Err(EscrowError::InvalidMint)
    } else if receive.mint != receive_mint {
        Err(EscrowError::InvalidMint)
    } else if send.owner != creator {
        Err(EscrowError::InvalidOwner)
    } else if receive.owner != creator {
        Err(EscrowError::InvalidOwner)
    } else if trade_mint == receive_mint {
        Err(EscrowError::DuplicateMint)
    } else if send.amount < trade_value {
        Err(EscrowError::InsufficientFunds)
    } else {
        Ok(())
    }
}

/// The first rule that a trade of a tokenized asset for native currency
/// breaks.
///
/// In order: the send account is of the asset type described, it is held by
/// the creator, it covers the trade value.
pub open spec fn token_sol_verdict(
    send: TokenHolding,
    trade_mint: Identity,
    creator: Identity,
    trade_value: u64,
) -> Result<(), EscrowError> {
    if send.mint != trade_mint {
        Err(EscrowError::InvalidMint)
    } else if send.owner != creator {
        Err(EscrowError::InvalidOwner)
    } else if send.amount < trade_value {
        Err(EscrowError::InsufficientFunds)
    } else {
        Ok(())
    }
}

/// The first rule that a trade of native currency for a tokenized asset
/// breaks.
///
/// In order: the receive account is of the asset type described, it is held
/// by the creator, the creator's own balance covers the trade value.
pub open spec fn sol_token_verdict(
    receive: TokenHolding,
    receive_mint: Identity,
    creator: Identity,
    creator_lamports: u64,
    trade_value: u64,
) -> Result<(), EscrowError> {
    if receive.mint != receive_mint {
        Err(EscrowError::InvalidMint)
    } else if receive.owner != creator {
        Err(EscrowError::InvalidOwner)
    } else if creator_lamports < trade_value {
        Err(EscrowError::InsufficientFunds)
    } else {
        Ok(())
    }
}

/// The verdict on descriptors that do not fit a trade with `legs` tokenized
/// legs, which needs as many descriptors: a needed place left empty is a
/// missing descriptor; a descriptor that describes nothing, or one beyond
/// those needed, is a wrong one.
pub open spec fn misfit(legs: int, first: Descriptor, second: Descriptor) -> EscrowError {
    if first is Absent || (legs == 2 && second is Absent) {
        EscrowError::MissingMint
    } else {
        EscrowError::InvalidMint
    }
}

/// The kind of trade that the creator's accounts and the descriptors ask
/// for, or the first rule they break.
///
/// Two token accounts need both descriptors; one token account needs the
/// first descriptor and no second; with no token account there is no trade.
/// Where a needed descriptor is absent the verdict is `MissingMint`; where
/// one is supplied that describes nothing, or one too many, `InvalidMint`.
pub open spec fn resolution(
    send: Option<TokenHolding>,
    receive: Option<TokenHolding>,
    first: Descriptor,
    second: Descriptor,
    creator: Identity,
    creator_lamports: u64,
    trade_value: u64,
) -> Result<ResolvedTrade, EscrowError> {
    match (send, receive) {
        (Some(s), Some(r)) => match (first, second) {
            (Descriptor::Mint(trade_mint), Descriptor::Mint(receive_mint)) => match token_token_verdict(
                s,
                r,
                trade_mint,
                receive_mint,
                creator,
                trade_value,
            ) {
                Ok(_) => Ok(ResolvedTrade::TokenToken { trade_mint, receive_mint }),
                Err(e) => Err(e),
            },
            _ => Err(misfit(2, first, second)),
        },
        (Some(s), None) => match (first, second) {
            (Descriptor::Mint(trade_mint), Descriptor::Absent) => match token_sol_verdict(
                s,
                trade_mint,
                creator,
                trade_value,
            ) {
                Ok(_) => Ok(ResolvedTrade::TokenSol { trade_mint }),
                Err(e) => Err(e),
            },
            _ => Err(misfit(1, first, second)),
        },
        (None, Some(r)) => match (first, second) {
            (Descriptor::Mint(receive_mint), Descriptor::Absent) => match sol_token_verdict(
                r,
                receive_mint,
                creator,
                creator_lamports,
                trade_value,
            ) {
                Ok(_) => Ok(ResolvedTrade::SolToken { receive_mint }),
                Err(e) => Err(e),
            },
            _ => Err(misfit(1, first, second)),
        },
        (None, None) => Err(EscrowError::InvalidTradeType),
    }
}

/// Checks a trade of one tokenized asset for another.
pub fn check_token_token(
    send: &TokenHolding,
    receive: &TokenHolding,
    trade_mint: &Identity,
    receive_mint: &Identity,
    creator: &Identity,
    trade_value: u64,
) -> (r: Result<(), EscrowError>)
    ensures
        r == token_token_verdict(
            *send,
            *receive,
            *trade_mint,
            *receive_mint,
            *creator,
            trade_value,
        ),
{
    if send.mint != *trade_mint {
        return Err(EscrowError::InvalidMint);
    }
    if receive.mint != *receive_mint {
        return Err(EscrowError::InvalidMint);
    }
    if send.owner != *creator {
        return Err(EscrowError::InvalidOwner);
    }
    if receive.owner != *creator {
        return Err(EscrowError::InvalidOwner);
    }
    if *trade_mint == *receive_mint {
        return Err(EscrowError::DuplicateMint);
    }
    if send.amount < trade_value {
        return Err(EscrowError::InsufficientFunds);
    }
    Ok(())
}

/// Checks a trade of a tokenized asset for native currency.
pub fn check_token_sol(
    send: &TokenHolding,
    trade_mint: &Identity,
    creator: &Identity,
    trade_value: u64,
) -> (r: Result<(), EscrowError>)
    ensures
        r == token_sol_verdict(*send, *trade_mint, *creator, trade_value),
{
    if send.mint != *trade_mint {
        return Err(EscrowError::InvalidMint);
    }
    if send.owner != *creator {
        return Err(EscrowError::InvalidOwner);
    }
    if send.amount < trade_value {
        return Err(EscrowError::InsufficientFunds);
    }
    Ok(())
}

/// Checks a trade of native currency for a tokenized asset.
pub fn check_sol_token(
    receive: &TokenHolding,
    receive_mint: &Identity,
    creator: &Identity,
    creator_lamports: u64,
    trade_value: u64,
) -> (r: Result<(), EscrowError>)
    ensures
        r == sol_token_verdict(*receive, *receive_mint, *creator, creator_lamports, trade_value),
{
    if receive.mint != *receive_mint {
        return Err(EscrowError::InvalidMint);
    }
    if receive.owner != *creator {
        return Err(EscrowError::InvalidOwner);
    }
    if creator_lamports < trade_value {
        return Err(EscrowError::InsufficientFunds);
    }
    Ok(())
}

/// The error for descriptors that do not fit a trade with one tokenized leg
/// or with two.
fn misfit_of(two_legs: bool, first: &Descriptor, second: &Descriptor) -> (e: EscrowError)
    ensures
        e == misfit(if two_legs { 2 } else { 1 }, *first, *second),
{
    match (first, second) {
        (Descriptor::Absent, _) => EscrowError::MissingMint,
        (_, Descriptor::Absent) => if two_legs {
            EscrowError::MissingMint
        } else {
            EscrowError::InvalidMint
        },
        _ => EscrowError::InvalidMint,
    }
}

/// Resolves a trade from what the creator's two accounts hold and the
/// descriptors that came with them.
pub fn resolve(
    send: &Option<TokenHolding>,
    receive: &Option<TokenHolding>,
    first: &Descriptor,
    second: &Descriptor,
    creator: &Identity,
    creator_lamports: u64,
    trade_value: u64,
) -> (r: Result<ResolvedTrade, EscrowError>)
    ensures
        r == resolution(
            *send,
            *receive,
            *first,
            *second,
            *creator,
            creator_lamports,
            trade_value,
        ),
{
    match (send, receive) {
        (Some(s), Some(r)) => match (first, second) {
            (Descriptor::Mint(trade_mint), Descriptor::Mint(receive_mint)) => {
                match check_token_token(s, r, trade_mint, receive_mint, creator, trade_value) {
                    Ok(_) => Ok(
                        ResolvedTrade::TokenToken {
                            trade_mint: *trade_mint,
                            receive_mint: *receive_mint,
                        },
                    ),
                    Err(e) => Err(e),
                }
            },
            _ => Err(misfit_of(true, first, second)),
        },
        (Some(s), None) => match (first, second) {
            (Descriptor::Mint(trade_mint), Descriptor::Absent) => {
                match check_token_sol(s, trade_mint, creator, trade_value) {
                    Ok(_) => Ok(ResolvedTrade::TokenSol { trade_mint: *trade_mint }),
                    Err(e) => Err(e),
                }
            },
            _ => Err(misfit_of(false, first, second)),
        },
        (None, Some(r)) => match (first, second) {
            (Descriptor::Mint(receive_mint), Descriptor::Absent) => {
                match check_sol_token(r, receive_mint, creator, creator_lamports, trade_value) {
                    Ok(_) => Ok(ResolvedTrade::SolToken { receive_mint: *receive_mint }),
                    Err(e) => Err(e),
                }
            },
            _ => Err(misfit_of(false, first, second)),
        },
        (None, None) => Err(EscrowError::InvalidTradeType),
    }
}

/// The kind of trade that the creator's accounts and the descriptors ask
/// for, or the first rule they break.
pub open spec fn resolved_type(
    send: Option<TokenHolding>,
    receive: Option<TokenHolding>,
    first: Descriptor,
    second: Descriptor,
    creator: Identity,
    creator_lamports: u64,
    trade_value: u64,
) -> Result<TradeType, EscrowError> {
    match resolution(send, receive, first, second, creator, creator_lamports, trade_value) {
        Ok(resolved) => Ok(resolved.kind()),
        Err(e) => Err(e),
    }
}

/// Resolves the kind of trade from what the creator's two accounts hold and
/// the descriptors that came with them.
pub fn resolve_trade_type(
    send: &Option<TokenHolding>,
    receive: &Option<TokenHolding>,
    first: &Descriptor,
    second: &Descriptor,
    creator: &Identity,
    creator_lamports: u64,
    trade_value: u64,
) -> (r: Result<TradeType, EscrowError>)
    ensures
        r == resolved_type(
            *send,
            *receive,
            *first,
            *second,
            *creator,
            creator_lamports,
            trade_value,
        ),
{
    match resolve(send, receive, first, second, creator, creator_lamports, trade_value) {
        Ok(resolved) => Ok(resolved.trade_type()),
        Err(e) => Err(e),
    }
}

/// A trade of a tokenized asset for the same asset is turned away as a
/// `DuplicateMint`, whatever the amounts, whenever both accounts are the
/// creator's and each is of the asset type described for it.
pub proof fn lemma_duplicate_mint_rejected(
    send: TokenHolding,
    receive: TokenHolding,
    mint: Identity,
    creator: Identity,
    creator_lamports: u64,
    trade_value: u64,
)
    requires
        send.mint == mint,
        receive.mint == mint,
        send.owner == creator,
        receive.owner == creator,
    ensures
        resolution(
            Some(send),
            Some(receive),
            Descriptor::Mint(mint),
            Descriptor::Mint(mint),
            creator,
            creator_lamports,
            trade_value,
        ) == Err::<ResolvedTrade, EscrowError>(EscrowError::DuplicateMint),
        resolved_type(
            Some(send),
            Some(receive),
            Descriptor::Mint(mint),
            Descriptor::Mint(mint),
            creator,
            creator_lamports,
            trade_value,
        ) == Err::<TradeType, EscrowError>(EscrowError::DuplicateMint),
{
}

/// A trade is resolved to one kind only, and that kind says which of the
/// creator's accounts hold a tokenized asset.
pub proof fn lemma_resolution_follows_accounts(
    send: Option<TokenHolding>,
    receive: Option<TokenHolding>,
    first: Descriptor,
    second: Descriptor,
    creator: Identity,
    creator_lamports: u64,
    trade_value: u64,
)
    ensures
        match resolution(send, receive, first, second, creator, creator_lamports, trade_value) {
            Ok(ResolvedTrade::TokenToken { trade_mint, receive_mint }) => {
                &&& send matches Some(s) && s.mint == trade_mint
                &&& receive matches Some(r) && r.mint == receive_mint
                &&& first == Descriptor::Mint(trade_mint)
                &&& second == Descriptor::Mint(receive_mint)
                &&& trade_mint != receive_mint
            },
            Ok(ResolvedTrade::TokenSol { trade_mint }) => {
                &&& send matches Some(s) && s.mint == trade_mint
                &&& receive is None
                &&& first == Descriptor::Mint(trade_mint)
                &&& second is Absent
            },
            Ok(ResolvedTrade::SolToken { receive_mint }) => {
                &&& send is None
                &&& receive matches Some(r) && r.mint == receive_mint
                &&& first == Descriptor::Mint(receive_mint)
                &&& second is Absent
            },
            Err(_) => true,
        },
        send is None && receive is None ==> resolution(
            send,
            receive,
            first,
            second,
            creator,
            creator_lamports,
            trade_value,
        ) == Err::<ResolvedTrade, EscrowError>(EscrowError::InvalidTradeType),
{
}

} // verus!
