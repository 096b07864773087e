//! A bilateral escrow engine: two parties exchange one asset for another, the
//! first party's deposit locked in a custody account from the moment the trade
//! is created.
//!
//! The engine decides; it moves nothing. Each operation is handed the accounts
//! it concerns as the ledger shows them, and either turns the operation away,
//! leaving everything as it was, or hands back the moves for the ledger to
//! apply, all or none, together with the record as it stands afterwards.

pub mod account;
pub mod constant;
pub mod custody;
pub mod error;
pub mod identity;
pub mod lifecycle;
pub mod processor;
pub mod resolver;
pub mod seed;
pub mod state;
pub mod transfer;

use vstd::prelude::*;
use crate::error::{EscrowError, TradeError};
use crate::processor::{
    handler_cancel, handler_create_trade, handler_exchange, Cancel, Create, CreateParams, Exchange,
};
use crate::state::Stage;
use crate::transfer::Action;

verus! {

/// Creates a trade: admits the accounts, resolves the kind of trade, plans
/// the vault and the deposit, and writes the record in stage `ReadyExchange`.
///
/// The result is exactly the outcome of the creation. A zero amount is turned
/// away as `ZeroValue` whatever else holds, and so is any creation where a
/// record exists already; what is turned away changes nothing.
pub fn create_trade(ctx: &mut Create, params: CreateParams) -> (r: Result<Vec<Action>, TradeError>)
    ensures
        match r {
            Ok(moves) => old(ctx).outcome(params) == Ok::<(Create, Seq<Action>), TradeError>(
                (*final(ctx), moves@),
            ),
            Err(e) => {
                &&& old(ctx).outcome(params) == Err::<(Create, Seq<Action>), TradeError>(e)
                &&& *final(ctx) == *old(ctx)
            },
        },
        params.trade_value == 0 || params.receive_value == 0 ==> r == Err::<
            Vec<Action>,
            TradeError,
        >(TradeError::Escrow(EscrowError::ZeroValue)),
        old(ctx).escrow_state.initialized ==> r is Err && *final(ctx) == *old(ctx),
        r is Ok ==> final(ctx).escrow_state.initialized,
        r is Ok ==> final(ctx).escrow_state.record.well_formed(),
        r is Ok ==> final(ctx).escrow_state.record.is_ready(),
{
    let state_bump = match ctx.admissible(&params) {
        Ok(state_bump) => state_bump,
        Err(e) => {
            return Err(e);
        },
    };
    handler_create_trade(ctx, params, state_bump)
}

/// Exchanges the two legs of a trade: admits the accounts, checks the
/// partner's side, plans the two moves and the closing of the vault, and
/// marks the record `Exchanged`.
///
/// The result is exactly the outcome of the exchange. A record in any stage
/// but `ReadyExchange` is turned away as `InvalidStage` whatever else holds;
/// a partner other than the one the creator named, as `InvalidPartner`. What
/// is turned away changes nothing.
pub fn exchange(ctx: &mut Exchange, order_id: u64, state_bump: u8, vault_bump: u8) -> (r: Result<
    Vec<Action>,
    TradeError,
>)
    ensures
        match r {
            Ok(moves) => old(ctx).outcome(order_id, state_bump, vault_bump) == Ok::<
                (Exchange, Seq<Action>),
                TradeError,
            >((*final(ctx), moves@)),
            Err(e) => {
                &&& old(ctx).outcome(order_id, state_bump, vault_bump) == Err::<
                    (Exchange, Seq<Action>),
                    TradeError,
                >(e)
                &&& *final(ctx) == *old(ctx)
            },
        },
        !old(ctx).escrow_state.record.is_ready() ==> r == Err::<Vec<Action>, TradeError>(
            TradeError::Escrow(EscrowError::InvalidStage),
        ),
        old(ctx).escrow_state.record.is_ready() && !old(ctx).partner_allowed() ==> r == Err::<
            Vec<Action>,
            TradeError,
        >(TradeError::Escrow(EscrowError::InvalidPartner)),
        r is Ok ==> final(ctx).escrow_state.record.stage == Stage::Exchanged.code(),
        r is Ok ==> final(ctx).escrow_state.record.specify_partner == Some(old(ctx).partner.key),
{
    match ctx.admissible(order_id, state_bump, vault_bump) {
        Ok(_) => {},
        Err(e) => {
            return Err(e);
        },
    }
    match handler_exchange(ctx) {
        Ok(moves) => Ok(moves),
        Err(e) => Err(TradeError::Escrow(e)),
    }
}

/// Cancels a trade: admits the accounts, plans the return of the deposit and
/// the closing of the vault, and marks the record `CancelTrade`.
///
/// The result is exactly the outcome of the cancellation. A record in any
/// stage but `ReadyExchange` is turned away as `InvalidStage` whatever else
/// holds. What is turned away changes nothing.
pub fn cancel(ctx: &mut Cancel, order_id: u64, state_bump: u8, vault_bump: u8) -> (r: Result<
    Vec<Action>,
    TradeError,
>)
    ensures
        match r {
            Ok(moves) => old(ctx).outcome(order_id, state_bump, vault_bump) == Ok::<
                (Cancel, Seq<Action>),
                TradeError,
            >((*final(ctx), moves@)),
            Err(e) => {
                &&& old(ctx).outcome(order_id, state_bump, vault_bump) == Err::<
                    (Cancel, Seq<Action>),
                    TradeError,
                >(e)
                &&& *final(ctx) == *old(ctx)
            },
        },
        !old(ctx).escrow_state.record.is_ready() ==> r == Err::<Vec<Action>, TradeError>(
            TradeError::Escrow(EscrowError::InvalidStage),
        ),
        r is Ok ==> final(ctx).escrow_state.record.stage == Stage::CancelTrade.code(),
{
    match ctx.admissible(order_id, state_bump, vault_bump) {
        Ok(_) => {},
        Err(e) => {
            return Err(e);
        },
    }
    match handler_cancel(ctx) {
        Ok(moves) => Ok(moves),
        Err(e) => Err(TradeError::Escrow(e)),
    }
}

} // verus!
