//! What holds of a trade over its whole life, whichever operations are tried
//! on it and in whatever order.
//!
//! Each law is stated twice where that makes a difference: of the verdict of
//! an operation on whatever accounts it is handed, and of the outcome of the
//! operation that admits the accounts first.

use vstd::prelude::*;
use crate::account::TokenHolding;
use crate::custody::signed_address;
use crate::error::{AccountError, EscrowError, TradeError};
use crate::identity::Identity;
use crate::processor::{Cancel, Create, CreateParams, Exchange};
use crate::resolver::ResolvedTrade;
use crate::seed::Role;
use crate::state::{EscrowAccount, Stage, TradeType};
use crate::transfer::{Action, AssetKind};

verus! {

/// A creation with a zero trade value or a zero receive value is turned away
/// as `ZeroValue`, whatever the accounts.
pub proof fn lemma_zero_value_is_rejected(ctx: Create, params: CreateParams)
    requires
        params.trade_value == 0 || params.receive_value == 0,
    ensures
        ctx.verdict(params) == Err::<ResolvedTrade, TradeError>(
            TradeError::Escrow(EscrowError::ZeroValue),
        ),
        ctx.outcome(params) == Err::<(Create, Seq<Action>), TradeError>(
            TradeError::Escrow(EscrowError::ZeroValue),
        ),
{
}

/// A creation where a record exists already is turned away, whatever the
/// terms and the accounts: as `AlreadyInUse` where both amounts are positive.
pub proof fn lemma_existing_record_is_kept(ctx: Create, params: CreateParams)
    requires
        ctx.escrow_state.initialized,
    ensures
        ctx.verdict(params) is Err,
        ctx.outcome(params) is Err,
        params.trade_value > 0 && params.receive_value > 0 ==> ctx.verdict(params) == Err::<
            ResolvedTrade,
            TradeError,
        >(TradeError::Account(AccountError::AlreadyInUse)),
{
}

/// A creation that succeeds writes a second creation's refusal: on the
/// accounts it leaves, every creation is turned away, whatever the terms.
pub proof fn lemma_second_creation_fails(
    ctx: Create,
    params: CreateParams,
    state_bump: u8,
    again: CreateParams,
)
    requires
        ctx.verdict(params) is Ok,
    ensures
        ({
            let left = ctx.created(params, state_bump, ctx.verdict(params)->Ok_0);
            left.verdict(again) is Err && left.outcome(again) is Err
        }),
{
}

/// The record that a creation writes is settled by the terms, the accounts'
/// addresses and the trade resolved, whatever the record account held
/// before. It is well formed and waits in stage `ReadyExchange`; a tokenized
/// leg has the asset type of the creator's account on that side, a native
/// leg has none.
pub proof fn lemma_created_record(ctx: Create, params: CreateParams, state_bump: u8)
    requires
        ctx.verdict(params) is Ok,
    ensures
        ({
            let resolved = ctx.verdict(params)->Ok_0;
            let record = ctx.created(params, state_bump, resolved).escrow_state.record;
            &&& record.well_formed()
            &&& record.stage == Stage::ReadyExchange.code()
            &&& record.trade_type == resolved.kind().code()
            &&& record.creator == ctx.creator.key
            &&& record.order_id == params.order_id
            &&& record.trade_value == params.trade_value
            &&& record.receive_value == params.receive_value
            &&& record.specify_partner == params.specify_partner
            &&& record.escrow_vault == ctx.escrow_vault.key
            &&& record.creator_send_token_mint == match ctx.creator_send_account.holding() {
                Some(holding) => Some(holding.mint),
                None => None,
            }
            &&& record.creator_receive_token_mint == match ctx.creator_receive_account.holding() {
                Some(holding) => Some(holding.mint),
                None => None,
            }
            &&& resolved.kind() == TradeType::TokenToken <==> ctx.creator_send_account.holding()
                is Some && ctx.creator_receive_account.holding() is Some
            &&& resolved.kind() == TradeType::TokenSol <==> ctx.creator_send_account.holding()
                is Some && ctx.creator_receive_account.holding() is None
            &&& resolved.kind() == TradeType::SolToken <==> ctx.creator_send_account.holding()
                is None && ctx.creator_receive_account.holding() is Some
        }),
{
}

/// A creation that is admitted and succeeds leaves the record and the vault
/// at the addresses derived for the creator's order, which the bumps on
/// record sign for.
pub proof fn lemma_created_addresses(ctx: Create, params: CreateParams)
    requires
        ctx.outcome(params) is Ok,
    ensures
        ({
            let created = ctx.outcome(params)->Ok_0.0.escrow_state;
            &&& !ctx.escrow_state.initialized
            &&& created.initialized
            &&& created.key == ctx.escrow_state.key
            &&& signed_address(
                Role::Record,
                created.record.creator,
                created.record.order_id,
                created.record.state_bump,
            ) == Some(created.key@)
            &&& signed_address(
                Role::Vault,
                created.record.creator,
                created.record.order_id,
                created.record.vault_bump,
            ) == Some(created.record.escrow_vault@)
        }),
{
}

/// The addresses of a trade follow from the creator and the order id alone:
/// two creations that succeed for the same creator and order id, whatever
/// else differs between them, have the same record address, the same vault
/// and the same bumps.
pub proof fn lemma_addresses_follow_creator_and_order(
    first: Create,
    first_params: CreateParams,
    second: Create,
    second_params: CreateParams,
)
    requires
        first.outcome(first_params) is Ok,
        second.outcome(second_params) is Ok,
        first.creator.key == second.creator.key,
        first_params.order_id == second_params.order_id,
    ensures
        ({
            let a = first.outcome(first_params)->Ok_0.0.escrow_state;
            let b = second.outcome(second_params)->Ok_0.0.escrow_state;
            &&& a.key == b.key
            &&& a.record.escrow_vault == b.record.escrow_vault
            &&& a.record.state_bump == b.record.state_bump
            &&& a.record.vault_bump == b.record.vault_bump
        }),
{
}

/// A trade that was created can be taken up: an exchange on the record and
/// the vault that the creation left, for the same creator and with the bumps
/// on record, by a wallet that the creator accepts, is admitted.
pub proof fn lemma_created_trade_is_admitted(created: Create, params: CreateParams, ctx: Exchange)
    requires
        created.outcome(params) matches Ok((after, _)) && ctx.escrow_state == after.escrow_state,
        ctx.creator.key == created.creator.key,
        ctx.escrow_vault.key == created.escrow_vault.key,
        ctx.creator_receive_account.key == created.creator_receive_account.key,
        ctx.partner_allowed(),
        ctx.partner.is_wallet(),
    ensures
        ctx.admission(
            params.order_id,
            ctx.escrow_state.record.state_bump,
            ctx.escrow_state.record.vault_bump,
        ) == Ok::<(), TradeError>(()),
        ctx.escrow_state.record.well_formed(),
{
}

/// A trade that was created can be taken back: a cancellation on the record
/// and the vault that the creation left, by the same creator with the same
/// send account and the bumps on record, is admitted.
pub proof fn lemma_created_trade_can_be_cancelled(
    created: Create,
    params: CreateParams,
    ctx: Cancel,
)
    requires
        created.outcome(params) matches Ok((after, _)) && ctx.escrow_state == after.escrow_state,
        ctx.creator.key == created.creator.key,
        ctx.creator.is_wallet(),
        ctx.escrow_vault.key == created.escrow_vault.key,
        ctx.creator_send_account.key == created.creator_send_account.key,
    ensures
        ctx.admission(
            params.order_id,
            ctx.escrow_state.record.state_bump,
            ctx.escrow_state.record.vault_bump,
        ) == Ok::<(), TradeError>(()),
{
}

/// An exchange on a record in any stage but `ReadyExchange` is turned away
/// as `InvalidStage`, whatever the accounts.
pub proof fn lemma_exchange_needs_ready(
    ctx: Exchange,
    order_id: u64,
    state_bump: u8,
    vault_bump: u8,
)
    requires
        ctx.escrow_state.record.stage != Stage::ReadyExchange.code(),
    ensures
        ctx.verdict() == Err::<TradeType, EscrowError>(EscrowError::InvalidStage),
        ctx.outcome(order_id, state_bump, vault_bump) == Err::<(Exchange, Seq<Action>), TradeError>(
            TradeError::Escrow(EscrowError::InvalidStage),
        ),
{
}

/// A cancellation on a record in any stage but `ReadyExchange` is turned
/// away as `InvalidStage`, whatever the accounts.
pub proof fn lemma_cancel_needs_ready(ctx: Cancel, order_id: u64, state_bump: u8, vault_bump: u8)
    requires
        ctx.escrow_state.record.stage != Stage::ReadyExchange.code(),
    ensures
        ctx.verdict() == Err::<(TradeType, u64), EscrowError>(EscrowError::InvalidStage),
        ctx.outcome(order_id, state_bump, vault_bump) == Err::<(Cancel, Seq<Action>), TradeError>(
            TradeError::Escrow(EscrowError::InvalidStage),
        ),
{
}

/// An exchange or a cancellation on a record whose trade type code is
/// unknown is turned away as `InvalidStage`.
pub proof fn lemma_unknown_trade_type_is_rejected(exchange: Exchange, cancel: Cancel)
    requires
        TradeType::of_code(exchange.escrow_state.record.trade_type) is None,
        TradeType::of_code(cancel.escrow_state.record.trade_type) is None,
        exchange.partner_allowed(),
    ensures
        exchange.verdict() == Err::<TradeType, EscrowError>(EscrowError::InvalidStage),
        cancel.verdict() == Err::<(TradeType, u64), EscrowError>(EscrowError::InvalidStage),
{
}

/// An exchange that succeeds starts from `ReadyExchange` and ends in
/// `Exchanged`. It changes the stage and the partner on record, and nothing
/// else of the record: the trade type and the terms stay as created, and a
/// well-formed record stays well formed.
pub proof fn lemma_exchange_step(ctx: Exchange)
    requires
        ctx.verdict() is Ok,
    ensures
        ({
            let before = ctx.escrow_state.record;
            let after = ctx.settled_record();
            &&& before.stage == Stage::ReadyExchange.code()
            &&& after.stage == Stage::Exchanged.code()
            &&& Stage::Exchanged.is_terminal()
            &&& after == (EscrowAccount {
                stage: after.stage,
                partner: ctx.partner.key,
                specify_partner: Some(ctx.partner.key),
                ..before
            })
            &&& before.well_formed() ==> after.well_formed()
        }),
{
}

/// A cancellation that succeeds starts from `ReadyExchange` and ends in
/// `CancelTrade`. It changes the stage and nothing else of the record, and a
/// well-formed record stays well formed.
pub proof fn lemma_cancel_step(ctx: Cancel)
    requires
        ctx.verdict() is Ok,
    ensures
        ({
            let before = ctx.escrow_state.record;
            let after = ctx.cancelled_record();
            &&& before.stage == Stage::ReadyExchange.code()
            &&& after.stage == Stage::CancelTrade.code()
            &&& Stage::CancelTrade.is_terminal()
            &&& after == (EscrowAccount { stage: after.stage, ..before })
            &&& before.well_formed() ==> after.well_formed()
        }),
{
}

/// Once an exchange succeeded, every further exchange and every cancellation
/// on the record it left is turned away as `InvalidStage`, whatever accounts
/// and numbers come with it.
pub proof fn lemma_nothing_follows_exchange(
    ctx: Exchange,
    next_exchange: Exchange,
    next_cancel: Cancel,
    order_id: u64,
    state_bump: u8,
    vault_bump: u8,
)
    requires
        ctx.verdict() is Ok,
        next_exchange.escrow_state.record == ctx.settled_record(),
        next_cancel.escrow_state.record == ctx.settled_record(),
    ensures
        next_exchange.verdict() == Err::<TradeType, EscrowError>(EscrowError::InvalidStage),
        next_cancel.verdict() == Err::<(TradeType, u64), EscrowError>(EscrowError::InvalidStage),
        next_exchange.outcome(order_id, state_bump, vault_bump) == Err::<
            (Exchange, Seq<Action>),
            TradeError,
        >(TradeError::Escrow(EscrowError::InvalidStage)),
        next_cancel.outcome(order_id, state_bump, vault_bump) == Err::<
            (Cancel, Seq<Action>),
            TradeError,
        >(TradeError::Escrow(EscrowError::InvalidStage)),
{
}

/// Once a cancellation succeeded, every exchange and every further
/// cancellation on the record it left is turned away as `InvalidStage`,
/// whatever accounts and numbers come with it.
pub proof fn lemma_nothing_follows_cancel(
    ctx: Cancel,
    next_exchange: Exchange,
    next_cancel: Cancel,
    order_id: u64,
    state_bump: u8,
    vault_bump: u8,
)
    requires
        ctx.verdict() is Ok,
        next_exchange.escrow_state.record == ctx.cancelled_record(),
        next_cancel.escrow_state.record == ctx.cancelled_record(),
    ensures
        next_exchange.verdict() == Err::<TradeType, EscrowError>(EscrowError::InvalidStage),
        next_cancel.verdict() == Err::<(TradeType, u64), EscrowError>(EscrowError::InvalidStage),
        next_exchange.outcome(order_id, state_bump, vault_bump) == Err::<
            (Exchange, Seq<Action>),
            TradeError,
        >(TradeError::Escrow(EscrowError::InvalidStage)),
        next_cancel.outcome(order_id, state_bump, vault_bump) == Err::<
            (Cancel, Seq<Action>),
            TradeError,
        >(TradeError::Escrow(EscrowError::InvalidStage)),
{
}

/// Where the creator named a partner, an exchange on a record in stage
/// `ReadyExchange` by anyone else is turned away as `InvalidPartner`,
/// whatever the accounts; and an exchange that succeeds is by the partner
/// named.
pub proof fn lemma_named_partner_only(
    ctx: Exchange,
    order_id: u64,
    state_bump: u8,
    vault_bump: u8,
)
    requires
        ctx.escrow_state.record.specify_partner is Some,
    ensures
        ctx.escrow_state.record.stage == Stage::ReadyExchange.code() && ctx.partner.key
            != ctx.escrow_state.record.specify_partner->Some_0 ==> {
            &&& ctx.verdict() == Err::<TradeType, EscrowError>(EscrowError::InvalidPartner)
            &&& ctx.outcome(order_id, state_bump, vault_bump) == Err::<
                (Exchange, Seq<Action>),
                TradeError,
            >(TradeError::Escrow(EscrowError::InvalidPartner))
        },
        ctx.verdict() is Ok ==> ctx.partner.key
            == ctx.escrow_state.record.specify_partner->Some_0,
        ctx.outcome(order_id, state_bump, vault_bump) is Ok ==> ctx.partner.key
            == ctx.escrow_state.record.specify_partner->Some_0,
{
}

/// Whether an account holds tokens of an asset type for a holder, at least
/// an amount of them.
pub open spec fn holds(
    account: Option<TokenHolding>,
    mint: Option<Identity>,
    holder: Identity,
    amount: u64,
) -> bool {
    account matches Some(holding) && mint == Some(holding.mint) && holding.owner == holder
        && holding.amount >= amount
}

/// A partner whom the creator accepts is served: on a well-formed record in
/// stage `ReadyExchange`, with the creator's receive account the one on
/// record, the exchange succeeds for a partner who holds a token account of
/// the asset type deposited, where the deposit is tokenized, and who covers
/// the receive value: in a token account of the asset type the creator
/// receives, or in native currency.
pub proof fn lemma_accepted_partner_is_served(ctx: Exchange)
    requires
        ctx.escrow_state.record.well_formed(),
        ctx.escrow_state.record.is_ready(),
        ctx.partner_allowed(),
        ctx.creator_receive_account.key == ctx.escrow_state.record.creator_receive_account,
        ({
            let record = ctx.escrow_state.record;
            let kind = TradeType::of_code(record.trade_type)->Some_0;
            &&& kind.deposit_kind() == AssetKind::Token ==> holds(
                ctx.partner_receive_account.holding(),
                record.creator_send_token_mint,
                ctx.partner.key,
                0,
            )
            &&& kind.receive_kind() == AssetKind::Token ==> holds(
                ctx.partner_send_account.holding(),
                record.creator_receive_token_mint,
                ctx.partner.key,
                record.receive_value,
            )
            &&& kind.receive_kind() == AssetKind::Native ==> ctx.partner.lamports
                >= record.receive_value
        }),
    ensures
        ctx.verdict() == Ok::<TradeType, EscrowError>(
            TradeType::of_code(ctx.escrow_state.record.trade_type)->Some_0,
        ),
        ctx.settled_record().stage == Stage::Exchanged.code(),
        ctx.settled_record().specify_partner == Some(ctx.partner.key),
{
}

/// Whether a plan first moves an amount out of the vault and last closes the
/// vault, both under the authority that fits the kind of deposit: the record
/// for tokens, the vault itself for native currency.
pub open spec fn empties_then_closes(plan: Seq<Action>, vault: Identity, moved: u64) -> bool {
    &&& plan.len() >= 2
    &&& plan.first() matches Action::Transfer { kind, from, amount, authority, .. }
    &&& from == vault
    &&& amount == moved
    &&& plan.last() matches Action::Close { kind: closed, account, authority: closer, .. }
    &&& account == vault
    &&& closed == kind
    &&& closer == authority
    &&& match kind {
        AssetKind::Token => authority is Record,
        AssetKind::Native => authority is Vault,
    }
}

/// The moves of an exchange that succeeds take the trade value out of the
/// vault before they close it in favour of the creator.
pub proof fn lemma_exchange_pays_out_then_closes(ctx: Exchange)
    requires
        ctx.verdict() is Ok,
    ensures
        empties_then_closes(
            ctx.plan(ctx.verdict()->Ok_0),
            ctx.escrow_vault.key,
            ctx.escrow_state.record.trade_value,
        ),
{
}

/// The moves of a cancellation that succeeds take all that the vault holds
/// of the kind deposited out of it before they close it.
pub proof fn lemma_cancel_drains_vault(ctx: Cancel)
    requires
        ctx.verdict() is Ok,
    ensures
        ({
            let (trade_type, amount) = ctx.verdict()->Ok_0;
            &&& ctx.custody_balance(trade_type.deposit_kind()) == Some(amount)
            &&& empties_then_closes(ctx.plan(trade_type, amount), ctx.escrow_vault.key, amount)
        }),
{
}

} // verus!
