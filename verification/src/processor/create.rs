//! Creating a trade: the creator's deposit is locked in a new vault and the
//! record is written, ready for a partner.

use vstd::prelude::*;
use crate::account::{
    descriptor, descriptor_at, token_account_len, LedgerAccount, StateAccount, TOKEN_ACCOUNT_LEN,
};
use crate::custody::{derived, signed_address, VaultAuthority};
use crate::error::{AccountError, EscrowError, TradeError};
use crate::identity::Identity;
use crate::resolver::{resolution, resolve, ResolvedTrade};
use crate::seed::Role;
use crate::state::{EscrowAccount, Stage};
use crate::transfer::{transfer, Action, AssetKind, Authority};

verus! {

/// The accounts of a creation.
#[derive(Clone, Debug, PartialEq, Eq)]
pub struct Create {
    /// Where the record of the trade is to be written.
    pub escrow_state: StateAccount,
    /// Where the deposit is to be locked.
    pub escrow_vault: LedgerAccount,
    /// The creator, who signs and pays.
    pub creator: LedgerAccount,
    /// The account the deposit comes from.
    pub creator_send_account: LedgerAccount,
    /// The account on which the creator is to receive the partner's leg.
    pub creator_receive_account: LedgerAccount,
    /// The account that later off-core fee handling refers to.
    pub fee_account: LedgerAccount,
    /// The descriptors of the asset types of the tokenized legs: that of the
    /// trade side first where that leg is tokenized.
    pub remaining_accounts: Vec<LedgerAccount>,
}

/// The terms of a trade as its creator states them.
#[derive(Clone, Copy, Debug, PartialEq, Eq)]
pub struct CreateParams {
    /// The creator's own number for the trade.
    pub order_id: u64,
    /// The only partner the creator accepts, if any.
    pub specify_partner: Option<Identity>,
    /// The amount the creator deposits.
    pub trade_value: u64,
    /// The amount the creator expects back.
    pub receive_value: u64,
    pub timestamp: u64,
    /// The bump of the vault's address.
    pub vault_bump: u8,
}

impl Create {
    /// The trade that the creator's accounts ask for, or the first rule of
    /// resolution they break.
    pub open spec fn resolution(&self, params: CreateParams) -> Result<ResolvedTrade, EscrowError> {
        resolution(
            self.creator_send_account.holding(),
            self.creator_receive_account.holding(),
            descriptor_at(self.remaining_accounts@, 0),
            descriptor_at(self.remaining_accounts@, 1),
            self.creator.key,
            self.creator.lamports,
            params.trade_value,
        )
    }

    /// The trade to create, or the first rule that the creation breaks: both
    /// amounts are positive, no record was created at the address before,
    /// then the rules of resolution.
    pub open spec fn verdict(&self, params: CreateParams) -> Result<ResolvedTrade, TradeError> {
        if params.trade_value == 0 || params.receive_value == 0 {
            Err(TradeError::Escrow(EscrowError::ZeroValue))
        } else if self.escrow_state.initialized {
            Err(TradeError::Account(AccountError::AlreadyInUse))
        } else {
            match self.resolution(params) {
                Ok(resolved) => Ok(resolved),
                Err(e) => Err(TradeError::Escrow(e)),
            }
        }
    }

    /// The authority under which the vault is created.
    pub open spec fn vault_authority(&self, vault_bump: u8, order_id: u64) -> VaultAuthority {
        VaultAuthority { creator: self.creator.key, order_id, bump: vault_bump }
    }

    /// The move that allocates a vault for a tokenized deposit.
    pub open spec fn token_vault_allocation(&self, vault_bump: u8, order_id: u64) -> Action {
        Action::CreateAccount {
            kind: AssetKind::Token,
            payer: self.creator.key,
            account: self.escrow_vault.key,
            space: TOKEN_ACCOUNT_LEN,
            signer: self.vault_authority(vault_bump, order_id),
        }
    }

    /// The move that makes the vault a token account of an asset type, held
    /// by the record.
    pub open spec fn token_vault_initialization(&self, mint: Identity) -> Action {
        Action::InitializeTokenAccount {
            account: self.escrow_vault.key,
            mint,
            holder: self.escrow_state.key,
        }
    }

    /// The move that allocates a vault for a native deposit.
    pub open spec fn native_vault_allocation(&self, vault_bump: u8, order_id: u64) -> Action {
        Action::CreateAccount {
            kind: AssetKind::Native,
            payer: self.creator.key,
            account: self.escrow_vault.key,
            space: 0,
            signer: self.vault_authority(vault_bump, order_id),
        }
    }

    /// The move that locks a deposit of an asset kind in the vault, signed by
    /// the creator.
    pub open spec fn deposit(&self, kind: AssetKind, amount: u64) -> Action {
        Action::Transfer {
            kind,
            from: match kind {
                AssetKind::Token => self.creator_send_account.key,
                AssetKind::Native => self.creator.key,
            },
            to: self.escrow_vault.key,
            amount,
            authority: Authority::Signature { signer: self.creator.key },
        }
    }

    /// The moves that create the vault of a resolved trade and lock the
    /// creator's deposit in it.
    pub open spec fn plan(&self, params: CreateParams, resolved: ResolvedTrade) -> Seq<Action> {
        match resolved.send_mint() {
            Some(mint) => seq![
                self.token_vault_allocation(params.vault_bump, params.order_id),
                self.token_vault_initialization(mint),
                self.deposit(AssetKind::Token, params.trade_value),
            ],
            None => seq![
                self.native_vault_allocation(params.vault_bump, params.order_id),
                self.deposit(AssetKind::Native, params.trade_value),
            ],
        }
    }

    /// The record of the trade as creation writes it. Every field is
    /// written: the asset type of a native leg is absent, and no partner is on
    /// record yet.
    pub open spec fn record_for(
        &self,
        params: CreateParams,
        state_bump: u8,
        resolved: ResolvedTrade,
    ) -> EscrowAccount {
        EscrowAccount {
            creator: self.creator.key,
            partner: Identity::zero(),
            specify_partner: params.specify_partner,
            fee_account: self.fee_account.key,
            trade_token_mint: Identity::zero(),
            receive_token_mint: Identity::zero(),
            escrow_vault: self.escrow_vault.key,
            creator_send_account: self.creator_send_account.key,
            creator_receive_account: self.creator_receive_account.key,
            creator_send_token_mint: resolved.send_mint(),
            creator_receive_token_mint: resolved.receive_mint(),
            trade_value: params.trade_value,
            receive_value: params.receive_value,
            timestamp: params.timestamp,
            order_id: params.order_id,
            state_bump,
            vault_bump: params.vault_bump,
            trade_type: resolved.kind().code(),
            stage: Stage::ReadyExchange.code(),
        }
    }

    /// The same accounts once the trade is created: the record exists and
    /// holds the trade.
    pub open spec fn created(
        self,
        params: CreateParams,
        state_bump: u8,
        resolved: ResolvedTrade,
    ) -> Create {
        Create {
            escrow_state: StateAccount {
                key: self.escrow_state.key,
                initialized: true,
                record: self.record_for(params, state_bump, resolved),
            },
            ..self
        }
    }

    /// Whether the accounts may hold a new trade, with the bump of the
    /// record's address if they may.
    ///
    /// In order: both amounts are positive; the record account is at the
    /// address derived for the creator's order, which the bump found with it
    /// signs for; no record was created there before; the vault is at the
    /// address derived for the creator's order, and the bump given is the one
    /// found with it; the creator is a wallet.
    pub open spec fn admission(&self, params: CreateParams) -> Result<u8, TradeError> {
        if params.trade_value == 0 || params.receive_value == 0 {
            Err(TradeError::Escrow(EscrowError::ZeroValue))
        } else {
            match derived(Role::Record, self.creator.key, params.order_id) {
                None => Err(TradeError::Account(AccountError::Seeds)),
                Some((address, state_bump)) => {
                    if address != self.escrow_state.key || signed_address(
                        Role::Record,
                        self.creator.key,
                        params.order_id,
                        state_bump,
                    ) != Some(self.escrow_state.key@) {
                        Err(TradeError::Account(AccountError::Seeds))
                    } else if self.escrow_state.initialized {
                        Err(TradeError::Account(AccountError::AlreadyInUse))
                    } else if !self.vault_derived(params) {
                        Err(TradeError::Account(AccountError::Seeds))
                    } else if !self.creator.is_wallet() {
                        Err(TradeError::Account(AccountError::Raw))
                    } else {
                        Ok(state_bump)
                    }
                },
            }
        }
    }

    /// Whether the vault is at the address derived for the creator's order,
    /// with the bump given the one found with it, which signs for it.
    pub open spec fn vault_derived(&self, params: CreateParams) -> bool {
        &&& derived(Role::Vault, self.creator.key, params.order_id) == Some(
            (self.escrow_vault.key, params.vault_bump),
        )
        &&& signed_address(Role::Vault, self.creator.key, params.order_id, params.vault_bump)
            == Some(self.escrow_vault.key@)
    }

    /// What a creation comes to: the accounts with the record written, and
    /// the moves to make; or why it is turned away.
    pub open spec fn outcome(self, params: CreateParams) -> Result<(Create, Seq<Action>), TradeError> {
        match self.admission(params) {
            Err(e) => Err(e),
            Ok(state_bump) => match self.verdict(params) {
                Err(e) => Err(e),
                Ok(resolved) => Ok(
                    (self.created(params, state_bump, resolved), self.plan(params, resolved)),
                ),
            },
        }
    }

    /// Tests whether the accounts may hold a new trade.
    pub fn admissible(&self, params: &CreateParams) -> (r: Result<u8, TradeError>)
        ensures
            r == self.admission(*params),
    {
        if params.trade_value == 0 || params.receive_value == 0 {
            return Err(TradeError::Escrow(EscrowError::ZeroValue));
        }
        let state_bump = match crate::custody::derive(Role::Record, &self.creator.key, params.order_id) {
            Some((address, state_bump)) => {
                if address != self.escrow_state.key {
                    return Err(TradeError::Account(AccountError::Seeds));
                }
                state_bump
            },
            None => {
                return Err(TradeError::Account(AccountError::Seeds));
            },
        };
        if self.escrow_state.initialized {
            return Err(TradeError::Account(AccountError::AlreadyInUse));
        }
        match crate::custody::derive(Role::Vault, &self.creator.key, params.order_id) {
            Some((vault, vault_bump)) => {
                if vault != self.escrow_vault.key || vault_bump != params.vault_bump {
                    return Err(TradeError::Account(AccountError::Seeds));
                }
            },
            None => {
                return Err(TradeError::Account(AccountError::Seeds));
            },
        }
        if !self.creator.wallet() {
            return Err(TradeError::Account(AccountError::Raw));
        }
        Ok(state_bump)
    }

    /// The two moves that make the vault a token account of an asset type:
    /// its allocation under the vault's own authority, and its initialization
    /// with the record as holder.
    pub fn create_token_account_vault(&self, mint: Identity, vault_bump: u8, order_id: u64) -> (moves:
        (Action, Action))
        ensures
            moves.0 == self.token_vault_allocation(vault_bump, order_id),
            moves.1 == self.token_vault_initialization(mint),
    {
        let space = token_account_len();
        let authority = VaultAuthority::new(self.creator.key, order_id, vault_bump);
        (
            Action::CreateAccount {
                kind: AssetKind::Token,
                payer: self.creator.key,
                account: self.escrow_vault.key,
                space,
                signer: authority,
            },
            Action::InitializeTokenAccount {
                account: self.escrow_vault.key,
                mint,
                holder: self.escrow_state.key,
            },
        )
    }

    /// The move that allocates the vault as a plain holding account for
    /// native currency.
    pub fn create_native_account_vault(&self, vault_bump: u8, order_id: u64) -> (action: Action)
        ensures
            action == self.native_vault_allocation(vault_bump, order_id),
    {
        let authority = VaultAuthority::new(self.creator.key, order_id, vault_bump);
        Action::CreateAccount {
            kind: AssetKind::Native,
            payer: self.creator.key,
            account: self.escrow_vault.key,
            space: 0,
            signer: authority,
        }
    }

    /// The move of native currency from the creator to the vault.
    pub fn transfer_native_vault(&self, amount: u64) -> (action: Action)
        ensures
            action == self.deposit(AssetKind::Native, amount),
    {
        transfer(
            AssetKind::Native,
            self.creator.key,
            self.escrow_vault.key,
            amount,
            Authority::Signature { signer: self.creator.key },
        )
    }

    /// The move of tokens from the creator's send account to the vault.
    pub fn transfer_token_to_vault(&self, amount: u64) -> (action: Action)
        ensures
            action == self.deposit(AssetKind::Token, amount),
    {
        transfer(
            AssetKind::Token,
            self.creator_send_account.key,
            self.escrow_vault.key,
            amount,
            Authority::Signature { signer: self.creator.key },
        )
    }
}

/// Creates a trade: resolves its kind, plans the vault and the deposit, and
/// writes the record.
///
/// On success the moves are those of the resolved trade, in order, and the
/// record exists and holds the terms in stage `ReadyExchange`, every field
/// written; nothing else changes. On failure nothing changes, and the error
/// is the first rule broken: a zero amount before all else, then a record
/// that exists already, then the rules of resolution.
pub fn handler_create_trade(ctx: &mut Create, params: CreateParams, state_bump: u8) -> (r: Result<
    Vec<Action>,
    TradeError,
>)
    ensures
        match r {
            Ok(moves) => {
                &&& old(ctx).verdict(params) matches Ok(resolved)
                &&& moves@ == old(ctx).plan(params, resolved)
                &&& *final(ctx) == old(ctx).created(params, state_bump, resolved)
            },
            Err(e) => {
                &&& old(ctx).verdict(params) == Err::<ResolvedTrade, TradeError>(e)
                &&& *final(ctx) == *old(ctx)
            },
        },
        params.trade_value == 0 || params.receive_value == 0 ==> r == Err::<
            Vec<Action>,
            TradeError,
        >(TradeError::Escrow(EscrowError::ZeroValue)),
        old(ctx).escrow_state.initialized ==> r is Err && *final(ctx) == *old(ctx),
        r is Ok ==> final(ctx).escrow_state.initialized,
        r is Ok ==> final(ctx).escrow_state.record.well_formed(),
        r is Ok ==> final(ctx).escrow_state.record.is_ready(),
{
    if params.trade_value == 0 {
        return Err(TradeError::Escrow(EscrowError::ZeroValue));
    }
    if params.receive_value == 0 {
        return Err(TradeError::Escrow(EscrowError::ZeroValue));
    }
    if ctx.escrow_state.initialized {
        return Err(TradeError::Account(AccountError::AlreadyInUse));
    }
    let send = ctx.creator_send_account.token_holding();
    let receive = ctx.creator_receive_account.token_holding();
    let first = descriptor(&ctx.remaining_accounts, 0);
    let second = descriptor(&ctx.remaining_accounts, 1);
    let resolved = match resolve(
        &send,
        &receive,
        &first,
        &second,
        &ctx.creator.key,
        ctx.creator.lamports,
        params.trade_value,
    ) {
        Ok(resolved) => resolved,
        Err(e) => {
            return Err(TradeError::Escrow(e));
        },
    };

    let mut moves: Vec<Action> = Vec::new();
    let (send_mint, receive_mint) = match resolved {
        ResolvedTrade::TokenToken { trade_mint, receive_mint } => {
            let (allocate, initialize) = ctx.create_token_account_vault(
                trade_mint,
                params.vault_bump,
                params.order_id,
            );
            moves.push(allocate);
            moves.push(initialize);
            moves.push(ctx.transfer_token_to_vault(params.trade_value));
            (Some(trade_mint), Some(receive_mint))
        },
        ResolvedTrade::TokenSol { trade_mint } => {
            let (allocate, initialize) = ctx.create_token_account_vault(
                trade_mint,
                params.vault_bump,
                params.order_id,
            );
            moves.push(allocate);
            moves.push(initialize);
            moves.push(ctx.transfer_token_to_vault(params.trade_value));
            (Some(trade_mint), None)
        },
        ResolvedTrade::SolToken { receive_mint } => {
            moves.push(ctx.create_native_account_vault(params.vault_bump, params.order_id));
            moves.push(ctx.transfer_native_vault(params.trade_value));
            (None, Some(receive_mint))
        },
    };
    let unset = Identity::default();
    ctx.escrow_state.record = EscrowAccount {
        creator: ctx.creator.key,
        partner: unset,
        specify_partner: params.specify_partner,
        fee_account: ctx.fee_account.key,
        trade_token_mint: unset,
        receive_token_mint: unset,
        escrow_vault: ctx.escrow_vault.key,
        creator_send_account: ctx.creator_send_account.key,
        creator_receive_account: ctx.creator_receive_account.key,
        creator_send_token_mint: send_mint,
        creator_receive_token_mint: receive_mint,
        trade_value: params.trade_value,
        receive_value: params.receive_value,
        timestamp: params.timestamp,
        order_id: params.order_id,
        state_bump,
        vault_bump: params.vault_bump,
        trade_type: resolved.trade_type().to_code(),
        stage: Stage::ReadyExchange.to_code(),
    };
    ctx.escrow_state.initialized = true;
    proof {
        assert(moves@ =~= old(ctx).plan(params, resolved));
    }
    Ok(moves)
}

} // verus!
