//! Cancelling a trade: the deposit goes back to where it came from and the
//! vault is closed.

use vstd::prelude::*;
use crate::account::{LedgerAccount, StateAccount};
use crate::custody::{signed_address, signs_for, RecordAuthority, VaultAuthority};
use crate::error::{AccountError, EscrowError, TradeError};
use crate::seed::Role;
use crate::state::{EscrowAccount, Stage, TradeType};
use crate::transfer::{close, transfer, Action, AssetKind, Authority};

verus! {

/// The accounts of a cancellation.
#[derive(Clone, Debug, PartialEq, Eq)]
pub struct Cancel {
    /// The record of the trade.
    pub escrow_state: StateAccount,
    /// The vault that holds the deposit.
    pub escrow_vault: LedgerAccount,
    /// The account that a tokenized deposit came from.
    pub creator_send_account: LedgerAccount,
    /// The creator, who signs.
    pub creator: LedgerAccount,
}

impl Cancel {
    /// The account that the deposit goes back to: the creator for native
    /// currency, the creator's send account for tokens.
    pub open spec fn refund_account(&self, kind: AssetKind) -> LedgerAccount {
        match kind {
            AssetKind::Native => self.creator,
            AssetKind::Token => self.creator_send_account,
        }
    }

    /// What the vault holds of the kind of asset deposited: its own balance
    /// of native currency, or the amount in it as a token account. A vault
    /// that should hold tokens and is no token account holds nothing to
    /// speak of.
    pub open spec fn custody_balance(&self, kind: AssetKind) -> Option<u64> {
        match kind {
            AssetKind::Native => Some(self.escrow_vault.lamports),
            AssetKind::Token => match self.escrow_vault.holding() {
                Some(holding) => Some(holding.amount),
                None => None,
            },
        }
    }

    /// The kind of the trade to cancel with the amount to give back, or the
    /// first rule that the cancellation breaks: the record is in stage
    /// `ReadyExchange`, its trade type is known, the account that the deposit
    /// goes back to is the one on record as its source, and the vault holds
    /// the kind of asset deposited.
    pub open spec fn verdict(&self) -> Result<(TradeType, u64), EscrowError> {
        if !self.escrow_state.record.is_ready() {
            Err(EscrowError::InvalidStage)
        } else {
            match TradeType::of_code(self.escrow_state.record.trade_type) {
                Some(trade_type) => {
                    if self.escrow_state.record.creator_send_account != self.refund_account(
                        trade_type.deposit_kind(),
                    ).key {
                        Err(EscrowError::InvalidOwner)
                    } else {
                        match self.custody_balance(trade_type.deposit_kind()) {
                            Some(amount) => Ok((trade_type, amount)),
                            None => Err(EscrowError::InvalidAccount),
                        }
                    }
                },
                None => Err(EscrowError::InvalidStage),
            }
        }
    }

    /// The vault's own authority, which signs for native currency in it and
    /// for closing a native vault.
    pub open spec fn vault_authority(&self) -> Authority {
        Authority::Vault {
            vault: VaultAuthority {
                creator: self.creator.key,
                order_id: self.escrow_state.record.order_id,
                bump: self.escrow_state.record.vault_bump,
            },
        }
    }

    /// The record's authority, which signs for tokens in the vault and for
    /// closing a token vault.
    pub open spec fn record_authority(&self) -> Authority {
        Authority::Record {
            account: self.escrow_state.key,
            record: RecordAuthority {
                creator: self.creator.key,
                order_id: self.escrow_state.record.order_id,
                bump: self.escrow_state.record.state_bump,
            },
        }
    }

    /// The authority that signs for a deposit of an asset kind.
    pub open spec fn custody_authority(&self, kind: AssetKind) -> Authority {
        match kind {
            AssetKind::Token => self.record_authority(),
            AssetKind::Native => self.vault_authority(),
        }
    }

    /// The move of an amount from the vault back to the source of the
    /// deposit.
    pub open spec fn withdrawal(&self, kind: AssetKind, amount: u64) -> Action {
        Action::Transfer {
            kind,
            from: self.escrow_vault.key,
            to: self.refund_account(kind).key,
            amount,
            authority: self.custody_authority(kind),
        }
    }

    /// The closing of the vault in favour of the creator.
    pub open spec fn vault_closing(&self, kind: AssetKind) -> Action {
        Action::Close {
            kind,
            account: self.escrow_vault.key,
            beneficiary: self.creator.key,
            authority: self.custody_authority(kind),
        }
    }

    /// The moves that cancel a trade: all that the vault holds back to the
    /// source of the deposit, then the closing of the vault.
    pub open spec fn plan(&self, trade_type: TradeType, amount: u64) -> Seq<Action> {
        seq![
            self.withdrawal(trade_type.deposit_kind(), amount),
            self.vault_closing(trade_type.deposit_kind()),
        ]
    }

    /// The record after the cancellation: the stage is `CancelTrade`.
    pub open spec fn cancelled_record(&self) -> EscrowAccount {
        EscrowAccount { stage: Stage::CancelTrade.code(), ..self.escrow_state.record }
    }

    /// The same accounts with another record.
    pub open spec fn with_record(self, record: EscrowAccount) -> Cancel {
        Cancel { escrow_state: StateAccount { record, ..self.escrow_state }, ..self }
    }

    /// Whether the accounts may take part in a cancellation of the creator's
    /// order.
    ///
    /// In order: the record is in stage `ReadyExchange`; a record exists; it
    /// is at the address that the given bump signs for; it names the creator,
    /// the vault, and the creator's send account; the vault is at the address
    /// that the given bump signs for; the creator is a wallet.
    pub open spec fn admission(&self, order_id: u64, state_bump: u8, vault_bump: u8) -> Result<
        (),
        TradeError,
    > {
        let record = self.escrow_state.record;
        if !record.is_ready() {
            Err(TradeError::Escrow(EscrowError::InvalidStage))
        } else if !self.escrow_state.initialized {
            Err(TradeError::Account(AccountError::NotInitialized))
        } else if signed_address(Role::Record, self.creator.key, order_id, state_bump) != Some(
            self.escrow_state.key@,
        ) {
            Err(TradeError::Account(AccountError::Seeds))
        } else if record.creator != self.creator.key {
            Err(TradeError::Account(AccountError::HasOne))
        } else if record.escrow_vault != self.escrow_vault.key {
            Err(TradeError::Escrow(EscrowError::InvalidAccount))
        } else if record.creator_send_account != self.creator_send_account.key {
            Err(TradeError::Escrow(EscrowError::InvalidOwner))
        } else if signed_address(Role::Vault, self.creator.key, order_id, vault_bump) != Some(
            self.escrow_vault.key@,
        ) {
            Err(TradeError::Account(AccountError::Seeds))
        } else if !self.creator.is_wallet() {
            Err(TradeError::Account(AccountError::Raw))
        } else {
            Ok(())
        }
    }

    /// What a cancellation comes to: the accounts with the record marked, and
    /// the moves to make; or why it is turned away.
    pub open spec fn outcome(self, order_id: u64, state_bump: u8, vault_bump: u8) -> Result<
        (Cancel, Seq<Action>),
        TradeError,
    > {
        match self.admission(order_id, state_bump, vault_bump) {
            Err(e) => Err(e),
            Ok(_) => match self.verdict() {
                Err(e) => Err(TradeError::Escrow(e)),
                Ok((trade_type, amount)) => Ok(
                    (self.with_record(self.cancelled_record()), self.plan(trade_type, amount)),
                ),
            },
        }
    }

    /// Tests whether the accounts may take part in a cancellation.
    pub fn admissible(&self, order_id: u64, state_bump: u8, vault_bump: u8) -> (r: Result<
        (),
        TradeError,
    >)
        ensures
            r == self.admission(order_id, state_bump, vault_bump),
    {
        if self.escrow_state.record.stage != Stage::ReadyExchange.to_code() {
            return Err(TradeError::Escrow(EscrowError::InvalidStage));
        }
        if !self.escrow_state.initialized {
            return Err(TradeError::Account(AccountError::NotInitialized));
        }
        if !signs_for(
            Role::Record,
            &self.creator.key,
            order_id,
            state_bump,
            &self.escrow_state.key,
        ) {
            return Err(TradeError::Account(AccountError::Seeds));
        }
        if self.escrow_state.record.creator != self.creator.key {
            return Err(TradeError::Account(AccountError::HasOne));
        }
        if self.escrow_state.record.escrow_vault != self.escrow_vault.key {
            return Err(TradeError::Escrow(EscrowError::InvalidAccount));
        }
        if self.escrow_state.record.creator_send_account != self.creator_send_account.key {
            return Err(TradeError::Escrow(EscrowError::InvalidOwner));
        }
        if !signs_for(Role::Vault, &self.creator.key, order_id, vault_bump, &self.escrow_vault.key) {
            return Err(TradeError::Account(AccountError::Seeds));
        }
        if !self.creator.wallet() {
            return Err(TradeError::Account(AccountError::Raw));
        }
        Ok(())
    }

    /// The move of all the native currency in the vault back to the creator,
    /// signed by the vault.
    pub fn with_draw_native(&self) -> (action: Action)
        ensures
            action == self.withdrawal(AssetKind::Native, self.escrow_vault.lamports),
    {
        let vault = VaultAuthority::new(
            self.creator.key,
            self.escrow_state.record.order_id,
            self.escrow_state.record.vault_bump,
        );
        transfer(
            AssetKind::Native,
            self.escrow_vault.key,
            self.creator.key,
            self.escrow_vault.lamports,
            Authority::Vault { vault },
        )
    }

    /// The move of all the tokens in the vault back to the account that the
    /// deposit came from, signed by the record. A vault that is no token
    /// account is an `InvalidAccount`.
    pub fn with_draw_token(&self) -> (r: Result<Action, EscrowError>)
        ensures
            r == match self.custody_balance(AssetKind::Token) {
                Some(amount) => Ok::<Action, EscrowError>(
                    self.withdrawal(AssetKind::Token, amount),
                ),
                None => Err(EscrowError::InvalidAccount),
            },
    {
        let amount = match self.escrow_vault.token_holding() {
            Some(holding) => holding.amount,
            None => {
                return Err(EscrowError::InvalidAccount);
            },
        };
        let record = RecordAuthority::new(
            self.creator.key,
            self.escrow_state.record.order_id,
            self.escrow_state.record.state_bump,
        );
        Ok(
            transfer(
                AssetKind::Token,
                self.escrow_vault.key,
                self.creator_send_account.key,
                amount,
                Authority::Record { account: self.escrow_state.key, record },
            ),
        )
    }

    /// The closing of a token vault in favour of the creator, signed by the
    /// record.
    pub fn close_vault_token(&self) -> (action: Action)
        ensures
            action == self.vault_closing(AssetKind::Token),
    {
        let record = RecordAuthority::new(
            self.creator.key,
            self.escrow_state.record.order_id,
            self.escrow_state.record.state_bump,
        );
        close(
            AssetKind::Token,
            self.escrow_vault.key,
            self.creator.key,
            Authority::Record { account: self.escrow_state.key, record },
        )
    }

    /// The closing of a native vault in favour of the creator, signed by the
    /// vault.
    pub fn close_vault_native(&self) -> (action: Action)
        ensures
            action == self.vault_closing(AssetKind::Native),
    {
        let vault = VaultAuthority::new(
            self.creator.key,
            self.escrow_state.record.order_id,
            self.escrow_state.record.vault_bump,
        );
        close(
            AssetKind::Native,
            self.escrow_vault.key,
            self.creator.key,
            Authority::Vault { vault },
        )
    }
}

/// Cancels a trade: checks the stage, plans the return of all that the vault
/// holds and the closing of the vault, and marks the record.
///
/// On success the moves are those of the trade's kind, in order, the amount
/// given back is what the vault holds, and the record is in stage
/// `CancelTrade`; nothing else changes. On failure nothing changes, and the
/// error is the first rule broken: a record in any stage but `ReadyExchange`
/// is an `InvalidStage` whatever else holds.
pub fn handler_cancel(ctx: &mut Cancel) -> (r: Result<Vec<Action>, EscrowError>)
    ensures
        match r {
            Ok(moves) => {
                &&& old(ctx).verdict() matches Ok((trade_type, amount))
                &&& moves@ == old(ctx).plan(trade_type, amount)
                &&& *final(ctx) == old(ctx).with_record(old(ctx).cancelled_record())
            },
            Err(e) => {
                &&& old(ctx).verdict() == Err::<(TradeType, u64), EscrowError>(e)
                &&& *final(ctx) == *old(ctx)
            },
        },
        !old(ctx).escrow_state.record.is_ready() ==> r == Err::<Vec<Action>, EscrowError>(
            EscrowError::InvalidStage,
        ) && *final(ctx) == *old(ctx),
        r is Ok ==> final(ctx).escrow_state.record.stage == Stage::CancelTrade.code(),
{
    if ctx.escrow_state.record.stage != Stage::ReadyExchange.to_code() {
        return Err(EscrowError::InvalidStage);
    }
    let creator_send_account = ctx.escrow_state.record.creator_send_account;
    let mut moves: Vec<Action> = Vec::new();
    match TradeType::from(ctx.escrow_state.record.trade_type)? {
        TradeType::SolToken => {
            if creator_send_account != ctx.creator.key {
                return Err(EscrowError::InvalidOwner);
            }
            moves.push(ctx.with_draw_native());
            moves.push(ctx.close_vault_native());
        },
        TradeType::TokenToken | TradeType::TokenSol => {
            if creator_send_account != ctx.creator_send_account.key {
                return Err(EscrowError::InvalidOwner);
            }
            moves.push(ctx.with_draw_token()?);
            moves.push(ctx.close_vault_token());
        },
    }
    ctx.escrow_state.record.stage = Stage::CancelTrade.to_code();
    proof {
        let trade_type = TradeType::of_code(old(ctx).escrow_state.record.trade_type).unwrap();
        let amount = old(ctx).custody_balance(trade_type.deposit_kind()).unwrap();
        assert(moves@ =~= old(ctx).plan(trade_type, amount));
    }
    Ok(moves)
}

} // verus!
