//! Exchanging the two legs of a trade: the deposit goes to the partner, the
//! partner's leg to the creator, and the vault is closed.

use vstd::prelude::*;
use crate::account::{LedgerAccount, StateAccount, TokenHolding};
use crate::identity::Identity;
use crate::custody::{signed_address, signs_for, RecordAuthority, VaultAuthority};
use crate::error::{AccountError, EscrowError, TradeError};
use crate::seed::Role;
use crate::state::{EscrowAccount, Stage, TradeType};
use crate::transfer::{close, transfer, Action, AssetKind, Authority};

verus! {

/// The accounts of an exchange.
#[derive(Clone, Debug, PartialEq, Eq)]
pub struct Exchange {
    /// The record of the trade.
    pub escrow_state: StateAccount,
    /// The vault that holds the deposit.
    pub escrow_vault: LedgerAccount,
    /// The account on which the creator receives a tokenized leg.
    pub creator_receive_account: LedgerAccount,
    /// The account from which the partner pays a tokenized leg.
    pub partner_send_account: LedgerAccount,
    /// The account on which the partner receives a tokenized deposit.
    pub partner_receive_account: LedgerAccount,
    /// The creator of the trade.
    pub creator: LedgerAccount,
    /// The partner, who signs.
    pub partner: LedgerAccount,
}

/// The first rule that the partner's accounts break in a trade of one
/// tokenized asset for another.
///
/// In order: both of the partner's accounts are token accounts; the send
/// account covers the receive value; it is of the asset type the creator
/// receives; the receive account is of the asset type the creator gave; the
/// partner holds the receive account, and the send account.
pub open spec fn token_token_rules(
    send: Option<TokenHolding>,
    receive: Option<TokenHolding>,
    record: EscrowAccount,
    partner: Identity,
) -> Result<(), EscrowError> {
    match (send, receive) {
        (Some(send), Some(receive)) => {
            if send.amount < record.receive_value {
                Err(EscrowError::InsufficientFunds)
            } else if record.creator_receive_token_mint != Some(send.mint) {
                Err(EscrowError::InvalidAccount)
            } else if record.creator_send_token_mint != Some(receive.mint) {
                Err(EscrowError::InvalidAccount)
            } else if receive.owner != partner {
                Err(EscrowError::InvalidOwner)
            } else if send.owner != partner {
                Err(EscrowError::InvalidOwner)
            } else {
                Ok(())
            }
        },
        _ => Err(EscrowError::InvalidAccount),
    }
}

/// The first rule that the partner's accounts break in a trade of a tokenized
/// asset for native currency.
///
/// In order: the partner's receive account is a token account; it is of the
/// asset type the creator gave; the partner holds it; the partner's own
/// balance covers the receive value.
pub open spec fn token_sol_rules(
    receive: Option<TokenHolding>,
    record: EscrowAccount,
    partner: Identity,
    partner_lamports: u64,
) -> Result<(), EscrowError> {
    match receive {
        Some(receive) => {
            if record.creator_send_token_mint != Some(receive.mint) {
                Err(EscrowError::InvalidAccount)
            } else if receive.owner != partner {
                Err(EscrowError::InvalidOwner)
            } else if partner_lamports < record.receive_value {
                Err(EscrowError::InsufficientFunds)
            } else {
                Ok(())
            }
        },
        None => Err(EscrowError::InvalidAccount),
    }
}

/// The first rule that the partner's accounts break in a trade of native
/// currency for a tokenized asset.
///
/// In order: the partner's send account is a token account; it is of the
/// asset type the creator receives; the partner holds it; it covers the
/// receive value; the creator's receive account is the one on record.
pub open spec fn sol_token_rules(
    send: Option<TokenHolding>,
    record: EscrowAccount,
    partner: Identity,
    creator_receive: Identity,
) -> Result<(), EscrowError> {
    match send {
        Some(send) => {
            if record.creator_receive_token_mint != Some(send.mint) {
                Err(EscrowError::InvalidMint)
            } else if send.owner != partner {
                Err(EscrowError::InvalidOwner)
            } else if send.amount < record.receive_value {
                Err(EscrowError::InsufficientFunds)
            } else if creator_receive != record.creator_receive_account {
                Err(EscrowError::InvalidAccount)
            } else {
                Ok(())
            }
        },
        None => Err(EscrowError::InvalidAccount),
    }
}

/// The first rule that the partner's side breaks in a trade of the given
/// kind, over what the partner's two accounts hold.
pub open spec fn partner_rules(
    kind: TradeType,
    send: Option<TokenHolding>,
    receive: Option<TokenHolding>,
    record: EscrowAccount,
    partner: Identity,
    partner_lamports: u64,
    creator_receive: Identity,
) -> Result<(), EscrowError> {
    match kind {
        TradeType::TokenToken => token_token_rules(send, receive, record, partner),
        TradeType::TokenSol => token_sol_rules(receive, record, partner, partner_lamports),
        TradeType::SolToken => sol_token_rules(send, record, partner, creator_receive),
    }
}

/// Checks the partner's side of a trade of one tokenized asset for another.
pub fn check_token_token(
    send: &Option<TokenHolding>,
    receive: &Option<TokenHolding>,
    record: &EscrowAccount,
    partner: &Identity,
) -> (r: Result<(), EscrowError>)
    ensures
        r == token_token_rules(*send, *receive, *record, *partner),
{
    match (send, receive) {
        (Some(send), Some(receive)) => {
            if send.amount < record.receive_value {
                return Err(EscrowError::InsufficientFunds);
            }
            if record.creator_receive_token_mint != Some(send.mint) {
                return Err(EscrowError::InvalidAccount);
            }
            if record.creator_send_token_mint != Some(receive.mint) {
                return Err(EscrowError::InvalidAccount);
            }
            if receive.owner != *partner {
                return Err(EscrowError::InvalidOwner);
            }
            if send.owner != *partner {
                return Err(EscrowError::InvalidOwner);
            }
            Ok(())
        },
        _ => Err(EscrowError::InvalidAccount),
    }
}

/// Checks the partner's side of a trade of a tokenized asset for native
/// currency.
pub fn check_token_sol(
    receive: &Option<TokenHolding>,
    record: &EscrowAccount,
    partner: &Identity,
    partner_lamports: u64,
) -> (r: Result<(), EscrowError>)
    ensures
        r == token_sol_rules(*receive, *record, *partner, partner_lamports),
{
    match receive {
        Some(receive) => {
            if record.creator_send_token_mint != Some(receive.mint) {
                return Err(EscrowError::InvalidAccount);
            }
            if receive.owner != *partner {
                return Err(EscrowError::InvalidOwner);
            }
        },
        None => {
            return Err(EscrowError::InvalidAccount);
        },
    }
    if partner_lamports < record.receive_value {
        return Err(EscrowError::InsufficientFunds);
    }
    Ok(())
}

/// Checks the partner's side of a trade of native currency for a tokenized
/// asset.
pub fn check_sol_token(
    send: &Option<TokenHolding>,
    record: &EscrowAccount,
    partner: &Identity,
    creator_receive: &Identity,
) -> (r: Result<(), EscrowError>)
    ensures
        r == sol_token_rules(*send, *record, *partner, *creator_receive),
{
    match send {
        Some(send) => {
            if record.creator_receive_token_mint != Some(send.mint) {
                return Err(EscrowError::InvalidMint);
            }
            if send.owner != *partner {
                return Err(EscrowError::InvalidOwner);
            }
            if send.amount < record.receive_value {
                return Err(EscrowError::InsufficientFunds);
            }
        },
        None => {
            return Err(EscrowError::InvalidAccount);
        },
    }
    if *creator_receive != record.creator_receive_account {
        return Err(EscrowError::InvalidAccount);
    }
    Ok(())
}

/// Checks the partner's side of a trade of the given kind, over what the
/// partner's two accounts hold.
pub fn partner_verdict(
    kind: TradeType,
    send: &Option<TokenHolding>,
    receive: &Option<TokenHolding>,
    record: &EscrowAccount,
    partner: &Identity,
    partner_lamports: u64,
    creator_receive: &Identity,
) -> (r: Result<(), EscrowError>)
    ensures
        r == partner_rules(
            kind,
            *send,
            *receive,
            *record,
            *partner,
            partner_lamports,
            *creator_receive,
        ),
{
    match kind {
        TradeType::TokenToken => check_token_token(send, receive, record, partner),
        TradeType::TokenSol => check_token_sol(receive, record, partner, partner_lamports),
        TradeType::SolToken => check_sol_token(send, record, partner, creator_receive),
    }
}

impl Exchange {
    /// Whether the creator accepts the partner: no partner was named, or this
    /// one was.
    pub open spec fn partner_allowed(&self) -> bool {
        match self.escrow_state.record.specify_partner {
            Some(named) => named == self.partner.key,
            None => true,
        }
    }

    /// The first rule that the partner's side breaks in a trade of the given
    /// kind, over the accounts as handed in.
    pub open spec fn partner_side(&self, kind: TradeType) -> Result<(), EscrowError> {
        partner_rules(
            kind,
            self.partner_send_account.holding(),
            self.partner_receive_account.holding(),
            self.escrow_state.record,
            self.partner.key,
            self.partner.lamports,
            self.creator_receive_account.key,
        )
    }

    /// The kind of the trade to settle, or the first rule that the exchange
    /// breaks: the record is in stage `ReadyExchange`, the partner is one the
    /// creator accepts, the record's trade type is known, then the rules of
    /// that type for the partner's side.
    pub open spec fn verdict(&self) -> Result<TradeType, EscrowError> {
        if !self.escrow_state.record.is_ready() {
            Err(EscrowError::InvalidStage)
        } else if !self.partner_allowed() {
            Err(EscrowError::InvalidPartner)
        } else {
            match TradeType::of_code(self.escrow_state.record.trade_type) {
                Some(trade_type) => match self.partner_side(trade_type) {
                    Ok(_) => Ok(trade_type),
                    Err(e) => Err(e),
                },
                None => Err(EscrowError::InvalidStage),
            }
        }
    }

    /// The vault's own authority, which signs for native currency in it and
    /// for closing a native vault.
    pub open spec fn vault_authority(&self) -> Authority {
        Authority::Vault {
            vault: VaultAuthority {
                creator: self.creator.key,
                order_id: self.escrow_state.record.order_id,
                bump: self.escrow_state.record.vault_bump,
            },
        }
    }

    /// The record's authority, which signs for tokens in the vault and for
    /// closing a token vault.
    pub open spec fn record_authority(&self) -> Authority {
        Authority::Record {
            account: self.escrow_state.key,
            record: RecordAuthority {
                creator: self.creator.key,
                order_id: self.escrow_state.record.order_id,
                bump: self.escrow_state.record.state_bump,
            },
        }
    }

    /// The authority that signs for a deposit of an asset kind.
    pub open spec fn custody_authority(&self, kind: AssetKind) -> Authority {
        match kind {
            AssetKind::Token => self.record_authority(),
            AssetKind::Native => self.vault_authority(),
        }
    }

    /// The move of the deposit from the vault to the partner: tokens to the
    /// partner's receive account, native currency to the partner.
    pub open spec fn to_partner(&self, kind: AssetKind, amount: u64) -> Action {
        Action::Transfer {
            kind,
            from: self.escrow_vault.key,
            to: match kind {
                AssetKind::Token => self.partner_receive_account.key,
                AssetKind::Native => self.partner.key,
            },
            amount,
            authority: self.custody_authority(kind),
        }
    }

    /// The move of the partner's leg to the creator, signed by the partner:
    /// tokens from the partner's send account to the creator's receive
    /// account, native currency from the partner to the creator.
    pub open spec fn to_creator(&self, kind: AssetKind, amount: u64) -> Action {
        Action::Transfer {
            kind,
            from: match kind {
                AssetKind::Token => self.partner_send_account.key,
                AssetKind::Native => self.partner.key,
            },
            to: match kind {
                AssetKind::Token => self.creator_receive_account.key,
                AssetKind::Native => self.creator.key,
            },
            amount,
            authority: Authority::Signature { signer: self.partner.key },
        }
    }

    /// The closing of the vault in favour of the creator.
    pub open spec fn vault_closing(&self, kind: AssetKind) -> Action {
        Action::Close {
            kind,
            account: self.escrow_vault.key,
            beneficiary: self.creator.key,
            authority: self.custody_authority(kind),
        }
    }

    /// The moves that settle a trade: the deposit to the partner, the
    /// partner's leg to the creator, then the closing of the vault.
    pub open spec fn plan(&self, trade_type: TradeType) -> Seq<Action> {
        let record = self.escrow_state.record;
        seq![
            self.to_partner(trade_type.deposit_kind(), record.trade_value),
            self.to_creator(trade_type.receive_kind(), record.receive_value),
            self.vault_closing(trade_type.deposit_kind()),
        ]
    }

    /// The record after the exchange: the partner is on record, in both
    /// places that name one, and the stage is `Exchanged`.
    pub open spec fn settled_record(&self) -> EscrowAccount {
        EscrowAccount {
            partner: self.partner.key,
            specify_partner: Some(self.partner.key),
            stage: Stage::Exchanged.code(),
            ..self.escrow_state.record
        }
    }

    /// The same accounts with another record.
    pub open spec fn with_record(self, record: EscrowAccount) -> Exchange {
        Exchange { escrow_state: StateAccount { record, ..self.escrow_state }, ..self }
    }

    /// Whether the accounts may take part in an exchange of the creator's
    /// order.
    ///
    /// In order: the record is in stage `ReadyExchange`; the partner is one
    /// the creator accepts; a record exists; it is at the address that the
    /// given bump signs for; it names the creator, and the vault; the vault
    /// is at the address that the given bump signs for; the creator's receive
    /// account is the one on record; the partner is a wallet.
    pub open spec fn admission(&self, order_id: u64, state_bump: u8, vault_bump: u8) -> Result<
        (),
        TradeError,
    > {
        let record = self.escrow_state.record;
        if !record.is_ready() {
            Err(TradeError::Escrow(EscrowError::InvalidStage))
        } else if !self.partner_allowed() {
            Err(TradeError::Escrow(EscrowError::InvalidPartner))
        } else if !self.escrow_state.initialized {
            Err(TradeError::Account(AccountError::NotInitialized))
        } else if signed_address(Role::Record, self.creator.key, order_id, state_bump) != Some(
            self.escrow_state.key@,
        ) {
            Err(TradeError::Account(AccountError::Seeds))
        } else if record.creator != self.creator.key {
            Err(TradeError::Account(AccountError::HasOne))
        } else if record.escrow_vault != self.escrow_vault.key {
            Err(TradeError::Account(AccountError::HasOne))
        } else if signed_address(Role::Vault, self.creator.key, record.order_id, vault_bump)
            != Some(self.escrow_vault.key@) {
            Err(TradeError::Account(AccountError::Seeds))
        } else if self.creator_receive_account.key != record.creator_receive_account {
            Err(TradeError::Escrow(EscrowError::InvalidAccount))
        } else if !self.partner.is_wallet() {
            Err(TradeError::Account(AccountError::Raw))
        } else {
            Ok(())
        }
    }

    /// What an exchange comes to: the accounts with the record settled, and
    /// the moves to make; or why it is turned away.
    pub open spec fn outcome(self, order_id: u64, state_bump: u8, vault_bump: u8) -> Result<
        (Exchange, Seq<Action>),
        TradeError,
    > {
        match self.admission(order_id, state_bump, vault_bump) {
            Err(e) => Err(e),
            Ok(_) => match self.verdict() {
                Err(e) => Err(TradeError::Escrow(e)),
                Ok(trade_type) => Ok(
                    (self.with_record(self.settled_record()), self.plan(trade_type)),
                ),
            },
        }
    }

    /// Tests whether the partner is one the creator accepts.
    pub fn accepts_partner(&self) -> (r: bool)
        ensures
            r == self.partner_allowed(),
    {
        match self.escrow_state.record.specify_partner {
            Some(named) => named == self.partner.key,
            None => true,
        }
    }

    /// Tests whether the accounts may take part in an exchange.
    pub fn admissible(&self, order_id: u64, state_bump: u8, vault_bump: u8) -> (r: Result<
        (),
        TradeError,
    >)
        ensures
            r == self.admission(order_id, state_bump, vault_bump),
    {
        if self.escrow_state.record.stage != Stage::ReadyExchange.to_code() {
            return Err(TradeError::Escrow(EscrowError::InvalidStage));
        }
        if !self.accepts_partner() {
            return Err(TradeError::Escrow(EscrowError::InvalidPartner));
        }
        if !self.escrow_state.initialized {
            return Err(TradeError::Account(AccountError::NotInitialized));
        }
        if !signs_for(
            Role::Record,
            &self.creator.key,
            order_id,
            state_bump,
            &self.escrow_state.key,
        ) {
            return Err(TradeError::Account(AccountError::Seeds));
        }
        if self.escrow_state.record.creator != self.creator.key {
            return Err(TradeError::Account(AccountError::HasOne));
        }
        if self.escrow_state.record.escrow_vault != self.escrow_vault.key {
            return Err(TradeError::Account(AccountError::HasOne));
        }
        if !signs_for(
            Role::Vault,
            &self.creator.key,
            self.escrow_state.record.order_id,
            vault_bump,
            &self.escrow_vault.key,
        ) {
            return Err(TradeError::Account(AccountError::Seeds));
        }
        if self.creator_receive_account.key != self.escrow_state.record.creator_receive_account {
            return Err(TradeError::Escrow(EscrowError::InvalidAccount));
        }
        if !self.partner.wallet() {
            return Err(TradeError::Account(AccountError::Raw));
        }
        Ok(())
    }

    /// The move of native currency from the vault to the partner, signed by
    /// the vault.
    pub fn transfer_to_partner_native(&self, amount: u64) -> (action: Action)
        ensures
            action == self.to_partner(AssetKind::Native, amount),
    {
        let vault = VaultAuthority::new(
            self.creator.key,
            self.escrow_state.record.order_id,
            self.escrow_state.record.vault_bump,
        );
        transfer(
            AssetKind::Native,
            self.escrow_vault.key,
            self.partner.key,
            amount,
            Authority::Vault { vault },
        )
    }

    /// The move of tokens from the vault to the partner's receive account,
    /// signed by the record.
    pub fn transfer_to_partner_token(&self, amount: u64) -> (action: Action)
        ensures
            action == self.to_partner(AssetKind::Token, amount),
    {
        let record = RecordAuthority::new(
            self.creator.key,
            self.escrow_state.record.order_id,
            self.escrow_state.record.state_bump,
        );
        transfer(
            AssetKind::Token,
            self.escrow_vault.key,
            self.partner_receive_account.key,
            amount,
            Authority::Record { account: self.escrow_state.key, record },
        )
    }

    /// The move of native currency from the partner to the creator.
    pub fn transfer_to_creator_native(&self, amount: u64) -> (action: Action)
        ensures
            action == self.to_creator(AssetKind::Native, amount),
    {
        transfer(
            AssetKind::Native,
            self.partner.key,
            self.creator.key,
            amount,
            Authority::Signature { signer: self.partner.key },
        )
    }

    /// The move of tokens from the partner's send account to the creator's
    /// receive account.
    pub fn transfer_to_creator_token(&self, amount: u64) -> (action: Action)
        ensures
            action == self.to_creator(AssetKind::Token, amount),
    {
        transfer(
            AssetKind::Token,
            self.partner_send_account.key,
            self.creator_receive_account.key,
            amount,
            Authority::Signature { signer: self.partner.key },
        )
    }

    /// The closing of a token vault in favour of the creator, signed by the
    /// record.
    pub fn close_vault_token(&self) -> (action: Action)
        ensures
            action == self.vault_closing(AssetKind::Token),
    {
        let record = RecordAuthority::new(
            self.creator.key,
            self.escrow_state.record.order_id,
            self.escrow_state.record.state_bump,
        );
        close(
            AssetKind::Token,
            self.escrow_vault.key,
            self.creator.key,
            Authority::Record { account: self.escrow_state.key, record },
        )
    }

    /// The closing of a native vault in favour of the creator, signed by the
    /// vault.
    pub fn close_vault_native(&self) -> (action: Action)
        ensures
            action == self.vault_closing(AssetKind::Native),
    {
        let vault = VaultAuthority::new(
            self.creator.key,
            self.escrow_state.record.order_id,
            self.escrow_state.record.vault_bump,
        );
        close(
            AssetKind::Native,
            self.escrow_vault.key,
            self.creator.key,
            Authority::Vault { vault },
        )
    }
}

/// Settles a trade: checks the stage, the partner and the partner's
/// accounts, plans the two legs and the closing of the vault, and marks the
/// record.
///
/// On success the moves are those of the trade's kind, in order, and the
/// record names the partner and is in stage `Exchanged`; nothing else
/// changes. On failure nothing changes, and the error is the first rule
/// broken: a record in any stage but `ReadyExchange` is an `InvalidStage`
/// whatever else holds, then a partner the creator did not name is an
/// `InvalidPartner`.
pub fn handler_exchange(ctx: &mut Exchange) -> (r: Result<Vec<Action>, EscrowError>)
    ensures
        match r {
            Ok(moves) => {
                &&& old(ctx).verdict() matches Ok(trade_type)
                &&& moves@ == old(ctx).plan(trade_type)
                &&& *final(ctx) == old(ctx).with_record(old(ctx).settled_record())
            },
            Err(e) => {
                &&& old(ctx).verdict() == Err::<TradeType, EscrowError>(e)
                &&& *final(ctx) == *old(ctx)
            },
        },
        !old(ctx).escrow_state.record.is_ready() ==> r == Err::<Vec<Action>, EscrowError>(
            EscrowError::InvalidStage,
        ) && *final(ctx) == *old(ctx),
        old(ctx).escrow_state.record.is_ready() && !old(ctx).partner_allowed() ==> r == Err::<
            Vec<Action>,
            EscrowError,
        >(EscrowError::InvalidPartner),
        r is Ok ==> final(ctx).escrow_state.record.stage == Stage::Exchanged.code(),
{
    if ctx.escrow_state.record.stage != Stage::ReadyExchange.to_code() {
        return Err(EscrowError::InvalidStage);
    }
    if !ctx.accepts_partner() {
        return Err(EscrowError::InvalidPartner);
    }
    let trade_type = TradeType::from(ctx.escrow_state.record.trade_type)?;
    let send = ctx.partner_send_account.token_holding();
    let receive = ctx.partner_receive_account.token_holding();
    partner_verdict(
        trade_type,
        &send,
        &receive,
        &ctx.escrow_state.record,
        &ctx.partner.key,
        ctx.partner.lamports,
        &ctx.creator_receive_account.key,
    )?;
    let trade_value = ctx.escrow_state.record.trade_value;
    let receive_value = ctx.escrow_state.record.receive_value;
    let mut moves: Vec<Action> = Vec::new();
    match trade_type {
        TradeType::TokenToken => {
            moves.push(ctx.transfer_to_partner_token(trade_value));
            moves.push(ctx.transfer_to_creator_token(receive_value));
            moves.push(ctx.close_vault_token());
        },
        TradeType::TokenSol => {
            moves.push(ctx.transfer_to_partner_token(trade_value));
            moves.push(ctx.transfer_to_creator_native(receive_value));
            moves.push(ctx.close_vault_token());
        },
        TradeType::SolToken => {
            moves.push(ctx.transfer_to_partner_native(trade_value));
            moves.push(ctx.transfer_to_creator_token(receive_value));
            moves.push(ctx.close_vault_native());
        },
    }
    ctx.escrow_state.record.partner = ctx.partner.key;
    ctx.escrow_state.record.specify_partner = Some(ctx.partner.key);
    ctx.escrow_state.record.stage = Stage::Exchanged.to_code();
    proof {
        assert(moves@ =~= old(ctx).plan(trade_type));
    }
    Ok(moves)
}

} // verus!
