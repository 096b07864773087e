//! The escrow record and the codes it stores.

use vstd::prelude::*;
use crate::error::EscrowError;
use crate::identity::Identity;

verus! {

/// Which assets the two legs of a trade move.
#[derive(Clone, Copy, Debug, PartialEq, Eq, Structural)]
pub enum TradeType {
    /// The creator gives a tokenized asset and receives another.
    TokenToken,
    /// The creator gives native currency and receives a tokenized asset.
    SolToken,
    /// The creator gives a tokenized asset and receives native currency.
    TokenSol,
}

impl TradeType {
    /// The code under which the record stores the trade type.
    pub open spec fn code(self) -> u8 {
        match self {
            TradeType::TokenToken => 1,
            TradeType::TokenSol => 2,
            TradeType::SolToken => 3,
        }
    }

    /// The trade type that a code stands for, if any.
    pub open spec fn of_code(code: u8) -> Option<TradeType> {
        if code == 1 {
            Some(TradeType::TokenToken)
        } else if code == 2 {
            Some(TradeType::TokenSol)
        } else if code == 3 {
            Some(TradeType::SolToken)
        } else {
            None
        }
    }

    /// Reads a trade type from its code. An unknown code is an `InvalidStage`.
    pub fn from(code: u8) -> (r: Result<TradeType, EscrowError>)
        ensures
            r == match TradeType::of_code(code) {
                Some(trade_type) => Ok::<TradeType, EscrowError>(trade_type),
                None => Err(EscrowError::InvalidStage),
            },
    {
        match code {
            1 => Ok(TradeType::TokenToken),
            2 => Ok(TradeType::TokenSol),
            3 => Ok(TradeType::SolToken),
            _ => Err(EscrowError::InvalidStage),
        }
    }

    /// The code of the trade type.
    pub fn to_code(&self) -> (code: u8)
        ensures
            code == self.code(),
    {
        match self {
            TradeType::TokenToken => 1,
            TradeType::TokenSol => 2,
            TradeType::SolToken => 3,
        }
    }

    /// A trade type is read back from its own code, and a code that stands for
    /// a trade type is the code of that type.
    pub proof fn lemma_code_round_trip(trade_type: TradeType, code: u8)
        ensures
            TradeType::of_code(trade_type.code()) == Some(trade_type),
            TradeType::of_code(code) matches Some(t) ==> t.code() == code,
            TradeType::of_code(code) is Some <==> 1 <= code <= 3,
    {
    }
}

/// Where a trade stands in its life.
#[derive(Clone, Copy, Debug, PartialEq, Eq, Structural)]
pub enum Stage {
    /// The deposit is locked and the trade waits for a partner.
    ReadyExchange,
    /// The two legs were exchanged. Nothing follows.
    Exchanged,
    /// The creator took the deposit back. Nothing follows.
    CancelTrade,
}

impl Stage {
    /// The code under which the record stores the stage.
    pub open spec fn code(self) -> u8 {
        match self {
            Stage::ReadyExchange => 1,
            Stage::Exchanged => 2,
            Stage::CancelTrade => 3,
        }
    }

    /// The stage that a code stands for, if any.
    pub open spec fn of_code(code: u8) -> Option<Stage> {
        if code == 1 {
            Some(Stage::ReadyExchange)
        } else if code == 2 {
            Some(Stage::Exchanged)
        } else if code == 3 {
            Some(Stage::CancelTrade)
        } else {
            None
        }
    }

    /// Whether nothing can follow the stage.
    pub open spec fn is_terminal(self) -> bool {
        self != Stage::ReadyExchange
    }

    /// Reads a stage from its code. An unknown code is an `InvalidStage`.
    pub fn from(code: u8) -> (r: Result<Stage, EscrowError>)
        ensures
            r == match Stage::of_code(code) {
                Some(stage) => Ok::<Stage, EscrowError>(stage),
                None => Err(EscrowError::InvalidStage),
            },
    {
        match code {
            1 => Ok(Stage::ReadyExchange),
            2 => Ok(Stage::Exchanged),
            3 => Ok(Stage::CancelTrade),
            _ => Err(EscrowError::InvalidStage),
        }
    }

    /// The code of the stage.
    pub fn to_code(&self) -> (code: u8)
        ensures
            code == self.code(),
    {
        match self {
            Stage::ReadyExchange => 1,
            Stage::Exchanged => 2,
            Stage::CancelTrade => 3,
        }
    }

    /// A stage is read back from its own code, and a code that stands for a
    /// stage is the code of that stage.
    pub proof fn lemma_code_round_trip(stage: Stage, code: u8)
        ensures
            Stage::of_code(stage.code()) == Some(stage),
            Stage::of_code(code) matches Some(s) ==> s.code() == code,
            Stage::of_code(code) is Some <==> 1 <= code <= 3,
    {
    }
}

/// The persisted terms and state of one trade. There is one record for each
/// creator and order id.
#[derive(Clone, Copy, Debug, PartialEq, Eq)]
pub struct EscrowAccount {
    /// Who created the trade and locked the deposit.
    pub creator: Identity,
    /// Who exchanged with the creator; set by the exchange.
    pub partner: Identity,
    /// The only partner the creator accepts, if one was named. After the
    /// exchange, the partner who exchanged.
    pub specify_partner: Option<Identity>,
    /// The account that later off-core fee handling refers to.
    pub fee_account: Identity,
    pub trade_token_mint: Identity,
    pub receive_token_mint: Identity,
    /// The custody account that holds the deposit.
    pub escrow_vault: Identity,
    /// The account the deposit came from, and goes back to on cancel.
    pub creator_send_account: Identity,
    /// The account on which the creator receives the partner's leg.
    pub creator_receive_account: Identity,
    /// The asset type the creator gives; absent when that leg is native.
    pub creator_send_token_mint: Option<Identity>,
    /// The asset type the creator receives; absent when that leg is native.
    pub creator_receive_token_mint: Option<Identity>,
    /// The amount the creator deposits.
    pub trade_value: u64,
    /// The amount the creator expects back.
    pub receive_value: u64,
    pub timestamp: u64,
    /// The creator's own number for the trade.
    pub order_id: u64,
    /// The bump of the record's address.
    pub state_bump: u8,
    /// The bump of the vault's address.
    pub vault_bump: u8,
    /// The code of the trade type, fixed at creation.
    pub trade_type: u8,
    /// The code of the stage.
    pub stage: u8,
}

impl EscrowAccount {
    /// The size of the persisted record in bytes: a tag of 8 bytes, 8
    /// identities, 3 optional identities, 4 amounts and 4 small codes.
    pub const LEN: usize = 8 + 32 * 8 + 33 * 3 + 8 * 4 + 1 * 4;

    /// Whether the record marks its legs as its trade type says: a tokenized
    /// leg has its asset type, a native leg has none, and two tokenized legs
    /// are of different asset types.
    pub open spec fn legs_recorded(&self) -> bool {
        match TradeType::of_code(self.trade_type) {
            Some(TradeType::TokenToken) => {
                &&& self.creator_send_token_mint is Some
                &&& self.creator_receive_token_mint is Some
                &&& self.creator_send_token_mint != self.creator_receive_token_mint
            },
            Some(TradeType::TokenSol) => {
                &&& self.creator_send_token_mint is Some
                &&& self.creator_receive_token_mint is None
            },
            Some(TradeType::SolToken) => {
                &&& self.creator_send_token_mint is None
                &&& self.creator_receive_token_mint is Some
            },
            None => true,
        }
    }

    /// Whether the record is that of a trade as creation leaves it: both
    /// amounts positive, a known trade type with its asset types, a known
    /// stage.
    pub open spec fn well_formed(&self) -> bool {
        &&& self.trade_value > 0
        &&& self.receive_value > 0
        &&& TradeType::of_code(self.trade_type) is Some
        &&& Stage::of_code(self.stage) is Some
        &&& self.legs_recorded()
    }

    /// Whether the record waits for a partner.
    pub open spec fn is_ready(&self) -> bool {
        self.stage == Stage::ReadyExchange.code()
    }

    /// The record of an account on which nothing was written yet: every
    /// identity and number zero, no optional identity present.
    pub open spec fn is_blank(&self) -> bool {
        &&& self.creator@ == Identity::zero_bytes()
        &&& self.partner@ == Identity::zero_bytes()
        &&& self.specify_partner is None
        &&& self.fee_account@ == Identity::zero_bytes()
        &&& self.trade_token_mint@ == Identity::zero_bytes()
        &&& self.receive_token_mint@ == Identity::zero_bytes()
        &&& self.escrow_vault@ == Identity::zero_bytes()
        &&& self.creator_send_account@ == Identity::zero_bytes()
        &&& self.creator_receive_account@ == Identity::zero_bytes()
        &&& self.creator_send_token_mint is None
        &&& self.creator_receive_token_mint is None
        &&& self.trade_value == 0
        &&& self.receive_value == 0
        &&& self.timestamp == 0
        &&& self.order_id == 0
        &&& self.state_bump == 0
        &&& self.vault_bump == 0
        &&& self.trade_type == 0
        &&& self.stage == 0
    }
}

impl Default for EscrowAccount {
    /// The blank record.
    fn default() -> (record: EscrowAccount)
        ensures
            record.is_blank(),
    {
        let zero = Identity::default();
        EscrowAccount {
            creator: zero,
            partner: zero,
            specify_partner: None,
            fee_account: zero,
            trade_token_mint: zero,
            receive_token_mint: zero,
            escrow_vault: zero,
            creator_send_account: zero,
            creator_receive_account: zero,
            creator_send_token_mint: None,
            creator_receive_token_mint: None,
            trade_value: 0,
            receive_value: 0,
            timestamp: 0,
            order_id: 0,
            state_bump: 0,
            vault_bump: 0,
            trade_type: 0,
            stage: 0,
        }
    }
}

} // verus!
