use trade_p2p::error::EscrowError;
use trade_p2p::identity::Identity;
use trade_p2p::state::{EscrowAccount, Stage, TradeType};

#[test]
fn trade_type_codes() {
    assert_eq!(TradeType::from(1), Ok(TradeType::TokenToken));
    assert_eq!(TradeType::from(2), Ok(TradeType::TokenSol));
    assert_eq!(TradeType::from(3), Ok(TradeType::SolToken));
    assert_eq!(TradeType::TokenToken.to_code(), 1);
    assert_eq!(TradeType::TokenSol.to_code(), 2);
    assert_eq!(TradeType::SolToken.to_code(), 3);
}

#[test]
fn unknown_trade_type_code_is_an_invalid_stage() {
    for code in [0u8, 4, 5, 128, 255] {
        assert_eq!(TradeType::from(code), Err(EscrowError::InvalidStage));
    }
}

#[test]
fn stage_codes() {
    assert_eq!(Stage::from(1), Ok(Stage::ReadyExchange));
    assert_eq!(Stage::from(2), Ok(Stage::Exchanged));
    assert_eq!(Stage::from(3), Ok(Stage::CancelTrade));
    assert_eq!(Stage::ReadyExchange.to_code(), 1);
    assert_eq!(Stage::Exchanged.to_code(), 2);
    assert_eq!(Stage::CancelTrade.to_code(), 3);
}

#[test]
fn unknown_stage_code_is_an_invalid_stage() {
    for code in [0u8, 4, 5, 128, 255] {
        assert_eq!(Stage::from(code), Err(EscrowError::InvalidStage));
    }
}

#[test]
fn codes_round_trip() {
    for code in 0..=255u8 {
        if let Ok(trade_type) = TradeType::from(code) {
            assert_eq!(trade_type.to_code(), code);
        }
        if let Ok(stage) = Stage::from(code) {
            assert_eq!(stage.to_code(), code);
        }
    }
    for trade_type in [TradeType::TokenToken, TradeType::SolToken, TradeType::TokenSol] {
        assert_eq!(TradeType::from(trade_type.to_code()), Ok(trade_type));
    }
    for stage in [Stage::ReadyExchange, Stage::Exchanged, Stage::CancelTrade] {
        assert_eq!(Stage::from(stage.to_code()), Ok(stage));
    }
}

#[test]
fn record_length() {
    assert_eq!(EscrowAccount::LEN, 399);
}

#[test]
fn blank_record() {
    let record = EscrowAccount::default();
    let zero = Identity::new([0; 32]);
    assert_eq!(Identity::default(), zero);
    assert_eq!(record.creator, zero);
    assert_eq!(record.partner, zero);
    assert_eq!(record.specify_partner, None);
    assert_eq!(record.creator_send_token_mint, None);
    assert_eq!(record.creator_receive_token_mint, None);
    assert_eq!(record.trade_value, 0);
    assert_eq!(record.stage, 0);
    assert_eq!(record.trade_type, 0);
}

#[test]
fn identities_compare_by_bytes() {
    let mut bytes = [3u8; 32];
    assert_eq!(Identity::new(bytes), Identity::new([3; 32]));
    bytes[31] = 4;
    assert_ne!(Identity::new(bytes), Identity::new([3; 32]));
    bytes[31] = 3;
    bytes[0] = 4;
    assert_ne!(Identity::new(bytes), Identity::new([3; 32]));
    assert_eq!(Identity::new(bytes).to_vec(), bytes.to_vec());
}

#[test]
fn error_messages() {
    assert_eq!(EscrowError::InvalidStage.message(), "Invalid stage for exchange or cancel");
    assert_eq!(EscrowError::InsufficientFunds.message(), "insufficient funds");
    assert_eq!(EscrowError::InvalidMint.message(), "Invalid mint account for trade");
    assert_eq!(EscrowError::MissingMint.message(), "Missing mint for trade");
    assert_eq!(
        EscrowError::InvalidTradeType.message(),
        "Invalid trade p2p type. Maybe missing all mint address"
    );
    assert_eq!(EscrowError::InvalidAccount.message(), "Invalid mint between two token account");
    assert_eq!(EscrowError::DuplicateMint.message(), "Duplicate two mint");
    assert_eq!(EscrowError::InvalidOwner.message(), "Account does not have invalid owner!");
    assert_eq!(
        EscrowError::InvalidPartner.message(),
        "Invalid partner with specify partner set in create trade"
    );
    assert_eq!(
        EscrowError::ZeroValue.message(),
        "Trade value and Receive value must be larger than zero"
    );
    assert_eq!(EscrowError::MissingParams.message(), "instruction data missing params");
}
