use anchor_lang::solana_program::program_option::COption;
use anchor_lang::solana_program::program_pack::Pack;
use anchor_lang::solana_program::pubkey::Pubkey;
use anchor_spl::token::spl_token;
use trade_p2p::account::{descriptor, Descriptor, LedgerAccount, TokenHolding};
use trade_p2p::identity::Identity;

fn id(n: u8) -> Identity {
    Identity::new([n; 32])
}

fn token_program() -> Identity {
    Identity::new(spl_token::ID.to_bytes())
}

fn token_account(key: u8, mint: u8, owner: u8, amount: u64) -> LedgerAccount {
    let account = spl_token::state::Account {
        mint: Pubkey::new_from_array([mint; 32]),
        owner: Pubkey::new_from_array([owner; 32]),
        amount,
        delegate: COption::None,
        state: spl_token::state::AccountState::Initialized,
        is_native: COption::None,
        delegated_amount: 0,
        close_authority: COption::None,
    };
    let mut data = vec![0u8; spl_token::state::Account::LEN];
    spl_token::state::Account::pack(account, &mut data).unwrap();
    LedgerAccount { key: id(key), owner: token_program(), lamports: 2_039_280, data }
}

fn mint_account(key: u8) -> LedgerAccount {
    let mint = spl_token::state::Mint {
        mint_authority: COption::None,
        supply: 1_000_000,
        decimals: 6,
        is_initialized: true,
        freeze_authority: COption::None,
    };
    let mut data = vec![0u8; spl_token::state::Mint::LEN];
    spl_token::state::Mint::pack(mint, &mut data).unwrap();
    LedgerAccount { key: id(key), owner: token_program(), lamports: 1_461_600, data }
}

fn wallet(key: u8, lamports: u64) -> LedgerAccount {
    LedgerAccount { key: id(key), owner: Identity::new([0; 32]), lamports, data: vec![] }
}

#[test]
fn token_account_is_read() {
    let account = token_account(10, 7, 1, 250);
    assert_eq!(
        account.token_holding(),
        Some(TokenHolding { mint: id(7), owner: id(1), amount: 250 })
    );
}

#[test]
fn wallet_is_no_token_account() {
    assert_eq!(wallet(1, 5_000).token_holding(), None);
    assert_eq!(wallet(1, 0).token_holding(), None);
}

#[test]
fn token_account_under_another_owner_is_not_read() {
    let mut account = token_account(10, 7, 1, 250);
    account.owner = id(99);
    assert_eq!(account.token_holding(), None);
}

#[test]
fn truncated_token_account_is_not_read() {
    let mut account = token_account(10, 7, 1, 250);
    account.data.truncate(100);
    assert_eq!(account.token_holding(), None);
}

#[test]
fn mint_is_read_by_its_address() {
    assert_eq!(mint_account(7).mint(), Some(id(7)));
    assert_eq!(token_account(10, 7, 1, 250).mint(), None);
    assert_eq!(wallet(1, 5_000).mint(), None);
}

#[test]
fn descriptors_by_place() {
    let accounts = vec![mint_account(7), wallet(1, 10)];
    assert_eq!(descriptor(&accounts, 0), Descriptor::Mint(id(7)));
    assert_eq!(descriptor(&accounts, 1), Descriptor::Unreadable);
    assert_eq!(descriptor(&accounts, 2), Descriptor::Absent);
}

#[test]
fn wallet_holds_currency_and_no_data() {
    assert!(wallet(1, 1).wallet());
    assert!(!wallet(1, 0).wallet());
    assert!(!token_account(10, 7, 1, 250).wallet());
}
