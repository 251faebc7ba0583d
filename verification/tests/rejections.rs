//! One rejected request for every error, each leaving the ledger untouched.

use myspltoken::instructions::init_token;
use myspltoken::instructions::mint_tokens;
use myspltoken::instructions::transfer_tokens;
use myspltoken::instructions::burn_tokens;
use myspltoken::instructions::InitToken;
use myspltoken::instructions::InitTokenParams;
use myspltoken::instructions::MintTokens;
use myspltoken::instructions::TransferTokens;
use myspltoken::instructions::BurnTokens;
use myspltoken::ledger::Ledger;
use myspltoken::records::HoldingRecord;
use myspltoken::records::MetadataRecord;
use myspltoken::records::MintRecord;
use myspltoken::records::TokenError;

const MINT_PDA: u64 = 100;
const METADATA_PDA: u64 = 101;
const ALICE: u64 = 1;
const ALICE_ATA: u64 = 11;
const BOB: u64 = 2;
const BOB_ATA: u64 = 22;

fn params() -> InitTokenParams {
    InitTokenParams {
        name: String::from("Demo Token"),
        symbol: String::from("DEMO"),
        uri: String::from("https://example.org/demo.json"),
        decimals: 9,
    }
}

fn init_ctx() -> InitToken {
    InitToken { metadata: METADATA_PDA, mint: MINT_PDA, payer: ALICE, payer_is_signer: true }
}

fn mint_ctx() -> MintTokens {
    MintTokens { mint: MINT_PDA, destination: ALICE_ATA, payer: ALICE, payer_is_signer: true }
}

fn transfer_ctx() -> TransferTokens {
    TransferTokens {
        source: ALICE_ATA,
        destination: BOB_ATA,
        payer: ALICE,
        payer_is_signer: true,
        authority: ALICE,
        authority_is_signer: true,
        mint: MINT_PDA,
    }
}

fn burn_ctx() -> BurnTokens {
    BurnTokens { mint: MINT_PDA, source: ALICE_ATA, owner: ALICE, owner_is_signer: true }
}

fn funded_ledger() -> Ledger {
    let mut l = Ledger::new();
    init_token(&mut l, init_ctx(), params(), MINT_PDA, METADATA_PDA).unwrap();
    mint_tokens(&mut l, mint_ctx(), 500, MINT_PDA, ALICE_ATA).unwrap();
    l.create_holding(BOB_ATA, MINT_PDA, BOB).unwrap();
    l
}

#[test]
fn unsigned_initialize_rejected() {
    let mut l = Ledger::new();
    let ctx = InitToken { payer_is_signer: false, ..init_ctx() };
    let r = init_token(&mut l, ctx, params(), MINT_PDA, METADATA_PDA);
    assert_eq!(r, Err(TokenError::MissingSignature));
    assert!(l.mints.is_empty());
    assert!(l.metadata.is_empty());
}

#[test]
fn unsigned_mint_rejected() {
    let mut l = funded_ledger();
    let ctx = MintTokens { payer_is_signer: false, ..mint_ctx() };
    let r = mint_tokens(&mut l, ctx, 10, MINT_PDA, ALICE_ATA);
    assert_eq!(r, Err(TokenError::MissingSignature));
    assert_eq!(l.holdings.get(&ALICE_ATA).unwrap().balance, 500);
    assert_eq!(l.mints.get(&MINT_PDA).unwrap().supply, 500);
}

#[test]
fn unsigned_transfer_payer_rejected() {
    let mut l = funded_ledger();
    let ctx = TransferTokens { payer_is_signer: false, ..transfer_ctx() };
    let r = transfer_tokens(&mut l, ctx, 10);
    assert_eq!(r, Err(TokenError::MissingSignature));
    assert_eq!(l.holdings.get(&ALICE_ATA).unwrap().balance, 500);
    assert_eq!(l.holdings.get(&BOB_ATA).unwrap().balance, 0);
}

#[test]
fn unsigned_transfer_authority_rejected() {
    let mut l = funded_ledger();
    let ctx = TransferTokens { authority_is_signer: false, ..transfer_ctx() };
    let r = transfer_tokens(&mut l, ctx, 10);
    assert_eq!(r, Err(TokenError::MissingSignature));
    assert_eq!(l.holdings.get(&ALICE_ATA).unwrap().balance, 500);
    assert_eq!(l.holdings.get(&BOB_ATA).unwrap().balance, 0);
}

#[test]
fn transfer_by_stranger_rejected() {
    let mut l = funded_ledger();
    let ctx = TransferTokens { authority: BOB, ..transfer_ctx() };
    let r = transfer_tokens(&mut l, ctx, 10);
    assert_eq!(r, Err(TokenError::HoldingOwnerMismatch));
    assert_eq!(l.holdings.get(&ALICE_ATA).unwrap().balance, 500);
    assert_eq!(l.holdings.get(&BOB_ATA).unwrap().balance, 0);
}

#[test]
fn unsigned_burn_rejected() {
    let mut l = funded_ledger();
    let ctx = BurnTokens { owner_is_signer: false, ..burn_ctx() };
    let r = burn_tokens(&mut l, ctx, 10, MINT_PDA, ALICE_ATA);
    assert_eq!(r, Err(TokenError::MissingSignature));
    assert_eq!(l.holdings.get(&ALICE_ATA).unwrap().balance, 500);
    assert_eq!(l.mints.get(&MINT_PDA).unwrap().supply, 500);
}

#[test]
fn burn_of_another_owners_holding_rejected() {
    let mut l = funded_ledger();
    let ctx = BurnTokens { owner: BOB, ..burn_ctx() };
    let r = burn_tokens(&mut l, ctx, 10, MINT_PDA, ALICE_ATA);
    assert_eq!(r, Err(TokenError::HoldingOwnerMismatch));
    assert_eq!(l.holdings.get(&ALICE_ATA).unwrap().balance, 500);
}

#[test]
fn initialize_with_wrong_mint_account_rejected() {
    let mut l = Ledger::new();
    let ctx = InitToken { mint: 999, ..init_ctx() };
    let r = init_token(&mut l, ctx, params(), MINT_PDA, METADATA_PDA);
    assert_eq!(r, Err(TokenError::WrongMintAddress));
    assert!(l.mints.is_empty());
}

#[test]
fn initialize_with_wrong_metadata_account_rejected() {
    let mut l = Ledger::new();
    let ctx = InitToken { metadata: 999, ..init_ctx() };
    let r = init_token(&mut l, ctx, params(), MINT_PDA, METADATA_PDA);
    assert_eq!(r, Err(TokenError::WrongMetadataAddress));
    assert!(l.mints.is_empty());
    assert!(l.metadata.is_empty());
}

#[test]
fn initialize_over_leftover_metadata_rejected() {
    let mut l = Ledger::new();
    l.metadata.insert(
        MINT_PDA,
        MetadataRecord {
            name: String::from("Old"),
            symbol: String::from("OLD"),
            uri: String::from("https://example.org/old.json"),
        },
    );
    let r = init_token(&mut l, init_ctx(), params(), MINT_PDA, METADATA_PDA);
    assert_eq!(r, Err(TokenError::MetadataAlreadyExists));
    assert!(l.mints.is_empty());
    assert_eq!(l.metadata.get(&MINT_PDA).unwrap().name, "Old");
}

#[test]
fn mint_before_initialize_rejected() {
    let mut l = Ledger::new();
    let r = mint_tokens(&mut l, mint_ctx(), 10, MINT_PDA, ALICE_ATA);
    assert_eq!(r, Err(TokenError::MintNotFound));
    assert!(l.holdings.is_empty());
}

#[test]
fn mint_with_wrong_mint_account_rejected() {
    let mut l = funded_ledger();
    let ctx = MintTokens { mint: 999, ..mint_ctx() };
    let r = mint_tokens(&mut l, ctx, 10, MINT_PDA, ALICE_ATA);
    assert_eq!(r, Err(TokenError::WrongMintAddress));
    assert_eq!(l.mints.get(&MINT_PDA).unwrap().supply, 500);
}

#[test]
fn mint_from_foreign_authority_mint_rejected() {
    let mut l = Ledger::new();
    l.mints.insert(MINT_PDA, MintRecord { supply: 0, decimals: 9, mint_authority: BOB });
    let r = mint_tokens(&mut l, mint_ctx(), 10, MINT_PDA, ALICE_ATA);
    assert_eq!(r, Err(TokenError::WrongMintAuthority));
    assert_eq!(l.mints.get(&MINT_PDA).unwrap().supply, 0);
}

#[test]
fn mint_to_wrong_destination_rejected() {
    let mut l = funded_ledger();
    let ctx = MintTokens { destination: BOB_ATA, ..mint_ctx() };
    let r = mint_tokens(&mut l, ctx, 10, MINT_PDA, ALICE_ATA);
    assert_eq!(r, Err(TokenError::WrongDestinationAddress));
    assert_eq!(l.holdings.get(&BOB_ATA).unwrap().balance, 0);
}

#[test]
fn mint_onto_holding_of_other_mint_rejected() {
    let mut l = funded_ledger();
    l.holdings.insert(ALICE_ATA, HoldingRecord { mint: 999, owner: ALICE, balance: 7 });
    let r = mint_tokens(&mut l, mint_ctx(), 10, MINT_PDA, ALICE_ATA);
    assert_eq!(r, Err(TokenError::HoldingMintMismatch));
    assert_eq!(l.holdings.get(&ALICE_ATA).unwrap().balance, 7);
}

#[test]
fn mint_onto_holding_of_other_owner_rejected() {
    let mut l = funded_ledger();
    l.holdings.insert(ALICE_ATA, HoldingRecord { mint: MINT_PDA, owner: BOB, balance: 7 });
    let r = mint_tokens(&mut l, mint_ctx(), 10, MINT_PDA, ALICE_ATA);
    assert_eq!(r, Err(TokenError::HoldingOwnerMismatch));
    assert_eq!(l.holdings.get(&ALICE_ATA).unwrap().balance, 7);
}

#[test]
fn mint_past_supply_limit_rejected() {
    let mut l = funded_ledger();
    l.mints.insert(
        MINT_PDA,
        MintRecord { supply: u64::MAX - 10, decimals: 9, mint_authority: MINT_PDA },
    );
    let r = mint_tokens(&mut l, mint_ctx(), 11, MINT_PDA, ALICE_ATA);
    assert_eq!(r, Err(TokenError::SupplyOverflow));
    assert_eq!(l.mints.get(&MINT_PDA).unwrap().supply, u64::MAX - 10);
    assert_eq!(l.holdings.get(&ALICE_ATA).unwrap().balance, 500);
}

#[test]
fn mint_past_balance_limit_rejected() {
    let mut l = funded_ledger();
    l.holdings.insert(
        ALICE_ATA,
        HoldingRecord { mint: MINT_PDA, owner: ALICE, balance: u64::MAX - 10 },
    );
    let r = mint_tokens(&mut l, mint_ctx(), 11, MINT_PDA, ALICE_ATA);
    assert_eq!(r, Err(TokenError::BalanceOverflow));
    assert_eq!(l.holdings.get(&ALICE_ATA).unwrap().balance, u64::MAX - 10);
    assert_eq!(l.mints.get(&MINT_PDA).unwrap().supply, 500);
}

#[test]
fn transfer_from_missing_holding_rejected() {
    let mut l = Ledger::new();
    let r = transfer_tokens(&mut l, transfer_ctx(), 10);
    assert_eq!(r, Err(TokenError::HoldingNotFound));
}

#[test]
fn transfer_to_missing_holding_rejected() {
    let mut l = funded_ledger();
    let ctx = TransferTokens { destination: 999, ..transfer_ctx() };
    let r = transfer_tokens(&mut l, ctx, 10);
    assert_eq!(r, Err(TokenError::HoldingNotFound));
    assert_eq!(l.holdings.get(&ALICE_ATA).unwrap().balance, 500);
}

#[test]
fn transfer_between_different_mints_rejected() {
    let mut l = funded_ledger();
    l.holdings.insert(BOB_ATA, HoldingRecord { mint: 999, owner: BOB, balance: 0 });
    let r = transfer_tokens(&mut l, transfer_ctx(), 10);
    assert_eq!(r, Err(TokenError::HoldingMintMismatch));
    assert_eq!(l.holdings.get(&ALICE_ATA).unwrap().balance, 500);
    assert_eq!(l.holdings.get(&BOB_ATA).unwrap().balance, 0);
}

#[test]
fn transfer_past_balance_limit_rejected() {
    let mut l = funded_ledger();
    l.holdings.insert(
        BOB_ATA,
        HoldingRecord { mint: MINT_PDA, owner: BOB, balance: u64::MAX - 5 },
    );
    let r = transfer_tokens(&mut l, transfer_ctx(), 6);
    assert_eq!(r, Err(TokenError::BalanceOverflow));
    assert_eq!(l.holdings.get(&ALICE_ATA).unwrap().balance, 500);
    assert_eq!(l.holdings.get(&BOB_ATA).unwrap().balance, u64::MAX - 5);
}

#[test]
fn burn_with_wrong_mint_account_rejected() {
    let mut l = funded_ledger();
    let ctx = BurnTokens { mint: 999, ..burn_ctx() };
    let r = burn_tokens(&mut l, ctx, 10, MINT_PDA, ALICE_ATA);
    assert_eq!(r, Err(TokenError::WrongMintAddress));
    assert_eq!(l.holdings.get(&ALICE_ATA).unwrap().balance, 500);
}

#[test]
fn burn_from_wrong_source_account_rejected() {
    let mut l = funded_ledger();
    let ctx = BurnTokens { source: BOB_ATA, ..burn_ctx() };
    let r = burn_tokens(&mut l, ctx, 10, MINT_PDA, ALICE_ATA);
    assert_eq!(r, Err(TokenError::WrongSourceAddress));
    assert_eq!(l.holdings.get(&BOB_ATA).unwrap().balance, 0);
}

#[test]
fn burn_from_missing_holding_rejected() {
    let mut l = Ledger::new();
    init_token(&mut l, init_ctx(), params(), MINT_PDA, METADATA_PDA).unwrap();
    let r = burn_tokens(&mut l, burn_ctx(), 10, MINT_PDA, ALICE_ATA);
    assert_eq!(r, Err(TokenError::HoldingNotFound));
    assert_eq!(l.mints.get(&MINT_PDA).unwrap().supply, 0);
}

#[test]
fn burn_from_holding_of_other_mint_rejected() {
    let mut l = funded_ledger();
    l.holdings.insert(ALICE_ATA, HoldingRecord { mint: 999, owner: ALICE, balance: 7 });
    let r = burn_tokens(&mut l, burn_ctx(), 1, MINT_PDA, ALICE_ATA);
    assert_eq!(r, Err(TokenError::HoldingMintMismatch));
    assert_eq!(l.holdings.get(&ALICE_ATA).unwrap().balance, 7);
}

#[test]
fn burn_past_recorded_supply_rejected() {
    let mut l = funded_ledger();
    l.mints.insert(MINT_PDA, MintRecord { supply: 3, decimals: 9, mint_authority: MINT_PDA });
    let r = burn_tokens(&mut l, burn_ctx(), 5, MINT_PDA, ALICE_ATA);
    assert_eq!(r, Err(TokenError::SupplyUnderflow));
    assert_eq!(l.mints.get(&MINT_PDA).unwrap().supply, 3);
    assert_eq!(l.holdings.get(&ALICE_ATA).unwrap().balance, 500);
}

#[test]
fn second_holding_at_same_address_rejected() {
    let mut l = funded_ledger();
    let r = l.create_holding(BOB_ATA, MINT_PDA, BOB);
    assert_eq!(r, Err(TokenError::HoldingAlreadyExists));
}

#[test]
fn holding_for_missing_mint_rejected() {
    let mut l = Ledger::new();
    let r = l.create_holding(BOB_ATA, MINT_PDA, BOB);
    assert_eq!(r, Err(TokenError::MintNotFound));
    assert!(l.holdings.is_empty());
}
