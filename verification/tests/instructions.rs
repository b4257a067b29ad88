use elemfi::error::ElemfiError;
use elemfi::key::{Pubkey, native_mint_id, system_program_key, token_program_key};
use elemfi::processor::checks::{AccountRef, Transfer, TransferProgram};
use elemfi::processor::deposit::{Deposit, EscrowDeposit, finish_escrow_deposit, process_deposit, process_escrow_deposit};
use elemfi::processor::lending::{Borrow, Repay, process_borrow, process_repay};
use elemfi::processor::obligation::{CloseObligation, CreateObligation, EscrowCreateObligation, process_close_obligation, process_create_obligation, process_escrow_create_obligation};
use elemfi::state::escrow::Escrow;
use elemfi::state::located::Located;
use elemfi::state::realm::Realm;
use elemfi::state::strategy::Strategy;
use elemfi::state::vault::Vault;
use elemfi::token::{AccountView, CollectionInfo, MetadataInfo, TokenAccountInfo};

fn key(n: u8) -> Pubkey {
    Pubkey { bytes: [n; 32] }
}

const VAULT_AUTHORITY: u8 = 40;
const UNDERLYING: u8 = 30;
const DEPOSITOR: u8 = 50;

fn vault(underlying_token: Pubkey) -> Vault {
    Vault {
        realm: key(1),
        authority_bump: 254,
        token_decimals: 6,
        collateral_token: key(2),
        collateral_supply: 1_000,
        collateral_max_supply: 10_000,
        collateral_min_amount: 10,
        collateral_max_amount: 5_000,
        underlying_token,
        underlying_liquidity: 2_000,
        pending_obligation_amount: 0,
        pending_obligations: 0,
        escrow_collection: None,
    }
}

fn token_data(mint: Pubkey, owner: Pubkey, amount: u64) -> Vec<u8> {
    let mut d = vec![0u8; 165];
    d[..32].copy_from_slice(&mint.bytes);
    d[32..64].copy_from_slice(&owner.bytes);
    d[64..72].copy_from_slice(&amount.to_le_bytes());
    d
}

fn plain(k: Pubkey, lamports: u64) -> AccountView {
    AccountView { key: k, owner: system_program_key(), lamports, data: vec![] }
}

fn token_account(k: Pubkey, mint: Pubkey, owner: Pubkey, amount: u64) -> AccountView {
    AccountView { key: k, owner: token_program_key(), lamports: 1, data: token_data(mint, owner, amount) }
}

fn deposit_accounts(v: Vault, held: u64) -> Deposit {
    Deposit {
        realm: key(1),
        vault: v,
        vault_authority: key(VAULT_AUTHORITY),
        collateral_token: key(2),
        collateral_token_account: TokenAccountInfo { mint: key(2), owner: key(DEPOSITOR), amount: held },
        underlying_token_owner: key(DEPOSITOR),
        token_program: token_program_key(),
    }
}

fn native_deposit_accounts(lamports: u64) -> Vec<AccountView> {
    vec![plain(key(DEPOSITOR), lamports), plain(key(VAULT_AUTHORITY), 0), plain(system_program_key(), 0)]
}

#[test]
fn native_deposit_mints_at_the_vault_rate() {
    let mut d = deposit_accounts(vault(native_mint_id()), 0);
    let out = process_deposit(&mut d, &native_deposit_accounts(500), 500).unwrap();
    // 500 * 1000 / 2000 = 250
    assert_eq!(out.mint_amount, 250);
    assert_eq!(
        out.transfer,
        Transfer { program: TransferProgram::System, from: AccountRef::Remaining(0), to: AccountRef::Remaining(1), amount: 500 }
    );
    assert_eq!(d.vault.underlying_liquidity, 2_500);
    assert_eq!(d.vault.collateral_supply, 1_250);
    // The value of a unit of collateral did not drop: 2500 * 1000 >= 2000 * 1250.
    assert!(2_500u128 * 1_000 >= 2_000u128 * 1_250);
}

#[test]
fn native_deposit_refusals_leave_the_vault_unchanged() {
    let v = vault(native_mint_id());
    let mut d = deposit_accounts(v, 0);
    assert_eq!(process_deposit(&mut d, &native_deposit_accounts(499), 500), Err(ElemfiError::InsufficientFunds));
    assert_eq!(d.vault, v);
    assert_eq!(process_deposit(&mut d, &native_deposit_accounts(500)[..1], 500), Err(ElemfiError::MissingAccount));
    let mut wrong = native_deposit_accounts(500);
    wrong[1].key = key(41);
    assert_eq!(process_deposit(&mut d, &wrong, 500), Err(ElemfiError::AccountMismatch));
    let mut wrong = native_deposit_accounts(500);
    wrong[2].key = key(42);
    assert_eq!(process_deposit(&mut d, &wrong, 500), Err(ElemfiError::ProgramMismatch));
    assert_eq!(process_deposit(&mut d, &native_deposit_accounts(10), 10), Err(ElemfiError::CollateralBelowMinimum));
    assert_eq!(process_deposit(&mut d, &native_deposit_accounts(20_000), 20_000), Err(ElemfiError::CollateralAboveMaximum));
    assert_eq!(d.vault, v);
}

#[test]
fn deposit_refused_over_the_supply_cap() {
    let mut v = vault(native_mint_id());
    v.collateral_max_supply = 1_100;
    let mut d = deposit_accounts(v, 0);
    assert_eq!(process_deposit(&mut d, &native_deposit_accounts(500), 500), Err(ElemfiError::SupplyCapExceeded));
    assert_eq!(d.vault, v);
}

#[test]
fn deposit_refused_on_overflow() {
    let mut v = vault(native_mint_id());
    v.collateral_max_amount = u64::MAX;
    let mut d = deposit_accounts(v, u64::MAX - 10);
    assert_eq!(process_deposit(&mut d, &native_deposit_accounts(500), 500), Err(ElemfiError::MathOverflow));
    let mut v = vault(native_mint_id());
    v.underlying_liquidity = 0;
    let mut d = deposit_accounts(v, 0);
    assert_eq!(process_deposit(&mut d, &native_deposit_accounts(500), 500), Err(ElemfiError::MathOverflow));
}

#[test]
fn first_deposit_is_one_to_one() {
    let mut v = vault(native_mint_id());
    v.collateral_supply = 0;
    v.underlying_liquidity = 0;
    let mut d = deposit_accounts(v, 0);
    let out = process_deposit(&mut d, &native_deposit_accounts(100), 100).unwrap();
    assert_eq!(out.mint_amount, 100);
    assert_eq!(d.vault.collateral_supply, 100);
    assert_eq!(d.vault.underlying_liquidity, 100);
}

#[test]
fn token_deposit_checks_the_token_accounts() {
    let underlying = key(UNDERLYING);
    let mut d = deposit_accounts(vault(underlying), 0);
    let accounts = vec![
        token_account(key(60), underlying, key(DEPOSITOR), 800),
        token_account(key(61), underlying, key(VAULT_AUTHORITY), 0),
    ];
    let out = process_deposit(&mut d, &accounts, 800).unwrap();
    assert_eq!(out.mint_amount, 400);
    assert_eq!(out.transfer.program, TransferProgram::Token);
    let mut d = deposit_accounts(vault(underlying), 0);
    assert_eq!(process_deposit(&mut d, &accounts, 801), Err(ElemfiError::InsufficientFunds));
    let wrong_mint = vec![token_account(key(60), key(31), key(DEPOSITOR), 800), accounts[1].clone()];
    assert_eq!(process_deposit(&mut d, &wrong_mint, 800), Err(ElemfiError::AccountMismatch));
    let wrong_owner = vec![accounts[0].clone(), token_account(key(61), underlying, key(41), 0)];
    assert_eq!(process_deposit(&mut d, &wrong_owner, 800), Err(ElemfiError::AccountMismatch));
    let short = vec![AccountView { data: vec![0u8; 40], ..accounts[0].clone() }, accounts[1].clone()];
    assert_eq!(process_deposit(&mut d, &short, 800), Err(ElemfiError::InvalidAccountData));
}

fn escrow_deposit_accounts(underlying_token: Pubkey) -> EscrowDeposit {
    let mut v = vault(underlying_token);
    v.escrow_collection = Some(key(70));
    EscrowDeposit {
        deposit: deposit_accounts(v, 0),
        escrow: Escrow { mint: key(71), authority_bump: 250 },
        nft_owner: key(72),
        nft_account: TokenAccountInfo { mint: key(71), owner: key(72), amount: 1 },
        nft_metadata: MetadataInfo { mint: key(71), collection: Some(CollectionInfo { verified: true, key: key(70) }) },
    }
}

#[test]
fn escrow_deposit_moves_funds_then_deposits() {
    let mut e = escrow_deposit_accounts(native_mint_id());
    assert_eq!(e.validate(), Ok(()));
    assert_eq!(e.deposit.validate(), Err(ElemfiError::EscrowOnlyVault));
    let accounts = vec![
        plain(key(73), 600),
        plain(key(DEPOSITOR), 0),
        plain(key(DEPOSITOR), 600),
        plain(key(VAULT_AUTHORITY), 0),
        plain(system_program_key(), 0),
    ];
    let first = process_escrow_deposit(&e, &accounts, 600).unwrap();
    assert_eq!(
        first,
        Transfer { program: TransferProgram::System, from: AccountRef::Remaining(0), to: AccountRef::Remaining(1), amount: 600 }
    );
    let out = finish_escrow_deposit(&mut e, &accounts, 600).unwrap();
    assert_eq!(out.transfer.from, AccountRef::Remaining(2));
    assert_eq!(out.transfer.to, AccountRef::Remaining(3));
    assert_eq!(out.mint_amount, 300);
    assert_eq!(e.deposit.vault.collateral_supply, 1_300);
    assert_eq!(process_escrow_deposit(&e, &accounts[..4], 600), Err(ElemfiError::MissingAccount));
}

#[test]
fn escrow_validation_refusals() {
    let e = escrow_deposit_accounts(native_mint_id());
    let mut x = e;
    x.nft_metadata.collection = None;
    assert_eq!(x.validate(), Err(ElemfiError::CollectionMissing));
    let mut x = e;
    x.deposit.vault.escrow_collection = None;
    assert_eq!(x.validate(), Err(ElemfiError::EscrowCollectionMissing));
    let mut x = e;
    x.nft_metadata.collection = Some(CollectionInfo { verified: true, key: key(99) });
    assert_eq!(x.validate(), Err(ElemfiError::CollectionMismatch));
    let mut x = e;
    x.nft_owner = key(99);
    assert_eq!(x.validate(), Err(ElemfiError::NftOwnerMismatch));
    let mut x = e;
    x.nft_account.amount = 2;
    assert_eq!(x.validate(), Err(ElemfiError::NotSingleToken));
    let mut x = e;
    x.escrow.mint = key(99);
    assert_eq!(x.validate(), Err(ElemfiError::NftMintMismatch));
}

fn strategy() -> Strategy {
    Strategy { realm: key(1), vault: key(3), authority: key(80), utilized_amount: 100, utilization_max_amount: 1_000 }
}

#[test]
fn borrow_then_repay_restores_the_strategy() {
    let v = vault(native_mint_id());
    let mut b = Borrow { realm: key(1), authority: key(81), vault: v, vault_authority: key(VAULT_AUTHORITY), strategy: strategy() };
    let accounts = vec![plain(key(80), 0), plain(key(VAULT_AUTHORITY), 1_000), plain(system_program_key(), 0)];
    let t = process_borrow(&mut b, &accounts, 900).unwrap();
    assert_eq!(t, Transfer { program: TransferProgram::System, from: AccountRef::Remaining(1), to: AccountRef::Remaining(0), amount: 900 });
    assert_eq!(b.strategy.utilized_amount, 1_000);
    assert!(b.strategy.utilized_amount <= b.strategy.utilization_max_amount);
    let mut p = Repay { realm: key(1), vault: v, vault_authority: key(VAULT_AUTHORITY), strategy: b.strategy, repayer: key(82) };
    let repay_accounts = vec![plain(key(82), 900), plain(key(VAULT_AUTHORITY), 0), plain(system_program_key(), 0)];
    let t = process_repay(&mut p, &repay_accounts, 900).unwrap();
    assert_eq!(t, Transfer { program: TransferProgram::System, from: AccountRef::Remaining(0), to: AccountRef::Remaining(1), amount: 900 });
    assert_eq!(p.strategy, strategy());
}

#[test]
fn borrow_refusals() {
    let v = vault(native_mint_id());
    let mut b = Borrow { realm: key(1), authority: key(81), vault: v, vault_authority: key(VAULT_AUTHORITY), strategy: strategy() };
    let accounts = vec![plain(key(80), 0), plain(key(VAULT_AUTHORITY), 1_000), plain(system_program_key(), 0)];
    assert_eq!(process_borrow(&mut b, &accounts, 901), Err(ElemfiError::UtilizationLimitExceeded));
    assert_eq!(process_borrow(&mut b, &accounts, u64::MAX), Err(ElemfiError::MathOverflow));
    assert_eq!(process_borrow(&mut b, &accounts[..2], 1), Err(ElemfiError::MissingAccount));
    let mut wrong = accounts.clone();
    wrong[0].key = key(99);
    assert_eq!(process_borrow(&mut b, &wrong, 1), Err(ElemfiError::AccountMismatch));
    let mut wrong = accounts.clone();
    wrong[2].key = key(99);
    assert_eq!(process_borrow(&mut b, &wrong, 1), Err(ElemfiError::ProgramMismatch));
    assert_eq!(b.strategy, strategy());
}

#[test]
fn token_borrow_and_repay() {
    let underlying = key(UNDERLYING);
    let v = vault(underlying);
    let mut b = Borrow { realm: key(1), authority: key(81), vault: v, vault_authority: key(VAULT_AUTHORITY), strategy: strategy() };
    let accounts = vec![
        token_account(key(83), underlying, key(80), 0),
        token_account(key(84), underlying, key(VAULT_AUTHORITY), 5_000),
        plain(token_program_key(), 0),
    ];
    let t = process_borrow(&mut b, &accounts, 50).unwrap();
    assert_eq!(t.program, TransferProgram::Token);
    assert_eq!(b.strategy.utilized_amount, 150);
    let mut wrong = accounts.clone();
    wrong[2].key = system_program_key();
    assert_eq!(process_borrow(&mut b, &wrong, 50), Err(ElemfiError::ProgramMismatch));
    let mut p = Repay { realm: key(1), vault: v, vault_authority: key(VAULT_AUTHORITY), strategy: b.strategy, repayer: key(82) };
    let repay_accounts = vec![
        token_account(key(85), underlying, key(82), 50),
        token_account(key(84), underlying, key(VAULT_AUTHORITY), 0),
        plain(token_program_key(), 0),
    ];
    assert_eq!(process_repay(&mut p, &repay_accounts, 151), Err(ElemfiError::MathOverflow));
    let wrong_vault = vec![repay_accounts[0].clone(), token_account(key(84), underlying, key(99), 0), repay_accounts[2].clone()];
    assert_eq!(process_repay(&mut p, &wrong_vault, 50), Err(ElemfiError::AccountMismatch));
    process_repay(&mut p, &repay_accounts, 50).unwrap();
    assert_eq!(p.strategy.utilized_amount, 100);
}

fn create_obligation_accounts(underlying_token: Pubkey) -> CreateObligation {
    let mut v = vault(underlying_token);
    v.pending_obligation_amount = 7;
    CreateObligation {
        realm: Located { key: key(1), account: Realm { authority: key(90), delegator: key(91), approver: key(92), escrow_collection: Some(key(70)) } },
        vault: Located { key: key(3), account: v },
        vault_authority: key(VAULT_AUTHORITY),
        obligation: key(93),
        collateral_owner: key(DEPOSITOR),
        collateral_token: key(2),
        collateral_token_account: key(94),
        token_program: token_program_key(),
        payer: key(95),
        system_program: system_program_key(),
    }
}

#[test]
fn obligation_create_and_close() {
    let mut c = create_obligation_accounts(native_mint_id());
    let destination = vec![plain(key(96), 0)];
    let o = process_create_obligation(&mut c, &destination, 100, 1_700_000_100, 1_700_000_000).unwrap();
    // 100 * 2000 / 1000 = 200
    assert_eq!(o.pending_amount, 200);
    assert_eq!(o.burnt_amount, 100);
    assert_eq!(o.destination, key(96));
    assert_eq!(o.rent_collector, key(95));
    assert_eq!(o.realm, key(1));
    assert_eq!(o.vault, key(3));
    assert_eq!(o.created_ts, 1_700_000_100);
    assert_eq!(c.vault.account.underlying_liquidity, 1_800);
    assert_eq!(c.vault.account.pending_obligation_amount, 207);
    assert_eq!(c.vault.account.collateral_supply, 900);
    assert_eq!(c.vault.account.underlying_liquidity + c.vault.account.pending_obligation_amount, 2_007);

    let mut close = CloseObligation {
        realm: key(1),
        authority: key(90),
        vault: c.vault.account,
        vault_authority: key(VAULT_AUTHORITY),
        obligation: o,
        destination: key(96),
        rent_collector: key(95),
        system_program: system_program_key(),
    };
    let t = process_close_obligation(&mut close, &[plain(key(VAULT_AUTHORITY), 500)]).unwrap();
    assert_eq!(t, Transfer { program: TransferProgram::System, from: AccountRef::Remaining(0), to: AccountRef::Destination, amount: 200 });
    assert_eq!(close.vault.pending_obligation_amount, 7);
    assert_eq!(process_close_obligation(&mut close, &[plain(key(VAULT_AUTHORITY), 500)]), Err(ElemfiError::MathOverflow));
}

#[test]
fn obligation_refusals() {
    let c0 = create_obligation_accounts(native_mint_id());
    let destination = vec![plain(key(96), 0)];
    let mut c = c0;
    assert_eq!(process_create_obligation(&mut c, &destination, 100, 5, 5), Err(ElemfiError::TimestampNotInFuture));
    assert_eq!(process_create_obligation(&mut c, &[], 100, 6, 5), Err(ElemfiError::MissingAccount));
    let wrong_owner = vec![AccountView { owner: token_program_key(), ..plain(key(96), 0) }];
    assert_eq!(process_create_obligation(&mut c, &wrong_owner, 100, 6, 5), Err(ElemfiError::AccountMismatch));
    assert_eq!(process_create_obligation(&mut c, &destination, 100, (u32::MAX as i64) + 1, 5), Err(ElemfiError::TimestampOutOfRange));
    assert_eq!(process_create_obligation(&mut c, &destination, 1_001, 6, 5), Err(ElemfiError::MathOverflow));
    assert_eq!(c, c0);
    let mut empty = c0;
    empty.vault.account.collateral_supply = 0;
    assert_eq!(process_create_obligation(&mut empty, &destination, 1, 6, 5), Err(ElemfiError::MathOverflow));
}

#[test]
fn token_obligation_checks_the_destination_mint() {
    let underlying = key(UNDERLYING);
    let mut c = create_obligation_accounts(underlying);
    let good = vec![token_account(key(96), underlying, key(97), 0)];
    let bad = vec![token_account(key(96), key(31), key(97), 0)];
    assert_eq!(process_create_obligation(&mut c, &bad, 10, 6, 5), Err(ElemfiError::AccountMismatch));
    let o = process_create_obligation(&mut c, &good, 10, 6, 5).unwrap();
    assert_eq!(o.pending_amount, 20);
    let mut close = CloseObligation {
        realm: key(1),
        authority: key(90),
        vault: c.vault.account,
        vault_authority: key(VAULT_AUTHORITY),
        obligation: o,
        destination: key(96),
        rent_collector: key(95),
        system_program: system_program_key(),
    };
    let vault_account = token_account(key(98), underlying, key(VAULT_AUTHORITY), 100);
    assert_eq!(process_close_obligation(&mut close, &[vault_account.clone()]), Err(ElemfiError::MissingAccount));
    let t = process_close_obligation(&mut close, &[vault_account, plain(token_program_key(), 0)]).unwrap();
    assert_eq!(t.program, TransferProgram::Token);
    assert_eq!(t.amount, 20);
}

#[test]
fn escrow_obligation_validates_against_the_realm_collection() {
    let mut e = EscrowCreateObligation {
        create_obligation: create_obligation_accounts(native_mint_id()),
        escrow: Escrow { mint: key(71), authority_bump: 250 },
        nft_owner: key(72),
        nft_token_account: TokenAccountInfo { mint: key(71), owner: key(72), amount: 1 },
        nft_metadata: MetadataInfo { mint: key(71), collection: Some(CollectionInfo { verified: true, key: key(70) }) },
    };
    assert_eq!(e.validate(), Ok(()));
    let o = process_escrow_create_obligation(&mut e, &[plain(key(96), 0)], 100, 6, 5).unwrap();
    assert_eq!(o.pending_amount, 200);
    assert_eq!(e.create_obligation.vault.account.collateral_supply, 900);
    e.create_obligation.realm.account.escrow_collection = None;
    assert_eq!(e.validate(), Err(ElemfiError::EscrowCollectionMissing));
}

#[test]
fn no_profit_from_deposit_then_obligation() {
    let mut v = vault(native_mint_id());
    v.collateral_supply = 3;
    v.underlying_liquidity = 7;
    v.collateral_min_amount = 0;
    for amount in [1u64, 2, 5, 10, 99] {
        let mut d = deposit_accounts(v, 0);
        let out = process_deposit(&mut d, &native_deposit_accounts(amount), amount).unwrap();
        if out.mint_amount > 0 {
            let back = d.vault.calc_amount_underlying_given_collateral(out.mint_amount);
            assert!(back <= amount);
        }
    }
}
