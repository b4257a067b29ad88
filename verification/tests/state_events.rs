use elemfi::key::Pubkey;
use elemfi::processor::create::{CloseStrategy, CreateEscrow, CreateRealm, CreateStrategy, process_close_strategy, process_create_escrow, process_create_realm, process_create_strategy};
use elemfi::error::ElemfiError;
use elemfi::state::escrow::{ESCROW_AUTHORITY_PREFIX, ESCROW_PREFIX, Escrow, EscrowAuthoritySeeds};
use elemfi::state::located::Located;
use elemfi::state::obligation::{EmitObligationClosedEvent, EmitObligationCreatedEvent, OBLIGATION_PREFIX, Obligation};
use elemfi::state::strategy::{EmitStrategyCreatedEvent, EmitStrategyUpdatedEvent, STRATEGY_PREFIX, Strategy};
use elemfi::state::vault::{EmitVaultUpdatedEvent, VAULT_AUTHORITY_PREFIX, Vault, VaultAuthoritySeeds};
use elemfi::token::{CollectionInfo, MetadataInfo, TokenAccountInfo};

fn key(n: u8) -> Pubkey {
    Pubkey { bytes: [n; 32] }
}

#[test]
fn prefixes_spell_the_seeds() {
    assert_eq!(&ESCROW_PREFIX, b"elemfi-escrow");
    assert_eq!(&ESCROW_AUTHORITY_PREFIX, b"elemfi-escrow-authority");
    assert_eq!(&STRATEGY_PREFIX, b"elemfi-strategy");
    assert_eq!(&OBLIGATION_PREFIX, b"elemfi-obligation");
    assert_eq!(&VAULT_AUTHORITY_PREFIX, b"elemfi-vault-authority");
}

fn vault() -> Vault {
    Vault {
        realm: key(1),
        authority_bump: 254,
        token_decimals: 6,
        collateral_token: key(2),
        collateral_supply: 11,
        collateral_max_supply: 12,
        collateral_min_amount: 1,
        collateral_max_amount: 2,
        underlying_token: key(3),
        underlying_liquidity: 13,
        pending_obligation_amount: 14,
        pending_obligations: 15,
        escrow_collection: None,
    }
}

#[test]
fn vault_seeds_and_event() {
    let located = Located { key: key(9), account: vault() };
    let seeds = located.authority_seeds();
    assert_eq!(seeds, vec![b"elemfi-vault-authority".to_vec(), vec![9u8; 32], vec![254u8]]);
    let e = located.emit_updated_event();
    assert_eq!(e.pubkey, key(9));
    assert_eq!(e.data.collateral_supply, 11);
    assert_eq!(e.data.collateral_max_supply, 12);
    assert_eq!(e.data.underlying_liquidity, 13);
    assert_eq!(e.data.pending_obligation_amount, 14);
    assert_eq!(e.data.pending_obligations, 15);
}

#[test]
fn escrow_seeds_use_the_mint() {
    let located = Located { key: key(9), account: Escrow { mint: key(7), authority_bump: 3 } };
    assert_eq!(located.authority_seeds(), vec![b"elemfi-escrow-authority".to_vec(), vec![7u8; 32], vec![3u8]]);
    assert_eq!(located.key(), key(9));
    assert_eq!(located.as_ref().mint, key(7));
}

#[test]
fn strategy_creation_and_events() {
    let accounts = CreateStrategy { realm: key(1), approver: key(2), vault: key(3), strategy: key(4), payer: key(5) };
    let s = process_create_strategy(&accounts, key(6), 7, 8);
    assert_eq!(s, Strategy { realm: key(1), vault: key(3), authority: key(6), utilized_amount: 7, utilization_max_amount: 8 });
    let located = Located { key: key(4), account: s };
    let created = located.emit_created_event();
    assert_eq!(created.pubkey, key(4));
    assert_eq!(created.data.authority, key(6));
    assert_eq!(created.data.utilized_amount, 7);
    assert_eq!(created.data.utilization_max_amount, 8);
    let updated = located.emit_updated_event();
    assert_eq!(updated.data.utilized_amount, 7);
    let close = CloseStrategy { realm: key(1), approver: key(2), vault: key(3), strategy: located, rent_collector: key(5) };
    assert_eq!(process_close_strategy(&close).pubkey, key(4));
}

#[test]
fn obligation_events() {
    let o = Obligation {
        realm: key(1),
        vault: key(2),
        rent_collector: key(3),
        destination: key(4),
        burnt_amount: 5,
        pending_amount: 6,
        created_ts: 7,
    };
    let located = Located { key: key(8), account: o };
    let e = located.emit_created_event();
    assert_eq!(e.pubkey, key(8));
    assert_eq!(e.data.destination, key(4));
    assert_eq!(e.data.burnt_amount, 5);
    assert_eq!(e.data.pending_amount, 6);
    assert_eq!(e.data.created_ts, 7);
    assert_eq!(located.emit_closed_event().pubkey, key(8));
}

#[test]
fn realm_and_escrow_creation() {
    let realm = process_create_realm(&CreateRealm { realm: key(1), authority: key(2) }, key(3), key(4), Some(key(5)));
    assert_eq!(realm.authority, key(2));
    assert_eq!(realm.delegator, key(3));
    assert_eq!(realm.approver, key(4));
    assert_eq!(realm.escrow_collection, Some(key(5)));
    let c = CreateEscrow {
        escrow: key(1),
        escrow_authority: key(2),
        escrow_authority_bump: 200,
        nft_token_account: TokenAccountInfo { mint: key(3), owner: key(4), amount: 1 },
        nft_metadata: MetadataInfo { mint: key(3), collection: Some(CollectionInfo { verified: true, key: key(6) }) },
        payer: key(5),
    };
    assert_eq!(c.validate(), Ok(()));
    assert_eq!(process_create_escrow(&c), Escrow { mint: key(3), authority_bump: 200 });
    let mut two = c;
    two.nft_token_account.amount = 2;
    assert_eq!(two.validate(), Err(ElemfiError::NotSingleToken));
    let mut other = c;
    other.nft_metadata.mint = key(9);
    assert_eq!(other.validate(), Err(ElemfiError::NftMintMismatch));
}
