use launchpad_program::address::Address;
use launchpad_program::error::{CustomError, InitError};
use launchpad_program::initialize_candy_store::{
    create_candy_store, InitializeCandyStore, PluginAuthority,
};
use launchpad_program::pda::derive_candy_store_address;
use launchpad_program::state::{AssetRecord, Settings, UpdateAuthority};

fn addr(n: u8) -> Address {
    Address::new([n; 32])
}

fn base_accounts() -> InitializeCandyStore {
    InitializeCandyStore {
        program_id: addr(9),
        asset_program: addr(4),
        collection: addr(5),
        collection_owner_program: addr(4),
        owner: addr(7),
        owner_balance: 2_000_000,
        treasury_balance: 500,
        settings: Settings {
            treasury: addr(1),
            transaction_fee: 1_000_000,
            collection: addr(2),
            bump: 254,
        },
        settings_collection_asset: None,
        store_exists: false,
    }
}

#[test]
fn rejects_collection_not_owned_by_asset_program() {
    let mut accounts = base_accounts();
    accounts.collection_owner_program = addr(8);
    let r = create_candy_store(
        &accounts,
        String::from("Genesis"),
        String::from("https://x/meta.json"),
        String::from("m1"),
        1000,
    );
    assert_eq!(
        r.err(),
        Some(InitError::Custom(CustomError::CollectionNotMplCore))
    );
}

#[test]
fn rejects_asset_not_held_by_signer() {
    let mut accounts = base_accounts();
    // Every other field of the asset is as favourable as can be: the
    // update authority is already delegated to the settings collection.
    accounts.settings_collection_asset = Some(AssetRecord {
        owner: addr(13),
        update_authority: UpdateAuthority::Collection(accounts.settings.collection),
    });
    let r = create_candy_store(
        &accounts,
        String::from("Genesis"),
        String::from("https://x/meta.json"),
        String::from("m1"),
        1000,
    );
    assert_eq!(
        r.err(),
        Some(InitError::Custom(CustomError::NotTheOwnerOfCollection))
    );
}

#[test]
fn reinitializing_an_initialized_collection_fails() {
    let mut accounts = base_accounts();
    accounts.store_exists = true;
    let r = create_candy_store(
        &accounts,
        String::from("Genesis"),
        String::from("https://x/meta.json"),
        String::from("m1"),
        1000,
    );
    assert_eq!(r.err(), Some(InitError::AlreadyInitialized));
}

#[test]
fn fee_charged_when_asset_absent() {
    let accounts = base_accounts();
    let outcome = create_candy_store(
        &accounts,
        String::from("Genesis"),
        String::from("https://x/meta.json"),
        String::from("m1"),
        1000,
    )
    .unwrap();
    let fee = outcome.fee_paid.expect("the fee is due without an asset");
    assert_eq!(fee.from, accounts.owner);
    assert_eq!(fee.to, accounts.settings.treasury);
    assert_eq!(fee.amount, 1_000_000);
    assert_eq!(outcome.treasury_balance_after, 500 + 1_000_000);
    assert_eq!(outcome.owner_balance_after, 2_000_000 - 1_000_000);
    assert_eq!(outcome.candy_store.minted, 0);
    assert_eq!(outcome.candy_store.number_of_items, 1000);
}

#[test]
fn fee_exempt_when_asset_delegated_to_settings_collection() {
    let mut accounts = base_accounts();
    accounts.settings_collection_asset = Some(AssetRecord {
        owner: accounts.owner,
        update_authority: UpdateAuthority::Collection(accounts.settings.collection),
    });
    let outcome = create_candy_store(
        &accounts,
        String::from("Genesis"),
        String::from("https://x/meta.json"),
        String::from("m1"),
        1000,
    )
    .unwrap();
    assert!(outcome.fee_paid.is_none());
    assert_eq!(outcome.treasury_balance_after, 500);
    assert_eq!(outcome.owner_balance_after, 2_000_000);
}

#[test]
fn fee_charged_when_asset_authority_is_elsewhere() {
    for update_authority in [
        UpdateAuthority::Unset,
        UpdateAuthority::Explicit(addr(7)),
        UpdateAuthority::Collection(addr(40)),
    ] {
        let mut accounts = base_accounts();
        accounts.settings_collection_asset = Some(AssetRecord {
            owner: accounts.owner,
            update_authority,
        });
        let outcome = create_candy_store(
            &accounts,
            String::from("Genesis"),
            String::from("https://x/meta.json"),
            String::from("m1"),
            1000,
        )
        .unwrap();
        let fee = outcome.fee_paid.expect("the fee is due");
        assert_eq!(fee.amount, 1_000_000);
        assert_eq!(outcome.treasury_balance_after, 500 + 1_000_000);
    }
}

#[test]
fn fee_transfer_fails_on_insufficient_funds() {
    let mut accounts = base_accounts();
    accounts.owner_balance = 999_999;
    let r = create_candy_store(
        &accounts,
        String::from("Genesis"),
        String::from("https://x/meta.json"),
        String::from("m1"),
        1000,
    );
    assert_eq!(r.err(), Some(InitError::FeeTransferFailed));
}

#[test]
fn fee_transfer_fails_when_treasury_cannot_take_the_fee() {
    let mut accounts = base_accounts();
    accounts.treasury_balance = u64::MAX;
    let r = create_candy_store(
        &accounts,
        String::from("Genesis"),
        String::from("https://x/meta.json"),
        String::from("m1"),
        1000,
    );
    assert_eq!(r.err(), Some(InitError::FeeTransferFailed));
}

#[test]
fn success_persists_the_record_and_decides_the_handshake() {
    let accounts = base_accounts();
    let outcome = create_candy_store(
        &accounts,
        String::from("Genesis"),
        String::from("https://x/meta.json"),
        String::from("m1"),
        1000,
    )
    .unwrap();

    let store = &outcome.candy_store;
    assert_eq!(store.owner, accounts.owner);
    assert_eq!(store.name, "Genesis");
    assert_eq!(store.url, "https://x/meta.json");
    assert_eq!(store.manifest_id, "m1");
    assert_eq!(store.number_of_items, 1000);
    assert_eq!(store.minted, 0);
    assert_eq!(store.collection, accounts.collection);
    assert!(store.phases.is_empty());

    let (derived, bump) =
        derive_candy_store_address(&accounts.program_id, &accounts.collection).unwrap();
    assert_eq!(outcome.candy_store_address, derived);
    assert_eq!(store.bump, bump);

    let delegation = &outcome.delegation;
    assert_eq!(delegation.asset_program, accounts.asset_program);
    assert_eq!(delegation.collection, accounts.collection);
    assert_eq!(delegation.payer, accounts.owner);
    assert_eq!(delegation.authority, accounts.owner);
    assert_eq!(delegation.additional_delegates.len(), 1);
    assert_eq!(delegation.additional_delegates[0], outcome.candy_store_address);
    assert_eq!(delegation.init_authority, PluginAuthority::UpdateAuthority);

    let event = &outcome.event;
    assert_eq!(event.candy_store, outcome.candy_store_address);
    assert_eq!(event.owner, accounts.owner);
    assert_eq!(event.collection, accounts.collection);
    assert_eq!(event.name, "Genesis");
    assert_eq!(event.url, "https://x/meta.json");
    assert_eq!(event.manifest_id, "m1");
    assert_eq!(event.number_of_items, 1000);
}
