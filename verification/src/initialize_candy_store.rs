use vstd::prelude::*;
use crate::address::Address;
use crate::error::{CustomError, InitError};
use crate::pda::{derive_candy_store_address, spec_candy_store_pda};
use crate::state::{AssetRecord, CandyStore, CreateCandyStoreEvent, Settings, UpdateAuthority};

verus! {

/// A plain-value snapshot of the accounts that candy-store initialization
/// reads: the collection being bound, the signer paying for everything,
/// the platform settings, the balances the fee transfer would touch, the
/// optional settings-collection asset, and the two program ids involved.
#[derive(Clone, Copy, Debug)]
pub struct InitializeCandyStore {
    /// The owning program's own id, under which the store address is derived.
    pub program_id: Address,
    /// The asset-management program's id.
    pub asset_program: Address,
    /// The collection the new candy store is bound to.
    pub collection: Address,
    /// The program that owns the collection account.
    pub collection_owner_program: Address,
    /// The initializing signer, who pays the fee.
    pub owner: Address,
    /// The signer's balance before the instruction.
    pub owner_balance: u64,
    /// The treasury's balance before the instruction.
    pub treasury_balance: u64,
    /// The platform's read-only settings record.
    pub settings: Settings,
    /// The optional settings-collection asset supplied by the caller.
    pub settings_collection_asset: Option<AssetRecord>,
    /// Whether a record already exists at the derived candy-store address.
    pub store_exists: bool,
}

/// A fee transfer the runtime is asked to perform.
#[derive(Clone, Copy, Debug, PartialEq, Eq)]
pub struct FeeTransfer {
    pub from: Address,
    pub to: Address,
    pub amount: u64,
}

/// The authority that controls a plugin added to a collection.
#[derive(Clone, Copy, Debug, PartialEq, Eq)]
pub enum PluginAuthority {
    Unset,
    Owner,
    UpdateAuthority,
    Explicit(Address),
}

/// The delegation handshake decided by a successful initialization: add an
/// update-delegate plugin on the collection, naming the new candy store as
/// an additional delegate, under update-authority control. The call is
/// signed as the candy store's own derived address, with the seeds
/// recoverable from the store's collection and bump fields.
#[derive(Clone, Debug)]
pub struct DelegationAction {
    /// The asset-management program to invoke.
    pub asset_program: Address,
    /// The collection the plugin is added to.
    pub collection: Address,
    /// Who pays for the call.
    pub payer: Address,
    /// The authority presented to the asset-management program.
    pub authority: Address,
    /// The delegates named by the new update-delegate plugin.
    pub additional_delegates: Vec<Address>,
    /// The authority the new plugin is placed under.
    pub init_authority: PluginAuthority,
}

/// Everything a successful initialization decides: the record to persist
/// at the derived address, the fee transfer (if one is due) with the
/// balances it leaves behind, the delegation handshake, and the audit
/// event to emit once the handshake lands.
#[derive(Clone, Debug)]
pub struct InitOutcome {
    pub candy_store_address: Address,
    pub candy_store: CandyStore,
    pub fee_paid: Option<FeeTransfer>,
    pub owner_balance_after: u64,
    pub treasury_balance_after: u64,
    pub delegation: DelegationAction,
    pub event: CreateCandyStoreEvent,
}

/// The fee gate: the flat fee is due unless the settings-collection asset
/// is present with its update authority already delegated to the
/// settings-collection address.
pub open spec fn spec_fee_due(asset: Option<AssetRecord>, settings_collection: Address) -> bool {
    match asset {
        Option::None => true,
        Option::Some(a) => match a.update_authority {
            UpdateAuthority::Collection(c) => c@ != settings_collection@,
            _ => true,
        },
    }
}

/// Whether the runtime could move `fee` from the owner to the treasury.
pub open spec fn spec_fee_transfer_ok(owner_balance: u64, treasury_balance: u64, fee: u64) -> bool {
    owner_balance >= fee && treasury_balance + fee <= u64::MAX
}

/// The first reason, in the order the checks run, for which an
/// initialization over `a` fails; None when it succeeds.
pub open spec fn spec_init_error(a: InitializeCandyStore) -> Option<InitError> {
    if a.store_exists {
        Some(InitError::AlreadyInitialized)
    } else if spec_candy_store_pda(a.program_id@, a.collection@) is None {
        Some(InitError::AddressDerivationFailed)
    } else if a.collection_owner_program@ != a.asset_program@ {
        Some(InitError::Custom(CustomError::CollectionNotMplCore))
    } else if a.settings_collection_asset matches Some(x) && x.owner@ != a.owner@ {
        Some(InitError::Custom(CustomError::NotTheOwnerOfCollection))
    } else if spec_fee_due(a.settings_collection_asset, a.settings.collection)
        && !spec_fee_transfer_ok(a.owner_balance, a.treasury_balance, a.settings.transaction_fee) {
        Some(InitError::FeeTransferFailed)
    } else {
        None
    }
}

/// What a successful initialization over `a` with the given inputs
/// decides, field by field.
pub open spec fn spec_init_ok(
    a: InitializeCandyStore,
    name: Seq<char>,
    url: Seq<char>,
    manifest_id: Seq<char>,
    number_of_items: u64,
    o: InitOutcome,
) -> bool {
    let fee_due = spec_fee_due(a.settings_collection_asset, a.settings.collection);
    &&& spec_candy_store_pda(a.program_id@, a.collection@) == Some(
        (o.candy_store_address@, o.candy_store.bump),
    )
    &&& o.candy_store.owner@ == a.owner@
    &&& o.candy_store.name@ == name
    &&& o.candy_store.url@ == url
    &&& o.candy_store.number_of_items == number_of_items
    &&& o.candy_store.minted == 0
    &&& o.candy_store.manifest_id@ == manifest_id
    &&& o.candy_store.collection@ == a.collection@
    &&& o.candy_store.phases@.len() == 0
    &&& (o.fee_paid is Some <==> fee_due)
    &&& (o.fee_paid matches Some(t) ==> t.from@ == a.owner@ && t.to@ == a.settings.treasury@
        && t.amount == a.settings.transaction_fee)
    &&& (fee_due ==> o.owner_balance_after == a.owner_balance - a.settings.transaction_fee
        && o.treasury_balance_after == a.treasury_balance + a.settings.transaction_fee)
    &&& (!fee_due ==> o.owner_balance_after == a.owner_balance && o.treasury_balance_after
        == a.treasury_balance)
    &&& o.delegation.asset_program@ == a.asset_program@
    &&& o.delegation.collection@ == a.collection@
    &&& o.delegation.payer@ == a.owner@
    &&& o.delegation.authority@ == a.owner@
    &&& o.delegation.additional_delegates@.len() == 1
    &&& o.delegation.additional_delegates@[0]@ == o.candy_store_address@
    &&& o.delegation.init_authority is UpdateAuthority
    &&& o.event.candy_store@ == o.candy_store_address@
    &&& o.event.owner@ == a.owner@
    &&& o.event.collection@ == a.collection@
    &&& o.event.name@ == name
    &&& o.event.url@ == url
    &&& o.event.manifest_id@ == manifest_id
    &&& o.event.number_of_items == number_of_items
}

/// Decide whether the flat fee is due for this initialization.
pub fn fee_due(asset: &Option<AssetRecord>, settings_collection: &Address) -> (r: bool)
    ensures
        r == spec_fee_due(*asset, *settings_collection),
{
    match asset {
        Option::None => true,
        Option::Some(a) => match &a.update_authority {
            UpdateAuthority::Collection(c) => !c.equals(settings_collection),
            _ => true,
        },
    }
}

/// Initialize the candy store bound to a collection.
///
/// The checks run in a fixed order: the one-shot existence check and the
/// address derivation, then collection ownership, then asset ownership,
/// then the fee gate. A failure returns the first error with nothing
/// decided: no fee moves and no record is written. On success the outcome
/// carries the record, the fee transfer (exactly when one is due) with
/// the balances it leaves, the delegation handshake and the audit event.
pub fn create_candy_store(
    accounts: &InitializeCandyStore,
    name: String,
    url: String,
    manifest_id: String,
    number_of_items: u64,
) -> (r: Result<InitOutcome, InitError>)
    ensures
        r is Err <==> spec_init_error(*accounts) is Some,
        r matches Err(e) ==> spec_init_error(*accounts) == Some(e),
        r matches Ok(o) ==> spec_init_ok(
            *accounts,
            name@,
            url@,
            manifest_id@,
            number_of_items,
            o,
        ),
        accounts.store_exists ==> r == Result::<InitOutcome, InitError>::Err(
            InitError::AlreadyInitialized,
        ),
{
    if accounts.store_exists {
        return Err(InitError::AlreadyInitialized);
    }
    let derived = derive_candy_store_address(&accounts.program_id, &accounts.collection);
    let (candy_store_address, bump) = match derived {
        Some(p) => p,
        None => {
            return Err(InitError::AddressDerivationFailed);
        },
    };
    if !accounts.collection_owner_program.equals(&accounts.asset_program) {
        return Err(InitError::Custom(CustomError::CollectionNotMplCore));
    }
    match &accounts.settings_collection_asset {
        Option::Some(asset) => {
            if !asset.owner.equals(&accounts.owner) {
                return Err(InitError::Custom(CustomError::NotTheOwnerOfCollection));
            }
        },
        Option::None => {},
    }
    let due = fee_due(&accounts.settings_collection_asset, &accounts.settings.collection);
    let fee_paid: Option<FeeTransfer>;
    let owner_balance_after: u64;
    let treasury_balance_after: u64;
    if due {
        let fee = accounts.settings.transaction_fee;
        if accounts.owner_balance < fee {
            return Err(InitError::FeeTransferFailed);
        }
        if accounts.treasury_balance > u64::MAX - fee {
            return Err(InitError::FeeTransferFailed);
        }
        fee_paid = Some(
            FeeTransfer { from: accounts.owner, to: accounts.settings.treasury, amount: fee },
        );
        owner_balance_after = accounts.owner_balance - fee;
        treasury_balance_after = accounts.treasury_balance + fee;
    } else {
        fee_paid = None;
        owner_balance_after = accounts.owner_balance;
        treasury_balance_after = accounts.treasury_balance;
    }
    let candy_store = CandyStore {
        owner: accounts.owner,
        name: name.clone(),
        url: url.clone(),
        number_of_items,
        minted: 0,
        manifest_id: manifest_id.clone(),
        collection: accounts.collection,
        phases: Vec::new(),
        bump,
    };
    let mut additional_delegates: Vec<Address> = Vec::new();
    additional_delegates.push(candy_store_address);
    let delegation = DelegationAction {
        asset_program: accounts.asset_program,
        collection: accounts.collection,
        payer: accounts.owner,
        authority: accounts.owner,
        additional_delegates,
        init_authority: PluginAuthority::UpdateAuthority,
    };
    let event = CreateCandyStoreEvent {
        candy_store: candy_store_address,
        owner: accounts.owner,
        collection: accounts.collection,
        name,
        url,
        manifest_id,
        number_of_items,
    };
    Ok(
        InitOutcome {
            candy_store_address,
            candy_store,
            fee_paid,
            owner_balance_after,
            treasury_balance_after,
            delegation,
            event,
        },
    )
}

/// One candy-store address per collection: any two successful
/// initializations bound to the same collection under the same program
/// decide the same derived address, because the derivation is a function
/// of the program and collection addresses alone.
pub proof fn lemma_one_store_address_per_collection(
    a1: InitializeCandyStore,
    a2: InitializeCandyStore,
    o1: InitOutcome,
    o2: InitOutcome,
    name1: Seq<char>,
    url1: Seq<char>,
    manifest_id1: Seq<char>,
    number_of_items1: u64,
    name2: Seq<char>,
    url2: Seq<char>,
    manifest_id2: Seq<char>,
    number_of_items2: u64,
)
    requires
        a1.program_id@ == a2.program_id@,
        a1.collection@ == a2.collection@,
        spec_init_ok(a1, name1, url1, manifest_id1, number_of_items1, o1),
        spec_init_ok(a2, name2, url2, manifest_id2, number_of_items2, o2),
    ensures
        o1.candy_store_address@ == o2.candy_store_address@,
        o1.candy_store.bump == o2.candy_store.bump,
{
}

/// Once the runtime's own account checks pass, a collection not owned by
/// the asset-management program always fails `CollectionNotMplCore`; the
/// error decides nothing, so no fee moves and no record is written.
pub proof fn lemma_foreign_collection_rejected(a: InitializeCandyStore)
    requires
        !a.store_exists,
        spec_candy_store_pda(a.program_id@, a.collection@) is Some,
        a.collection_owner_program@ != a.asset_program@,
    ensures
        spec_init_error(a) == Some(InitError::Custom(CustomError::CollectionNotMplCore)),
{
}

/// Once the collection itself is accepted, a supplied settings-collection
/// asset held by anyone but the initializing signer always fails
/// `NotTheOwnerOfCollection`, whatever its other fields say.
pub proof fn lemma_foreign_asset_owner_rejected(a: InitializeCandyStore)
    requires
        !a.store_exists,
        spec_candy_store_pda(a.program_id@, a.collection@) is Some,
        a.collection_owner_program@ == a.asset_program@,
        a.settings_collection_asset matches Some(x) && x.owner@ != a.owner@,
    ensures
        spec_init_error(a) == Some(InitError::Custom(CustomError::NotTheOwnerOfCollection)),
{
}

/// When the settings-collection asset is absent, the fee is due, and a
/// successful initialization charges it: the treasury gains exactly the
/// flat fee and the owner pays exactly the flat fee.
pub proof fn lemma_fee_charged_without_asset(
    a: InitializeCandyStore,
    o: InitOutcome,
    name: Seq<char>,
    url: Seq<char>,
    manifest_id: Seq<char>,
    number_of_items: u64,
)
    requires
        a.settings_collection_asset is None,
        spec_init_ok(a, name, url, manifest_id, number_of_items, o),
    ensures
        o.fee_paid is Some,
        o.treasury_balance_after == a.treasury_balance + a.settings.transaction_fee,
        o.owner_balance_after == a.owner_balance - a.settings.transaction_fee,
{
}

/// When the settings-collection asset is present with its update
/// authority delegated exactly to the settings-collection address, the
/// fee is never charged: a successful initialization leaves both
/// balances untouched.
pub proof fn lemma_fee_exempt_with_delegated_asset(
    a: InitializeCandyStore,
    o: InitOutcome,
    name: Seq<char>,
    url: Seq<char>,
    manifest_id: Seq<char>,
    number_of_items: u64,
)
    requires
        a.settings_collection_asset matches Some(x) && x.update_authority matches
            UpdateAuthority::Collection(c) && c@ == a.settings.collection@,
        spec_init_ok(a, name, url, manifest_id, number_of_items, o),
    ensures
        o.fee_paid is None,
        o.treasury_balance_after == a.treasury_balance,
        o.owner_balance_after == a.owner_balance,
{
}

} // verus!
