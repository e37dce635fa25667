use vstd::prelude::*;
use crate::address::Address;

verus! {

/// The update authority of an asset record kept by the asset-management
/// program: none at all, an explicit address, or delegated to the
/// collection that the asset belongs to.
#[derive(Clone, Copy, Debug, PartialEq, Eq)]
pub enum UpdateAuthority {
    Unset,
    Explicit(Address),
    Collection(Address),
}

/// The part of an asset record of the asset-management program that the
/// initialization logic reads: who holds the asset, and who may update it.
#[derive(Clone, Copy, Debug, PartialEq, Eq)]
pub struct AssetRecord {
    pub owner: Address,
    pub update_authority: UpdateAuthority,
}

/// The platform's read-only settings record: where fees go, how much a
/// candy-store initialization costs, the designated settings collection,
/// and the bump under which the record's own address was derived.
#[derive(Clone, Copy, Debug, PartialEq, Eq)]
pub struct Settings {
    pub treasury: Address,
    pub transaction_fee: u64,
    pub collection: Address,
    pub bump: u8,
}

/// A mint-window configuration record. The instructions here only ever
/// create the empty sequence of phases; out-of-scope instructions fill it.
#[derive(Clone, Debug, PartialEq, Eq)]
pub struct Phase {}

/// The program-owned configuration record bound one-to-one to a collection.
#[derive(Clone, Debug)]
pub struct CandyStore {
    pub owner: Address,
    pub name: String,
    pub url: String,
    pub number_of_items: u64,
    pub minted: u64,
    pub manifest_id: String,
    pub collection: Address,
    pub phases: Vec<Phase>,
    pub bump: u8,
}

/// The durable audit record emitted when a candy store is created.
#[derive(Clone, Debug)]
pub struct CreateCandyStoreEvent {
    pub candy_store: Address,
    pub owner: Address,
    pub collection: Address,
    pub name: String,
    pub url: String,
    pub manifest_id: String,
    pub number_of_items: u64,
}

} // verus!
