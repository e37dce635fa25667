use vstd::prelude::*;
use crate::address::Address;

verus! {

/// A plain-value snapshot of the accounts that collection creation reads:
/// the new collection's identity, the payer, the optional custom update
/// authority, and the asset-management program to invoke.
#[derive(Clone, Copy, Debug)]
pub struct InitializeCollection {
    pub collection: Address,
    pub payer: Address,
    pub update_authority: Option<Address>,
    pub asset_program: Address,
}

/// The call into the asset-management program that collection creation
/// decides: create a collection record with the given name and metadata
/// URI, under the optional update authority passed through unchanged
/// (absent means the program's own default).
#[derive(Clone, Debug)]
pub struct CreateCollectionAction {
    pub asset_program: Address,
    pub collection: Address,
    pub payer: Address,
    pub update_authority: Option<Address>,
    pub name: String,
    pub uri: String,
}

/// Create a collection record through the asset-management program.
///
/// There is no local validation beyond account binding: every input is
/// handed through unchanged, the optional update authority included, and
/// any failure is the external call's own, propagated by the caller.
pub fn create_collection(accounts: &InitializeCollection, name: String, uri: String) -> (r:
    CreateCollectionAction)
    ensures
        r.asset_program@ == accounts.asset_program@,
        r.collection@ == accounts.collection@,
        r.payer@ == accounts.payer@,
        r.update_authority == accounts.update_authority,
        r.name@ == name@,
        r.uri@ == uri@,
{
    CreateCollectionAction {
        asset_program: accounts.asset_program,
        collection: accounts.collection,
        payer: accounts.payer,
        update_authority: accounts.update_authority,
        name,
        uri,
    }
}

} // verus!
