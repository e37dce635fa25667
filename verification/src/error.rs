use vstd::prelude::*;

verus! {

/// The caller-caused validation errors of candy-store initialization,
/// surfaced verbatim.
#[derive(Clone, Copy, Debug, PartialEq, Eq, Structural)]
pub enum CustomError {
    /// The collection account is not owned by the asset-management program.
    CollectionNotMplCore,
    /// The supplied settings-collection asset is not held by the signer.
    NotTheOwnerOfCollection,
}

/// Everything that can stop a candy-store initialization before its
/// effects are decided: the runtime's own account checks, a validation
/// error, or an impossible fee transfer.
#[derive(Clone, Copy, Debug, PartialEq, Eq, Structural)]
pub enum InitError {
    /// A record already exists at the derived candy-store address; the
    /// one-shot creation fails rather than overwrite it.
    AlreadyInitialized,
    /// No bump seed yields a valid derived address for this collection.
    AddressDerivationFailed,
    /// A validation error of the instruction itself.
    Custom(CustomError),
    /// The fee transfer cannot be performed: the payer lacks the funds, or
    /// the treasury balance cannot take the fee.
    FeeTransferFailed,
}

} // verus!
