//! Reasons for which a transfer or a marketplace transition is refused.

use vstd::prelude::*;

verus! {

/// Why the ledger refused a transfer. A refused transfer moves nothing.
#[derive(Clone, Copy, Debug, PartialEq, Eq, Structural)]
pub enum TransferError {
    /// The source holds less than the amount.
    InsufficientFunds,
    /// The destination would hold more than the ledger can count.
    BalanceOverflow,
    /// The authority that consents is not the one that controls the source.
    AuthorityMismatch,
}

/// Why a transition was refused. A refused transition changes nothing.
#[derive(Clone, Copy, Debug, PartialEq, Eq, Structural)]
pub enum NftMarketplaceError {
    /// The listing was already settled by a purchase or a cancellation.
    ListingNotActive,
    /// The caller is not the party that the transition asks for.
    UnauthorizedAccess,
    /// The ledger refused a transfer that the transition needs.
    TransferFailure(TransferError),
    /// The asset already has a listing, active or settled.
    DuplicateListing,
}

} // verus!
