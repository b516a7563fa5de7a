use vstd::prelude::*;

verus! {

/// Every way a call into the engine can fail. Each failure aborts the whole
/// call: the host discards all staged state changes, so no instruction is
/// carried out and no record moves on any error.
#[derive(Clone, Copy, Debug, PartialEq, Eq, Structural)]
pub enum ContractError {
    /// The submitted fee is below the configured minimum.
    InvalidFee,
    /// No venue pool exists for the requested asset pair.
    NoMarket,
    /// The native coins attached to the call do not match the declared offer.
    PaymentMismatch,
    /// The referenced order id does not exist.
    NotFound,
    /// The caller is not the owner of the order it tries to cancel.
    Unauthorized,
    /// The venue's simulated return is below the order's minimum ask amount.
    InsufficientReturn,
    /// The external price or swap call failed.
    VenueUnavailable,
    /// An identity supplied at initialization does not resolve.
    InvalidAddress,
}

} // verus!
