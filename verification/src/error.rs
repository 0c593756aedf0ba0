use vstd::prelude::*;

verus! {

/// The errors that the marketplace's own checks raise.
#[derive(Clone, Copy, Debug, PartialEq, Eq, Structural)]
pub enum ErrorCode {
    /// The fee is above 10000 basis points.
    InvalidFee,
    /// The marketplace name is longer than 32 bytes.
    InvalidName,
    /// Only the maker of a listing may delist it.
    Unauthorized,
    /// Only the marketplace admin may withdraw fees.
    UnauthorizedAdmin,
    /// An offer must be for a positive amount.
    InvalidOfferAmount,
    /// Only the maker of an offer may cancel it.
    UnauthorizedOfferCancellation,
    /// The asset does not match the one the offer is for.
    OfferAssetMismatch,
    /// The payment mint does not match the one the listing asks for.
    MintMismatch,
}

} // verus!
