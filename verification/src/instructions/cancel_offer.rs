use vstd::prelude::*;
use crate::address::Address;
use crate::cpi::{Cpi, Lamports, outcome_view};
use crate::error::ErrorCode;
use crate::seeds::PdaSigner;
use crate::state::{Account, Offer};

verus! {

/// The accounts of withdrawing an offer.
#[derive(Clone, Copy, Debug)]
pub struct CancelOffer {
    pub buyer: Address,
    pub asset: Address,
    pub offer: Account<Offer>,
    pub vault: Address,
}

impl CancelOffer {
    /// What account validation establishes before the cancellation runs:
    /// the offer is the buyer's offer for this asset, and the vault, a
    /// program-derived account, is not the buyer's wallet.
    pub open spec fn accounts_valid(&self) -> bool {
        &&& self.offer.data.buyer@ == self.buyer@
        &&& self.offer.data.asset@ == self.asset@
        &&& self.vault@ != self.buyer@
    }

    /// The vault returns everything it holds to the buyer.
    pub open spec fn cancel_plan(&self) -> Seq<Cpi> {
        seq![
            Cpi::SystemTransfer {
                from: self.vault,
                to: self.buyer,
                amount: Lamports::All,
                signer: Some(
                    PdaSigner::OfferVault {
                        asset: self.asset,
                        buyer: self.offer.data.buyer,
                        bump: self.offer.data.vault_bump,
                    },
                ),
            },
        ]
    }

    pub open spec fn cancel_outcome(&self) -> Result<Seq<Cpi>, ErrorCode> {
        if self.buyer@ != self.offer.data.buyer@ {
            Err(ErrorCode::UnauthorizedOfferCancellation)
        } else if self.asset@ != self.offer.data.asset@ {
            Err(ErrorCode::OfferAssetMismatch)
        } else {
            Ok(self.cancel_plan())
        }
    }

    /// Cancels the offer: only its buyer may, and only for its asset.
    pub fn cancel(&self) -> (r: Result<Vec<Cpi>, ErrorCode>)
        ensures
            outcome_view(r) == self.cancel_outcome(),
    {
        if self.buyer != self.offer.data.buyer {
            return Err(ErrorCode::UnauthorizedOfferCancellation);
        }
        if self.asset != self.offer.data.asset {
            return Err(ErrorCode::OfferAssetMismatch);
        }
        let mut cpis: Vec<Cpi> = Vec::new();
        cpis.push(
            Cpi::SystemTransfer {
                from: self.vault,
                to: self.buyer,
                amount: Lamports::All,
                signer: Some(
                    PdaSigner::OfferVault {
                        asset: self.asset,
                        buyer: self.offer.data.buyer,
                        bump: self.offer.data.vault_bump,
                    },
                ),
            },
        );
        assert(cpis@ =~= self.cancel_plan());
        Ok(cpis)
    }
}

} // verus!
