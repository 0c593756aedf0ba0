use vstd::prelude::*;
use crate::address::Address;
use crate::cpi::{Cpi, Lamports, outcome_view};
use crate::error::ErrorCode;
use crate::state::Offer;

verus! {

/// The bumps found for the offer account and its vault.
#[derive(Clone, Copy, Debug, PartialEq, Eq)]
pub struct MakeOfferBumps {
    pub offer: u8,
    pub vault: u8,
}

/// The accounts of making an offer; `offer` is the freshly created offer account.
#[derive(Clone, Copy, Debug)]
pub struct MakeOffer {
    pub buyer: Address,
    pub asset: Address,
    pub offer: Offer,
    pub vault: Address,
}

impl MakeOffer {
    /// What account validation establishes before the offer is made: the
    /// vault, a program-derived account, is not the buyer's wallet.
    pub open spec fn accounts_valid(&self) -> bool {
        self.vault@ != self.buyer@
    }

    /// The offer that `create_offer` records.
    pub open spec fn recorded_offer(&self, amount: u64, bumps: MakeOfferBumps) -> Offer {
        Offer { buyer: self.buyer, asset: self.asset, amount, bump: bumps.offer, vault_bump: bumps.vault }
    }

    /// The buyer moves the offered amount into the vault.
    pub open spec fn create_offer_plan(&self, amount: u64) -> Seq<Cpi> {
        seq![
            Cpi::SystemTransfer {
                from: self.buyer,
                to: self.vault,
                amount: Lamports::Exact(amount),
                signer: None,
            },
        ]
    }

    pub open spec fn create_offer_outcome(&self, amount: u64) -> Result<Seq<Cpi>, ErrorCode> {
        if amount > 0 {
            Ok(self.create_offer_plan(amount))
        } else {
            Err(ErrorCode::InvalidOfferAmount)
        }
    }

    /// Records an offer of `amount` lamports for the asset and escrows the
    /// amount; an offer of nothing is refused and records nothing.
    pub fn create_offer(&mut self, amount: u64, bumps: &MakeOfferBumps) -> (r: Result<Vec<Cpi>, ErrorCode>)
        ensures
            outcome_view(r) == old(self).create_offer_outcome(amount),
            final(self).buyer == old(self).buyer,
            final(self).asset == old(self).asset,
            final(self).vault == old(self).vault,
            final(self).offer == (if amount > 0 {
                old(self).recorded_offer(amount, *bumps)
            } else {
                old(self).offer
            }),
    {
        if amount == 0 {
            return Err(ErrorCode::InvalidOfferAmount);
        }
        self.offer = Offer {
            buyer: self.buyer,
            asset: self.asset,
            amount,
            bump: bumps.offer,
            vault_bump: bumps.vault,
        };
        let mut cpis: Vec<Cpi> = Vec::new();
        cpis.push(
            Cpi::SystemTransfer {
                from: self.buyer,
                to: self.vault,
                amount: Lamports::Exact(amount),
                signer: None,
            },
        );
        assert(cpis@ =~= old(self).create_offer_plan(amount));
        Ok(cpis)
    }
}

} // verus!
