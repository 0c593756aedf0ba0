use vstd::prelude::*;
use crate::address::Address;
use crate::cpi::{Cpi, Lamports, outcome_view};
use crate::error::ErrorCode;
use crate::fees::{fee_of, maker_amount_of, split_price};
use crate::instructions::sale::{asset_release, asset_release_cpi, reward_grant, reward_grant_cpi};
use crate::seeds::PdaSigner;
use crate::state::{Account, Listing, Marketplace, Offer};

verus! {

/// The accounts of accepting an offer: the maker of a listing sells the
/// asset to the buyer who made the offer, out of the offer's vault.
#[derive(Clone, Debug)]
pub struct AcceptOffer {
    pub maker: Address,
    pub buyer: Address,
    pub asset: Address,
    pub collection: Option<Address>,
    pub marketplace: Account<Marketplace>,
    pub listing: Account<Listing>,
    pub offer: Account<Offer>,
    pub vault: Address,
    pub treasury: Address,
    pub reward_mint: Address,
    pub buyer_reward_ata: Address,
}

impl AcceptOffer {
    /// What account validation establishes before the acceptance runs: the
    /// listing is the maker's listing of this asset, the offer is the
    /// buyer's offer for it, and the vault and the treasury, program-derived
    /// accounts, are distinct from each other and from the two wallets.
    pub open spec fn accounts_valid(&self) -> bool {
        &&& self.listing.data.maker@ == self.maker@
        &&& self.listing.data.asset@ == self.asset@
        &&& self.offer.data.buyer@ == self.buyer@
        &&& self.offer.data.asset@ == self.asset@
        &&& self.vault@ != self.maker@
        &&& self.vault@ != self.buyer@
        &&& self.vault@ != self.treasury@
        &&& self.treasury@ != self.maker@
        &&& self.treasury@ != self.buyer@
    }

    /// The offer's vault, which signs the payments out of it.
    pub open spec fn vault_signer(&self) -> PdaSigner {
        PdaSigner::OfferVault {
            asset: self.asset,
            buyer: self.offer.data.buyer,
            bump: self.offer.data.vault_bump,
        }
    }

    /// Whether the program accepts the offer: it is for a positive amount
    /// and for this asset.
    pub open spec fn offer_is_acceptable(&self) -> bool {
        &&& self.offer.data.amount > 0
        &&& self.asset@ == self.offer.data.asset@
    }

    /// The sale at the offered amount: the vault pays the maker their part
    /// and the treasury the fee, returns the rest to the buyer; the listing
    /// hands the asset to the buyer; the marketplace mints the buyer a
    /// reward of 1% of the amount.
    pub open spec fn accept_plan(&self) -> Seq<Cpi> {
        let price = self.offer.data.amount;
        let fee_bps = self.marketplace.data.fee;
        seq![
            Cpi::SystemTransfer {
                from: self.vault,
                to: self.maker,
                amount: Lamports::Exact(maker_amount_of(price, fee_bps) as u64),
                signer: Some(self.vault_signer()),
            },
            Cpi::SystemTransfer {
                from: self.vault,
                to: self.treasury,
                amount: Lamports::Exact(fee_of(price, fee_bps) as u64),
                signer: Some(self.vault_signer()),
            },
            Cpi::SystemTransfer {
                from: self.vault,
                to: self.buyer,
                amount: Lamports::All,
                signer: Some(self.vault_signer()),
            },
            asset_release(self.asset, self.collection, self.maker, self.buyer, self.listing),
            reward_grant(price, self.reward_mint, self.buyer_reward_ata, self.marketplace),
        ]
    }

    pub open spec fn accept_outcome(&self) -> Result<Seq<Cpi>, ErrorCode> {
        if self.offer.data.amount == 0 {
            Err(ErrorCode::InvalidOfferAmount)
        } else if self.asset@ != self.offer.data.asset@ {
            Err(ErrorCode::OfferAssetMismatch)
        } else {
            Ok(self.accept_plan())
        }
    }

    /// Accepts the offer. The program stops when the fee exceeds the offered
    /// amount, which a fee of at most 10000 basis points rules out; that
    /// input is left out.
    pub fn accept(&self) -> (r: Result<Vec<Cpi>, ErrorCode>)
        requires
            self.offer_is_acceptable() ==> fee_of(self.offer.data.amount, self.marketplace.data.fee)
                <= self.offer.data.amount,
        ensures
            outcome_view(r) == self.accept_outcome(),
    {
        let price = self.offer.data.amount;
        if price == 0 {
            return Err(ErrorCode::InvalidOfferAmount);
        }
        if self.asset != self.offer.data.asset {
            return Err(ErrorCode::OfferAssetMismatch);
        }
        let (maker_amount, fee) = split_price(price, self.marketplace.data.fee);
        let mut cpis: Vec<Cpi> = Vec::new();
        cpis.push(
            Cpi::SystemTransfer {
                from: self.vault,
                to: self.maker,
                amount: Lamports::Exact(maker_amount),
                signer: Some(self.vault_signer_exec()),
            },
        );
        cpis.push(
            Cpi::SystemTransfer {
                from: self.vault,
                to: self.treasury,
                amount: Lamports::Exact(fee),
                signer: Some(self.vault_signer_exec()),
            },
        );
        cpis.push(
            Cpi::SystemTransfer {
                from: self.vault,
                to: self.buyer,
                amount: Lamports::All,
                signer: Some(self.vault_signer_exec()),
            },
        );
        cpis.push(
            asset_release_cpi(self.asset, self.collection, self.maker, self.buyer, &self.listing),
        );
        cpis.push(
            reward_grant_cpi(price, self.reward_mint, self.buyer_reward_ata, &self.marketplace),
        );
        assert(cpis@ =~= self.accept_plan());
        Ok(cpis)
    }

    fn vault_signer_exec(&self) -> (s: PdaSigner)
        ensures
            s == self.vault_signer(),
    {
        PdaSigner::OfferVault {
            asset: self.asset,
            buyer: self.offer.data.buyer,
            bump: self.offer.data.vault_bump,
        }
    }
}

} // verus!
