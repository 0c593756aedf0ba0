use vstd::prelude::*;
use crate::address::Address;
use crate::cpi::Cpi;
use crate::state::Listing;

verus! {

/// The bump found for the listing account.
#[derive(Clone, Copy, Debug, PartialEq, Eq)]
pub struct ListBumps {
    pub listing: u8,
}

/// The accounts of listing an asset for sale; `listing` is the freshly
/// created listing account, at address `listing_key`.
#[derive(Clone, Copy, Debug)]
pub struct List {
    pub maker: Address,
    pub asset: Address,
    pub collection: Option<Address>,
    pub payment_mint: Address,
    pub listing_key: Address,
    pub listing: Listing,
}

impl List {
    /// The listing that `create_listing` records.
    pub open spec fn recorded_listing(&self, price: u64, bumps: ListBumps) -> Listing {
        Listing {
            maker: self.maker,
            asset: self.asset,
            price,
            bump: bumps.listing,
            payment_mint: self.payment_mint,
        }
    }

    /// The maker, as the asset's owner, hands it to the listing, which holds
    /// it until a sale or a delisting.
    pub open spec fn create_listing_plan(&self) -> Seq<Cpi> {
        seq![
            Cpi::AssetTransfer {
                asset: self.asset,
                collection: self.collection,
                payer: self.maker,
                authority: self.maker,
                new_owner: self.listing_key,
                signer: None,
            },
        ]
    }

    /// Records the maker's listing of the asset at `price` and puts the
    /// asset in the listing's keeping.
    pub fn create_listing(&mut self, price: u64, bumps: &ListBumps) -> (cpis: Vec<Cpi>)
        ensures
            final(self).listing == old(self).recorded_listing(price, *bumps),
            final(self).maker == old(self).maker,
            final(self).asset == old(self).asset,
            final(self).collection == old(self).collection,
            final(self).payment_mint == old(self).payment_mint,
            final(self).listing_key == old(self).listing_key,
            cpis@ == old(self).create_listing_plan(),
    {
        self.listing = Listing {
            maker: self.maker,
            asset: self.asset,
            price,
            bump: bumps.listing,
            payment_mint: self.payment_mint,
        };
        let mut cpis: Vec<Cpi> = Vec::new();
        cpis.push(
            Cpi::AssetTransfer {
                asset: self.asset,
                collection: self.collection,
                payer: self.maker,
                authority: self.maker,
                new_owner: self.listing_key,
                signer: None,
            },
        );
        assert(cpis@ =~= old(self).create_listing_plan());
        cpis
    }
}

} // verus!
