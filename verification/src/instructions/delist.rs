use vstd::prelude::*;
use crate::address::Address;
use crate::cpi::{Cpi, outcome_view};
use crate::error::ErrorCode;
use crate::instructions::sale::{asset_release, asset_release_cpi};
use crate::state::{Account, Listing};

verus! {

/// The accounts of withdrawing a listing.
#[derive(Clone, Copy, Debug)]
pub struct Delist {
    pub maker: Address,
    pub listing: Account<Listing>,
    pub asset: Address,
    pub collection: Option<Address>,
}

impl Delist {
    /// The listing hands the asset back to its maker.
    pub open spec fn delist_plan(&self) -> Seq<Cpi> {
        seq![asset_release(self.asset, self.collection, self.maker, self.maker, self.listing)]
    }

    pub open spec fn delist_outcome(&self) -> Result<Seq<Cpi>, ErrorCode> {
        if self.maker@ == self.listing.data.maker@ {
            Ok(self.delist_plan())
        } else {
            Err(ErrorCode::Unauthorized)
        }
    }

    /// Delists the asset: only the maker of the listing may.
    pub fn delist(&self) -> (r: Result<Vec<Cpi>, ErrorCode>)
        ensures
            outcome_view(r) == self.delist_outcome(),
    {
        if self.maker != self.listing.data.maker {
            return Err(ErrorCode::Unauthorized);
        }
        let mut cpis: Vec<Cpi> = Vec::new();
        cpis.push(
            asset_release_cpi(self.asset, self.collection, self.maker, self.maker, &self.listing),
        );
        assert(cpis@ =~= self.delist_plan());
        Ok(cpis)
    }
}

} // verus!
