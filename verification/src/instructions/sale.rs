use vstd::prelude::*;
use crate::address::Address;
use crate::cpi::Cpi;
use crate::fees::{reward_of, reward_amount};
use crate::seeds::PdaSigner;
use crate::state::{Account, Listing, Marketplace};

verus! {

/// The listing releases `asset` to `new_owner`; `payer` pays for the invocation.
pub open spec fn asset_release(
    asset: Address,
    collection: Option<Address>,
    payer: Address,
    new_owner: Address,
    listing: Account<Listing>,
) -> Cpi {
    Cpi::AssetTransfer {
        asset,
        collection,
        payer,
        authority: listing.key,
        new_owner,
        signer: Some(PdaSigner::Listing { asset, bump: listing.data.bump }),
    }
}

/// Builds [`asset_release`].
pub fn asset_release_cpi(
    asset: Address,
    collection: Option<Address>,
    payer: Address,
    new_owner: Address,
    listing: &Account<Listing>,
) -> (c: Cpi)
    ensures
        c == asset_release(asset, collection, payer, new_owner, *listing),
{
    Cpi::AssetTransfer {
        asset,
        collection,
        payer,
        authority: listing.key,
        new_owner,
        signer: Some(PdaSigner::Listing { asset, bump: listing.data.bump }),
    }
}

/// The marketplace mints the reward for a sale at `price` into `to`.
pub open spec fn reward_grant(
    price: u64,
    reward_mint: Address,
    to: Address,
    marketplace: Account<Marketplace>,
) -> Cpi {
    Cpi::MintTo {
        mint: reward_mint,
        to,
        authority: marketplace.key,
        amount: reward_of(price) as u64,
        signer: Some(
            PdaSigner::Marketplace { name: marketplace.data.name, bump: marketplace.data.bump },
        ),
    }
}

/// Builds [`reward_grant`].
pub fn reward_grant_cpi(
    price: u64,
    reward_mint: Address,
    to: Address,
    marketplace: &Account<Marketplace>,
) -> (c: Cpi)
    ensures
        c == reward_grant(price, reward_mint, to, *marketplace),
{
    let amount = reward_amount(price);
    Cpi::MintTo {
        mint: reward_mint,
        to,
        authority: marketplace.key,
        amount,
        signer: Some(
            PdaSigner::Marketplace {
                name: marketplace.data.name.clone(),
                bump: marketplace.data.bump,
            },
        ),
    }
}

} // verus!
