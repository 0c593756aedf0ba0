//! Decision logic of an NFT marketplace program: listing, buying with the
//! native coin or with a token, offers held in escrow, fee withdrawal.
//!
//! Every instruction is a verified function from the accounts it reads to
//! the list of cross-program invocations it performs, or to the error it
//! raises. Performing the invocations is left to the runtime glue.
#![allow(unused_imports)]

pub mod address;
pub mod cpi;
pub mod error;
pub mod fees;
pub mod guarantees;
pub mod history;
pub mod instructions;
pub mod ledger;
pub mod laws;
pub mod seeds;
pub mod state;

pub use crate::address::Address;
pub use crate::cpi::{Cpi, Lamports};
pub use crate::error::ErrorCode;
pub use crate::instructions::accept_offer::AcceptOffer;
pub use crate::instructions::buy::Buy;
pub use crate::instructions::buy_with_token::BuyWithToken;
pub use crate::instructions::cancel_offer::CancelOffer;
pub use crate::instructions::delist::Delist;
pub use crate::instructions::initialize::{Initialize, InitializeBumps};
pub use crate::instructions::list::{List, ListBumps};
pub use crate::instructions::make_offer::{MakeOffer, MakeOfferBumps};
pub use crate::instructions::withdraw_fee::WithdrawFee;
pub use crate::seeds::PdaSigner;
pub use crate::state::{Account, Listing, Marketplace, MintAccount, Offer};

use vstd::prelude::*;
use crate::cpi::outcome_view;

verus! {

/// Creates a marketplace with the given name and fee in basis points.
pub fn initialize(accounts: &Initialize, name: String, fee: u16, bumps: &InitializeBumps) -> (r: Result<Marketplace, ErrorCode>)
    ensures
        r == accounts.init_outcome(name, fee, *bumps),
{
    accounts.init(name, fee, bumps)
}

/// Lists the maker's asset at `price`: records the listing and hands it the asset.
pub fn list(accounts: &mut List, price: u64, bumps: &ListBumps) -> (cpis: Vec<Cpi>)
    ensures
        final(accounts).listing == old(accounts).recorded_listing(price, *bumps),
        cpis@ == old(accounts).create_listing_plan(),
{
    accounts.create_listing(price, bumps)
}

/// Buys a listed asset with lamports: payment, asset, reward, in this order.
pub fn buy(accounts: &Buy) -> (cpis: Vec<Cpi>)
    requires
        accounts.fee_fits(),
    ensures
        cpis@ == accounts.buy_plan(),
{
    let mut cpis = accounts.send_sol();
    let mut nft = accounts.recieve_nft();
    let mut rewards = accounts.distribute_rewards();
    cpis.append(&mut nft);
    cpis.append(&mut rewards);
    cpis
}

/// Buys a listed asset with the listing's token: payment, asset, reward.
pub fn buy_with_token(accounts: &BuyWithToken) -> (r: Result<Vec<Cpi>, ErrorCode>)
    requires
        accounts.mint_matches() ==> accounts.fee_fits(),
    ensures
        outcome_view(r) == (if accounts.mint_matches() {
            Ok(accounts.buy_plan())
        } else {
            Err(ErrorCode::MintMismatch)
        }),
{
    let mut cpis = match accounts.send_tokens() {
        Ok(cpis) => cpis,
        Err(e) => return Err(e),
    };
    let mut nft = accounts.recieve_nft();
    let mut rewards = accounts.distribute_rewards();
    cpis.append(&mut nft);
    cpis.append(&mut rewards);
    Ok(cpis)
}

/// Withdraws a listing: only its maker may.
pub fn delist(accounts: &Delist) -> (r: Result<Vec<Cpi>, ErrorCode>)
    ensures
        outcome_view(r) == accounts.delist_outcome(),
{
    accounts.delist()
}

} // verus!
