use vstd::prelude::*;
use crate::address::Address;
use crate::cpi::{Cpi, Lamports};
use crate::fees::{fee_of, maker_amount_of, split_price};
use crate::instructions::sale::{asset_release, asset_release_cpi, reward_grant, reward_grant_cpi};
use crate::state::{Account, Listing, Marketplace};

verus! {

/// The accounts of buying a listed asset with lamports.
#[derive(Clone, Debug)]
pub struct Buy {
    pub taker: Address,
    pub maker: Address,
    pub asset: Address,
    pub collection: Option<Address>,
    pub marketplace: Account<Marketplace>,
    pub listing: Account<Listing>,
    pub treasury: Address,
    pub reward_mint: Address,
    pub taker_reward_ata: Address,
}

impl Buy {
    /// What account validation establishes before the purchase runs: the
    /// listing is the maker's listing of this asset, and the treasury, a
    /// program-derived account, is neither the buying nor the selling wallet.
    pub open spec fn accounts_valid(&self) -> bool {
        &&& self.listing.data.maker@ == self.maker@
        &&& self.listing.data.asset@ == self.asset@
        &&& self.treasury@ != self.taker@
        &&& self.treasury@ != self.maker@
    }

    /// The taker pays the maker the price less the fee, and the treasury the fee.
    pub open spec fn send_sol_plan(&self) -> Seq<Cpi> {
        let price = self.listing.data.price;
        let fee_bps = self.marketplace.data.fee;
        seq![
            Cpi::SystemTransfer {
                from: self.taker,
                to: self.maker,
                amount: Lamports::Exact(maker_amount_of(price, fee_bps) as u64),
                signer: None,
            },
            Cpi::SystemTransfer {
                from: self.taker,
                to: self.treasury,
                amount: Lamports::Exact(fee_of(price, fee_bps) as u64),
                signer: None,
            },
        ]
    }

    /// The listing hands the asset to the taker.
    pub open spec fn recieve_nft_plan(&self) -> Seq<Cpi> {
        seq![asset_release(self.asset, self.collection, self.taker, self.taker, self.listing)]
    }

    /// The marketplace mints the taker 1% of the price in reward tokens.
    pub open spec fn distribute_rewards_plan(&self) -> Seq<Cpi> {
        seq![
            reward_grant(
                self.listing.data.price,
                self.reward_mint,
                self.taker_reward_ata,
                self.marketplace,
            ),
        ]
    }

    /// The whole purchase: payment, then the asset, then the reward.
    pub open spec fn buy_plan(&self) -> Seq<Cpi> {
        self.send_sol_plan() + self.recieve_nft_plan() + self.distribute_rewards_plan()
    }

    /// The program stops when the fee exceeds the price, which a fee of at
    /// most 10000 basis points rules out.
    pub open spec fn fee_fits(&self) -> bool {
        fee_of(self.listing.data.price, self.marketplace.data.fee) <= self.listing.data.price
    }

    /// Pays for the asset.
    pub fn send_sol(&self) -> (cpis: Vec<Cpi>)
        requires
            self.fee_fits(),
        ensures
            cpis@ == self.send_sol_plan(),
    {
        let (maker_amount, fee) = split_price(self.listing.data.price, self.marketplace.data.fee);
        let mut cpis: Vec<Cpi> = Vec::new();
        cpis.push(
            Cpi::SystemTransfer {
                from: self.taker,
                to: self.maker,
                amount: Lamports::Exact(maker_amount),
                signer: None,
            },
        );
        cpis.push(
            Cpi::SystemTransfer {
                from: self.taker,
                to: self.treasury,
                amount: Lamports::Exact(fee),
                signer: None,
            },
        );
        assert(cpis@ =~= self.send_sol_plan());
        cpis
    }

    /// Takes the asset out of the listing.
    pub fn recieve_nft(&self) -> (cpis: Vec<Cpi>)
        ensures
            cpis@ == self.recieve_nft_plan(),
    {
        let mut cpis: Vec<Cpi> = Vec::new();
        cpis.push(
            asset_release_cpi(self.asset, self.collection, self.taker, self.taker, &self.listing),
        );
        assert(cpis@ =~= self.recieve_nft_plan());
        cpis
    }

    /// Mints the buyer's reward.
    pub fn distribute_rewards(&self) -> (cpis: Vec<Cpi>)
        ensures
            cpis@ == self.distribute_rewards_plan(),
    {
        let mut cpis: Vec<Cpi> = Vec::new();
        cpis.push(
            reward_grant_cpi(
                self.listing.data.price,
                self.reward_mint,
                self.taker_reward_ata,
                &self.marketplace,
            ),
        );
        assert(cpis@ =~= self.distribute_rewards_plan());
        cpis
    }
}

} // verus!
