use vstd::prelude::*;
use crate::address::Address;
use crate::cpi::{Cpi, outcome_view};
use crate::error::ErrorCode;
use crate::fees::{fee_of, maker_amount_of, split_price};
use crate::instructions::sale::{asset_release, asset_release_cpi, reward_grant, reward_grant_cpi};
use crate::state::{Account, Listing, Marketplace, MintAccount};

verus! {

/// The accounts of buying a listed asset with the token that the listing asks for.
#[derive(Clone, Debug)]
pub struct BuyWithToken {
    pub taker: Address,
    pub maker: Address,
    pub asset: Address,
    pub collection: Option<Address>,
    pub marketplace: Account<Marketplace>,
    pub listing: Account<Listing>,
    pub payment_mint: MintAccount,
    pub taker_payment_ata: Address,
    pub maker_payment_ata: Address,
    pub treasury_payment_account: Address,
    pub reward_mint: Address,
    pub taker_reward_ata: Address,
}

impl BuyWithToken {
    /// What account validation establishes before the purchase runs: the
    /// listing is the maker's listing of this asset for this payment mint,
    /// and the token treasury, a program-derived account, is none of the
    /// buyer's and seller's token accounts.
    pub open spec fn accounts_valid(&self) -> bool {
        &&& self.listing.data.maker@ == self.maker@
        &&& self.listing.data.asset@ == self.asset@
        &&& self.mint_matches()
        &&& self.treasury_payment_account@ != self.taker_payment_ata@
        &&& self.treasury_payment_account@ != self.maker_payment_ata@
        &&& self.treasury_payment_account@ != self.taker_reward_ata@
    }

    /// The taker's token account pays the maker's the price less the fee,
    /// and the marketplace's token treasury the fee.
    pub open spec fn send_tokens_plan(&self) -> Seq<Cpi> {
        let price = self.listing.data.price;
        let fee_bps = self.marketplace.data.fee;
        seq![
            Cpi::TokenTransfer {
                from: self.taker_payment_ata,
                mint: self.payment_mint.key,
                to: self.maker_payment_ata,
                authority: self.taker,
                amount: maker_amount_of(price, fee_bps) as u64,
                decimals: self.payment_mint.decimals,
                signer: None,
            },
            Cpi::TokenTransfer {
                from: self.taker_payment_ata,
                mint: self.payment_mint.key,
                to: self.treasury_payment_account,
                authority: self.taker,
                amount: fee_of(price, fee_bps) as u64,
                decimals: self.payment_mint.decimals,
                signer: None,
            },
        ]
    }

    /// Whether the buyer pays with the token that the listing asks for.
    pub open spec fn mint_matches(&self) -> bool {
        self.listing.data.payment_mint@ == self.payment_mint.key@
    }

    pub open spec fn send_tokens_outcome(&self) -> Result<Seq<Cpi>, ErrorCode> {
        if self.mint_matches() {
            Ok(self.send_tokens_plan())
        } else {
            Err(ErrorCode::MintMismatch)
        }
    }

    /// The listing hands the asset to the taker.
    pub open spec fn recieve_nft_plan(&self) -> Seq<Cpi> {
        seq![asset_release(self.asset, self.collection, self.taker, self.taker, self.listing)]
    }

    /// The marketplace mints the taker 1% of the price in reward tokens.
    pub open spec fn distribute_rewards_plan(&self) -> Seq<Cpi> {
        seq![
            reward_grant(
                self.listing.data.price,
                self.reward_mint,
                self.taker_reward_ata,
                self.marketplace,
            ),
        ]
    }

    /// The whole purchase, when the mint matches.
    pub open spec fn buy_plan(&self) -> Seq<Cpi> {
        self.send_tokens_plan() + self.recieve_nft_plan() + self.distribute_rewards_plan()
    }

    /// The program stops when the fee exceeds the price, which a fee of at
    /// most 10000 basis points rules out.
    pub open spec fn fee_fits(&self) -> bool {
        fee_of(self.listing.data.price, self.marketplace.data.fee) <= self.listing.data.price
    }

    /// Pays for the asset in tokens; refuses a payment mint other than the listing's.
    pub fn send_tokens(&self) -> (r: Result<Vec<Cpi>, ErrorCode>)
        requires
            self.mint_matches() ==> self.fee_fits(),
        ensures
            outcome_view(r) == self.send_tokens_outcome(),
    {
        if self.listing.data.payment_mint != self.payment_mint.key {
            return Err(ErrorCode::MintMismatch);
        }
        let (maker_amount, fee) = split_price(self.listing.data.price, self.marketplace.data.fee);
        let decimals = self.payment_mint.decimals;
        let mut cpis: Vec<Cpi> = Vec::new();
        cpis.push(
            Cpi::TokenTransfer {
                from: self.taker_payment_ata,
                mint: self.payment_mint.key,
                to: self.maker_payment_ata,
                authority: self.taker,
                amount: maker_amount,
                decimals,
                signer: None,
            },
        );
        cpis.push(
            Cpi::TokenTransfer {
                from: self.taker_payment_ata,
                mint: self.payment_mint.key,
                to: self.treasury_payment_account,
                authority: self.taker,
                amount: fee,
                decimals,
                signer: None,
            },
        );
        assert(cpis@ =~= self.send_tokens_plan());
        Ok(cpis)
    }

    /// Takes the asset out of the listing.
    pub fn recieve_nft(&self) -> (cpis: Vec<Cpi>)
        ensures
            cpis@ == self.recieve_nft_plan(),
    {
        let mut cpis: Vec<Cpi> = Vec::new();
        cpis.push(
            asset_release_cpi(self.asset, self.collection, self.taker, self.taker, &self.listing),
        );
        assert(cpis@ =~= self.recieve_nft_plan());
        cpis
    }

    /// Mints the buyer's reward.
    pub fn distribute_rewards(&self) -> (cpis: Vec<Cpi>)
        ensures
            cpis@ == self.distribute_rewards_plan(),
    {
        let mut cpis: Vec<Cpi> = Vec::new();
        cpis.push(
            reward_grant_cpi(
                self.listing.data.price,
                self.reward_mint,
                self.taker_reward_ata,
                &self.marketplace,
            ),
        );
        assert(cpis@ =~= self.distribute_rewards_plan());
        cpis
    }
}

} // verus!
