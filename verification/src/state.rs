use vstd::prelude::*;
use crate::address::Address;

verus! {

/// The marketplace's configuration account.
#[derive(Clone, Debug, PartialEq, Eq)]
pub struct Marketplace {
    pub admin: Address,
    /// The fee on each sale, in basis points.
    pub fee: u16,
    pub bump: u8,
    pub treasury_bump: u8,
    pub rewards_bump: u8,
    pub name: String,
}

/// An asset offered for sale by its maker.
#[derive(Clone, Copy, Debug, PartialEq, Eq)]
pub struct Listing {
    pub maker: Address,
    pub asset: Address,
    /// The asking price, in lamports or in units of `payment_mint`.
    pub price: u64,
    pub bump: u8,
    /// The token a buyer pays with when buying with a token.
    pub payment_mint: Address,
}

/// A bid on an asset; the amount waits in the offer's vault.
#[derive(Clone, Copy, Debug, PartialEq, Eq)]
pub struct Offer {
    pub buyer: Address,
    pub asset: Address,
    pub amount: u64,
    pub bump: u8,
    pub vault_bump: u8,
}

/// A program account: its address and its decoded contents.
#[derive(Clone, Copy, Debug, PartialEq, Eq)]
pub struct Account<T> {
    pub key: Address,
    pub data: T,
}

/// A token mint, as far as transfers read it.
#[derive(Clone, Copy, Debug, PartialEq, Eq)]
pub struct MintAccount {
    pub key: Address,
    pub decimals: u8,
}

} // verus!
