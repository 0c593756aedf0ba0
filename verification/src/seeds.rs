use vstd::prelude::*;
use vstd::slice::slice_to_vec;
use vstd::string::*;
use vstd::utf8::encode_utf8;
use crate::address::Address;

verus! {

/// The program-derived account that signs an invocation, with the bump
/// that completes its seeds.
#[derive(Clone, Debug, PartialEq, Eq)]
pub enum PdaSigner {
    /// The marketplace account, derived from its name.
    Marketplace { name: String, bump: u8 },
    /// The marketplace's lamport treasury.
    Treasury { marketplace: Address, bump: u8 },
    /// The listing that holds an asset for sale.
    Listing { asset: Address, bump: u8 },
    /// The vault that holds the lamports of an offer.
    OfferVault { asset: Address, buyer: Address, bump: u8 },
}

pub open spec fn marketplace_tag() -> Seq<u8> {
    "marketplace".spec_bytes()
}

pub open spec fn treasury_tag() -> Seq<u8> {
    "treasury".spec_bytes()
}

pub open spec fn listing_tag() -> Seq<u8> {
    "listing".spec_bytes()
}

pub open spec fn offer_vault_tag() -> Seq<u8> {
    "offer_vault".spec_bytes()
}

impl PdaSigner {
    /// The signer seeds: a tag, the identifying addresses or name, and the bump.
    pub open spec fn spec_seeds(&self) -> Seq<Seq<u8>> {
        match self {
            PdaSigner::Marketplace { name, bump } => seq![
                marketplace_tag(),
                encode_utf8(name@),
                seq![*bump],
            ],
            PdaSigner::Treasury { marketplace, bump } => seq![
                treasury_tag(),
                marketplace@,
                seq![*bump],
            ],
            PdaSigner::Listing { asset, bump } => seq![listing_tag(), asset@, seq![*bump]],
            PdaSigner::OfferVault { asset, buyer, bump } => seq![
                offer_vault_tag(),
                asset@,
                buyer@,
                seq![*bump],
            ],
        }
    }

    /// Builds the signer seeds.
    pub fn seeds(&self) -> (seeds: Vec<Vec<u8>>)
        ensures
            seeds@.map_values(|v: Vec<u8>| v@) =~= self.spec_seeds(),
    {
        let mut seeds: Vec<Vec<u8>> = Vec::new();
        match self {
            PdaSigner::Marketplace { name, bump } => {
                seeds.push(slice_to_vec("marketplace".as_bytes()));
                seeds.push(slice_to_vec(name.as_str().as_bytes()));
                seeds.push(bump_seed(*bump));
            },
            PdaSigner::Treasury { marketplace, bump } => {
                seeds.push(slice_to_vec("treasury".as_bytes()));
                seeds.push(marketplace.to_vec());
                seeds.push(bump_seed(*bump));
            },
            PdaSigner::Listing { asset, bump } => {
                seeds.push(slice_to_vec("listing".as_bytes()));
                seeds.push(asset.to_vec());
                seeds.push(bump_seed(*bump));
            },
            PdaSigner::OfferVault { asset, buyer, bump } => {
                seeds.push(slice_to_vec("offer_vault".as_bytes()));
                seeds.push(asset.to_vec());
                seeds.push(buyer.to_vec());
                seeds.push(bump_seed(*bump));
            },
        }
        seeds
    }
}

/// Only an offer vault's seeds equal an offer vault's seeds, and then for
/// the same asset and buyer: the other accounts have three seeds, a vault four.
pub proof fn lemma_vault_seeds_identify(s: PdaSigner, v: PdaSigner)
    requires
        v is OfferVault,
        s.spec_seeds() == v.spec_seeds(),
    ensures
        s matches PdaSigner::OfferVault { asset, buyer, .. } && asset@ == v->OfferVault_asset@
            && buyer@ == v->OfferVault_buyer@,
{
    assert(v.spec_seeds().len() == 4);
    match s {
        PdaSigner::OfferVault { asset, buyer, .. } => {
            assert(s.spec_seeds()[1] == asset@);
            assert(s.spec_seeds()[2] == buyer@);
        },
        _ => {
            assert(s.spec_seeds().len() == 3);
        },
    }
}

/// The one-byte seed that holds a bump.
fn bump_seed(bump: u8) -> (seed: Vec<u8>)
    ensures
        seed@ == seq![bump],
{
    let mut seed: Vec<u8> = Vec::new();
    seed.push(bump);
    seed
}

} // verus!
