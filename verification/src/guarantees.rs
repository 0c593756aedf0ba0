//! What each instruction must do, stated field by field in terms of its
//! accounts and arguments: who pays whom how much, under which seeds, with
//! which mint and decimals, which collection an asset moves with, and when
//! an instruction is refused.

use vstd::prelude::*;
use vstd::utf8::encode_utf8;
use crate::cpi::{Cpi, Lamports};
use crate::error::ErrorCode;
use crate::fees::{fee_of, lemma_fee_bounded, lemma_reward_is_hundredth};
use crate::instructions::accept_offer::AcceptOffer;
use crate::instructions::buy::Buy;
use crate::instructions::buy_with_token::BuyWithToken;
use crate::instructions::cancel_offer::CancelOffer;
use crate::instructions::delist::Delist;
use crate::instructions::initialize::{Initialize, InitializeBumps};
use crate::instructions::list::List;
use crate::instructions::make_offer::MakeOffer;
use crate::instructions::withdraw_fee::WithdrawFee;
use crate::seeds::PdaSigner;

verus! {

/// Creating a marketplace accepts exactly the configurations the program can
/// hold, a fee of at most 10000 basis points and a name of at most 32
/// bytes, and records the signer as admin with the given fee, name and bumps;
/// a larger fee is refused first, then a longer name.
pub proof fn law_initialize_accepts_valid_configuration(
    accounts: Initialize,
    name: String,
    fee: u16,
    bumps: InitializeBumps,
)
    ensures
        fee <= 10000 && encode_utf8(name@).len() <= 32 ==> (accounts.init_outcome(name, fee, bumps) matches Ok(m)
            && m.admin == accounts.admin && m.fee == fee && m.name == name && m.bump
            == bumps.marketplace && m.treasury_bump == bumps.treasury && m.rewards_bump
            == bumps.rewards_mint),
        fee > 10000 ==> accounts.init_outcome(name, fee, bumps) == Err::<
            crate::state::Marketplace,
            ErrorCode,
        >(ErrorCode::InvalidFee),
        fee <= 10000 && encode_utf8(name@).len() > 32 ==> accounts.init_outcome(name, fee, bumps)
            == Err::<crate::state::Marketplace, ErrorCode>(ErrorCode::InvalidName),
{
}

/// A purchase with lamports is four invocations: the taker pays the maker
/// the price less the fee and the treasury the fee, both signed by the
/// taker, the two adding up to the price; the listing, under its seeds,
/// hands the asset (with the collection the caller passed) to the taker; the
/// marketplace, under its seeds, mints the taker's reward account 1% of the
/// price.
pub proof fn law_buy_plan(b: Buy)
    requires
        b.fee_fits(),
    ensures
        ({
            let p = b.buy_plan();
            let price = b.listing.data.price;
            &&& p.len() == 4
            &&& p[0] matches Cpi::SystemTransfer { from, to, amount: Lamports::Exact(x), signer }
                && from == b.taker && to == b.maker && signer is None && x == price - fee_of(
                price,
                b.marketplace.data.fee,
            )
            &&& p[1] matches Cpi::SystemTransfer { from, to, amount: Lamports::Exact(y), signer }
                && from == b.taker && to == b.treasury && signer is None && y == fee_of(
                price,
                b.marketplace.data.fee,
            )
            &&& p[2] matches Cpi::AssetTransfer {
                asset,
                collection,
                payer,
                authority,
                new_owner,
                signer,
            } && asset == b.asset && collection == b.collection && payer == b.taker && authority
                == b.listing.key && new_owner == b.taker && signer == Some(
                PdaSigner::Listing { asset: b.asset, bump: b.listing.data.bump },
            )
            &&& p[3] matches Cpi::MintTo { mint, to, authority, amount, signer } && mint
                == b.reward_mint && to == b.taker_reward_ata && authority == b.marketplace.key
                && amount == price / 100 && signer == Some(
                PdaSigner::Marketplace {
                    name: b.marketplace.data.name,
                    bump: b.marketplace.data.bump,
                },
            )
        }),
{
    lemma_reward_is_hundredth(b.listing.data.price);
    assert(b.buy_plan().len() == 4);
}

/// A purchase with a token is refused exactly when the payment mint is not
/// the listing's; otherwise the taker's payment account, signed by the
/// taker, pays the maker's the price less the fee and the token treasury the
/// fee, both transfers naming the payment mint and carrying its decimals;
/// then the asset (with the caller's collection) goes to the taker and the
/// taker's reward account receives 1% of the price.
pub proof fn law_buy_with_token_plan(t: BuyWithToken)
    requires
        t.listing.data.payment_mint@ == t.payment_mint.key@ ==> t.fee_fits(),
    ensures
        t.listing.data.payment_mint@ != t.payment_mint.key@ ==> t.send_tokens_outcome() == Err::<
            Seq<Cpi>,
            ErrorCode,
        >(ErrorCode::MintMismatch),
        t.listing.data.payment_mint@ == t.payment_mint.key@ ==> t.send_tokens_outcome() == Ok::<
            Seq<Cpi>,
            ErrorCode,
        >(t.send_tokens_plan()),
        t.listing.data.payment_mint@ == t.payment_mint.key@ ==> ({
            let p = t.buy_plan();
            let price = t.listing.data.price;
            &&& p.len() == 4
            &&& forall|i: int|
                0 <= i < p.len() ==> (#[trigger] p[i] matches Cpi::TokenTransfer {
                    mint,
                    decimals,
                    authority,
                    signer,
                    ..
                } ==> mint == t.payment_mint.key && decimals == t.payment_mint.decimals
                    && authority == t.taker && signer is None)
            &&& p[0] matches Cpi::TokenTransfer { from, to, amount, .. } && from
                == t.taker_payment_ata && to == t.maker_payment_ata && amount == price - fee_of(
                price,
                t.marketplace.data.fee,
            )
            &&& p[1] matches Cpi::TokenTransfer { from, to, amount, .. } && from
                == t.taker_payment_ata && to == t.treasury_payment_account && amount == fee_of(
                price,
                t.marketplace.data.fee,
            )
            &&& p[2] matches Cpi::AssetTransfer {
                asset,
                collection,
                payer,
                authority,
                new_owner,
                signer,
            } && asset == t.asset && collection == t.collection && payer == t.taker && authority
                == t.listing.key && new_owner == t.taker && signer == Some(
                PdaSigner::Listing { asset: t.asset, bump: t.listing.data.bump },
            )
            &&& p[3] matches Cpi::MintTo { mint, to, authority, amount, signer } && mint
                == t.reward_mint && to == t.taker_reward_ata && authority == t.marketplace.key
                && amount == price / 100 && signer == Some(
                PdaSigner::Marketplace {
                    name: t.marketplace.data.name,
                    bump: t.marketplace.data.bump,
                },
            )
        }),
{
    lemma_reward_is_hundredth(t.listing.data.price);
    assert(t.buy_plan().len() == 4);
}

/// Accepting an offer is refused when the offer is for nothing, then when
/// it is for another asset; otherwise (where the fee does not exceed the
/// amount, on which the program would stop) the vault, under the offer's vault
/// seeds, pays the maker the amount less the fee, the treasury the fee and
/// the buyer all that remains; the listing hands the asset (with the
/// caller's collection) to the buyer; the buyer's reward account receives
/// 1% of the amount.
pub proof fn law_accept_plan(a: AcceptOffer)
    ensures
        a.offer.data.amount == 0 ==> a.accept_outcome() == Err::<Seq<Cpi>, ErrorCode>(
            ErrorCode::InvalidOfferAmount,
        ),
        a.offer.data.amount > 0 && a.asset@ != a.offer.data.asset@ ==> a.accept_outcome() == Err::<
            Seq<Cpi>,
            ErrorCode,
        >(ErrorCode::OfferAssetMismatch),
        a.offer.data.amount > 0 && a.asset@ == a.offer.data.asset@ ==> a.accept_outcome() == Ok::<
            Seq<Cpi>,
            ErrorCode,
        >(a.accept_plan()),
        fee_of(a.offer.data.amount, a.marketplace.data.fee) <= a.offer.data.amount ==> ({
            let p = a.accept_plan();
            let price = a.offer.data.amount;
            let vault_seeds = Some(
                PdaSigner::OfferVault {
                    asset: a.asset,
                    buyer: a.offer.data.buyer,
                    bump: a.offer.data.vault_bump,
                },
            );
            &&& p.len() == 5
            &&& p[0] matches Cpi::SystemTransfer { from, to, amount: Lamports::Exact(x), signer }
                && from == a.vault && to == a.maker && signer == vault_seeds && x == price - fee_of(
                price,
                a.marketplace.data.fee,
            )
            &&& p[1] matches Cpi::SystemTransfer { from, to, amount: Lamports::Exact(y), signer }
                && from == a.vault && to == a.treasury && signer == vault_seeds && y == fee_of(
                price,
                a.marketplace.data.fee,
            )
            &&& p[2] matches Cpi::SystemTransfer { from, to, amount: Lamports::All, signer } && from
                == a.vault && to == a.buyer && signer == vault_seeds
            &&& p[3] matches Cpi::AssetTransfer {
                asset,
                collection,
                payer,
                authority,
                new_owner,
                signer,
            } && asset == a.asset && collection == a.collection && payer == a.maker && authority
                == a.listing.key && new_owner == a.buyer && signer == Some(
                PdaSigner::Listing { asset: a.asset, bump: a.listing.data.bump },
            )
            &&& p[4] matches Cpi::MintTo { mint, to, authority, amount, signer } && mint
                == a.reward_mint && to == a.buyer_reward_ata && authority == a.marketplace.key
                && amount == price / 100 && signer == Some(
                PdaSigner::Marketplace {
                    name: a.marketplace.data.name,
                    bump: a.marketplace.data.bump,
                },
            )
        }),
{
    lemma_reward_is_hundredth(a.offer.data.amount);
    assert(a.accept_plan().len() == 5);
}

/// Cancelling an offer is refused when the signer is not its buyer, then
/// when the asset is not its asset; otherwise the vault, under the offer's
/// vault seeds, returns all it holds to the buyer.
pub proof fn law_cancel_plan(c: CancelOffer)
    ensures
        c.buyer@ != c.offer.data.buyer@ ==> c.cancel_outcome() == Err::<Seq<Cpi>, ErrorCode>(
            ErrorCode::UnauthorizedOfferCancellation,
        ),
        c.buyer@ == c.offer.data.buyer@ && c.asset@ != c.offer.data.asset@ ==> c.cancel_outcome()
            == Err::<Seq<Cpi>, ErrorCode>(ErrorCode::OfferAssetMismatch),
        c.buyer@ == c.offer.data.buyer@ && c.asset@ == c.offer.data.asset@ ==> (c.cancel_outcome() matches Ok(p)
            && p.len() == 1 && (p[0] matches Cpi::SystemTransfer {
            from,
            to,
            amount: Lamports::All,
            signer,
        } && from == c.vault && to == c.buyer && signer == Some(
            PdaSigner::OfferVault {
                asset: c.asset,
                buyer: c.offer.data.buyer,
                bump: c.offer.data.vault_bump,
            },
        ))),
{
}

/// Delisting is refused unless the signer is the listing's maker; then the
/// listing, under its seeds, hands the asset back to the maker, with the
/// collection account the caller passed.
pub proof fn law_delist_plan(d: Delist)
    ensures
        d.maker@ != d.listing.data.maker@ ==> d.delist_outcome() == Err::<Seq<Cpi>, ErrorCode>(
            ErrorCode::Unauthorized,
        ),
        d.maker@ == d.listing.data.maker@ ==> (d.delist_outcome() matches Ok(p) && p.len() == 1
            && (p[0] matches Cpi::AssetTransfer {
            asset,
            collection,
            payer,
            authority,
            new_owner,
            signer,
        } && asset == d.asset && collection == d.collection && payer == d.maker && authority
            == d.listing.key && new_owner == d.maker && signer == Some(
            PdaSigner::Listing { asset: d.asset, bump: d.listing.data.bump },
        ))),
{
}

/// Listing hands the asset, with the caller's collection, from its maker
/// (who signs) to the listing account.
pub proof fn law_list_plan(li: List)
    ensures
        li.create_listing_plan().len() == 1,
        li.create_listing_plan()[0] matches Cpi::AssetTransfer {
            asset,
            collection,
            payer,
            authority,
            new_owner,
            signer,
        } && asset == li.asset && collection == li.collection && payer == li.maker && authority
            == li.maker && new_owner == li.listing_key && signer is None,
{
}

/// Making an offer is refused for nothing; otherwise the buyer, who signs,
/// moves exactly the offered amount into the vault.
pub proof fn law_make_offer_plan(m: MakeOffer, amount: u64)
    ensures
        amount == 0 ==> m.create_offer_outcome(amount) == Err::<Seq<Cpi>, ErrorCode>(
            ErrorCode::InvalidOfferAmount,
        ),
        amount > 0 ==> (m.create_offer_outcome(amount) matches Ok(p) && p.len() == 1
            && (p[0] matches Cpi::SystemTransfer { from, to, amount: Lamports::Exact(x), signer }
            && from == m.buyer && to == m.vault && x == amount && signer is None)),
{
}

/// A withdrawal is refused unless the signer is the marketplace's admin.
/// A lamport withdrawal is one transfer of exactly the requested amount from
/// the treasury, under the treasury's seeds, to the destination. A token
/// withdrawal is one transfer of exactly the requested amount from the
/// token treasury to the destination token account, naming the payment
/// mint and carrying its decimals, with the marketplace as authority under
/// its seeds.
pub proof fn law_withdraw_plans(w: WithdrawFee, amount: u64)
    ensures
        w.admin@ != w.marketplace.data.admin@ ==> w.withdraw_sol_outcome(amount) == Err::<
            Seq<Cpi>,
            ErrorCode,
        >(ErrorCode::UnauthorizedAdmin),
        w.admin@ != w.marketplace.data.admin@ ==> w.withdraw_token_outcome(amount) == Err::<
            Seq<Cpi>,
            ErrorCode,
        >(ErrorCode::UnauthorizedAdmin),
        w.admin@ == w.marketplace.data.admin@ ==> (w.withdraw_sol_outcome(amount) matches Ok(p)
            && p.len() == 1 && (p[0] matches Cpi::SystemTransfer {
            from,
            to,
            amount: Lamports::Exact(x),
            signer,
        } && from == w.treasury && to == w.to && x == amount && signer == Some(
            PdaSigner::Treasury {
                marketplace: w.marketplace.key,
                bump: w.marketplace.data.treasury_bump,
            },
        ))),
        w.admin@ == w.marketplace.data.admin@ ==> (w.withdraw_token_outcome(amount) matches Ok(p)
            && p.len() == 1 && (p[0] matches Cpi::TokenTransfer {
            from,
            mint,
            to,
            authority,
            amount: x,
            decimals,
            signer,
        } && from == w.treasury_payment_account && mint == w.payment_mint.key && to
            == w.to_payment_ata && authority == w.marketplace.key && x == amount && decimals
            == w.payment_mint.decimals && signer == Some(
            PdaSigner::Marketplace { name: w.marketplace.data.name, bump: w.marketplace.data.bump },
        ))),
{
}

} // verus!

verus! {

/// An offer records its buyer, its asset, the offered amount and the two
/// bumps found for it, each where it belongs.
pub proof fn law_offer_record(m: MakeOffer, amount: u64, bumps: crate::instructions::make_offer::MakeOfferBumps)
    ensures
        m.recorded_offer(amount, bumps).buyer == m.buyer,
        m.recorded_offer(amount, bumps).asset == m.asset,
        m.recorded_offer(amount, bumps).amount == amount,
        m.recorded_offer(amount, bumps).bump == bumps.offer,
        m.recorded_offer(amount, bumps).vault_bump == bumps.vault,
{
}

/// A listing records its maker, its asset, the asking price, the bump found
/// for it and the payment mint the caller passed.
pub proof fn law_listing_record(li: List, price: u64, bumps: crate::instructions::list::ListBumps)
    ensures
        li.recorded_listing(price, bumps).maker == li.maker,
        li.recorded_listing(price, bumps).asset == li.asset,
        li.recorded_listing(price, bumps).price == price,
        li.recorded_listing(price, bumps).bump == bumps.listing,
        li.recorded_listing(price, bumps).payment_mint == li.payment_mint,
{
}

/// The fee of any sale is below 2^64 and differs from the price times the
/// fee over 10000, rounded down, by a multiple of 2^64: the 64-bit narrowing
/// of that share. Up to 10000 basis points it is the share itself.
pub proof fn law_fee_is_narrowed_share(price: u64, fee_bps: u16)
    ensures
        0 <= fee_of(price, fee_bps) < 0x1_0000_0000_0000_0000,
        (price * fee_bps / 10000 - fee_of(price, fee_bps)) % 0x1_0000_0000_0000_0000 == 0,
        fee_bps <= 10000 ==> fee_of(price, fee_bps) == price * fee_bps / 10000,
{
    let share = price * fee_bps / 10000;
    let m = 0x1_0000_0000_0000_0000int;
    assert(share - share % m == m * (share / m)) by (nonlinear_arith)
        requires
            m > 0,
    ;
    assert((m * (share / m)) % m == 0) by (nonlinear_arith)
        requires
            m > 0,
    ;
    if fee_bps <= 10000 {
        lemma_fee_bounded(price, fee_bps);
    }
}

/// The seeds that sign for the program's accounts begin with a fixed tag:
/// the ASCII bytes of "marketplace", "treasury", "listing" and
/// "offer_vault".
pub proof fn law_seed_tags()
    ensures
        crate::seeds::marketplace_tag() == seq![109u8, 97, 114, 107, 101, 116, 112, 108, 97, 99, 101],
        crate::seeds::treasury_tag() == seq![116u8, 114, 101, 97, 115, 117, 114, 121],
        crate::seeds::listing_tag() == seq![108u8, 105, 115, 116, 105, 110, 103],
        crate::seeds::offer_vault_tag() == seq![111u8, 102, 102, 101, 114, 95, 118, 97, 117, 108, 116],
{
    reveal_strlit("marketplace");
    reveal_strlit("treasury");
    reveal_strlit("listing");
    reveal_strlit("offer_vault");
    vstd::string::is_ascii_spec_bytes("marketplace");
    vstd::string::is_ascii_spec_bytes("treasury");
    vstd::string::is_ascii_spec_bytes("listing");
    vstd::string::is_ascii_spec_bytes("offer_vault");
    assert(vstd::string::is_ascii("marketplace"));
    assert(vstd::string::is_ascii("treasury"));
    assert(vstd::string::is_ascii("listing"));
    assert(vstd::string::is_ascii("offer_vault"));
    assert(crate::seeds::marketplace_tag() =~= seq![109u8, 97, 114, 107, 101, 116, 112, 108, 97, 99, 101]);
    assert(crate::seeds::treasury_tag() =~= seq![116u8, 114, 101, 97, 115, 117, 114, 121]);
    assert(crate::seeds::listing_tag() =~= seq![108u8, 105, 115, 116, 105, 110, 103]);
    assert(crate::seeds::offer_vault_tag() =~= seq![111u8, 102, 102, 101, 114, 95, 118, 97, 117, 108, 116]);
}

/// Signer seeds name their account: the listing's are its tag, the asset
/// and the bump; the treasury's its tag, the marketplace and the bump; a
/// vault's its tag, the asset, the buyer and the bump; the marketplace's
/// its tag, the UTF-8 bytes of its name and the bump. Seeds of two accounts
/// of the same kind are equal only for the same addresses and bump.
pub proof fn law_seeds_name_account(s: PdaSigner, t: PdaSigner)
    ensures
        s matches PdaSigner::Listing { asset, bump } ==> (s.spec_seeds().len() == 3
            && s.spec_seeds()[1] == asset@ && s.spec_seeds()[2] == seq![bump]),
        s matches PdaSigner::Treasury { marketplace, bump } ==> (s.spec_seeds().len() == 3
            && s.spec_seeds()[1] == marketplace@ && s.spec_seeds()[2] == seq![bump]),
        s matches PdaSigner::OfferVault { asset, buyer, bump } ==> (s.spec_seeds().len() == 4
            && s.spec_seeds()[1] == asset@ && s.spec_seeds()[2] == buyer@ && s.spec_seeds()[3]
            == seq![bump]),
        s matches PdaSigner::Marketplace { name, bump } ==> (s.spec_seeds().len() == 3
            && s.spec_seeds()[1] == encode_utf8(name@) && s.spec_seeds()[2] == seq![bump]),
        s.spec_seeds() == t.spec_seeds() ==> (s matches PdaSigner::Listing { asset: a1, bump: b1 }
            ==> (t matches PdaSigner::Listing { asset: a2, bump: b2 } ==> a1@ == a2@ && b1 == b2)),
        s.spec_seeds() == t.spec_seeds() ==> (s matches PdaSigner::OfferVault {
            asset: a1,
            buyer: u1,
            bump: b1,
        } ==> (t matches PdaSigner::OfferVault { asset: a2, buyer: u2, bump: b2 } ==> a1@ == a2@
            && u1@ == u2@ && b1 == b2)),
{
    if s.spec_seeds() == t.spec_seeds() {
        match (s, t) {
            (PdaSigner::Listing { bump: b1, .. }, PdaSigner::Listing { bump: b2, .. }) => {
                assert(s.spec_seeds()[2][0] == b1);
                assert(t.spec_seeds()[2][0] == b2);
            },
            (PdaSigner::OfferVault { bump: b1, .. }, PdaSigner::OfferVault { bump: b2, .. }) => {
                assert(s.spec_seeds()[3][0] == b1);
                assert(t.spec_seeds()[3][0] == b2);
            },
            _ => {},
        }
    }
}

} // verus!
