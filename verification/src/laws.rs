use vstd::prelude::*;
use crate::cpi::Cpi;
use crate::error::ErrorCode;
use crate::fees::{
    fee_of, maker_amount_of, reward_of, lemma_fee_bounded, lemma_reward_is_hundredth,
    BPS_DENOMINATOR,
};
use crate::instructions::accept_offer::AcceptOffer;
use crate::instructions::buy::Buy;
use crate::instructions::buy_with_token::BuyWithToken;
use crate::instructions::cancel_offer::CancelOffer;
use crate::instructions::delist::Delist;
use crate::instructions::initialize::marketplace_wf;
use crate::instructions::list::{List, ListBumps};
use crate::instructions::make_offer::{MakeOffer, MakeOfferBumps};
use crate::ledger::{Ledger, apply_cpi, apply_plan, move_units, lemma_apply_plan_append};
use crate::seeds::PdaSigner;
use crate::state::{Account, Marketplace};

verus! {

/// A sale splits its price exactly between the seller and the marketplace,
/// and with a fee of at most 10000 basis points the marketplace's part is
/// the price times the fee over 10000, rounded down.
pub proof fn law_fee_split(price: u64, fee_bps: u16)
    requires
        fee_bps <= BPS_DENOMINATOR,
    ensures
        maker_amount_of(price, fee_bps) + fee_of(price, fee_bps) == price,
        fee_of(price, fee_bps) == price * fee_bps / 10000,
        0 <= fee_of(price, fee_bps) <= price,
        0 <= maker_amount_of(price, fee_bps) <= price,
{
    lemma_fee_bounded(price, fee_bps);
}

/// A marketplace that `initialize` accepted never makes a sale stop on
/// its fee: at every price the fee is at most the price.
pub proof fn law_configured_fee_fits(m: Marketplace, price: u64)
    requires
        marketplace_wf(m),
    ensures
        fee_of(price, m.fee) <= price,
{
    lemma_fee_bounded(price, m.fee);
}

/// The lamports after a purchase at the listing's price: the buyer pays
/// the price, the seller receives it less the fee, the treasury the fee. A
/// seller who buys their own listing pays only the fee.
pub open spec fn bought_lamports(b: Buy, lamports: Map<Seq<u8>, int>) -> Map<Seq<u8>, int> {
    let price = b.listing.data.price;
    let fee = fee_of(price, b.marketplace.data.fee);
    let maker_part = maker_amount_of(price, b.marketplace.data.fee);
    if b.taker@ == b.maker@ {
        lamports.insert(b.taker@, lamports[b.taker@] - fee).insert(
            b.treasury@,
            lamports[b.treasury@] + fee,
        )
    } else {
        lamports.insert(b.taker@, lamports[b.taker@] - price).insert(
            b.maker@,
            lamports[b.maker@] + maker_part,
        ).insert(b.treasury@, lamports[b.treasury@] + fee)
    }
}

/// A purchase with lamports, when the buyer can pay: the buyer pays exactly
/// the price, the seller receives the price less the fee, the treasury the
/// fee; the buyer owns the asset and receives 1% of the price in reward
/// tokens; nothing else changes. The buyer may be the seller.
pub proof fn law_buy_settles(b: Buy, l: Ledger)
    requires
        b.accounts_valid(),
        b.fee_fits(),
        l.is_wallet(b.taker@),
        l.lamports[b.taker@] >= b.listing.data.price,
    ensures
        apply_plan(l, b.buy_plan()) == Some(
            Ledger {
                lamports: bought_lamports(b, l.lamports),
                tokens: l.tokens.insert(
                    b.taker_reward_ata@,
                    l.tokens[b.taker_reward_ata@] + reward_of(b.listing.data.price),
                ),
                owners: l.owners.insert(b.asset@, b.taker@),
                pda_seeds: l.pda_seeds,
            },
        ),
{
    let plan = b.buy_plan();
    reveal_with_fuel(apply_plan, 5);
    let price = b.listing.data.price;
    let fee = fee_of(price, b.marketplace.data.fee);
    let maker_part = maker_amount_of(price, b.marketplace.data.fee);
    assert(plan.len() == 4);
    let l1 = Ledger { lamports: move_units(l.lamports, b.taker@, b.maker@, maker_part), ..l };
    assert(apply_cpi(l, plan[0]) == Some(l1));
    let l2 = Ledger { lamports: move_units(l1.lamports, b.taker@, b.treasury@, fee), ..l1 };
    assert(apply_cpi(l1, plan[1]) == Some(l2));
    assert(plan.drop_first()[0] == plan[1]);
    assert(plan.drop_first().drop_first()[0] == plan[2]);
    assert(plan.drop_first().drop_first().drop_first()[0] == plan[3]);
    assert(plan.drop_first().drop_first().drop_first().drop_first().len() == 0);
    lemma_reward_is_hundredth(price);
    assert(l2.lamports =~= bought_lamports(b, l.lamports));
    let expected = Ledger {
        lamports: bought_lamports(b, l.lamports),
        tokens: l.tokens.insert(b.taker_reward_ata@, l.tokens[b.taker_reward_ata@] + reward_of(price)),
        owners: l.owners.insert(b.asset@, b.taker@),
        pda_seeds: l.pda_seeds,
    };
    assert(apply_plan(l, plan) =~~= Some(expected));
}

/// Listing an asset at price `p` on a marketplace that `initialize`
/// accepted, then buying it: the buyer pays exactly `p`, the seller
/// receives `p - f` and the treasury `f`, with `f` the price times the fee
/// over 10000 rounded down; the buyer owns the asset and receives `p / 100`
/// reward tokens.
pub proof fn law_listed_asset_sells(li: List, price: u64, bumps: ListBumps, b: Buy, l: Ledger)
    requires
        b.maker == li.maker,
        b.asset == li.asset,
        b.listing == (Account { key: li.listing_key, data: li.recorded_listing(price, bumps) }),
        marketplace_wf(b.marketplace.data),
        b.accounts_valid(),
        l.is_wallet(b.taker@),
        l.lamports[b.taker@] >= price,
    ensures
        fee_of(price, b.marketplace.data.fee) == price * b.marketplace.data.fee / 10000,
        reward_of(price) == price / 100,
        apply_plan(l, li.create_listing_plan() + b.buy_plan()) == Some(
            Ledger {
                lamports: bought_lamports(b, l.lamports),
                tokens: l.tokens.insert(
                    b.taker_reward_ata@,
                    l.tokens[b.taker_reward_ata@] + reward_of(price),
                ),
                owners: l.owners.insert(b.asset@, b.taker@),
                pda_seeds: l.pda_seeds,
            },
        ),
{
    lemma_fee_bounded(price, b.marketplace.data.fee);
    lemma_reward_is_hundredth(price);
    reveal_with_fuel(apply_plan, 2);
    let p = li.create_listing_plan();
    lemma_apply_plan_append(l, p, b.buy_plan());
    assert(p.drop_first().len() == 0);
    let mid = Ledger { owners: l.owners.insert(li.asset@, li.listing_key@), ..l };
    assert(apply_plan(l, p) == Some(mid));
    law_buy_settles(b, mid);
    assert(mid.owners.insert(b.asset@, b.taker@) =~= l.owners.insert(b.asset@, b.taker@));
}

/// How a purchase with tokens changes the balance of token account `k`:
/// the buyer's payment account pays the price, the seller's receives it less
/// the fee, the token treasury the fee, and the buyer's reward account the
/// reward. Accounts that coincide (a seller buying their own listing, a
/// payment in the reward token) add up their changes.
pub open spec fn token_change(t: BuyWithToken, k: Seq<u8>) -> int {
    let price = t.listing.data.price;
    let fee = fee_of(price, t.marketplace.data.fee);
    let maker_part = maker_amount_of(price, t.marketplace.data.fee);
    (if k == t.maker_payment_ata@ {
        maker_part
    } else {
        0
    }) + (if k == t.treasury_payment_account@ {
        fee
    } else {
        0
    }) + (if k == t.taker_reward_ata@ {
        reward_of(price)
    } else {
        0
    }) - (if k == t.taker_payment_ata@ {
        price as int
    } else {
        0
    })
}

/// A purchase with tokens, when the buyer's payment account can pay: every
/// token account changes by [`token_change`]; the buyer owns the asset; no
/// lamports move.
pub proof fn law_buy_with_token_settles(t: BuyWithToken, l: Ledger)
    requires
        t.accounts_valid(),
        t.fee_fits(),
        l.tokens[t.taker_payment_ata@] >= t.listing.data.price,
    ensures
        apply_plan(l, t.buy_plan()) is Some,
        ({
            let end = apply_plan(l, t.buy_plan()).unwrap();
            &&& end.lamports == l.lamports
            &&& end.owners == l.owners.insert(t.asset@, t.taker@)
            &&& end.pda_seeds == l.pda_seeds
            &&& forall|k: Seq<u8>| #[trigger] end.tokens[k] == l.tokens[k] + token_change(t, k)
        }),
{
    let plan = t.buy_plan();
    reveal_with_fuel(apply_plan, 5);
    let price = t.listing.data.price;
    let fee = fee_of(price, t.marketplace.data.fee);
    let maker_part = maker_amount_of(price, t.marketplace.data.fee);
    assert(plan.len() == 4);
    let l1 = Ledger {
        tokens: move_units(l.tokens, t.taker_payment_ata@, t.maker_payment_ata@, maker_part),
        ..l
    };
    assert(apply_cpi(l, plan[0]) == Some(l1));
    let l2 = Ledger {
        tokens: move_units(l1.tokens, t.taker_payment_ata@, t.treasury_payment_account@, fee),
        ..l1
    };
    assert(apply_cpi(l1, plan[1]) == Some(l2));
    lemma_reward_is_hundredth(price);
    let l3 = Ledger { owners: l2.owners.insert(t.asset@, t.taker@), ..l2 };
    assert(apply_cpi(l2, plan[2]) == Some(l3));
    let l4 = Ledger {
        tokens: l3.tokens.insert(t.taker_reward_ata@, l3.tokens[t.taker_reward_ata@] + reward_of(price)),
        ..l3
    };
    assert(apply_cpi(l3, plan[3]) == Some(l4));
    assert(plan.drop_first()[0] == plan[1]);
    assert(plan.drop_first().drop_first()[0] == plan[2]);
    assert(plan.drop_first().drop_first().drop_first()[0] == plan[3]);
    assert(plan.drop_first().drop_first().drop_first().drop_first().len() == 0);
    assert(apply_plan(l, plan) == Some(l4));
    assert forall|k: Seq<u8>| #[trigger] l4.tokens[k] == l.tokens[k] + token_change(t, k) by {}
}

/// The lamports after an accepted offer is paid out of a vault holding at
/// least the offered amount: the vault ends empty, the seller gains the
/// amount less the fee, the treasury the fee, and the buyer whatever else the
/// vault held. A seller who accepts their own offer gains both parts.
pub open spec fn accepted_lamports(a: AcceptOffer, lamports: Map<Seq<u8>, int>) -> Map<Seq<u8>, int> {
    let price = a.offer.data.amount;
    let fee = fee_of(price, a.marketplace.data.fee);
    let maker_part = maker_amount_of(price, a.marketplace.data.fee);
    let rest = lamports[a.vault@] - price;
    let paid = lamports.insert(a.vault@, 0).insert(a.treasury@, lamports[a.treasury@] + fee);
    if a.maker@ == a.buyer@ {
        paid.insert(a.maker@, lamports[a.maker@] + maker_part + rest)
    } else {
        paid.insert(a.maker@, lamports[a.maker@] + maker_part).insert(
            a.buyer@,
            lamports[a.buyer@] + rest,
        )
    }
}

/// Accepting an offer whose vault holds at least the offered amount empties
/// the vault: the seller receives the amount less the fee, the treasury the
/// fee, the buyer whatever else the vault held; the buyer owns the asset
/// and receives 1% of the amount in reward tokens. The seller may be the
/// buyer.
pub proof fn law_accept_settles(a: AcceptOffer, l: Ledger)
    requires
        a.accounts_valid(),
        a.offer.data.amount > 0,
        fee_of(a.offer.data.amount, a.marketplace.data.fee) <= a.offer.data.amount,
        l.is_program_account(a.vault@, a.vault_signer()),
        l.lamports[a.vault@] >= a.offer.data.amount,
    ensures
        a.accept_outcome() == Ok::<Seq<Cpi>, ErrorCode>(a.accept_plan()),
        apply_plan(l, a.accept_plan()) == Some(
            Ledger {
                lamports: accepted_lamports(a, l.lamports),
                tokens: l.tokens.insert(
                    a.buyer_reward_ata@,
                    l.tokens[a.buyer_reward_ata@] + reward_of(a.offer.data.amount),
                ),
                owners: l.owners.insert(a.asset@, a.buyer@),
                pda_seeds: l.pda_seeds,
            },
        ),
{
    let plan = a.accept_plan();
    reveal_with_fuel(apply_plan, 6);
    let price = a.offer.data.amount;
    let fee = fee_of(price, a.marketplace.data.fee);
    let maker_part = maker_amount_of(price, a.marketplace.data.fee);
    assert(plan.len() == 5);
    let l1 = Ledger { lamports: move_units(l.lamports, a.vault@, a.maker@, maker_part), ..l };
    assert(apply_cpi(l, plan[0]) == Some(l1));
    let l2 = Ledger { lamports: move_units(l1.lamports, a.vault@, a.treasury@, fee), ..l1 };
    assert(apply_cpi(l1, plan[1]) == Some(l2));
    let rest = l2.lamports[a.vault@];
    assert(rest == l.lamports[a.vault@] - price);
    let l3 = Ledger { lamports: move_units(l2.lamports, a.vault@, a.buyer@, rest), ..l2 };
    assert(apply_cpi(l2, plan[2]) == Some(l3));
    assert(plan.drop_first()[0] == plan[1]);
    assert(plan.drop_first().drop_first()[0] == plan[2]);
    assert(plan.drop_first().drop_first().drop_first()[0] == plan[3]);
    assert(plan.drop_first().drop_first().drop_first().drop_first()[0] == plan[4]);
    assert(plan.drop_first().drop_first().drop_first().drop_first().drop_first().len() == 0);
    lemma_reward_is_hundredth(price);
    assert(l3.lamports =~= accepted_lamports(a, l.lamports));
    let expected = Ledger {
        lamports: accepted_lamports(a, l.lamports),
        tokens: l.tokens.insert(a.buyer_reward_ata@, l.tokens[a.buyer_reward_ata@] + reward_of(price)),
        owners: l.owners.insert(a.asset@, a.buyer@),
        pda_seeds: l.pda_seeds,
    };
    assert(apply_plan(l, plan) =~~= Some(expected));
}

/// Delisting by the listing's maker gives the maker the asset back and
/// changes no balance.
pub proof fn law_delist_returns_asset(d: Delist, l: Ledger)
    requires
        d.maker@ == d.listing.data.maker@,
    ensures
        d.delist_outcome() == Ok::<Seq<Cpi>, ErrorCode>(d.delist_plan()),
        apply_plan(l, d.delist_plan()) == Some(
            Ledger { owners: l.owners.insert(d.asset@, d.maker@), ..l },
        ),
{
    reveal_with_fuel(apply_plan, 2);
    assert(d.delist_plan().drop_first().len() == 0);
}

/// The vault of the offer that `m` makes with `bumps`.
pub open spec fn offer_vault_signer(m: MakeOffer, bumps: MakeOfferBumps) -> PdaSigner {
    PdaSigner::OfferVault { asset: m.asset, buyer: m.buyer, bump: bumps.vault }
}

/// Making an offer and then cancelling it gives the buyer back the offered
/// amount and whatever the vault held before: the vault ends empty. When
/// the vault starts empty, the buyer ends with the balance they started with.
pub proof fn law_offer_cancel_round_trip(
    m: MakeOffer,
    amount: u64,
    bumps: MakeOfferBumps,
    c: CancelOffer,
    l: Ledger,
)
    requires
        amount > 0,
        c.buyer == m.buyer,
        c.asset == m.asset,
        c.vault == m.vault,
        c.offer.data == m.recorded_offer(amount, bumps),
        l.valid(),
        l.is_wallet(m.buyer@),
        l.is_program_account(m.vault@, offer_vault_signer(m, bumps)),
        l.lamports[m.buyer@] >= amount,
    ensures
        m.create_offer_outcome(amount) == Ok::<Seq<Cpi>, ErrorCode>(m.create_offer_plan(amount)),
        c.cancel_outcome() == Ok::<Seq<Cpi>, ErrorCode>(c.cancel_plan()),
        apply_plan(l, m.create_offer_plan(amount) + c.cancel_plan()) == Some(
            Ledger {
                lamports: l.lamports.insert(m.vault@, 0).insert(
                    m.buyer@,
                    l.lamports[m.buyer@] + l.lamports[m.vault@],
                ),
                ..l
            },
        ),
        l.lamports[m.vault@] == 0 ==> apply_plan(
            l,
            m.create_offer_plan(amount) + c.cancel_plan(),
        ).unwrap().lamports[m.buyer@] == l.lamports[m.buyer@],
{
    reveal_with_fuel(apply_plan, 2);
    let p = m.create_offer_plan(amount);
    let q = c.cancel_plan();
    lemma_apply_plan_append(l, p, q);
    assert(p.drop_first().len() == 0);
    assert(q.drop_first().len() == 0);
    let mid = Ledger { lamports: move_units(l.lamports, m.buyer@, m.vault@, amount as int), ..l };
    assert(apply_plan(l, p) == Some(mid));
    let held = mid.lamports[m.vault@];
    let end = Ledger { lamports: move_units(mid.lamports, m.vault@, m.buyer@, held), ..mid };
    assert(apply_plan(mid, q) == Some(end));
    let expected = Ledger {
        lamports: l.lamports.insert(m.vault@, 0).insert(
            m.buyer@,
            l.lamports[m.buyer@] + l.lamports[m.vault@],
        ),
        ..l
    };
    assert(end =~~= expected);
}

/// An offer made and then accepted costs its buyer exactly the offered
/// amount (the vault returns to them what it held before): the seller
/// receives the amount less the fee, the treasury the fee, the buyer the
/// asset and the reward; the vault ends empty. The seller may be the buyer.
pub proof fn law_offer_accept_costs_amount(
    m: MakeOffer,
    amount: u64,
    bumps: MakeOfferBumps,
    a: AcceptOffer,
    l: Ledger,
)
    requires
        amount > 0,
        a.buyer == m.buyer,
        a.asset == m.asset,
        a.vault == m.vault,
        a.offer.data == m.recorded_offer(amount, bumps),
        a.accounts_valid(),
        fee_of(amount, a.marketplace.data.fee) <= amount,
        l.valid(),
        l.is_wallet(m.buyer@),
        l.is_program_account(m.vault@, offer_vault_signer(m, bumps)),
        l.lamports[m.buyer@] >= amount,
    ensures
        m.create_offer_outcome(amount) == Ok::<Seq<Cpi>, ErrorCode>(m.create_offer_plan(amount)),
        a.accept_outcome() == Ok::<Seq<Cpi>, ErrorCode>(a.accept_plan()),
        apply_plan(l, m.create_offer_plan(amount) + a.accept_plan()) == Some(
            Ledger {
                lamports: accepted_lamports(
                    a,
                    l.lamports.insert(a.buyer@, l.lamports[a.buyer@] - amount).insert(
                        a.vault@,
                        l.lamports[a.vault@] + amount,
                    ),
                ),
                tokens: l.tokens.insert(
                    a.buyer_reward_ata@,
                    l.tokens[a.buyer_reward_ata@] + reward_of(amount),
                ),
                owners: l.owners.insert(a.asset@, a.buyer@),
                pda_seeds: l.pda_seeds,
            },
        ),
        ({
            let end = apply_plan(l, m.create_offer_plan(amount) + a.accept_plan()).unwrap().lamports;
            &&& end[a.vault@] == 0
            &&& end[a.treasury@] == l.lamports[a.treasury@] + fee_of(amount, a.marketplace.data.fee)
            &&& a.maker@ != a.buyer@ ==> {
                &&& end[a.buyer@] == l.lamports[a.buyer@] - amount + l.lamports[a.vault@]
                &&& end[a.maker@] == l.lamports[a.maker@] + maker_amount_of(
                    amount,
                    a.marketplace.data.fee,
                )
            }
            &&& a.maker@ == a.buyer@ ==> end[a.buyer@] == l.lamports[a.buyer@] + l.lamports[a.vault@]
                - fee_of(amount, a.marketplace.data.fee)
        }),
{
    reveal_with_fuel(apply_plan, 2);
    let p = m.create_offer_plan(amount);
    lemma_apply_plan_append(l, p, a.accept_plan());
    assert(p.drop_first().len() == 0);
    let mid = Ledger { lamports: move_units(l.lamports, m.buyer@, m.vault@, amount as int), ..l };
    assert(apply_plan(l, p) == Some(mid));
    assert(mid.lamports =~= l.lamports.insert(a.buyer@, l.lamports[a.buyer@] - amount).insert(
        a.vault@,
        l.lamports[a.vault@] + amount,
    ));
    law_accept_settles(a, mid);
}

/// Listing an asset and then delisting it gives the asset back to its
/// maker and changes no balance.
pub proof fn law_list_delist_round_trip(li: List, price: u64, bumps: ListBumps, d: Delist, l: Ledger)
    requires
        d.maker == li.maker,
        d.asset == li.asset,
        d.collection == li.collection,
        d.listing.key == li.listing_key,
        d.listing.data == li.recorded_listing(price, bumps),
    ensures
        d.delist_outcome() == Ok::<Seq<Cpi>, ErrorCode>(d.delist_plan()),
        apply_plan(l, li.create_listing_plan() + d.delist_plan()) == Some(
            Ledger { owners: l.owners.insert(li.asset@, li.maker@), ..l },
        ),
{
    reveal_with_fuel(apply_plan, 2);
    let p = li.create_listing_plan();
    let q = d.delist_plan();
    lemma_apply_plan_append(l, p, q);
    assert(p.drop_first().len() == 0);
    assert(q.drop_first().len() == 0);
    let mid = Ledger { owners: l.owners.insert(li.asset@, li.listing_key@), ..l };
    assert(apply_plan(l, p) == Some(mid));
    assert(apply_plan(mid, q).unwrap() =~~= Ledger { owners: l.owners.insert(li.asset@, li.maker@), ..l });
}

} // verus!
