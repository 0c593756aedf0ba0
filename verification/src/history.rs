use vstd::prelude::*;
use crate::cpi::{Cpi, signer_of};
use crate::fees::fee_of;
use crate::instructions::accept_offer::AcceptOffer;
use crate::instructions::buy::Buy;
use crate::instructions::buy_with_token::BuyWithToken;
use crate::instructions::cancel_offer::CancelOffer;
use crate::instructions::delist::Delist;
use crate::instructions::list::{List, ListBumps};
use crate::instructions::make_offer::{MakeOffer, MakeOfferBumps};
use crate::instructions::withdraw_fee::WithdrawFee;
use crate::ledger::{Ledger, apply_cpi, apply_plan, move_units, never_signed_with, lemma_unsigned_plan_keeps_balance};
use crate::seeds::{PdaSigner, lemma_vault_seeds_identify};

verus! {

/// One instruction of the program, with the accounts and arguments it runs on.
pub enum Instruction {
    Buy(Buy),
    BuyWithToken(BuyWithToken),
    Delist(Delist),
    List(List, u64, ListBumps),
    MakeOffer(MakeOffer, u64, MakeOfferBumps),
    WithdrawSol(WithdrawFee, u64),
    WithdrawToken(WithdrawFee, u64),
    AcceptOffer(AcceptOffer),
    CancelOffer(CancelOffer),
}

impl Instruction {
    /// The invocations the instruction performs, or `None` where it refuses
    /// with an error or stops (a fee above the price).
    pub open spec fn plan(&self) -> Option<Seq<Cpi>> {
        match self {
            Instruction::Buy(b) => if b.fee_fits() {
                Some(b.buy_plan())
            } else {
                None
            },
            Instruction::BuyWithToken(t) => if t.mint_matches() && t.fee_fits() {
                Some(t.buy_plan())
            } else {
                None
            },
            Instruction::Delist(d) => match d.delist_outcome() {
                Ok(p) => Some(p),
                Err(_) => None,
            },
            Instruction::List(li, _, _) => Some(li.create_listing_plan()),
            Instruction::MakeOffer(m, amount, _) => match m.create_offer_outcome(*amount) {
                Ok(p) => Some(p),
                Err(_) => None,
            },
            Instruction::WithdrawSol(w, amount) => match w.withdraw_sol_outcome(*amount) {
                Ok(p) => Some(p),
                Err(_) => None,
            },
            Instruction::WithdrawToken(w, amount) => match w.withdraw_token_outcome(*amount) {
                Ok(p) => Some(p),
                Err(_) => None,
            },
            Instruction::AcceptOffer(a) => if a.offer_is_acceptable() && fee_of(
                a.offer.data.amount,
                a.marketplace.data.fee,
            ) <= a.offer.data.amount {
                Some(a.accept_plan())
            } else {
                None
            },
            Instruction::CancelOffer(c) => match c.cancel_outcome() {
                Ok(p) => Some(p),
                Err(_) => None,
            },
        }
    }

    /// Whether the instruction accepts or cancels the offer of `buyer` for `asset`.
    pub open spec fn settles_offer(&self, asset: Seq<u8>, buyer: Seq<u8>) -> bool {
        match self {
            Instruction::AcceptOffer(a) => a.asset@ == asset && a.offer.data.buyer@ == buyer,
            Instruction::CancelOffer(c) => c.asset@ == asset && c.offer.data.buyer@ == buyer,
            _ => false,
        }
    }
}

/// A transaction is all or nothing: an instruction changes the ledger by
/// its plan when every invocation goes through, and not at all otherwise.
pub open spec fn effect(l: Ledger, ins: Instruction) -> Ledger {
    match ins.plan() {
        Some(p) => match apply_plan(l, p) {
            Some(next) => next,
            None => l,
        },
        None => l,
    }
}

/// The ledger after the instructions of `history`, in order.
pub open spec fn run(l: Ledger, history: Seq<Instruction>) -> Ledger
    decreases history.len(),
{
    if history.len() == 0 {
        l
    } else {
        run(effect(l, history[0]), history.drop_first())
    }
}

/// Whether an invocation is signed with the seeds of the vault of the offer
/// of `buyer` for `asset`.
pub open spec fn signs_as_vault_of(c: Cpi, asset: Seq<u8>, buyer: Seq<u8>) -> bool {
    signer_of(c) matches Some(PdaSigner::OfferVault { asset: a, buyer: b, .. }) && a@ == asset
        && b@ == buyer
}

/// Only accepting or cancelling an offer signs with its vault's seeds; no
/// other instruction, and no instruction on another offer, does.
pub proof fn law_only_settlement_signs_as_vault(ins: Instruction, asset: Seq<u8>, buyer: Seq<u8>)
    ensures
        !ins.settles_offer(asset, buyer) ==> (ins.plan() matches Some(p) ==> forall|i: int|
            0 <= i < p.len() ==> !signs_as_vault_of(#[trigger] p[i], asset, buyer)),
{
    if !ins.settles_offer(asset, buyer) {
        if let Some(p) = ins.plan() {
            assert forall|i: int| 0 <= i < p.len() implies !signs_as_vault_of(
                #[trigger] p[i],
                asset,
                buyer,
            ) by {
                match ins {
                    Instruction::Buy(b) => {
                        assert(p.len() == 4);
                    },
                    Instruction::BuyWithToken(t) => {
                        assert(p.len() == 4);
                    },
                    Instruction::AcceptOffer(a) => {
                        assert(p.len() == 5);
                    },
                    _ => {},
                }
            }
        }
    }
}

/// Whether an invocation is signed with the seeds of any offer's vault.
pub open spec fn signs_as_vault(c: Cpi) -> bool {
    signer_of(c) matches Some(PdaSigner::OfferVault { .. })
}

/// No invocation of the plan is signed as an offer's vault.
pub open spec fn never_signs_as_vault(plan: Seq<Cpi>) -> bool {
    forall|i: int| 0 <= i < plan.len() ==> !signs_as_vault(#[trigger] plan[i])
}

/// Every lamport transfer of the plan leaves `payer` and is signed by the
/// transaction's signer rather than by program seeds.
pub open spec fn lamports_only_from(plan: Seq<Cpi>, payer: Seq<u8>) -> bool {
    forall|i: int|
        0 <= i < plan.len() ==> (#[trigger] plan[i] matches Cpi::SystemTransfer { from, signer, .. }
            ==> from@ == payer && signer is None)
}

/// The plan moves no lamports at all.
pub open spec fn moves_no_lamports(plan: Seq<Cpi>) -> bool {
    forall|i: int| 0 <= i < plan.len() ==> !(#[trigger] plan[i] is SystemTransfer)
}

/// Where lamports leave in each instruction: no instruction but accepting
/// and cancelling an offer carries an offer vault's seeds; the lamport
/// transfers of a purchase or an offer leave the transaction's signer, those
/// of a lamport withdrawal leave the treasury under the treasury's seeds,
/// and the other instructions move no lamports. In accepting and
/// cancelling, every invocation signed as a vault is a lamport transfer out
/// of that offer's vault under that offer's seeds.
pub proof fn law_only_accept_and_cancel_pay_from_vault(
    b: Buy,
    t: BuyWithToken,
    d: Delist,
    li: List,
    m: MakeOffer,
    amount: u64,
    w: WithdrawFee,
    withdrawn: u64,
    a: AcceptOffer,
    c: CancelOffer,
)
    ensures
        never_signs_as_vault(b.buy_plan()),
        lamports_only_from(b.buy_plan(), b.taker@),
        never_signs_as_vault(t.buy_plan()),
        moves_no_lamports(t.buy_plan()),
        never_signs_as_vault(d.delist_plan()),
        moves_no_lamports(d.delist_plan()),
        never_signs_as_vault(li.create_listing_plan()),
        moves_no_lamports(li.create_listing_plan()),
        never_signs_as_vault(m.create_offer_plan(amount)),
        lamports_only_from(m.create_offer_plan(amount), m.buyer@),
        never_signs_as_vault(w.withdraw_sol_plan(withdrawn)),
        forall|i: int|
            0 <= i < w.withdraw_sol_plan(withdrawn).len() ==> (#[trigger] w.withdraw_sol_plan(
                withdrawn,
            )[i] matches Cpi::SystemTransfer { from, signer, .. } ==> from == w.treasury
                && signer == Some(
                PdaSigner::Treasury {
                    marketplace: w.marketplace.key,
                    bump: w.marketplace.data.treasury_bump,
                },
            )),
        never_signs_as_vault(w.withdraw_token_plan(withdrawn)),
        moves_no_lamports(w.withdraw_token_plan(withdrawn)),
        forall|i: int|
            0 <= i < a.accept_plan().len() && signs_as_vault(#[trigger] a.accept_plan()[i])
                ==> (a.accept_plan()[i] matches Cpi::SystemTransfer { from, signer, .. } && from
                == a.vault && signer == Some(a.vault_signer())),
        forall|i: int|
            0 <= i < c.cancel_plan().len() && signs_as_vault(#[trigger] c.cancel_plan()[i])
                ==> (c.cancel_plan()[i] matches Cpi::SystemTransfer { from, signer, .. } && from
                == c.vault && signer == Some(
                PdaSigner::OfferVault {
                    asset: c.asset,
                    buyer: c.offer.data.buyer,
                    bump: c.offer.data.vault_bump,
                },
            )),
{
    assert(b.buy_plan().len() == 4);
    assert(t.buy_plan().len() == 4);
    assert(a.accept_plan().len() == 5);
}

/// An instruction that does not settle the offer whose vault is `vault`
/// never lowers the vault's balance.
pub proof fn lemma_effect_keeps_vault(l: Ledger, ins: Instruction, v: PdaSigner, vault: Seq<u8>)
    requires
        v is OfferVault,
        l.is_program_account(vault, v),
        !ins.settles_offer(v->OfferVault_asset@, v->OfferVault_buyer@),
    ensures
        effect(l, ins).lamports[vault] >= l.lamports[vault],
        effect(l, ins).pda_seeds == l.pda_seeds,
{
    let asset = v->OfferVault_asset@;
    let buyer = v->OfferVault_buyer@;
    law_only_settlement_signs_as_vault(ins, asset, buyer);
    if let Some(p) = ins.plan() {
        assert forall|i: int| 0 <= i < p.len() implies (signer_of(#[trigger] p[i]) matches Some(s)
            ==> s.spec_seeds() != l.pda_seeds[vault]) by {
            if let Some(s) = signer_of(p[i]) {
                if s.spec_seeds() == v.spec_seeds() {
                    lemma_vault_seeds_identify(s, v);
                    assert(signs_as_vault_of(p[i], asset, buyer));
                }
            }
        }
        assert(never_signed_with(p, l.pda_seeds[vault]));
        lemma_unsigned_plan_keeps_balance(l, p, vault);
    }
}

/// Instructions none of which settles the offer whose vault is `vault`
/// never lower the vault's balance.
pub proof fn lemma_run_keeps_vault(l: Ledger, history: Seq<Instruction>, v: PdaSigner, vault: Seq<u8>)
    requires
        v is OfferVault,
        l.is_program_account(vault, v),
        forall|j: int|
            0 <= j < history.len() ==> !(#[trigger] history[j]).settles_offer(
                v->OfferVault_asset@,
                v->OfferVault_buyer@,
            ),
    ensures
        run(l, history).lamports[vault] >= l.lamports[vault],
    decreases history.len(),
{
    if history.len() > 0 {
        lemma_effect_keeps_vault(l, history[0], v, vault);
        let next = effect(l, history[0]);
        assert forall|j: int| 0 <= j < history.drop_first().len() implies !(
        #[trigger] history.drop_first()[j]).settles_offer(
            v->OfferVault_asset@,
            v->OfferVault_buyer@,
        ) by {
            assert(history.drop_first()[j] == history[j + 1]);
        }
        lemma_run_keeps_vault(next, history.drop_first(), v, vault);
    }
}

/// While an offer stands its vault holds at least the offered amount: once
/// `create_offer` has recorded an offer of `amount > 0` and funded the vault,
/// no run of instructions that neither accepts nor cancels that offer (both
/// close it) brings the vault below the recorded amount. The vault is a
/// program account; the system program debits it only under its own seeds,
/// which only accepting and cancelling that offer sign with.
pub proof fn law_offer_vault_covers_amount(
    m: MakeOffer,
    amount: u64,
    bumps: MakeOfferBumps,
    l: Ledger,
    later: Seq<Instruction>,
)
    requires
        amount > 0,
        l.valid(),
        l.is_wallet(m.buyer@),
        l.is_program_account(
            m.vault@,
            PdaSigner::OfferVault { asset: m.asset, buyer: m.buyer, bump: bumps.vault },
        ),
        l.lamports[m.buyer@] >= amount,
        forall|j: int| 0 <= j < later.len() ==> !(#[trigger] later[j]).settles_offer(m.asset@, m.buyer@),
    ensures
        m.create_offer_outcome(amount) is Ok,
        m.recorded_offer(amount, bumps).amount == amount,
        effect(l, Instruction::MakeOffer(m, amount, bumps)).lamports[m.vault@] == l.lamports[m.vault@]
            + amount,
        run(effect(l, Instruction::MakeOffer(m, amount, bumps)), later).lamports[m.vault@]
            >= m.recorded_offer(amount, bumps).amount,
{
    reveal_with_fuel(apply_plan, 2);
    let p = m.create_offer_plan(amount);
    assert(p.drop_first().len() == 0);
    let mid = Ledger { lamports: move_units(l.lamports, m.buyer@, m.vault@, amount as int), ..l };
    assert(apply_cpi(l, p[0]) == Some(mid));
    assert(apply_plan(l, p) == Some(mid));
    let v = PdaSigner::OfferVault { asset: m.asset, buyer: m.buyer, bump: bumps.vault };
    assert(effect(l, Instruction::MakeOffer(m, amount, bumps)) == mid);
    lemma_run_keeps_vault(mid, later, v, m.vault@);
}

} // verus!
