use vstd::prelude::*;
use crate::cpi::{Cpi, Lamports, signer_of};
use crate::seeds::PdaSigner;

verus! {

/// What the invocations of this program change, by address: lamport
/// balances, token balances of token accounts, and the owner of each asset;
/// and, for each program-derived account, the seeds it is derived from
/// (no invocation changes those).
#[verifier::ext_equal]
pub struct Ledger {
    pub lamports: Map<Seq<u8>, int>,
    pub tokens: Map<Seq<u8>, int>,
    pub owners: Map<Seq<u8>, Seq<u8>>,
    pub pda_seeds: Map<Seq<u8>, Seq<Seq<u8>>>,
}

impl Ledger {
    /// Every address has a balance, and no balance is negative.
    pub open spec fn valid(&self) -> bool {
        &&& forall|k: Seq<u8>| #[trigger] self.lamports.dom().contains(k)
        &&& forall|k: Seq<u8>| #[trigger] self.tokens.dom().contains(k)
        &&& forall|k: Seq<u8>| #[trigger] self.lamports[k] >= 0
        &&& forall|k: Seq<u8>| #[trigger] self.tokens[k] >= 0
    }

    /// `who` is a wallet: not a program-derived account.
    pub open spec fn is_wallet(&self, who: Seq<u8>) -> bool {
        !self.pda_seeds.dom().contains(who)
    }

    /// `who` is the program-derived account with the seeds of `signer`.
    pub open spec fn is_program_account(&self, who: Seq<u8>, signer: PdaSigner) -> bool {
        &&& self.pda_seeds.dom().contains(who)
        &&& self.pda_seeds[who] == signer.spec_seeds()
    }
}

/// Moves `amount` from `from` to `to` in a balance map.
pub open spec fn move_units(bal: Map<Seq<u8>, int>, from: Seq<u8>, to: Seq<u8>, amount: int) -> Map<
    Seq<u8>,
    int,
> {
    let taken = bal.insert(from, bal[from] - amount);
    taken.insert(to, taken[to] + amount)
}

/// Whether the system program lets `signer` debit `from`: a
/// program-derived account signs only through its own seeds. (An account
/// that is not program-derived is a wallet that signs the transaction.)
pub open spec fn may_debit(l: Ledger, from: Seq<u8>, signer: Option<PdaSigner>) -> bool {
    l.pda_seeds.dom().contains(from) ==> (signer matches Some(s) && s.spec_seeds()
        == l.pda_seeds[from])
}

/// The effect of one invocation when it goes through, or `None` where the
/// source does not hold what it is asked to pay, or where a program-derived
/// source is not signed for by its seeds. A transfer of [`Lamports::All`]
/// moves the whole balance of its source.
pub open spec fn apply_cpi(l: Ledger, c: Cpi) -> Option<Ledger> {
    match c {
        Cpi::SystemTransfer { from, to, amount, signer } => {
            let a = match amount {
                Lamports::Exact(n) => n as int,
                Lamports::All => l.lamports[from@],
            };
            if 0 <= a <= l.lamports[from@] && may_debit(l, from@, signer) {
                Some(Ledger { lamports: move_units(l.lamports, from@, to@, a), ..l })
            } else {
                None
            }
        },
        Cpi::TokenTransfer { from, to, amount, .. } => {
            if amount <= l.tokens[from@] {
                Some(Ledger { tokens: move_units(l.tokens, from@, to@, amount as int), ..l })
            } else {
                None
            }
        },
        Cpi::MintTo { to, amount, .. } => Some(
            Ledger { tokens: l.tokens.insert(to@, l.tokens[to@] + amount), ..l },
        ),
        Cpi::AssetTransfer { asset, new_owner, .. } => Some(
            Ledger { owners: l.owners.insert(asset@, new_owner@), ..l },
        ),
    }
}

/// The effect of invocations performed in order; `None` once one of them fails.
pub open spec fn apply_plan(l: Ledger, plan: Seq<Cpi>) -> Option<Ledger>
    decreases plan.len(),
{
    if plan.len() == 0 {
        Some(l)
    } else {
        match apply_cpi(l, plan[0]) {
            Some(next) => apply_plan(next, plan.drop_first()),
            None => None,
        }
    }
}

/// Running two plans one after the other is running their concatenation.
pub proof fn lemma_apply_plan_append(l: Ledger, p: Seq<Cpi>, q: Seq<Cpi>)
    ensures
        apply_plan(l, p + q) == (match apply_plan(l, p) {
            Some(mid) => apply_plan(mid, q),
            None => None,
        }),
    decreases p.len(),
{
    if p.len() == 0 {
        assert(p + q =~= q);
    } else {
        assert((p + q).drop_first() =~= p.drop_first() + q);
        match apply_cpi(l, p[0]) {
            Some(next) => lemma_apply_plan_append(next, p.drop_first(), q),
            None => {},
        }
    }
}


/// No invocation of `plan` is signed with the seeds `seeds`.
pub open spec fn never_signed_with(plan: Seq<Cpi>, seeds: Seq<Seq<u8>>) -> bool {
    forall|i: int|
        0 <= i < plan.len() ==> (signer_of(#[trigger] plan[i]) matches Some(s) ==> s.spec_seeds()
            != seeds)
}

/// A plan never signed with the seeds of the program account `who` cannot
/// lower its balance; no plan changes which accounts are program-derived.
pub proof fn lemma_unsigned_plan_keeps_balance(l: Ledger, plan: Seq<Cpi>, who: Seq<u8>)
    requires
        l.pda_seeds.dom().contains(who),
        never_signed_with(plan, l.pda_seeds[who]),
    ensures
        apply_plan(l, plan) matches Some(end) ==> end.lamports[who] >= l.lamports[who]
            && end.pda_seeds == l.pda_seeds,
    decreases plan.len(),
{
    if plan.len() > 0 {
        if let Some(next) = apply_cpi(l, plan[0]) {
            assert(next.lamports[who] >= l.lamports[who] && next.pda_seeds == l.pda_seeds) by {
                assert(signer_of(plan[0]) matches Some(s) ==> s.spec_seeds() != l.pda_seeds[who]);
            }
            assert forall|i: int| 0 <= i < plan.drop_first().len() implies (signer_of(
                #[trigger] plan.drop_first()[i],
            ) matches Some(s) ==> s.spec_seeds() != next.pda_seeds[who]) by {
                assert(plan.drop_first()[i] == plan[i + 1]);
            }
            lemma_unsigned_plan_keeps_balance(next, plan.drop_first(), who);
        }
    }
}

} // verus!
