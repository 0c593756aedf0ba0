use vstd::prelude::*;
use crate::address::Address;
use crate::cpi::{Cpi, Lamports, outcome_view};
use crate::error::ErrorCode;
use crate::seeds::PdaSigner;
use crate::state::{Account, Marketplace, MintAccount};

verus! {

/// The accounts of withdrawing collected fees, in lamports or in a token.
#[derive(Clone, Debug)]
pub struct WithdrawFee {
    pub admin: Address,
    pub marketplace: Account<Marketplace>,
    pub treasury: Address,
    pub to: Address,
    pub payment_mint: MintAccount,
    pub treasury_payment_account: Address,
    pub to_payment_ata: Address,
}

impl WithdrawFee {
    /// Whether the signer is the marketplace's admin.
    pub open spec fn signed_by_admin(&self) -> bool {
        self.admin@ == self.marketplace.data.admin@
    }

    /// The treasury, signing with its seeds, pays `amount` lamports to `to`.
    pub open spec fn withdraw_sol_plan(&self, amount: u64) -> Seq<Cpi> {
        seq![
            Cpi::SystemTransfer {
                from: self.treasury,
                to: self.to,
                amount: Lamports::Exact(amount),
                signer: Some(
                    PdaSigner::Treasury {
                        marketplace: self.marketplace.key,
                        bump: self.marketplace.data.treasury_bump,
                    },
                ),
            },
        ]
    }

    /// The token treasury, with the marketplace as authority, pays `amount` tokens.
    pub open spec fn withdraw_token_plan(&self, amount: u64) -> Seq<Cpi> {
        seq![
            Cpi::TokenTransfer {
                from: self.treasury_payment_account,
                mint: self.payment_mint.key,
                to: self.to_payment_ata,
                authority: self.marketplace.key,
                amount,
                decimals: self.payment_mint.decimals,
                signer: Some(
                    PdaSigner::Marketplace {
                        name: self.marketplace.data.name,
                        bump: self.marketplace.data.bump,
                    },
                ),
            },
        ]
    }

    pub open spec fn withdraw_sol_outcome(&self, amount: u64) -> Result<Seq<Cpi>, ErrorCode> {
        if self.signed_by_admin() {
            Ok(self.withdraw_sol_plan(amount))
        } else {
            Err(ErrorCode::UnauthorizedAdmin)
        }
    }

    pub open spec fn withdraw_token_outcome(&self, amount: u64) -> Result<Seq<Cpi>, ErrorCode> {
        if self.signed_by_admin() {
            Ok(self.withdraw_token_plan(amount))
        } else {
            Err(ErrorCode::UnauthorizedAdmin)
        }
    }

    /// Withdraws lamports from the treasury: only the admin may.
    pub fn withdraw_sol(&self, amount: u64) -> (r: Result<Vec<Cpi>, ErrorCode>)
        ensures
            outcome_view(r) == self.withdraw_sol_outcome(amount),
    {
        if self.admin != self.marketplace.data.admin {
            return Err(ErrorCode::UnauthorizedAdmin);
        }
        let mut cpis: Vec<Cpi> = Vec::new();
        cpis.push(
            Cpi::SystemTransfer {
                from: self.treasury,
                to: self.to,
                amount: Lamports::Exact(amount),
                signer: Some(
                    PdaSigner::Treasury {
                        marketplace: self.marketplace.key,
                        bump: self.marketplace.data.treasury_bump,
                    },
                ),
            },
        );
        assert(cpis@ =~= self.withdraw_sol_plan(amount));
        Ok(cpis)
    }

    /// Withdraws tokens from the token treasury: only the admin may.
    pub fn withdraw_token(&self, amount: u64) -> (r: Result<Vec<Cpi>, ErrorCode>)
        ensures
            outcome_view(r) == self.withdraw_token_outcome(amount),
    {
        if self.admin != self.marketplace.data.admin {
            return Err(ErrorCode::UnauthorizedAdmin);
        }
        let mut cpis: Vec<Cpi> = Vec::new();
        cpis.push(
            Cpi::TokenTransfer {
                from: self.treasury_payment_account,
                mint: self.payment_mint.key,
                to: self.to_payment_ata,
                authority: self.marketplace.key,
                amount,
                decimals: self.payment_mint.decimals,
                signer: Some(
                    PdaSigner::Marketplace {
                        name: self.marketplace.data.name.clone(),
                        bump: self.marketplace.data.bump,
                    },
                ),
            },
        );
        assert(cpis@ =~= self.withdraw_token_plan(amount));
        Ok(cpis)
    }
}

} // verus!
