use vstd::prelude::*;
use vstd::utf8::encode_utf8;
use crate::address::Address;
use crate::error::ErrorCode;
use crate::fees::BPS_DENOMINATOR;
use crate::state::Marketplace;

verus! {

/// The longest marketplace name, in bytes: the name is a seed of the
/// marketplace's address, and a seed holds at most 32 bytes.
pub const MAX_NAME_LEN: usize = 32;

/// The bumps found for the marketplace, its treasury and its reward mint.
#[derive(Clone, Copy, Debug, PartialEq, Eq)]
pub struct InitializeBumps {
    pub marketplace: u8,
    pub treasury: u8,
    pub rewards_mint: u8,
}

/// The accounts of creating a marketplace.
#[derive(Clone, Copy, Debug)]
pub struct Initialize {
    pub admin: Address,
}

/// The byte length of a marketplace name.
pub open spec fn name_len(name: String) -> nat {
    encode_utf8(name@).len()
}

/// A marketplace configuration that the program can hold: a fee of at
/// most 10000 basis points and a name of at most 32 bytes.
pub open spec fn marketplace_wf(m: Marketplace) -> bool {
    &&& m.fee <= BPS_DENOMINATOR
    &&& name_len(m.name) <= MAX_NAME_LEN
}

impl Initialize {
    /// The configuration that `init` records.
    pub open spec fn configured(&self, name: String, fee: u16, bumps: InitializeBumps) -> Marketplace {
        Marketplace {
            admin: self.admin,
            fee,
            bump: bumps.marketplace,
            treasury_bump: bumps.treasury,
            rewards_bump: bumps.rewards_mint,
            name,
        }
    }

    pub open spec fn init_outcome(&self, name: String, fee: u16, bumps: InitializeBumps) -> Result<Marketplace, ErrorCode> {
        if fee > BPS_DENOMINATOR {
            Err(ErrorCode::InvalidFee)
        } else if name_len(name) > MAX_NAME_LEN {
            Err(ErrorCode::InvalidName)
        } else {
            Ok(self.configured(name, fee, bumps))
        }
    }

    /// Configures a marketplace run by the signer; refuses a fee above
    /// 10000 basis points and a name longer than 32 bytes.
    pub fn init(&self, name: String, fee: u16, bumps: &InitializeBumps) -> (r: Result<Marketplace, ErrorCode>)
        ensures
            r == self.init_outcome(name, fee, *bumps),
            r matches Ok(m) ==> marketplace_wf(m),
    {
        if fee > BPS_DENOMINATOR {
            return Err(ErrorCode::InvalidFee);
        }
        if name.as_str().as_bytes().len() > MAX_NAME_LEN {
            return Err(ErrorCode::InvalidName);
        }
        Ok(
            Marketplace {
                admin: self.admin,
                fee,
                bump: bumps.marketplace,
                treasury_bump: bumps.treasury,
                rewards_bump: bumps.rewards_mint,
                name,
            },
        )
    }
}

} // verus!
