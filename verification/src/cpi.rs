use vstd::prelude::*;
use crate::address::Address;
use crate::seeds::PdaSigner;

verus! {

/// How many lamports a system transfer moves.
#[derive(Clone, Copy, Debug, PartialEq, Eq)]
pub enum Lamports {
    /// Exactly this many.
    Exact(u64),
    /// Whatever the source holds when the transfer runs.
    All,
}

/// A cross-program invocation that an instruction performs, in order.
/// Accounts are named by address; `signer` is the program-derived account
/// whose seeds sign the invocation, if any.
#[derive(Clone, Debug, PartialEq, Eq)]
pub enum Cpi {
    /// A lamport transfer through the system program.
    SystemTransfer { from: Address, to: Address, amount: Lamports, signer: Option<PdaSigner> },
    /// A checked token transfer through the token program.
    TokenTransfer {
        from: Address,
        mint: Address,
        to: Address,
        authority: Address,
        amount: u64,
        decimals: u8,
        signer: Option<PdaSigner>,
    },
    /// Minting reward tokens through the token program.
    MintTo { mint: Address, to: Address, authority: Address, amount: u64, signer: Option<PdaSigner> },
    /// Moving an asset to a new owner through the asset program.
    AssetTransfer {
        asset: Address,
        collection: Option<Address>,
        payer: Address,
        authority: Address,
        new_owner: Address,
        signer: Option<PdaSigner>,
    },
}

} // verus!

verus! {

/// The program-derived account whose seeds sign an invocation, if any.
pub open spec fn signer_of(c: Cpi) -> Option<PdaSigner> {
    match c {
        Cpi::SystemTransfer { signer, .. } => signer,
        Cpi::TokenTransfer { signer, .. } => signer,
        Cpi::MintTo { signer, .. } => signer,
        Cpi::AssetTransfer { signer, .. } => signer,
    }
}

/// What an instruction decided, over sequences: the invocations to perform, or its error.
pub open spec fn outcome_view<E>(r: Result<Vec<Cpi>, E>) -> Result<Seq<Cpi>, E> {
    match r {
        Ok(v) => Ok(v@),
        Err(e) => Err(e),
    }
}

} // verus!
