use vstd::prelude::*;

use crate::pubkey::Pubkey;

verus! {

/// A token movement that an instruction asks the token program to carry out.
/// The library decides these; the host performs them, all or none.
#[derive(Clone, Copy, Debug, PartialEq, Eq)]
pub enum TokenAction {
    /// Mint `amount` of `mint` into the token account `to`.
    MintTo { mint: Pubkey, to: Pubkey, amount: u64 },
    /// Burn `amount` of `mint` from the token account `from`, signed by its owner.
    Burn { mint: Pubkey, from: Pubkey, amount: u64 },
    /// Move `amount` from the token account `from` to `to`, signed by the owner of `from`.
    Transfer { from: Pubkey, to: Pubkey, amount: u64 },
    /// Let `delegate` spend up to `amount` from the token account `account`.
    Approve { account: Pubkey, delegate: Pubkey, amount: u64 },
    /// Create the associated token account `account` of `owner` for `mint`.
    CreateAssociatedAccount { account: Pubkey, owner: Pubkey, mint: Pubkey },
}

} // verus!
