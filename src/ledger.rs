use vstd::prelude::*;

use crate::error::WormholeGatewayError;

verus! {

/// How much of the canonical token the gateway may have outstanding, and how
/// much it has. `minted_amount` is outstanding issuance, not a high-water
/// mark: it goes down when tokens leave the chain, by the amount that leaves
/// custody.
#[derive(Clone, Copy, Debug)]
pub struct CustodianLedger {
    pub minting_limit: u64,
    pub minted_amount: u64,
}

/// The ledger is at rest: nothing is outstanding beyond the limit.
pub open spec fn within_limit(l: CustodianLedger) -> bool {
    l.minted_amount <= l.minting_limit
}

/// What recording a mint of `amount` leads to.
pub open spec fn mint_outcome(l: CustodianLedger, amount: u64) -> Result<
    CustodianLedger,
    WormholeGatewayError,
> {
    if l.minted_amount + amount > u64::MAX {
        Err(WormholeGatewayError::MintedAmountOverflow)
    } else if l.minted_amount + amount > l.minting_limit {
        Err(WormholeGatewayError::MintingLimitExceeded)
    } else {
        Ok(CustodianLedger { minted_amount: (l.minted_amount + amount) as u64, ..l })
    }
}

/// What recording a burn of `amount` leads to.
pub open spec fn burn_outcome(l: CustodianLedger, amount: u64) -> Result<
    CustodianLedger,
    WormholeGatewayError,
> {
    if amount > l.minted_amount {
        Err(WormholeGatewayError::MintedAmountUnderflow)
    } else {
        Ok(CustodianLedger { minted_amount: (l.minted_amount - amount) as u64, ..l })
    }
}

/// One accounting step.
#[derive(Clone, Copy, Debug)]
pub enum LedgerOp {
    Mint(u64),
    Burn(u64),
}

/// The ledger after one step: the new state on success, the old one on failure.
pub open spec fn apply_op(l: CustodianLedger, op: LedgerOp) -> CustodianLedger {
    let outcome = match op {
        LedgerOp::Mint(a) => mint_outcome(l, a),
        LedgerOp::Burn(a) => burn_outcome(l, a),
    };
    match outcome {
        Ok(n) => n,
        Err(_) => l,
    }
}

/// The ledger after a sequence of steps, taken in order.
pub open spec fn apply_ops(l: CustodianLedger, ops: Seq<LedgerOp>) -> CustodianLedger
    decreases ops.len(),
{
    if ops.len() == 0 {
        l
    } else {
        apply_ops(apply_op(l, ops[0]), ops.drop_first())
    }
}

/// From a ledger within its limit, any sequence of mints and burns leaves it
/// within its limit; a step that fails leaves it as it was.
pub proof fn lemma_ledger_stays_within_limit(l: CustodianLedger, ops: Seq<LedgerOp>)
    requires
        within_limit(l),
    ensures
        within_limit(apply_ops(l, ops)),
        apply_ops(l, ops).minting_limit == l.minting_limit,
    decreases ops.len(),
{
    if ops.len() > 0 {
        lemma_ledger_stays_within_limit(apply_op(l, ops[0]), ops.drop_first());
    }
}

impl CustodianLedger {
    /// A ledger with the given limit and nothing minted.
    pub fn new(minting_limit: u64) -> (r: CustodianLedger)
        ensures
            r.minting_limit == minting_limit,
            r.minted_amount == 0,
    {
        CustodianLedger { minting_limit, minted_amount: 0 }
    }

    /// Accounts for `amount` newly minted tokens. Fails on 64-bit overflow,
    /// and when the total would pass the limit; a failure changes nothing.
    pub fn record_mint(&mut self, amount: u64) -> (r: Result<(), WormholeGatewayError>)
        ensures
            match mint_outcome(*old(self), amount) {
                Ok(n) => r is Ok && *final(self) == n,
                Err(e) => r == Err::<(), WormholeGatewayError>(e) && *final(self) == *old(self),
            },
    {
        match self.minted_amount.checked_add(amount) {
            None => Err(WormholeGatewayError::MintedAmountOverflow),
            Some(total) => {
                if total > self.minting_limit {
                    Err(WormholeGatewayError::MintingLimitExceeded)
                } else {
                    self.minted_amount = total;
                    Ok(())
                }
            },
        }
    }

    /// Accounts for `amount` tokens burned. Fails when more is burned than is
    /// outstanding; a failure changes nothing.
    pub fn record_burn(&mut self, amount: u64) -> (r: Result<(), WormholeGatewayError>)
        ensures
            match burn_outcome(*old(self), amount) {
                Ok(n) => r is Ok && *final(self) == n,
                Err(e) => r == Err::<(), WormholeGatewayError>(e) && *final(self) == *old(self),
            },
    {
        if amount > self.minted_amount {
            Err(WormholeGatewayError::MintedAmountUnderflow)
        } else {
            self.minted_amount = self.minted_amount - amount;
            Ok(())
        }
    }

    /// Whether minting `amount` more would stay within the limit.
    pub fn can_mint(&self, amount: u64) -> (r: bool)
        ensures
            r == (self.minted_amount + amount <= self.minting_limit),
            r == mint_outcome(*self, amount) is Ok,
    {
        match self.minted_amount.checked_add(amount) {
            None => false,
            Some(total) => total <= self.minting_limit,
        }
    }

    /// Sets the limit. It may go below the minted amount, which blocks further
    /// minting until enough is burned.
    pub fn set_limit(&mut self, new_limit: u64)
        ensures
            final(self).minting_limit == new_limit,
            final(self).minted_amount == old(self).minted_amount,
    {
        self.minting_limit = new_limit;
    }
}

} // verus!
