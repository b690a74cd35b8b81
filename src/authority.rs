use vstd::prelude::*;

use crate::pubkey::Pubkey;

verus! {

/// Who administers a program, and who has been proposed to take over.
/// `pending_authority` is `Some` only between a proposal and its completion
/// or cancellation.
#[derive(Clone, Copy, Debug)]
pub struct AuthorityState {
    pub authority: Pubkey,
    pub pending_authority: Option<Pubkey>,
}

/// Why an authority transition was refused.
#[derive(Clone, Copy, Debug, PartialEq, Eq, Structural)]
pub enum AuthorityError {
    /// The caller is not the authority.
    IsNotAuthority,
    /// The caller is not the pending authority.
    IsNotPendingAuthority,
    /// No change is pending.
    NoPendingAuthorityChange,
}

/// What proposing `new_authority` leads to when `caller` asks.
pub open spec fn change_outcome(s: AuthorityState, caller: Pubkey, new_authority: Pubkey) -> Result<
    AuthorityState,
    AuthorityError,
> {
    if caller@ != s.authority@ {
        Err(AuthorityError::IsNotAuthority)
    } else {
        Ok(AuthorityState { pending_authority: Some(new_authority), ..s })
    }
}

/// What withdrawing the proposal leads to when `caller` asks.
pub open spec fn cancel_outcome(s: AuthorityState, caller: Pubkey) -> Result<
    AuthorityState,
    AuthorityError,
> {
    if caller@ != s.authority@ {
        Err(AuthorityError::IsNotAuthority)
    } else if s.pending_authority is None {
        Err(AuthorityError::NoPendingAuthorityChange)
    } else {
        Ok(AuthorityState { pending_authority: None, ..s })
    }
}

/// What taking over leads to when `caller` asks.
pub open spec fn take_outcome(s: AuthorityState, caller: Pubkey) -> Result<
    AuthorityState,
    AuthorityError,
> {
    match s.pending_authority {
        None => Err(AuthorityError::NoPendingAuthorityChange),
        Some(p) => if p@ != caller@ {
            Err(AuthorityError::IsNotPendingAuthority)
        } else {
            Ok(AuthorityState { authority: caller, pending_authority: None })
        },
    }
}

/// A proposal that was cancelled cannot be taken up: the proposed principal's
/// attempt fails for want of a pending change.
pub proof fn lemma_cancelled_change_cannot_be_taken(
    s: AuthorityState,
    caller: Pubkey,
    proposed: Pubkey,
)
    requires
        caller@ == s.authority@,
    ensures
        change_outcome(s, caller, proposed) is Ok,
        change_outcome(s, caller, proposed)->Ok_0.pending_authority == Some(proposed),
        cancel_outcome(change_outcome(s, caller, proposed)->Ok_0, caller) is Ok,
        cancel_outcome(change_outcome(s, caller, proposed)->Ok_0, caller)->Ok_0.pending_authority
            is None,
        take_outcome(
            cancel_outcome(change_outcome(s, caller, proposed)->Ok_0, caller)->Ok_0,
            proposed,
        ) == Err::<AuthorityState, AuthorityError>(AuthorityError::NoPendingAuthorityChange),
{
}

/// Only the proposed principal can take over: anyone else is refused, and the
/// authority stays as it was.
pub proof fn lemma_only_proposed_can_take(
    s: AuthorityState,
    caller: Pubkey,
    proposed: Pubkey,
    other: Pubkey,
)
    requires
        caller@ == s.authority@,
        other@ != proposed@,
    ensures
        change_outcome(s, caller, proposed) is Ok,
        change_outcome(s, caller, proposed)->Ok_0.authority == s.authority,
        take_outcome(change_outcome(s, caller, proposed)->Ok_0, other) == Err::<
            AuthorityState,
            AuthorityError,
        >(AuthorityError::IsNotPendingAuthority),
        take_outcome(change_outcome(s, caller, proposed)->Ok_0, proposed) is Ok,
        take_outcome(change_outcome(s, caller, proposed)->Ok_0, proposed)->Ok_0.authority
            == proposed,
{
}

impl AuthorityState {
    /// `authority` in charge, nothing pending.
    pub fn new(authority: Pubkey) -> (r: AuthorityState)
        ensures
            r.authority == authority,
            r.pending_authority is None,
    {
        AuthorityState { authority, pending_authority: None }
    }

    /// Whether `caller` is the authority.
    pub fn is_authority(&self, caller: &Pubkey) -> (r: bool)
        ensures
            r == (caller@ == self.authority@),
    {
        caller.same(&self.authority)
    }

    /// Proposes `new_authority`; only the authority may. A proposal replaces
    /// any earlier one.
    pub fn change_authority(&mut self, caller: &Pubkey, new_authority: &Pubkey) -> (r: Result<
        (),
        AuthorityError,
    >)
        ensures
            match change_outcome(*old(self), *caller, *new_authority) {
                Ok(n) => r is Ok && *final(self) == n,
                Err(e) => r == Err::<(), AuthorityError>(e) && *final(self) == *old(self),
            },
    {
        if !self.is_authority(caller) {
            return Err(AuthorityError::IsNotAuthority);
        }
        self.pending_authority = Some(*new_authority);
        Ok(())
    }

    /// Withdraws the pending proposal; only the authority may.
    pub fn cancel_authority_change(&mut self, caller: &Pubkey) -> (r: Result<(), AuthorityError>)
        ensures
            match cancel_outcome(*old(self), *caller) {
                Ok(n) => r is Ok && *final(self) == n,
                Err(e) => r == Err::<(), AuthorityError>(e) && *final(self) == *old(self),
            },
    {
        if !self.is_authority(caller) {
            return Err(AuthorityError::IsNotAuthority);
        }
        if self.pending_authority.is_none() {
            return Err(AuthorityError::NoPendingAuthorityChange);
        }
        self.pending_authority = None;
        Ok(())
    }

    /// The pending principal takes over.
    pub fn take_authority(&mut self, caller: &Pubkey) -> (r: Result<(), AuthorityError>)
        ensures
            match take_outcome(*old(self), *caller) {
                Ok(n) => r is Ok && *final(self) == n,
                Err(e) => r == Err::<(), AuthorityError>(e) && *final(self) == *old(self),
            },
    {
        match self.pending_authority {
            None => Err(AuthorityError::NoPendingAuthorityChange),
            Some(p) => {
                if !p.same(caller) {
                    return Err(AuthorityError::IsNotPendingAuthority);
                }
                self.authority = *caller;
                self.pending_authority = None;
                Ok(())
            },
        }
    }
}

} // verus!
