use vstd::prelude::*;

use crate::authority::{
    cancel_outcome, change_outcome, take_outcome, AuthorityError, AuthorityState,
};
use crate::error::TbtcError;
use crate::pubkey::Pubkey;
use crate::registry::{added, has_principal, swap_removed, RegistryError, RoleRegistry};
use crate::token::TokenAction;

verus! {

/// The token program's settings.
#[derive(Clone, Copy, Debug)]
pub struct Config {
    pub bump: u8,
    /// The program's authority, and the one proposed to succeed it.
    pub admin: AuthorityState,
    /// The canonical token's mint.
    pub mint: Pubkey,
    pub mint_bump: u8,
    /// While set, nothing can be minted.
    pub paused: bool,
}

/// The principals allowed to mint.
pub struct Minters {
    pub bump: u8,
    pub keys: RoleRegistry,
}

/// The principals allowed to pause the program.
pub struct Guardians {
    pub bump: u8,
    pub keys: RoleRegistry,
}

/// The record of one minter.
#[derive(Clone, Copy, Debug)]
pub struct MinterInfo {
    pub minter: Pubkey,
    pub index: usize,
    pub bump: u8,
}

/// The record of one guardian.
#[derive(Clone, Copy, Debug)]
pub struct GuardianInfo {
    pub guardian: Pubkey,
    pub index: usize,
    pub bump: u8,
}

/// The whole state of the token program.
pub struct Tbtc {
    pub config: Config,
    pub minters: Minters,
    pub guardians: Guardians,
}

/// A minter was added.
#[derive(Clone, Copy, Debug, PartialEq, Eq)]
pub struct MinterAdded {
    pub minter: Pubkey,
}

/// A minter was removed.
#[derive(Clone, Copy, Debug, PartialEq, Eq)]
pub struct MinterRemoved {
    pub minter: Pubkey,
}

/// A guardian was added.
#[derive(Clone, Copy, Debug, PartialEq, Eq)]
pub struct GuardianAdded {
    pub guardian: Pubkey,
}

/// A guardian was removed.
#[derive(Clone, Copy, Debug, PartialEq, Eq)]
pub struct GuardianRemoved {
    pub guardian: Pubkey,
}

/// The metadata the canonical token is registered with when the program is
/// set up: no royalties, no creators, and mutable by the program.
#[derive(Clone, Copy, Debug, PartialEq, Eq)]
pub struct TokenMetadata {
    pub name: &'static str,
    pub symbol: &'static str,
    pub uri: &'static str,
    pub seller_fee_basis_points: u16,
    pub is_mutable: bool,
}

/// The program error that an authority refusal is reported as.
pub open spec fn tbtc_error_of(e: AuthorityError) -> TbtcError {
    match e {
        AuthorityError::IsNotAuthority => TbtcError::IsNotAuthority,
        AuthorityError::IsNotPendingAuthority => TbtcError::IsNotPendingAuthority,
        AuthorityError::NoPendingAuthorityChange => TbtcError::NoPendingAuthorityChange,
    }
}

fn authority_error(e: AuthorityError) -> (r: TbtcError)
    ensures
        r == tbtc_error_of(e),
{
    match e {
        AuthorityError::IsNotAuthority => TbtcError::IsNotAuthority,
        AuthorityError::IsNotPendingAuthority => TbtcError::IsNotPendingAuthority,
        AuthorityError::NoPendingAuthorityChange => TbtcError::NoPendingAuthorityChange,
    }
}

impl Minters {
    /// Bytes of a minters record holding `num_minters` keys.
    pub fn compute_size(num_minters: usize) -> (r: usize)
        requires
            13 + 32 * num_minters <= usize::MAX,
        ensures
            r == 13 + 32 * num_minters,
    {
        8 + 1 + 4 + num_minters * 32
    }
}

impl Guardians {
    /// Bytes of a guardians record holding `num_guardians` keys.
    pub fn compute_size(num_guardians: usize) -> (r: usize)
        requires
            13 + 32 * num_guardians <= usize::MAX,
        ensures
            r == 13 + 32 * num_guardians,
    {
        8 + 1 + 4 + num_guardians * 32
    }
}

impl Tbtc {
    /// Both registries keep their invariant.
    pub open spec fn wf(&self) -> bool {
        self.minters.keys.wf() && self.guardians.keys.wf()
    }

    /// Whether `p` may mint.
    pub fn is_minter(&self, p: &Pubkey) -> (r: bool)
        requires
            self.wf(),
        ensures
            r == has_principal(self.minters.keys@, p@),
    {
        self.minters.keys.contains(p)
    }

    /// Whether `p` may pause.
    pub fn is_guardian(&self, p: &Pubkey) -> (r: bool)
        requires
            self.wf(),
        ensures
            r == has_principal(self.guardians.keys@, p@),
    {
        self.guardians.keys.contains(p)
    }

    /// How many minters there are.
    pub fn num_minters(&self) -> (r: usize)
        ensures
            r == self.minters.keys@.len(),
    {
        self.minters.keys.len()
    }

    /// How many guardians there are.
    pub fn num_guardians(&self) -> (r: usize)
        ensures
            r == self.guardians.keys@.len(),
    {
        self.guardians.keys.len()
    }

    /// The record of minter `p`, if it is one.
    pub fn minter_info(&self, p: &Pubkey) -> (r: Option<MinterInfo>)
        requires
            self.wf(),
        ensures
            r is None <==> !has_principal(self.minters.keys@, p@),
            r matches Some(m) ==> m.minter@ == p@ && m.index < self.minters.keys@.len()
                && self.minters.keys@[m.index as int].bump == m.bump,
    {
        match self.minters.keys.entry(p) {
            None => None,
            Some(e) => Some(MinterInfo { minter: e.principal, index: e.index, bump: e.bump }),
        }
    }

    /// The record of guardian `p`, if it is one.
    pub fn guardian_info(&self, p: &Pubkey) -> (r: Option<GuardianInfo>)
        requires
            self.wf(),
        ensures
            r is None <==> !has_principal(self.guardians.keys@, p@),
            r matches Some(g) ==> g.guardian@ == p@ && g.index < self.guardians.keys@.len()
                && self.guardians.keys@[g.index as int].bump == g.bump,
    {
        match self.guardians.keys.entry(p) {
            None => None,
            Some(e) => Some(GuardianInfo { guardian: e.principal, index: e.index, bump: e.bump }),
        }
    }
}

/// Sets up the program: `authority` in charge, no minters or guardians, not
/// paused.
pub fn initialize(
    authority: Pubkey,
    mint: Pubkey,
    config_bump: u8,
    mint_bump: u8,
    minters_bump: u8,
    guardians_bump: u8,
) -> (r: Tbtc)
    ensures
        r.wf(),
        r.config.admin.authority == authority,
        r.config.admin.pending_authority is None,
        r.config.mint == mint,
        r.config.bump == config_bump,
        r.config.mint_bump == mint_bump,
        !r.config.paused,
        r.minters.keys@.len() == 0,
        r.minters.bump == minters_bump,
        r.guardians.keys@.len() == 0,
        r.guardians.bump == guardians_bump,
{
    Tbtc {
        config: Config {
            bump: config_bump,
            admin: AuthorityState::new(authority),
            mint,
            mint_bump,
            paused: false,
        },
        minters: Minters { bump: minters_bump, keys: RoleRegistry::new() },
        guardians: Guardians { bump: guardians_bump, keys: RoleRegistry::new() },
    }
}

/// The canonical token's metadata.
pub fn token_metadata() -> (r: TokenMetadata)
    ensures
        r.name == "tBTC v2",
        r.symbol == "tBTC",
        r.uri == "",
        r.seller_fee_basis_points == 0,
        r.is_mutable,
{
    TokenMetadata {
        name: "tBTC v2",
        symbol: "tBTC",
        uri: "",
        seller_fee_basis_points: 0,
        is_mutable: true,
    }
}

/// The authority proposes `new_authority` as its successor.
pub fn change_authority(state: &mut Tbtc, caller: &Pubkey, new_authority: &Pubkey) -> (r: Result<
    (),
    TbtcError,
>)
    ensures
        final(state).minters == old(state).minters,
        final(state).guardians == old(state).guardians,
        match change_outcome(old(state).config.admin, *caller, *new_authority) {
            Ok(n) => r is Ok && final(state).config == (Config { admin: n, ..old(state).config }),
            Err(e) => r == Err::<(), TbtcError>(tbtc_error_of(e)) && final(state).config == old(
                state,
            ).config,
        },
{
    match state.config.admin.change_authority(caller, new_authority) {
        Ok(()) => Ok(()),
        Err(e) => Err(authority_error(e)),
    }
}

/// The authority withdraws its proposal.
pub fn cancel_authority_change(state: &mut Tbtc, caller: &Pubkey) -> (r: Result<(), TbtcError>)
    ensures
        final(state).minters == old(state).minters,
        final(state).guardians == old(state).guardians,
        match cancel_outcome(old(state).config.admin, *caller) {
            Ok(n) => r is Ok && final(state).config == (Config { admin: n, ..old(state).config }),
            Err(e) => r == Err::<(), TbtcError>(tbtc_error_of(e)) && final(state).config == old(
                state,
            ).config,
        },
{
    match state.config.admin.cancel_authority_change(caller) {
        Ok(()) => Ok(()),
        Err(e) => Err(authority_error(e)),
    }
}

/// The proposed principal takes over as authority.
pub fn take_authority(state: &mut Tbtc, caller: &Pubkey) -> (r: Result<(), TbtcError>)
    ensures
        final(state).minters == old(state).minters,
        final(state).guardians == old(state).guardians,
        match take_outcome(old(state).config.admin, *caller) {
            Ok(n) => r is Ok && final(state).config == (Config { admin: n, ..old(state).config }),
            Err(e) => r == Err::<(), TbtcError>(tbtc_error_of(e)) && final(state).config == old(
                state,
            ).config,
        },
{
    match state.config.admin.take_authority(caller) {
        Ok(()) => Ok(()),
        Err(e) => Err(authority_error(e)),
    }
}

/// The authority registers `minter`.
pub fn add_minter(state: &mut Tbtc, caller: &Pubkey, minter: &Pubkey, bump: u8) -> (r: Result<
    MinterAdded,
    TbtcError,
>)
    requires
        old(state).wf(),
        old(state).minters.keys@.len() < usize::MAX,
    ensures
        final(state).wf(),
        final(state).config == old(state).config,
        final(state).guardians == old(state).guardians,
        final(state).minters.bump == old(state).minters.bump,
        caller@ != old(state).config.admin.authority@ ==> r == Err::<MinterAdded, TbtcError>(
            TbtcError::IsNotAuthority,
        ) && final(state).minters.keys@ == old(state).minters.keys@,
        caller@ == old(state).config.admin.authority@ && has_principal(
            old(state).minters.keys@,
            minter@,
        ) ==> r == Err::<MinterAdded, TbtcError>(TbtcError::MinterAlreadyExists)
            && final(state).minters.keys@ == old(state).minters.keys@,
        caller@ == old(state).config.admin.authority@ && !has_principal(
            old(state).minters.keys@,
            minter@,
        ) ==> r == Ok::<MinterAdded, TbtcError>(MinterAdded { minter: *minter })
            && final(state).minters.keys@ == added(old(state).minters.keys@, *minter, bump),
{
    if !state.config.admin.is_authority(caller) {
        return Err(TbtcError::IsNotAuthority);
    }
    match state.minters.keys.add(minter, bump) {
        Ok(_) => Ok(MinterAdded { minter: *minter }),
        Err(_) => Err(TbtcError::MinterAlreadyExists),
    }
}

/// The authority unregisters `minter`; the last minter moves into its slot.
pub fn remove_minter(state: &mut Tbtc, caller: &Pubkey, minter: &Pubkey) -> (r: Result<
    MinterRemoved,
    TbtcError,
>)
    requires
        old(state).wf(),
    ensures
        final(state).wf(),
        final(state).config == old(state).config,
        final(state).guardians == old(state).guardians,
        final(state).minters.bump == old(state).minters.bump,
        caller@ != old(state).config.admin.authority@ ==> r == Err::<MinterRemoved, TbtcError>(
            TbtcError::IsNotAuthority,
        ) && final(state).minters.keys@ == old(state).minters.keys@,
        caller@ == old(state).config.admin.authority@ && !has_principal(
            old(state).minters.keys@,
            minter@,
        ) ==> r == Err::<MinterRemoved, TbtcError>(TbtcError::MinterNonexistent)
            && final(state).minters.keys@ == old(state).minters.keys@,
        caller@ == old(state).config.admin.authority@ && has_principal(
            old(state).minters.keys@,
            minter@,
        ) ==> (r == Ok::<MinterRemoved, TbtcError>(MinterRemoved { minter: *minter }) && exists|
            i: int,
        |
            0 <= i < old(state).minters.keys@.len() && (#[trigger] old(
                state,
            ).minters.keys@[i]).principal@ == minter@ && final(state).minters.keys@
                == swap_removed(old(state).minters.keys@, i)),
{
    if !state.config.admin.is_authority(caller) {
        return Err(TbtcError::IsNotAuthority);
    }
    match state.minters.keys.remove(minter) {
        Ok(_) => Ok(MinterRemoved { minter: *minter }),
        Err(_) => Err(TbtcError::MinterNonexistent),
    }
}

/// The authority registers `guardian`.
pub fn add_guardian(state: &mut Tbtc, caller: &Pubkey, guardian: &Pubkey, bump: u8) -> (r: Result<
    GuardianAdded,
    TbtcError,
>)
    requires
        old(state).wf(),
        old(state).guardians.keys@.len() < usize::MAX,
    ensures
        final(state).wf(),
        final(state).config == old(state).config,
        final(state).minters == old(state).minters,
        final(state).guardians.bump == old(state).guardians.bump,
        caller@ != old(state).config.admin.authority@ ==> r == Err::<GuardianAdded, TbtcError>(
            TbtcError::IsNotAuthority,
        ) && final(state).guardians.keys@ == old(state).guardians.keys@,
        caller@ == old(state).config.admin.authority@ && has_principal(
            old(state).guardians.keys@,
            guardian@,
        ) ==> r == Err::<GuardianAdded, TbtcError>(TbtcError::GuardianAlreadyExists)
            && final(state).guardians.keys@ == old(state).guardians.keys@,
        caller@ == old(state).config.admin.authority@ && !has_principal(
            old(state).guardians.keys@,
            guardian@,
        ) ==> r == Ok::<GuardianAdded, TbtcError>(GuardianAdded { guardian: *guardian })
            && final(state).guardians.keys@ == added(old(state).guardians.keys@, *guardian, bump),
{
    if !state.config.admin.is_authority(caller) {
        return Err(TbtcError::IsNotAuthority);
    }
    match state.guardians.keys.add(guardian, bump) {
        Ok(_) => Ok(GuardianAdded { guardian: *guardian }),
        Err(_) => Err(TbtcError::GuardianAlreadyExists),
    }
}

/// The authority unregisters `guardian`; the last guardian moves into its slot.
pub fn remove_guardian(state: &mut Tbtc, caller: &Pubkey, guardian: &Pubkey) -> (r: Result<
    GuardianRemoved,
    TbtcError,
>)
    requires
        old(state).wf(),
    ensures
        final(state).wf(),
        final(state).config == old(state).config,
        final(state).minters == old(state).minters,
        final(state).guardians.bump == old(state).guardians.bump,
        caller@ != old(state).config.admin.authority@ ==> r == Err::<GuardianRemoved, TbtcError>(
            TbtcError::IsNotAuthority,
        ) && final(state).guardians.keys@ == old(state).guardians.keys@,
        caller@ == old(state).config.admin.authority@ && !has_principal(
            old(state).guardians.keys@,
            guardian@,
        ) ==> r == Err::<GuardianRemoved, TbtcError>(TbtcError::GuardianNonexistent)
            && final(state).guardians.keys@ == old(state).guardians.keys@,
        caller@ == old(state).config.admin.authority@ && has_principal(
            old(state).guardians.keys@,
            guardian@,
        ) ==> (r == Ok::<GuardianRemoved, TbtcError>(GuardianRemoved { guardian: *guardian })
            && exists|i: int|
            0 <= i < old(state).guardians.keys@.len() && (#[trigger] old(
                state,
            ).guardians.keys@[i]).principal@ == guardian@ && final(state).guardians.keys@
                == swap_removed(old(state).guardians.keys@, i)),
{
    if !state.config.admin.is_authority(caller) {
        return Err(TbtcError::IsNotAuthority);
    }
    match state.guardians.keys.remove(guardian) {
        Ok(_) => Ok(GuardianRemoved { guardian: *guardian }),
        Err(_) => Err(TbtcError::GuardianNonexistent),
    }
}

/// A guardian stops all minting.
pub fn pause(state: &mut Tbtc, caller: &Pubkey) -> (r: Result<(), TbtcError>)
    requires
        old(state).wf(),
    ensures
        final(state).wf(),
        final(state).minters == old(state).minters,
        final(state).guardians == old(state).guardians,
        !has_principal(old(state).guardians.keys@, caller@) ==> r == Err::<(), TbtcError>(
            TbtcError::SignerNotGuardian,
        ) && final(state).config == old(state).config,
        has_principal(old(state).guardians.keys@, caller@) && old(state).config.paused ==> r
            == Err::<(), TbtcError>(TbtcError::IsPaused) && final(state).config == old(
            state,
        ).config,
        has_principal(old(state).guardians.keys@, caller@) && !old(state).config.paused ==> r
            is Ok && final(state).config == (Config { paused: true, ..old(state).config }),
{
    if !state.is_guardian(caller) {
        return Err(TbtcError::SignerNotGuardian);
    }
    if state.config.paused {
        return Err(TbtcError::IsPaused);
    }
    state.config.paused = true;
    Ok(())
}

/// The authority lets minting resume.
pub fn unpause(state: &mut Tbtc, caller: &Pubkey) -> (r: Result<(), TbtcError>)
    ensures
        final(state).minters == old(state).minters,
        final(state).guardians == old(state).guardians,
        caller@ != old(state).config.admin.authority@ ==> r == Err::<(), TbtcError>(
            TbtcError::IsNotAuthority,
        ) && final(state).config == old(state).config,
        caller@ == old(state).config.admin.authority@ && !old(state).config.paused ==> r == Err::<
            (),
            TbtcError,
        >(TbtcError::IsNotPaused) && final(state).config == old(state).config,
        caller@ == old(state).config.admin.authority@ && old(state).config.paused ==> r is Ok
            && final(state).config == (Config { paused: false, ..old(state).config }),
{
    if !state.config.admin.is_authority(caller) {
        return Err(TbtcError::IsNotAuthority);
    }
    if !state.config.paused {
        return Err(TbtcError::IsNotPaused);
    }
    state.config.paused = false;
    Ok(())
}

/// A minter mints `amount` of the canonical token into `recipient_token`.
/// Returns the mint for the token program to carry out.
pub fn mint(state: &Tbtc, caller: &Pubkey, recipient_token: &Pubkey, amount: u64) -> (r: Result<
    TokenAction,
    TbtcError,
>)
    requires
        state.wf(),
    ensures
        state.config.paused ==> r == Err::<TokenAction, TbtcError>(TbtcError::IsPaused),
        !state.config.paused && !has_principal(state.minters.keys@, caller@) ==> r == Err::<
            TokenAction,
            TbtcError,
        >(TbtcError::SignerNotMinter),
        !state.config.paused && has_principal(state.minters.keys@, caller@) ==> r == Ok::<
            TokenAction,
            TbtcError,
        >(TokenAction::MintTo { mint: state.config.mint, to: *recipient_token, amount }),
{
    if state.config.paused {
        return Err(TbtcError::IsPaused);
    }
    if !state.is_minter(caller) {
        return Err(TbtcError::SignerNotMinter);
    }
    Ok(TokenAction::MintTo { mint: state.config.mint, to: *recipient_token, amount })
}

} // verus!
