use vstd::prelude::*;

use crate::authority::{
    cancel_outcome, change_outcome, take_outcome, AuthorityError, AuthorityState,
};
use crate::error::WormholeGatewayError;
use crate::ledger::CustodianLedger;
use crate::pubkey::{bytes_eq, Pubkey};

verus! {

/// Chain id of the chain where the bridged token is native.
pub const TBTC_ETHEREUM_TOKEN_CHAIN: u16 = 2;

/// Address of the bridged token on its native chain, left-padded to 32 bytes.
pub const TBTC_ETHEREUM_TOKEN_ADDRESS: [u8; 32] = [
    0x0, 0x0, 0x0, 0x0, 0x0, 0x0, 0x0, 0x0, 0x0, 0x0, 0x0, 0x0, 0x18, 0x08, 0x4f, 0xba, 0x66, 0x6a,
    0x33, 0xd3, 0x75, 0x92, 0xfa, 0x26, 0x33, 0xfd, 0x49, 0xa7, 0x4d, 0xd9, 0x3a, 0x88,
];

/// The gateway's settings and its issuance ledger.
#[derive(Clone, Copy, Debug)]
pub struct Custodian {
    pub bump: u8,
    /// The gateway's authority, and the one proposed to succeed it.
    pub admin: AuthorityState,
    /// Mint of the canonical token.
    pub tbtc_mint: Pubkey,
    /// Mint of the bridged token held in custody.
    pub wrapped_tbtc_mint: Pubkey,
    /// The custody account, holding bridged tokens.
    pub wrapped_tbtc_token: Pubkey,
    pub token_bridge_sender: Pubkey,
    pub token_bridge_sender_bump: u8,
    /// Minting limit and minted amount.
    pub ledger: CustodianLedger,
}

/// The gateway contract on a remote chain.
#[derive(Clone, Copy, Debug)]
pub struct GatewayInfo {
    pub chain: u16,
    pub address: [u8; 32],
    pub bump: u8,
}

/// The whole state of the gateway: its custodian record, the configured
/// remote gateways (at most one per chain), and the ids of the inbound
/// transfers already settled.
pub struct WormholeGateway {
    pub custodian: Custodian,
    pub gateways: Vec<GatewayInfo>,
    pub claims: Vec<[u8; 32]>,
}

/// The authority set the gateway address of a chain.
#[derive(Clone, Copy, Debug, PartialEq, Eq)]
pub struct GatewayAddressUpdated {
    pub chain: u16,
    pub gateway: [u8; 32],
}

/// The authority set the minting limit.
#[derive(Clone, Copy, Debug, PartialEq, Eq)]
pub struct MintingLimitUpdated {
    pub minting_limit: u64,
}

/// Arguments of a gateway address update.
#[derive(Clone, Copy, Debug)]
pub struct UpdateGatewayAddressArgs {
    pub chain: u16,
    pub address: [u8; 32],
}

/// No chain has two gateways.
pub open spec fn gateways_wf(s: Seq<GatewayInfo>) -> bool {
    forall|i: int, j: int|
        0 <= i < s.len() && 0 <= j < s.len() && i != j ==> (#[trigger] s[i]).chain
            != (#[trigger] s[j]).chain
}

/// Whether a gateway is configured for `chain`.
pub open spec fn has_gateway(s: Seq<GatewayInfo>, chain: u16) -> bool {
    exists|i: int| 0 <= i < s.len() && (#[trigger] s[i]).chain == chain
}

/// The address of the gateway configured for `chain` (meaningful when there
/// is one).
pub open spec fn gateway_for(s: Seq<GatewayInfo>, chain: u16) -> [u8; 32] {
    s[choose|i: int| 0 <= i < s.len() && (#[trigger] s[i]).chain == chain].address
}

/// Whether the transfer with id `id` has been settled.
pub open spec fn is_claimed(claims: Seq<[u8; 32]>, id: Seq<u8>) -> bool {
    exists|i: int| 0 <= i < claims.len() && (#[trigger] claims[i])@ == id
}

/// The program error that an authority refusal is reported as.
pub open spec fn gateway_error_of(e: AuthorityError) -> WormholeGatewayError {
    match e {
        AuthorityError::IsNotAuthority => WormholeGatewayError::IsNotAuthority,
        AuthorityError::IsNotPendingAuthority => WormholeGatewayError::IsNotPendingAuthority,
        AuthorityError::NoPendingAuthorityChange => WormholeGatewayError::NoPendingAuthorityChange,
    }
}

fn authority_error(e: AuthorityError) -> (r: WormholeGatewayError)
    ensures
        r == gateway_error_of(e),
{
    match e {
        AuthorityError::IsNotAuthority => WormholeGatewayError::IsNotAuthority,
        AuthorityError::IsNotPendingAuthority => WormholeGatewayError::IsNotPendingAuthority,
        AuthorityError::NoPendingAuthorityChange => WormholeGatewayError::NoPendingAuthorityChange,
    }
}

impl WormholeGateway {
    /// The gateway table keeps one entry per chain.
    pub open spec fn wf(&self) -> bool {
        gateways_wf(self.gateways@)
    }

    /// Where the gateway for `chain` sits in the table, if there is one.
    pub fn gateway_position(&self, chain: u16) -> (r: Option<usize>)
        ensures
            r is None <==> !has_gateway(self.gateways@, chain),
            r matches Some(i) ==> i < self.gateways@.len() && self.gateways@[i as int].chain
                == chain && forall|j: int| 0 <= j < i ==> (#[trigger] self.gateways@[j]).chain
                != chain,
    {
        let mut i: usize = 0;
        while i < self.gateways.len()
            invariant
                0 <= i <= self.gateways@.len(),
                forall|j: int| 0 <= j < i ==> (#[trigger] self.gateways@[j]).chain != chain,
            decreases self.gateways@.len() - i,
        {
            if self.gateways[i].chain == chain {
                return Some(i);
            }
            i += 1;
        }
        None
    }

    /// The gateway address configured for `chain`, if any.
    pub fn gateway_address(&self, chain: u16) -> (r: Option<[u8; 32]>)
        requires
            self.wf(),
        ensures
            r is None <==> !has_gateway(self.gateways@, chain),
            r matches Some(a) ==> a == gateway_for(self.gateways@, chain),
    {
        match self.gateway_position(chain) {
            None => None,
            Some(i) => {
                let ghost s = self.gateways@;
                assert(s[i as int].chain == chain);
                let ghost j = choose|j: int| 0 <= j < s.len() && (#[trigger] s[j]).chain == chain;
                assert(i == j);
                Some(self.gateways[i].address)
            },
        }
    }

    /// Whether the transfer with id `id` has been settled.
    pub fn is_claimed(&self, id: &[u8; 32]) -> (r: bool)
        ensures
            r == is_claimed(self.claims@, id@),
    {
        let mut i: usize = 0;
        while i < self.claims.len()
            invariant
                0 <= i <= self.claims@.len(),
                forall|j: int| 0 <= j < i ==> (#[trigger] self.claims@[j])@ != id@,
            decreases self.claims@.len() - i,
        {
            if bytes_eq(&self.claims[i], id) {
                return true;
            }
            i += 1;
        }
        false
    }
}

/// Sets up the gateway: `authority` in charge, the given limit, nothing
/// minted, no gateways, nothing settled.
pub fn initialize(
    authority: Pubkey,
    tbtc_mint: Pubkey,
    wrapped_tbtc_mint: Pubkey,
    wrapped_tbtc_token: Pubkey,
    token_bridge_sender: Pubkey,
    bump: u8,
    token_bridge_sender_bump: u8,
    minting_limit: u64,
) -> (r: WormholeGateway)
    ensures
        r.wf(),
        r.custodian == (Custodian {
            bump,
            admin: AuthorityState { authority, pending_authority: None },
            tbtc_mint,
            wrapped_tbtc_mint,
            wrapped_tbtc_token,
            token_bridge_sender,
            token_bridge_sender_bump,
            ledger: CustodianLedger { minting_limit, minted_amount: 0 },
        }),
        r.gateways@.len() == 0,
        r.claims@.len() == 0,
{
    WormholeGateway {
        custodian: Custodian {
            bump,
            admin: AuthorityState::new(authority),
            tbtc_mint,
            wrapped_tbtc_mint,
            wrapped_tbtc_token,
            token_bridge_sender,
            token_bridge_sender_bump,
            ledger: CustodianLedger::new(minting_limit),
        },
        gateways: Vec::new(),
        claims: Vec::new(),
    }
}

/// The authority proposes `new_authority` as its successor.
pub fn change_authority(
    state: &mut WormholeGateway,
    caller: &Pubkey,
    new_authority: &Pubkey,
) -> (r: Result<(), WormholeGatewayError>)
    ensures
        final(state).gateways == old(state).gateways,
        final(state).claims == old(state).claims,
        match change_outcome(old(state).custodian.admin, *caller, *new_authority) {
            Ok(n) => r is Ok && final(state).custodian == (Custodian {
                admin: n,
                ..old(state).custodian
            }),
            Err(e) => r == Err::<(), WormholeGatewayError>(gateway_error_of(e))
                && final(state).custodian == old(state).custodian,
        },
{
    match state.custodian.admin.change_authority(caller, new_authority) {
        Ok(()) => Ok(()),
        Err(e) => Err(authority_error(e)),
    }
}

/// The authority withdraws its proposal.
pub fn cancel_authority_change(state: &mut WormholeGateway, caller: &Pubkey) -> (r: Result<
    (),
    WormholeGatewayError,
>)
    ensures
        final(state).gateways == old(state).gateways,
        final(state).claims == old(state).claims,
        match cancel_outcome(old(state).custodian.admin, *caller) {
            Ok(n) => r is Ok && final(state).custodian == (Custodian {
                admin: n,
                ..old(state).custodian
            }),
            Err(e) => r == Err::<(), WormholeGatewayError>(gateway_error_of(e))
                && final(state).custodian == old(state).custodian,
        },
{
    match state.custodian.admin.cancel_authority_change(caller) {
        Ok(()) => Ok(()),
        Err(e) => Err(authority_error(e)),
    }
}

/// The proposed principal takes over as authority.
pub fn take_authority(state: &mut WormholeGateway, caller: &Pubkey) -> (r: Result<
    (),
    WormholeGatewayError,
>)
    ensures
        final(state).gateways == old(state).gateways,
        final(state).claims == old(state).claims,
        match take_outcome(old(state).custodian.admin, *caller) {
            Ok(n) => r is Ok && final(state).custodian == (Custodian {
                admin: n,
                ..old(state).custodian
            }),
            Err(e) => r == Err::<(), WormholeGatewayError>(gateway_error_of(e))
                && final(state).custodian == old(state).custodian,
        },
{
    match state.custodian.admin.take_authority(caller) {
        Ok(()) => Ok(()),
        Err(e) => Err(authority_error(e)),
    }
}

/// The authority sets the minting limit. It may go below what is already
/// minted; that blocks minting without forcing a burn.
pub fn update_minting_limit(state: &mut WormholeGateway, caller: &Pubkey, new_limit: u64) -> (r:
    Result<MintingLimitUpdated, WormholeGatewayError>)
    ensures
        final(state).gateways == old(state).gateways,
        final(state).claims == old(state).claims,
        caller@ != old(state).custodian.admin.authority@ ==> r == Err::<
            MintingLimitUpdated,
            WormholeGatewayError,
        >(WormholeGatewayError::IsNotAuthority) && final(state).custodian == old(state).custodian,
        caller@ == old(state).custodian.admin.authority@ ==> r == Ok::<
            MintingLimitUpdated,
            WormholeGatewayError,
        >(MintingLimitUpdated { minting_limit: new_limit }) && final(state).custodian == (
        Custodian {
            ledger: CustodianLedger { minting_limit: new_limit, ..old(state).custodian.ledger },
            ..old(state).custodian
        }),
{
    if !state.custodian.admin.is_authority(caller) {
        return Err(WormholeGatewayError::IsNotAuthority);
    }
    state.custodian.ledger.set_limit(new_limit);
    Ok(MintingLimitUpdated { minting_limit: new_limit })
}

/// The authority sets the gateway address of a chain, replacing any earlier one.
pub fn update_gateway_address(
    state: &mut WormholeGateway,
    caller: &Pubkey,
    args: UpdateGatewayAddressArgs,
    bump: u8,
) -> (r: Result<GatewayAddressUpdated, WormholeGatewayError>)
    requires
        old(state).wf(),
        old(state).gateways@.len() < usize::MAX,
    ensures
        final(state).wf(),
        final(state).custodian == old(state).custodian,
        final(state).claims == old(state).claims,
        caller@ != old(state).custodian.admin.authority@ ==> r == Err::<
            GatewayAddressUpdated,
            WormholeGatewayError,
        >(WormholeGatewayError::IsNotAuthority) && final(state).gateways@ == old(state).gateways@,
        caller@ == old(state).custodian.admin.authority@ ==> {
            &&& r == Ok::<GatewayAddressUpdated, WormholeGatewayError>(
                GatewayAddressUpdated { chain: args.chain, gateway: args.address },
            )
            &&& has_gateway(old(state).gateways@, args.chain) ==> exists|i: int|
                0 <= i < old(state).gateways@.len() && (#[trigger] old(state).gateways@[i]).chain
                    == args.chain && final(state).gateways@ == old(state).gateways@.update(
                    i,
                    GatewayInfo { chain: args.chain, address: args.address, bump },
                )
            &&& !has_gateway(old(state).gateways@, args.chain) ==> final(state).gateways@ == old(
                state,
            ).gateways@.push(GatewayInfo { chain: args.chain, address: args.address, bump })
        },
{
    if !state.custodian.admin.is_authority(caller) {
        return Err(WormholeGatewayError::IsNotAuthority);
    }
    let info = GatewayInfo { chain: args.chain, address: args.address, bump };
    match state.gateway_position(args.chain) {
        Some(i) => {
            state.gateways.set(i, info);
        },
        None => {
            state.gateways.push(info);
        },
    }
    Ok(GatewayAddressUpdated { chain: args.chain, gateway: args.address })
}

} // verus!
