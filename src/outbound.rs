use vstd::prelude::*;

use crate::error::WormholeGatewayError;
use crate::gateway::{gateway_for, has_gateway, Custodian, WormholeGateway};
use crate::ledger::{burn_outcome, within_limit};
use crate::pubkey::{all_zero, bytes_are_zero, zero_bytes, Pubkey};
use crate::token::TokenAction;

verus! {

/// Amounts leave the chain in whole multiples of this many base units; the
/// rest of an amount stays behind as dust.
pub const TRUNCATION_UNIT: u64 = 10;

/// Where an outbound transfer goes.
#[derive(Clone, Copy, Debug)]
pub enum Destination {
    /// To the gateway configured for `recipient_chain`, which hands the tokens
    /// to `recipient`, named in the message payload.
    Gateway { recipient_chain: u16, recipient: [u8; 32] },
    /// Straight to `recipient`; a relayer may keep `arbiter_fee`.
    Direct { recipient_chain: u16, recipient: [u8; 32], arbiter_fee: u64 },
}

/// The transfer that the token bridge is asked to publish.
#[derive(Clone, Copy, Debug, PartialEq, Eq)]
pub enum BridgeTransfer {
    /// To `target_address` on `target_chain`, carrying `payload`.
    WithPayload {
        amount: u64,
        target_chain: u16,
        target_address: [u8; 32],
        payload: [u8; 32],
        nonce: u32,
    },
    /// To `recipient` on `target_chain`, less a relayer's `arbiter_fee`.
    Plain { amount: u64, target_chain: u16, recipient: [u8; 32], arbiter_fee: u64, nonce: u32 },
}

/// An outbound transfer was made.
#[derive(Clone, Copy, Debug, PartialEq, Eq)]
pub struct WormholeTbtcSent {
    pub amount: u64,
    pub recipient_chain: u16,
    /// The gateway the transfer went through; zero for a direct transfer.
    pub gateway: [u8; 32],
    pub recipient: [u8; 32],
    pub arbiter_fee: u64,
    pub nonce: u32,
}

/// The accounts that an outbound transfer touches.
#[derive(Clone, Copy, Debug)]
pub struct PrepareTransfer {
    /// The sender, who signs.
    pub sender: Pubkey,
    /// The sender's account for the canonical token.
    pub sender_token: Pubkey,
    /// The token bridge's authority to move custody tokens.
    pub token_bridge_transfer_authority: Pubkey,
}

/// What an outbound transfer does: its event, its token movements, and the
/// transfer handed to the bridge.
#[derive(Debug)]
pub struct SentTransfer {
    pub event: WormholeTbtcSent,
    pub actions: Vec<TokenAction>,
    pub transfer: BridgeTransfer,
}

/// Arguments of a transfer through a remote gateway.
#[derive(Clone, Copy, Debug)]
pub struct SendTbtcGatewayArgs {
    pub amount: u64,
    pub recipient_chain: u16,
    pub recipient: [u8; 32],
    pub nonce: u32,
}

/// Arguments of a direct transfer.
#[derive(Clone, Copy, Debug)]
pub struct SendTbtcWrappedArgs {
    pub amount: u64,
    pub recipient_chain: u16,
    pub recipient: [u8; 32],
    pub arbiter_fee: u64,
    pub nonce: u32,
}

/// `amount` rounded down to a multiple of the truncation unit.
pub open spec fn truncated(amount: u64) -> u64 {
    ((amount / TRUNCATION_UNIT) * TRUNCATION_UNIT) as u64
}

/// The first check of an outbound request that fails.
pub open spec fn send_validation(custody_balance: u64, recipient: Seq<u8>, amount: u64) -> Option<
    WormholeGatewayError,
> {
    if all_zero(recipient) {
        Some(WormholeGatewayError::ZeroRecipient)
    } else if amount == 0 {
        Some(WormholeGatewayError::ZeroAmount)
    } else if custody_balance < amount {
        Some(WormholeGatewayError::NotEnoughWrappedTbtc)
    } else {
        None
    }
}

pub open spec fn destination_chain(d: Destination) -> u16 {
    match d {
        Destination::Gateway { recipient_chain, .. } => recipient_chain,
        Destination::Direct { recipient_chain, .. } => recipient_chain,
    }
}

pub open spec fn destination_recipient(d: Destination) -> [u8; 32] {
    match d {
        Destination::Gateway { recipient, .. } => recipient,
        Destination::Direct { recipient, .. } => recipient,
    }
}

/// The first check of a send that fails, in order: the request, the
/// destination's gateway, truncation, and the ledger.
pub open spec fn send_check(
    state: WormholeGateway,
    custody_balance: u64,
    amount: u64,
    destination: Destination,
) -> Option<WormholeGatewayError> {
    let recipient = destination_recipient(destination);
    if send_validation(custody_balance, recipient@, amount) is Some {
        send_validation(custody_balance, recipient@, amount)
    } else if destination is Gateway && !has_gateway(
        state.gateways@,
        destination_chain(destination),
    ) {
        Some(WormholeGatewayError::UnknownGateway)
    } else if truncated(amount) == 0 {
        Some(WormholeGatewayError::TruncatedZeroAmount)
    } else if truncated(amount) > state.custodian.ledger.minted_amount {
        Some(WormholeGatewayError::MintedAmountUnderflow)
    } else {
        None
    }
}

/// The token movements of an outbound transfer: the whole amount is burned,
/// and the bridge may move the truncated amount out of custody.
pub open spec fn send_actions(c: Custodian, accounts: PrepareTransfer, amount: u64) -> Seq<
    TokenAction,
> {
    seq![
        TokenAction::Burn { mint: c.tbtc_mint, from: accounts.sender_token, amount },
        TokenAction::Approve {
            account: c.wrapped_tbtc_token,
            delegate: accounts.token_bridge_transfer_authority,
            amount: truncated(amount),
        },
    ]
}

/// `amount` rounded down to a multiple of the truncation unit.
pub fn normalize(amount: u64) -> (r: u64)
    ensures
        r == truncated(amount),
        r <= amount,
        amount - r < TRUNCATION_UNIT,
        r % TRUNCATION_UNIT == 0,
{
    TRUNCATION_UNIT * (amount / TRUNCATION_UNIT)
}

/// Checks an outbound request: a recipient, an amount, and enough in custody.
pub fn validate_send(custody_balance: u64, recipient: &[u8; 32], amount: u64) -> (r: Result<
    (),
    WormholeGatewayError,
>)
    ensures
        send_validation(custody_balance, recipient@, amount) matches Some(e) ==> r == Err::<
            (),
            WormholeGatewayError,
        >(e),
        send_validation(custody_balance, recipient@, amount) is None ==> r is Ok,
{
    if bytes_are_zero(recipient) {
        return Err(WormholeGatewayError::ZeroRecipient);
    }
    if amount == 0 {
        return Err(WormholeGatewayError::ZeroAmount);
    }
    if custody_balance < amount {
        return Err(WormholeGatewayError::NotEnoughWrappedTbtc);
    }
    Ok(())
}

/// Burns the sender's `amount`, takes the truncated amount off the ledger,
/// and lets the bridge move that much out of custody. The dust stays in
/// custody. Fails when the amount truncates to zero or exceeds what was
/// minted; a failure changes nothing. Returns the truncated amount.
pub fn burn_and_prepare_transfer(
    custodian: &mut Custodian,
    accounts: &PrepareTransfer,
    amount: u64,
) -> (r: Result<(u64, Vec<TokenAction>), WormholeGatewayError>)
    ensures
        truncated(amount) == 0 ==> r == Err::<(u64, Vec<TokenAction>), WormholeGatewayError>(
            WormholeGatewayError::TruncatedZeroAmount,
        ) && *final(custodian) == *old(custodian),
        truncated(amount) != 0 ==> match burn_outcome(old(custodian).ledger, truncated(amount)) {
            Err(e) => r == Err::<(u64, Vec<TokenAction>), WormholeGatewayError>(e)
                && *final(custodian) == *old(custodian),
            Ok(n) => r matches Ok((t, actions)) && t == truncated(amount) && actions@
                == send_actions(*old(custodian), *accounts, amount) && *final(custodian) == (
            Custodian { ledger: n, ..*old(custodian) }),
        },
{
    let truncated = normalize(amount);
    if truncated == 0 {
        return Err(WormholeGatewayError::TruncatedZeroAmount);
    }
    match custodian.ledger.record_burn(truncated) {
        Err(e) => Err(e),
        Ok(()) => {
            let mut actions: Vec<TokenAction> = Vec::new();
            actions.push(
                TokenAction::Burn { mint: custodian.tbtc_mint, from: accounts.sender_token, amount },
            );
            actions.push(
                TokenAction::Approve {
                    account: custodian.wrapped_tbtc_token,
                    delegate: accounts.token_bridge_transfer_authority,
                    amount: truncated,
                },
            );
            assert(actions@ =~= send_actions(*old(custodian), *accounts, amount));
            Ok((truncated, actions))
        },
    }
}

/// What a send of `amount` to `destination` returns and leaves behind, from
/// state `pre` to state `post`: a ledger within its limit stays so; on a
/// failed check, that error and nothing changed; otherwise the truncated amount off the ledger, the whole amount
/// burned, and the event and bridge transfer that `destination` calls for.
pub open spec fn send_result(
    pre: WormholeGateway,
    post: WormholeGateway,
    accounts: PrepareTransfer,
    custody_balance: u64,
    amount: u64,
    destination: Destination,
    nonce: u32,
    r: Result<SentTransfer, WormholeGatewayError>,
) -> bool {
    &&& post.gateways == pre.gateways
    &&& post.claims == pre.claims
    &&& within_limit(pre.custodian.ledger) ==> within_limit(post.custodian.ledger)
    &&& send_check(pre, custody_balance, amount, destination) matches Some(e) ==> r == Err::<
        SentTransfer,
        WormholeGatewayError,
    >(e) && post.custodian == pre.custodian
    &&& send_check(pre, custody_balance, amount, destination) is None ==> (r matches Ok(sent) && {
        let t = truncated(amount);
        &&& post.custodian == (Custodian {
            ledger: burn_outcome(pre.custodian.ledger, t)->Ok_0,
            ..pre.custodian
        })
        &&& sent.actions@ == send_actions(pre.custodian, accounts, amount)
        &&& sent.event.amount == t
        &&& sent.event.recipient_chain == destination_chain(destination)
        &&& sent.event.recipient == destination_recipient(destination)
        &&& sent.event.nonce == nonce
        &&& match destination {
            Destination::Gateway { recipient_chain, recipient } => {
                let gateway = gateway_for(pre.gateways@, recipient_chain);
                &&& sent.event.gateway == gateway
                &&& sent.event.arbiter_fee == 0
                &&& sent.transfer == BridgeTransfer::WithPayload {
                    amount: t,
                    target_chain: recipient_chain,
                    target_address: gateway,
                    payload: recipient,
                    nonce,
                }
            },
            Destination::Direct { recipient_chain, recipient, arbiter_fee } => {
                &&& sent.event.gateway@ == zero_bytes()
                &&& sent.event.arbiter_fee == arbiter_fee
                &&& sent.transfer == BridgeTransfer::Plain {
                    amount: t,
                    target_chain: recipient_chain,
                    recipient,
                    arbiter_fee,
                    nonce,
                }
            },
        }
    })
}

/// Sends `amount` canonical tokens out of the chain, to a remote gateway or
/// straight to a recipient: checks the request, burns the whole amount,
/// takes the truncated amount off the ledger, lets the bridge move that much
/// out of custody, and describes the transfer for the bridge to publish.
pub fn send_tbtc(
    state: &mut WormholeGateway,
    accounts: &PrepareTransfer,
    custody_balance: u64,
    amount: u64,
    destination: Destination,
    nonce: u32,
) -> (r: Result<SentTransfer, WormholeGatewayError>)
    requires
        old(state).wf(),
    ensures
        final(state).wf(),
        send_result(
            *old(state),
            *final(state),
            *accounts,
            custody_balance,
            amount,
            destination,
            nonce,
            r,
        ),
{
    let (recipient_chain, recipient) = match destination {
        Destination::Gateway { recipient_chain, recipient } => (recipient_chain, recipient),
        Destination::Direct { recipient_chain, recipient, .. } => (recipient_chain, recipient),
    };
    match validate_send(custody_balance, &recipient, amount) {
        Err(e) => return Err(e),
        Ok(()) => {},
    }
    let gateway = match destination {
        Destination::Gateway { .. } => match state.gateway_address(recipient_chain) {
            None => return Err(WormholeGatewayError::UnknownGateway),
            Some(a) => a,
        },
        Destination::Direct { .. } => [0u8; 32],
    };
    let (t, actions) = match burn_and_prepare_transfer(&mut state.custodian, accounts, amount) {
        Err(e) => return Err(e),
        Ok(done) => done,
    };
    let (arbiter_fee, transfer) = match destination {
        Destination::Gateway { .. } => (
            0u64,
            BridgeTransfer::WithPayload {
                amount: t,
                target_chain: recipient_chain,
                target_address: gateway,
                payload: recipient,
                nonce,
            },
        ),
        Destination::Direct { arbiter_fee, .. } => (
            arbiter_fee,
            BridgeTransfer::Plain {
                amount: t,
                target_chain: recipient_chain,
                recipient,
                arbiter_fee,
                nonce,
            },
        ),
    };
    assert(destination is Direct ==> gateway@ =~= zero_bytes());
    let event = WormholeTbtcSent {
        amount: t,
        recipient_chain,
        gateway,
        recipient,
        arbiter_fee,
        nonce,
    };
    Ok(SentTransfer { event, actions, transfer })
}

/// Sends through the gateway configured for the destination chain, with the
/// recipient carried in the message.
pub fn send_tbtc_gateway(
    state: &mut WormholeGateway,
    accounts: &PrepareTransfer,
    custody_balance: u64,
    args: SendTbtcGatewayArgs,
) -> (r: Result<SentTransfer, WormholeGatewayError>)
    requires
        old(state).wf(),
    ensures
        final(state).wf(),
        send_result(
            *old(state),
            *final(state),
            *accounts,
            custody_balance,
            args.amount,
            Destination::Gateway { recipient_chain: args.recipient_chain, recipient: args.recipient },
            args.nonce,
            r,
        ),
{
    send_tbtc(
        state,
        accounts,
        custody_balance,
        args.amount,
        Destination::Gateway { recipient_chain: args.recipient_chain, recipient: args.recipient },
        args.nonce,
    )
}

/// Sends straight to the recipient, who may pay a relayer `arbiter_fee`.
pub fn send_tbtc_wrapped(
    state: &mut WormholeGateway,
    accounts: &PrepareTransfer,
    custody_balance: u64,
    args: SendTbtcWrappedArgs,
) -> (r: Result<SentTransfer, WormholeGatewayError>)
    requires
        old(state).wf(),
    ensures
        final(state).wf(),
        send_result(
            *old(state),
            *final(state),
            *accounts,
            custody_balance,
            args.amount,
            Destination::Direct {
                recipient_chain: args.recipient_chain,
                recipient: args.recipient,
                arbiter_fee: args.arbiter_fee,
            },
            args.nonce,
            r,
        ),
{
    send_tbtc(
        state,
        accounts,
        custody_balance,
        args.amount,
        Destination::Direct {
            recipient_chain: args.recipient_chain,
            recipient: args.recipient,
            arbiter_fee: args.arbiter_fee,
        },
        args.nonce,
    )
}

} // verus!
