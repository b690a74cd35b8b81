use vstd::prelude::*;

use crate::error::WormholeGatewayError;
use crate::gateway::{
    is_claimed, Custodian, WormholeGateway, TBTC_ETHEREUM_TOKEN_ADDRESS,
    TBTC_ETHEREUM_TOKEN_CHAIN,
};
use crate::ledger::{mint_outcome, within_limit, CustodianLedger};
use crate::pubkey::{all_zero, bytes_eq, Pubkey};
use crate::token::TokenAction;

verus! {

/// How an inbound transfer reached its recipient.
#[derive(Clone, Copy, Debug, PartialEq, Eq, Structural)]
pub enum ReceivePath {
    /// Canonical tokens were minted to the recipient.
    Minted,
    /// The minting limit would have been passed, so the bridged tokens were
    /// handed over from custody instead.
    Forwarded,
}

/// An inbound transfer was settled.
#[derive(Clone, Copy, Debug, PartialEq, Eq)]
pub struct WormholeTbtcReceived {
    pub receiver: Pubkey,
    pub amount: u64,
    pub path: ReceivePath,
}

/// Bridged tokens were exchanged for canonical ones.
#[derive(Clone, Copy, Debug, PartialEq, Eq)]
pub struct WormholeTbtcDeposited {
    pub depositor: Pubkey,
    pub amount: u64,
}

/// A verified inbound transfer, with the recipient's token accounts.
#[derive(Clone, Copy, Debug)]
pub struct ReceiveTbtc {
    /// Unique id of the transfer message.
    pub message_hash: [u8; 32],
    /// Native chain and address of the transferred token.
    pub token_chain: u16,
    pub token_address: [u8; 32],
    pub amount: u64,
    /// The recipient named in the message.
    pub recipient: Pubkey,
    /// The recipient's account for the canonical token.
    pub recipient_token: Pubkey,
    /// The recipient's associated account for the bridged token.
    pub recipient_wrapped_token: Pubkey,
    /// Whether that associated account exists yet.
    pub recipient_wrapped_token_exists: bool,
}

/// The accounts of a deposit of bridged tokens.
#[derive(Clone, Copy, Debug)]
pub struct DepositWormholeTbtc {
    /// The depositor, who signs.
    pub recipient: Pubkey,
    /// The depositor's account for the bridged token.
    pub recipient_wrapped_token: Pubkey,
    /// The depositor's account for the canonical token.
    pub recipient_token: Pubkey,
}

/// Whether `(chain, address)` names the bridged token this gateway accepts.
pub open spec fn is_canonical_asset(chain: u16, address: Seq<u8>) -> bool {
    chain == TBTC_ETHEREUM_TOKEN_CHAIN && address == TBTC_ETHEREUM_TOKEN_ADDRESS@
}

/// The first check that an inbound transfer fails, given the settled ids.
pub open spec fn receive_check(claims: Seq<[u8; 32]>, t: ReceiveTbtc) -> Option<
    WormholeGatewayError,
> {
    if !is_canonical_asset(t.token_chain, t.token_address@) {
        Some(WormholeGatewayError::InvalidEthereumTbtc)
    } else if t.amount == 0 {
        Some(WormholeGatewayError::NoTbtcTransferred)
    } else if all_zero(t.recipient@) {
        Some(WormholeGatewayError::RecipientZeroAddress)
    } else if is_claimed(claims, t.message_hash@) {
        Some(WormholeGatewayError::TransferAlreadyRedeemed)
    } else {
        None
    }
}

/// Whether the ledger can take `amount` more: the choice between the paths.
pub open spec fn mints(l: CustodianLedger, amount: u64) -> bool {
    l.minted_amount + amount <= l.minting_limit
}

/// The token movements that settle `t` along the chosen path.
pub open spec fn receive_actions(c: Custodian, t: ReceiveTbtc, minted: bool) -> Seq<TokenAction> {
    if minted {
        seq![TokenAction::MintTo { mint: c.tbtc_mint, to: t.recipient_token, amount: t.amount }]
    } else {
        let transfer = TokenAction::Transfer {
            from: c.wrapped_tbtc_token,
            to: t.recipient_wrapped_token,
            amount: t.amount,
        };
        if t.recipient_wrapped_token_exists {
            seq![transfer]
        } else {
            seq![
                TokenAction::CreateAssociatedAccount {
                    account: t.recipient_wrapped_token,
                    owner: t.recipient,
                    mint: c.wrapped_tbtc_mint,
                },
                transfer,
            ]
        }
    }
}

/// Once a transfer has been settled, settling any transfer with the same id
/// fails as a replay, whatever else it carries.
pub proof fn lemma_settled_transfer_replays(
    claims: Seq<[u8; 32]>,
    first: ReceiveTbtc,
    again: ReceiveTbtc,
)
    requires
        receive_check(claims, first) is None,
        again.message_hash@ == first.message_hash@,
        is_canonical_asset(again.token_chain, again.token_address@),
        again.amount > 0,
        !all_zero(again.recipient@),
    ensures
        receive_check(claims.push(first.message_hash), again) == Some(
            WormholeGatewayError::TransferAlreadyRedeemed,
        ),
{
    let after = claims.push(first.message_hash);
    assert(after[claims.len() as int]@ == again.message_hash@);
}

/// Whether `(chain, address)` names the accepted bridged token.
pub fn is_tbtc_ethereum_token(chain: u16, address: &[u8; 32]) -> (r: bool)
    ensures
        r == is_canonical_asset(chain, address@),
{
    chain == TBTC_ETHEREUM_TOKEN_CHAIN && bytes_eq(address, &TBTC_ETHEREUM_TOKEN_ADDRESS)
}

/// Settles a verified inbound transfer, at most once per message id.
///
/// If the minted amount plus the transfer's amount stays within the limit,
/// the ledger records the mint and canonical tokens go to the recipient;
/// otherwise the ledger is left alone and the bridged tokens are handed over
/// from custody, creating the recipient's account if needed. Either way the
/// id is recorded as settled in the same step. A failure changes nothing.
pub fn receive_tbtc(state: &mut WormholeGateway, t: &ReceiveTbtc) -> (r: Result<
    (WormholeTbtcReceived, Vec<TokenAction>),
    WormholeGatewayError,
>)
    ensures
        final(state).gateways == old(state).gateways,
        within_limit(old(state).custodian.ledger) ==> within_limit(final(state).custodian.ledger),
        receive_check(old(state).claims@, *t) matches Some(e) ==> r == Err::<
            (WormholeTbtcReceived, Vec<TokenAction>),
            WormholeGatewayError,
        >(e) && final(state).custodian == old(state).custodian && final(state).claims@ == old(
            state,
        ).claims@,
        receive_check(old(state).claims@, *t) is None ==> (r matches Ok((event, actions)) && {
            let minted = mints(old(state).custodian.ledger, t.amount);
            &&& event.receiver == t.recipient
            &&& event.amount == t.amount
            &&& event.path == (if minted {
                ReceivePath::Minted
            } else {
                ReceivePath::Forwarded
            })
            &&& actions@ == receive_actions(old(state).custodian, *t, minted)
            &&& final(state).claims@ == old(state).claims@.push(t.message_hash)
            &&& is_claimed(final(state).claims@, t.message_hash@)
            &&& minted ==> final(state).custodian == (Custodian {
                ledger: mint_outcome(old(state).custodian.ledger, t.amount)->Ok_0,
                ..old(state).custodian
            })
            &&& !minted ==> final(state).custodian == old(state).custodian
        }),
{
    if !is_tbtc_ethereum_token(t.token_chain, &t.token_address) {
        return Err(WormholeGatewayError::InvalidEthereumTbtc);
    }
    if t.amount == 0 {
        return Err(WormholeGatewayError::NoTbtcTransferred);
    }
    if t.recipient.is_zero() {
        return Err(WormholeGatewayError::RecipientZeroAddress);
    }
    if state.is_claimed(&t.message_hash) {
        return Err(WormholeGatewayError::TransferAlreadyRedeemed);
    }
    // The id is recorded before the decision, in the same step.
    state.claims.push(t.message_hash);

    let c = state.custodian;
    let mut actions: Vec<TokenAction> = Vec::new();
    let path = if state.custodian.ledger.can_mint(t.amount) {
        let recorded = state.custodian.ledger.record_mint(t.amount);
        assert(recorded is Ok);
        actions.push(TokenAction::MintTo { mint: c.tbtc_mint, to: t.recipient_token, amount: t.amount });
        ReceivePath::Minted
    } else {
        if !t.recipient_wrapped_token_exists {
            actions.push(
                TokenAction::CreateAssociatedAccount {
                    account: t.recipient_wrapped_token,
                    owner: t.recipient,
                    mint: c.wrapped_tbtc_mint,
                },
            );
        }
        actions.push(
            TokenAction::Transfer {
                from: c.wrapped_tbtc_token,
                to: t.recipient_wrapped_token,
                amount: t.amount,
            },
        );
        ReceivePath::Forwarded
    };
    assert(actions@ =~= receive_actions(c, *t, mints(c.ledger, t.amount)));
    assert(state.claims@[state.claims@.len() - 1]@ == t.message_hash@);
    Ok((WormholeTbtcReceived { receiver: t.recipient, amount: t.amount, path }, actions))
}

/// Exchanges `amount` bridged tokens of the depositor for as many canonical
/// tokens, within the minting limit: the bridged tokens go into custody, the
/// ledger records the mint, and canonical tokens go to the depositor. A
/// failure changes nothing.
pub fn deposit_wormhole_tbtc(
    state: &mut WormholeGateway,
    accounts: &DepositWormholeTbtc,
    amount: u64,
) -> (r: Result<(WormholeTbtcDeposited, Vec<TokenAction>), WormholeGatewayError>)
    ensures
        final(state).gateways == old(state).gateways,
        final(state).claims == old(state).claims,
        within_limit(old(state).custodian.ledger) ==> within_limit(final(state).custodian.ledger),
        match mint_outcome(old(state).custodian.ledger, amount) {
            Err(e) => r == Err::<(WormholeTbtcDeposited, Vec<TokenAction>), WormholeGatewayError>(
                e,
            ) && final(state).custodian == old(state).custodian,
            Ok(n) => r matches Ok((event, actions)) && event.depositor == accounts.recipient
                && event.amount == amount && actions@ == seq![
                TokenAction::Transfer {
                    from: accounts.recipient_wrapped_token,
                    to: old(state).custodian.wrapped_tbtc_token,
                    amount,
                },
                TokenAction::MintTo {
                    mint: old(state).custodian.tbtc_mint,
                    to: accounts.recipient_token,
                    amount,
                },
            ] && final(state).custodian == (Custodian { ledger: n, ..old(state).custodian }),
        },
{
    match state.custodian.ledger.record_mint(amount) {
        Err(e) => Err(e),
        Ok(()) => {
            let mut actions: Vec<TokenAction> = Vec::new();
            actions.push(
                TokenAction::Transfer {
                    from: accounts.recipient_wrapped_token,
                    to: state.custodian.wrapped_tbtc_token,
                    amount,
                },
            );
            actions.push(
                TokenAction::MintTo {
                    mint: state.custodian.tbtc_mint,
                    to: accounts.recipient_token,
                    amount,
                },
            );
            Ok((WormholeTbtcDeposited { depositor: accounts.recipient, amount }, actions))
        },
    }
}

} // verus!
