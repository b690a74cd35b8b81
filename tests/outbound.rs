use tbtc_bridge::error::WormholeGatewayError;
use tbtc_bridge::gateway::{self, UpdateGatewayAddressArgs, WormholeGateway, GatewayAddressUpdated, MintingLimitUpdated};
use tbtc_bridge::outbound::{
    burn_and_prepare_transfer, normalize, send_tbtc, send_tbtc_gateway, send_tbtc_wrapped, validate_send,
    BridgeTransfer, Destination, PrepareTransfer, SendTbtcGatewayArgs, SendTbtcWrappedArgs, TRUNCATION_UNIT,
    WormholeTbtcSent,
};
use tbtc_bridge::pubkey::Pubkey;
use tbtc_bridge::token::TokenAction;

fn key(b: u8) -> Pubkey {
    Pubkey::new([b; 32])
}

const ADMIN: u8 = 1;
const TBTC_MINT: u8 = 5;
const CUSTODY: u8 = 7;

fn gateway_with(limit: u64, minted: u64) -> WormholeGateway {
    let mut g = gateway::initialize(key(ADMIN), key(TBTC_MINT), key(6), key(CUSTODY), key(8), 254, 253, limit);
    g.custodian.ledger.minted_amount = minted;
    g
}

fn accounts() -> PrepareTransfer {
    PrepareTransfer { sender: key(40), sender_token: key(41), token_bridge_transfer_authority: key(42) }
}

fn wrapped(amount: u64) -> SendTbtcWrappedArgs {
    SendTbtcWrappedArgs { amount, recipient_chain: 23, recipient: [9; 32], arbiter_fee: 3, nonce: 77 }
}

#[test]
fn truncation_keeps_whole_units() {
    assert_eq!(TRUNCATION_UNIT, 10);
    assert_eq!(normalize(105), 100);
    assert_eq!(normalize(100), 100);
    assert_eq!(normalize(9), 0);
    assert_eq!(normalize(0), 0);
    assert_eq!(normalize(u64::MAX), 18_446_744_073_709_551_610);
}

#[test]
fn outbound_burns_all_and_accounts_truncated() {
    let mut g = gateway_with(1000, 500);
    let sent = send_tbtc_wrapped(&mut g, &accounts(), 1000, wrapped(105)).unwrap();
    assert_eq!(g.custodian.ledger.minted_amount, 400);
    assert_eq!(
        sent.actions,
        vec![
            TokenAction::Burn { mint: key(TBTC_MINT), from: key(41), amount: 105 },
            TokenAction::Approve { account: key(CUSTODY), delegate: key(42), amount: 100 },
        ]
    );
    assert_eq!(
        sent.event,
        WormholeTbtcSent { amount: 100, recipient_chain: 23, gateway: [0; 32], recipient: [9; 32], arbiter_fee: 3, nonce: 77 }
    );
    assert_eq!(
        sent.transfer,
        BridgeTransfer::Plain { amount: 100, target_chain: 23, recipient: [9; 32], arbiter_fee: 3, nonce: 77 }
    );
}

#[test]
fn amount_truncating_to_zero_is_refused() {
    let mut g = gateway_with(1000, 500);
    let r = send_tbtc_wrapped(&mut g, &accounts(), 1000, wrapped(5));
    assert_eq!(r.map(|s| s.event.amount), Err(WormholeGatewayError::TruncatedZeroAmount));
    assert_eq!(g.custodian.ledger.minted_amount, 500);
}

#[test]
fn request_checks_come_in_order() {
    let mut g = gateway_with(1000, 500);
    let mut args = wrapped(0);
    args.recipient = [0; 32];
    assert_eq!(send_tbtc_wrapped(&mut g, &accounts(), 1000, args).map(|s| s.event.amount), Err(WormholeGatewayError::ZeroRecipient));
    assert_eq!(send_tbtc_wrapped(&mut g, &accounts(), 1000, wrapped(0)).map(|s| s.event.amount), Err(WormholeGatewayError::ZeroAmount));
    assert_eq!(send_tbtc_wrapped(&mut g, &accounts(), 104, wrapped(105)).map(|s| s.event.amount), Err(WormholeGatewayError::NotEnoughWrappedTbtc));
    assert_eq!(g.custodian.ledger.minted_amount, 500);
}

#[test]
fn validation_errors() {
    assert_eq!(validate_send(10, &[0; 32], 5), Err(WormholeGatewayError::ZeroRecipient));
    assert_eq!(validate_send(10, &[1; 32], 0), Err(WormholeGatewayError::ZeroAmount));
    assert_eq!(validate_send(4, &[1; 32], 5), Err(WormholeGatewayError::NotEnoughWrappedTbtc));
    assert_eq!(validate_send(5, &[1; 32], 5), Ok(()));
}

#[test]
fn burning_more_than_minted_underflows() {
    let mut g = gateway_with(1000, 50);
    let r = send_tbtc_wrapped(&mut g, &accounts(), 1000, wrapped(65));
    assert_eq!(r.map(|s| s.event.amount), Err(WormholeGatewayError::MintedAmountUnderflow));
    assert_eq!(g.custodian.ledger.minted_amount, 50);
    let sent = send_tbtc_wrapped(&mut g, &accounts(), 1000, wrapped(59)).unwrap();
    assert_eq!(sent.event.amount, 50);
    assert_eq!(g.custodian.ledger.minted_amount, 0);
}

#[test]
fn burn_and_prepare_returns_truncated_amount() {
    let mut g = gateway_with(1000, 500);
    let (t, actions) = burn_and_prepare_transfer(&mut g.custodian, &accounts(), 123).unwrap();
    assert_eq!(t, 120);
    assert_eq!(actions.len(), 2);
    assert_eq!(g.custodian.ledger.minted_amount, 380);
    let r = burn_and_prepare_transfer(&mut g.custodian, &accounts(), 9);
    assert_eq!(r.map(|(t, _)| t), Err(WormholeGatewayError::TruncatedZeroAmount));
}

#[test]
fn gateway_send_needs_configured_gateway() {
    let mut g = gateway_with(1000, 500);
    let args = SendTbtcGatewayArgs { amount: 105, recipient_chain: 23, recipient: [9; 32], nonce: 4 };
    assert_eq!(send_tbtc_gateway(&mut g, &accounts(), 1000, args).map(|s| s.event.amount), Err(WormholeGatewayError::UnknownGateway));
    assert_eq!(g.custodian.ledger.minted_amount, 500);
    let update = UpdateGatewayAddressArgs { chain: 23, address: [0xab; 32] };
    assert_eq!(
        gateway::update_gateway_address(&mut g, &key(ADMIN), update, 250),
        Ok(GatewayAddressUpdated { chain: 23, gateway: [0xab; 32] })
    );
    let sent = send_tbtc_gateway(&mut g, &accounts(), 1000, args).unwrap();
    assert_eq!(g.custodian.ledger.minted_amount, 400);
    assert_eq!(
        sent.transfer,
        BridgeTransfer::WithPayload { amount: 100, target_chain: 23, target_address: [0xab; 32], payload: [9; 32], nonce: 4 }
    );
    assert_eq!(
        sent.event,
        WormholeTbtcSent { amount: 100, recipient_chain: 23, gateway: [0xab; 32], recipient: [9; 32], arbiter_fee: 0, nonce: 4 }
    );
}

#[test]
fn both_destinations_share_one_algorithm() {
    let mut g = gateway_with(1000, 500);
    let update = UpdateGatewayAddressArgs { chain: 2, address: [0xcd; 32] };
    assert!(gateway::update_gateway_address(&mut g, &key(ADMIN), update, 1).is_ok());
    let gw = send_tbtc(&mut g, &accounts(), 1000, 57, Destination::Gateway { recipient_chain: 2, recipient: [3; 32] }, 1).unwrap();
    let direct = send_tbtc(&mut g, &accounts(), 1000, 57, Destination::Direct { recipient_chain: 2, recipient: [3; 32], arbiter_fee: 0 }, 1).unwrap();
    assert_eq!(gw.actions, direct.actions);
    assert_eq!(gw.event.amount, 50);
    assert_eq!(direct.event.amount, 50);
    assert_eq!(g.custodian.ledger.minted_amount, 400);
}

#[test]
fn gateway_addresses_are_replaced_per_chain() {
    let mut g = gateway_with(1000, 0);
    let first = UpdateGatewayAddressArgs { chain: 4, address: [1; 32] };
    let second = UpdateGatewayAddressArgs { chain: 4, address: [2; 32] };
    let other = UpdateGatewayAddressArgs { chain: 5, address: [3; 32] };
    assert_eq!(
        gateway::update_gateway_address(&mut g, &key(2), first, 0),
        Err(WormholeGatewayError::IsNotAuthority)
    );
    assert_eq!(g.gateway_address(4), None);
    assert!(gateway::update_gateway_address(&mut g, &key(ADMIN), first, 0).is_ok());
    assert!(gateway::update_gateway_address(&mut g, &key(ADMIN), other, 0).is_ok());
    assert!(gateway::update_gateway_address(&mut g, &key(ADMIN), second, 0).is_ok());
    assert_eq!(g.gateways.len(), 2);
    assert_eq!(g.gateway_address(4), Some([2; 32]));
    assert_eq!(g.gateway_address(5), Some([3; 32]));
    assert_eq!(g.gateway_position(5), Some(1));
}

#[test]
fn minting_limit_updates() {
    let mut g = gateway_with(100, 80);
    assert_eq!(gateway::update_minting_limit(&mut g, &key(2), 10), Err(WormholeGatewayError::IsNotAuthority));
    assert_eq!(g.custodian.ledger.minting_limit, 100);
    assert_eq!(gateway::update_minting_limit(&mut g, &key(ADMIN), 50), Ok(MintingLimitUpdated { minting_limit: 50 }));
    assert_eq!(g.custodian.ledger.minting_limit, 50);
    assert_eq!(g.custodian.ledger.minted_amount, 80);
}
