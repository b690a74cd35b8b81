use tbtc_bridge::authority::{AuthorityError, AuthorityState};
use tbtc_bridge::error::{TbtcError, WormholeGatewayError};
use tbtc_bridge::gateway;
use tbtc_bridge::pubkey::Pubkey;
use tbtc_bridge::tbtc;

fn key(b: u8) -> Pubkey {
    Pubkey::new([b; 32])
}

#[test]
fn cancelled_change_cannot_be_taken() {
    let (admin, x) = (key(1), key(2));
    let mut s = AuthorityState::new(admin);
    assert_eq!(s.change_authority(&admin, &x), Ok(()));
    assert_eq!(s.pending_authority, Some(x));
    assert_eq!(s.cancel_authority_change(&admin), Ok(()));
    assert_eq!(s.pending_authority, None);
    assert_eq!(s.take_authority(&x), Err(AuthorityError::NoPendingAuthorityChange));
    assert_eq!(s.authority, admin);
}

#[test]
fn only_proposed_principal_can_take() {
    let (admin, x, y) = (key(1), key(2), key(3));
    let mut s = AuthorityState::new(admin);
    assert_eq!(s.change_authority(&admin, &x), Ok(()));
    assert_eq!(s.take_authority(&y), Err(AuthorityError::IsNotPendingAuthority));
    assert_eq!(s.authority, admin);
    assert_eq!(s.pending_authority, Some(x));
    assert_eq!(s.take_authority(&x), Ok(()));
    assert_eq!(s.authority, x);
    assert_eq!(s.pending_authority, None);
}

#[test]
fn only_authority_can_propose_or_cancel() {
    let (admin, x) = (key(1), key(2));
    let mut s = AuthorityState::new(admin);
    assert_eq!(s.change_authority(&x, &x), Err(AuthorityError::IsNotAuthority));
    assert_eq!(s.pending_authority, None);
    assert_eq!(s.cancel_authority_change(&admin), Err(AuthorityError::NoPendingAuthorityChange));
    assert_eq!(s.change_authority(&admin, &x), Ok(()));
    assert_eq!(s.cancel_authority_change(&x), Err(AuthorityError::IsNotAuthority));
    assert_eq!(s.pending_authority, Some(x));
}

#[test]
fn token_program_authority_handover() {
    let (admin, x, y) = (key(1), key(2), key(3));
    let mut t = tbtc::initialize(admin, key(9), 1, 2, 3, 4);
    assert_eq!(tbtc::take_authority(&mut t, &x), Err(TbtcError::NoPendingAuthorityChange));
    assert_eq!(tbtc::change_authority(&mut t, &y, &x), Err(TbtcError::IsNotAuthority));
    assert_eq!(tbtc::change_authority(&mut t, &admin, &x), Ok(()));
    assert_eq!(tbtc::take_authority(&mut t, &y), Err(TbtcError::IsNotPendingAuthority));
    assert_eq!(t.config.admin.authority, admin);
    assert_eq!(tbtc::cancel_authority_change(&mut t, &admin), Ok(()));
    assert_eq!(tbtc::take_authority(&mut t, &x), Err(TbtcError::NoPendingAuthorityChange));
    assert_eq!(tbtc::change_authority(&mut t, &admin, &x), Ok(()));
    assert_eq!(tbtc::take_authority(&mut t, &x), Ok(()));
    assert_eq!(t.config.admin.authority, x);
    assert_eq!(t.config.admin.pending_authority, None);
}

#[test]
fn gateway_authority_handover() {
    let (admin, x, y) = (key(1), key(2), key(3));
    let mut g = gateway::initialize(admin, key(5), key(6), key(7), key(8), 1, 2, 100);
    assert_eq!(gateway::change_authority(&mut g, &admin, &x), Ok(()));
    assert_eq!(gateway::take_authority(&mut g, &y), Err(WormholeGatewayError::IsNotPendingAuthority));
    assert_eq!(g.custodian.admin.authority, admin);
    assert_eq!(gateway::cancel_authority_change(&mut g, &admin), Ok(()));
    assert_eq!(
        gateway::cancel_authority_change(&mut g, &admin),
        Err(WormholeGatewayError::NoPendingAuthorityChange)
    );
    assert_eq!(gateway::take_authority(&mut g, &x), Err(WormholeGatewayError::NoPendingAuthorityChange));
    assert_eq!(gateway::change_authority(&mut g, &x, &x), Err(WormholeGatewayError::IsNotAuthority));
    assert_eq!(gateway::change_authority(&mut g, &admin, &x), Ok(()));
    assert_eq!(gateway::take_authority(&mut g, &x), Ok(()));
    assert_eq!(g.custodian.admin.authority, x);
}
