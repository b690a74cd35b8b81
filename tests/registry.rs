use tbtc_bridge::error::TbtcError;
use tbtc_bridge::pubkey::Pubkey;
use tbtc_bridge::registry::{RegistryError, RoleRegistry};
use tbtc_bridge::tbtc::{self, GuardianAdded, GuardianRemoved, Guardians, MinterAdded, MinterRemoved, Minters};
use tbtc_bridge::token::TokenAction;

fn key(b: u8) -> Pubkey {
    Pubkey::new([b; 32])
}

#[test]
fn removed_slot_is_taken_by_last_entry() {
    let (a, b, c) = (key(1), key(2), key(3));
    let mut reg = RoleRegistry::new();
    assert_eq!(reg.add(&a, 10), Ok(0));
    assert_eq!(reg.add(&b, 11), Ok(1));
    assert_eq!(reg.add(&c, 12), Ok(2));
    let removed = reg.remove(&a).unwrap();
    assert_eq!(removed.principal, a);
    assert_eq!(removed.index, 0);
    assert_eq!(reg.len(), 2);
    let moved = reg.get(0).unwrap();
    assert_eq!(moved.principal, c);
    assert_eq!(moved.index, 0);
    assert_eq!(moved.bump, 12);
    assert_eq!(reg.index_of(&c), Some(0));
    assert_eq!(reg.index_of(&b), Some(1));
    assert!(!reg.contains(&a));
    assert!(reg.contains(&b));
    assert!(reg.contains(&c));
}

#[test]
fn removing_absent_principal_fails_untouched() {
    let (a, b, c, d) = (key(1), key(2), key(3), key(4));
    let mut reg = RoleRegistry::new();
    assert_eq!(reg.add(&a, 0), Ok(0));
    assert_eq!(reg.add(&b, 0), Ok(1));
    assert_eq!(reg.add(&c, 0), Ok(2));
    assert_eq!(reg.remove(&a).map(|e| e.index), Ok(0));
    assert_eq!(reg.remove(&d).map(|e| e.index), Err(RegistryError::Nonexistent));
    assert_eq!(reg.remove(&a).map(|e| e.index), Err(RegistryError::Nonexistent));
    assert_eq!(reg.len(), 2);
    assert_eq!(reg.get(0).unwrap().principal, c);
    assert_eq!(reg.get(1).unwrap().principal, b);
    assert!(reg.get(2).is_none());
}

#[test]
fn removing_last_entry_truncates() {
    let (a, b) = (key(1), key(2));
    let mut reg = RoleRegistry::new();
    assert_eq!(reg.add(&a, 0), Ok(0));
    assert_eq!(reg.add(&b, 0), Ok(1));
    assert_eq!(reg.remove(&b).map(|e| e.index), Ok(1));
    assert_eq!(reg.len(), 1);
    assert_eq!(reg.get(0).unwrap().principal, a);
    assert_eq!(reg.remove(&a).map(|e| e.index), Ok(0));
    assert_eq!(reg.len(), 0);
}

#[test]
fn adding_twice_fails() {
    let a = key(1);
    let mut reg = RoleRegistry::new();
    assert_eq!(reg.add(&a, 0), Ok(0));
    assert_eq!(reg.add(&a, 0), Err(RegistryError::AlreadyExists));
    assert_eq!(reg.len(), 1);
}

#[test]
fn minters_are_managed_by_authority() {
    let (admin, m1, m2, m3) = (key(1), key(2), key(3), key(4));
    let mut t = tbtc::initialize(admin, key(9), 1, 2, 3, 4);
    assert_eq!(tbtc::add_minter(&mut t, &m1, &m1, 0), Err(TbtcError::IsNotAuthority));
    assert_eq!(t.num_minters(), 0);
    assert_eq!(tbtc::add_minter(&mut t, &admin, &m1, 5), Ok(MinterAdded { minter: m1 }));
    assert_eq!(tbtc::add_minter(&mut t, &admin, &m1, 5), Err(TbtcError::MinterAlreadyExists));
    assert_eq!(tbtc::add_minter(&mut t, &admin, &m2, 6), Ok(MinterAdded { minter: m2 }));
    assert_eq!(tbtc::add_minter(&mut t, &admin, &m3, 7), Ok(MinterAdded { minter: m3 }));
    assert_eq!(t.num_minters(), 3);
    assert_eq!(tbtc::remove_minter(&mut t, &m2, &m1), Err(TbtcError::IsNotAuthority));
    assert_eq!(tbtc::remove_minter(&mut t, &admin, &m1), Ok(MinterRemoved { minter: m1 }));
    assert_eq!(tbtc::remove_minter(&mut t, &admin, &m1), Err(TbtcError::MinterNonexistent));
    assert!(!t.is_minter(&m1));
    let info = t.minter_info(&m3).unwrap();
    assert_eq!(info.minter, m3);
    assert_eq!(info.index, 0);
    assert_eq!(info.bump, 7);
    assert_eq!(t.minter_info(&m2).unwrap().index, 1);
    assert!(t.minter_info(&m1).is_none());
    assert_eq!(t.num_minters(), 2);
}

#[test]
fn guardians_are_managed_by_authority() {
    let (admin, g1, g2) = (key(1), key(2), key(3));
    let mut t = tbtc::initialize(admin, key(9), 1, 2, 3, 4);
    assert_eq!(tbtc::add_guardian(&mut t, &g1, &g1, 0), Err(TbtcError::IsNotAuthority));
    assert_eq!(tbtc::add_guardian(&mut t, &admin, &g1, 5), Ok(GuardianAdded { guardian: g1 }));
    assert_eq!(tbtc::add_guardian(&mut t, &admin, &g1, 5), Err(TbtcError::GuardianAlreadyExists));
    assert_eq!(tbtc::add_guardian(&mut t, &admin, &g2, 6), Ok(GuardianAdded { guardian: g2 }));
    assert_eq!(tbtc::remove_guardian(&mut t, &g1, &g1), Err(TbtcError::IsNotAuthority));
    assert_eq!(tbtc::remove_guardian(&mut t, &admin, &g1), Ok(GuardianRemoved { guardian: g1 }));
    assert_eq!(tbtc::remove_guardian(&mut t, &admin, &g1), Err(TbtcError::GuardianNonexistent));
    assert!(t.is_guardian(&g2));
    assert!(!t.is_guardian(&g1));
    assert_eq!(t.guardian_info(&g2).unwrap().index, 0);
    assert!(t.guardian_info(&g1).is_none());
    assert_eq!(t.num_guardians(), 1);
}

#[test]
fn guardians_pause_and_authority_unpauses() {
    let (admin, g, m, other) = (key(1), key(2), key(3), key(4));
    let mut t = tbtc::initialize(admin, key(9), 1, 2, 3, 4);
    assert_eq!(tbtc::add_guardian(&mut t, &admin, &g, 0), Ok(GuardianAdded { guardian: g }));
    assert_eq!(tbtc::add_minter(&mut t, &admin, &m, 0), Ok(MinterAdded { minter: m }));
    assert_eq!(tbtc::unpause(&mut t, &admin), Err(TbtcError::IsNotPaused));
    assert_eq!(tbtc::pause(&mut t, &other), Err(TbtcError::SignerNotGuardian));
    assert_eq!(tbtc::pause(&mut t, &admin), Err(TbtcError::SignerNotGuardian));
    assert_eq!(tbtc::pause(&mut t, &g), Ok(()));
    assert!(t.config.paused);
    assert_eq!(tbtc::pause(&mut t, &g), Err(TbtcError::IsPaused));
    assert_eq!(tbtc::mint(&t, &m, &other, 5), Err(TbtcError::IsPaused));
    assert_eq!(tbtc::unpause(&mut t, &g), Err(TbtcError::IsNotAuthority));
    assert_eq!(tbtc::unpause(&mut t, &admin), Ok(()));
    assert!(!t.config.paused);
}

#[test]
fn only_minters_mint() {
    let (admin, m, recipient) = (key(1), key(2), key(3));
    let mint = key(9);
    let mut t = tbtc::initialize(admin, mint, 1, 2, 3, 4);
    assert_eq!(tbtc::mint(&t, &m, &recipient, 5), Err(TbtcError::SignerNotMinter));
    assert_eq!(tbtc::add_minter(&mut t, &admin, &m, 0), Ok(MinterAdded { minter: m }));
    assert_eq!(
        tbtc::mint(&t, &m, &recipient, 5),
        Ok(TokenAction::MintTo { mint, to: recipient, amount: 5 })
    );
}

#[test]
fn initialized_program_is_empty_and_running() {
    let admin = key(1);
    let t = tbtc::initialize(admin, key(9), 1, 2, 3, 4);
    assert_eq!(t.config.admin.authority, admin);
    assert_eq!(t.config.admin.pending_authority, None);
    assert_eq!(t.config.mint, key(9));
    assert_eq!(t.config.bump, 1);
    assert_eq!(t.config.mint_bump, 2);
    assert_eq!(t.minters.bump, 3);
    assert_eq!(t.guardians.bump, 4);
    assert!(!t.config.paused);
    assert_eq!(t.num_minters(), 0);
    assert_eq!(t.num_guardians(), 0);
}

#[test]
fn record_sizes() {
    assert_eq!(Minters::compute_size(0), 13);
    assert_eq!(Minters::compute_size(3), 109);
    assert_eq!(Guardians::compute_size(1), 45);
}

#[test]
fn canonical_token_metadata() {
    let m = tbtc::token_metadata();
    assert_eq!(m.name, "tBTC v2");
    assert_eq!(m.symbol, "tBTC");
    assert_eq!(m.uri, "");
    assert_eq!(m.seller_fee_basis_points, 0);
    assert!(m.is_mutable);
}
