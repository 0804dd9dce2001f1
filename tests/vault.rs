use anchor_lang::solana_program::pubkey::Pubkey;
use yield_vault::identity::Identity;
use yield_vault::roles::{
    assign_role, emergency_pause, initialize_role_authority, RoleAuthority, UserRole, ROLE_TREASURY,
};
use yield_vault::vault::{
    deposit, harvest, initialize, update_settings, verify_user_role, withdraw, withdraw_fees,
    UserPosition, Vault, VaultError, TIME_LOCK_DURATION,
};

fn id(b: u8) -> Identity {
    Identity::new([b; 32])
}

fn empty_position() -> UserPosition {
    UserPosition {
        user: Identity::zero(),
        vault: Identity::zero(),
        shares: 0,
        deposit_timestamp: 0,
        total_deposited: 0,
    }
}

#[test]
fn initialize_sets_defaults() {
    let v = initialize(id(1));
    assert_eq!(v.total_assets, 0);
    assert_eq!(v.total_shares, 0);
    assert_eq!(v.strategy_allocation, 50);
    assert_eq!(v.num_users, 0);
    assert!(v.admin == id(1));
    assert_eq!(v.share_price(), 1);
    assert!(v.is_well_formed());
}

#[test]
fn first_deposit_mints_one_share_per_unit() {
    let mut v = initialize(id(1));
    let mut p = empty_position();
    assert_eq!(deposit(&mut v, &mut p, id(2), id(9), 1_000, 100), Ok(1_000));
    assert_eq!(v.total_assets, 1_000);
    assert_eq!(v.total_shares, 1_000);
    assert_eq!(v.num_users, 1);
    assert_eq!(p.shares, 1_000);
    assert_eq!(p.deposit_timestamp, 100);
    assert_eq!(p.total_deposited, 1_000);
    assert!(p.user == id(2));
    assert!(p.vault == id(9));
}

#[test]
fn later_deposit_mints_proportional_shares() {
    let mut v = initialize(id(1));
    let mut p = empty_position();
    deposit(&mut v, &mut p, id(2), id(9), 1_000, 0).unwrap();
    harvest(&mut v, id(1), 1_000).unwrap();
    // assets 1_900 over 1_000 shares: 950 * 1_000 / 1_900 = 500
    assert_eq!(v.shares_for_deposit(950), 500);
    let mut q = empty_position();
    assert_eq!(deposit(&mut v, &mut q, id(3), id(9), 950, 5), Ok(500));
    assert_eq!(v.total_assets, 2_850);
    assert_eq!(v.total_shares, 1_500);
    assert_eq!(v.num_users, 2);
    assert_eq!(v.share_price(), 1);
}

#[test]
fn deposit_errors_leave_state_unchanged() {
    let mut v = initialize(id(1));
    let mut p = empty_position();
    assert_eq!(deposit(&mut v, &mut p, id(2), id(9), 0, 0), Err(VaultError::InvalidAmount));
    deposit(&mut v, &mut p, id(2), id(9), 1_000, 0).unwrap();
    harvest(&mut v, id(1), 10_000).unwrap();
    // assets 10_000 over 1_000 shares: 5 units buy no share
    assert_eq!(deposit(&mut v, &mut p, id(2), id(9), 5, 7), Err(VaultError::InvalidShares));
    assert_eq!(v.total_assets, 10_000);
    assert_eq!(p.shares, 1_000);
    assert_eq!(p.deposit_timestamp, 0);
}

#[test]
fn deposit_overflow_is_an_error() {
    let mut v = initialize(id(1));
    v.total_assets = u64::MAX - 10;
    v.total_shares = u64::MAX - 10;
    let mut p = empty_position();
    assert_eq!(
        deposit(&mut v, &mut p, id(2), id(9), u64::MAX / 2, 0),
        Err(VaultError::OverflowError)
    );
    assert_eq!(v.total_assets, u64::MAX - 10);
    assert_eq!(p.shares, 0);
}

#[test]
fn every_deposit_restarts_the_time_lock() {
    let mut v = initialize(id(1));
    let mut p = empty_position();
    deposit(&mut v, &mut p, id(2), id(9), 1_000, 0).unwrap();
    deposit(&mut v, &mut p, id(2), id(9), 1_000, 50_000).unwrap();
    assert_eq!(p.total_deposited, 2_000);
    assert_eq!(v.num_users, 1);
    assert_eq!(withdraw(&mut v, &mut p, 10, 86_400), Err(VaultError::TimeLockActive));
    assert_eq!(withdraw(&mut v, &mut p, 10, 50_000 + 86_400), Ok(10));
}

#[test]
fn withdrawal_time_lock_boundary() {
    let mut v = initialize(id(1));
    let mut p = empty_position();
    deposit(&mut v, &mut p, id(2), id(9), 1_000, 1_000).unwrap();
    assert_eq!(TIME_LOCK_DURATION, 86_400);
    assert_eq!(withdraw(&mut v, &mut p, 400, 1_000 + 86_399), Err(VaultError::TimeLockActive));
    assert_eq!(p.shares, 1_000);
    assert_eq!(withdraw(&mut v, &mut p, 400, 1_000 + 86_400), Ok(400));
    assert_eq!(p.shares, 600);
    assert_eq!(v.total_assets, 600);
    assert_eq!(v.total_shares, 600);
}

#[test]
fn withdraw_errors() {
    let mut v = initialize(id(1));
    let mut p = empty_position();
    deposit(&mut v, &mut p, id(2), id(9), 1_000, 0).unwrap();
    assert_eq!(withdraw(&mut v, &mut p, 0, 100_000), Err(VaultError::InvalidShares));
    assert_eq!(withdraw(&mut v, &mut p, 1_001, 100_000), Err(VaultError::InsufficientBalance));
    let mut stale = p;
    stale.shares = 5_000;
    assert_eq!(withdraw(&mut v, &mut stale, 2_000, 100_000), Err(VaultError::OverflowError));
    p.deposit_timestamp = i64::MIN;
    assert_eq!(withdraw(&mut v, &mut p, 1, i64::MAX), Err(VaultError::OverflowError));
    assert_eq!(v.total_assets, 1_000);
}

#[test]
fn withdraw_pays_out_the_share_of_assets() {
    let mut v = initialize(id(1));
    let mut p = empty_position();
    deposit(&mut v, &mut p, id(2), id(9), 1_000, 0).unwrap();
    harvest(&mut v, id(1), 1_000).unwrap();
    // 1_900 assets over 1_000 shares; 300 shares redeem 570
    assert_eq!(v.assets_for_shares(300), 570);
    assert_eq!(withdraw(&mut v, &mut p, 300, 86_400), Ok(570));
    assert_eq!(v.total_assets, 1_330);
    assert_eq!(v.total_shares, 700);
    assert_eq!(withdraw(&mut v, &mut p, 700, 86_400), Ok(1_330));
    assert_eq!(v.total_assets, 0);
    assert_eq!(v.total_shares, 0);
}

#[test]
fn harvest_fee_split() {
    let mut v = initialize(id(1));
    assert_eq!(harvest(&mut v, id(1), 1_000), Ok((900, 100)));
    assert_eq!(harvest(&mut v, id(1), 7), Ok((7, 0)));
    assert_eq!(v.total_yield, 907);
    assert_eq!(v.accumulated_fees, 100);
    assert_eq!(v.total_assets, 907);
}

#[test]
fn harvest_errors() {
    let mut v = initialize(id(1));
    assert_eq!(harvest(&mut v, id(1), 0), Err(VaultError::NoYield));
    assert_eq!(harvest(&mut v, id(2), 100), Err(VaultError::Unauthorized));
    v.total_yield = u64::MAX;
    assert_eq!(harvest(&mut v, id(1), 100), Err(VaultError::OverflowError));
    assert_eq!(v.total_assets, 0);
    assert_eq!(v.accumulated_fees, 0);
}

#[test]
fn share_price_never_falls_over_deposits_and_harvests() {
    let mut v = initialize(id(1));
    let mut prices = vec![v.share_price()];
    let mut fractions: Vec<(u128, u128)> = Vec::new();
    let steps: [(bool, u64); 6] = [(false, 1_000), (true, 500), (false, 333), (false, 1), (false, 77_777), (true, 9)];
    for (i, (is_harvest, amount)) in steps.iter().enumerate() {
        let mut p = empty_position();
        if *is_harvest {
            harvest(&mut v, id(1), *amount).unwrap();
        } else {
            let _ = deposit(&mut v, &mut p, id(10 + i as u8), id(9), *amount, 0);
        }
        prices.push(v.share_price());
        fractions.push((v.total_assets as u128, v.total_shares as u128));
    }
    for w in prices.windows(2) {
        assert!(w[0] <= w[1]);
    }
    for w in fractions.windows(2) {
        let ((a1, s1), (a2, s2)) = (w[0], w[1]);
        assert!(a1 * s2 <= a2 * s1);
    }
}

#[test]
fn deposit_round_trip() {
    let mut v = initialize(id(1));
    let mut p = empty_position();
    let minted = deposit(&mut v, &mut p, id(2), id(9), 1_000, 0).unwrap();
    assert_eq!(v.assets_for_shares(minted), 1_000);
    harvest(&mut v, id(1), 500).unwrap();
    // 1_450 assets over 1_000 shares: 333 buys 229 shares, which redeem 332
    let mut q = empty_position();
    let minted = deposit(&mut v, &mut q, id(3), id(9), 333, 0).unwrap();
    assert_eq!(minted, 229);
    assert_eq!(v.assets_for_shares(minted), 332);
}

fn treasury_setup() -> (RoleAuthority, UserRole, UserRole) {
    let mut auth = RoleAuthority::uninitialized();
    let mut admin = UserRole::unassigned();
    initialize_role_authority(&mut auth, &mut admin, id(9), id(1), 0).unwrap();
    let mut treasury = UserRole::unassigned();
    assign_role(&auth, &admin, &mut treasury, id(1), id(5), ROLE_TREASURY, 0).unwrap();
    (auth, admin, treasury)
}

#[test]
fn withdraw_fees_pays_the_treasury() {
    let (auth, _admin, treasury) = treasury_setup();
    let mut v = initialize(id(1));
    harvest(&mut v, id(1), 1_000).unwrap();
    assert_eq!(withdraw_fees(&mut v, &auth, &treasury, id(5)), Ok(100));
    assert_eq!(v.accumulated_fees, 0);
    assert_eq!(v.total_assets, 900);
    assert_eq!(withdraw_fees(&mut v, &auth, &treasury, id(5)), Err(VaultError::InvalidAmount));
}

#[test]
fn withdraw_fees_is_role_gated() {
    let (mut auth, admin, treasury) = treasury_setup();
    let mut v = initialize(id(1));
    harvest(&mut v, id(1), 1_000).unwrap();
    assert_eq!(withdraw_fees(&mut v, &auth, &admin, id(1)), Err(VaultError::Unauthorized));
    assert_eq!(withdraw_fees(&mut v, &auth, &treasury, id(6)), Err(VaultError::Unauthorized));
    let mut foreign = treasury;
    foreign.vault = id(8);
    assert_eq!(withdraw_fees(&mut v, &auth, &foreign, id(5)), Err(VaultError::Unauthorized));
    let fresh = RoleAuthority::uninitialized();
    assert_eq!(
        withdraw_fees(&mut v, &fresh, &treasury, id(5)),
        Err(VaultError::RoleAuthorityNotFound)
    );
    emergency_pause(&mut auth, id(1)).unwrap();
    assert_eq!(withdraw_fees(&mut v, &auth, &treasury, id(5)), Err(VaultError::EmergencyPaused));
    assert_eq!(v.accumulated_fees, 100);
}

#[test]
fn update_settings_rules() {
    let mut v = initialize(id(1));
    assert_eq!(update_settings(&mut v, id(2), Some(10)), Err(VaultError::Unauthorized));
    assert_eq!(update_settings(&mut v, id(1), Some(101)), Err(VaultError::InvalidAllocation));
    assert_eq!(v.strategy_allocation, 50);
    assert_eq!(update_settings(&mut v, id(1), Some(100)), Ok(()));
    assert_eq!(v.strategy_allocation, 100);
    assert_eq!(update_settings(&mut v, id(1), None), Ok(()));
    assert_eq!(v.strategy_allocation, 100);
}

#[test]
fn verify_user_role_checks_owner_and_address() {
    let program = Identity::new([7u8; 32]);
    let vault_key = id(9);
    let user = id(2);
    let (expected, _) = Pubkey::find_program_address(
        &[&b"user_role"[..], &vault_key.bytes[..], &user.bytes[..]],
        &Pubkey::new_from_array(program.bytes),
    );
    let key = Identity::new(expected.to_bytes());
    assert_eq!(verify_user_role(&program, &key, &user, &vault_key, ROLE_TREASURY, ROLE_TREASURY, &program), Ok(()));
    assert_eq!(
        verify_user_role(&program, &key, &user, &vault_key, 0, ROLE_TREASURY, &program),
        Err(VaultError::Unauthorized)
    );
    assert_eq!(
        verify_user_role(&program, &key, &user, &vault_key, 3, ROLE_TREASURY, &program),
        Err(VaultError::Unauthorized)
    );
    assert_eq!(
        verify_user_role(&program, &program, &user, &vault_key, 15, ROLE_TREASURY, &program),
        Err(VaultError::Unauthorized)
    );
    assert_eq!(
        verify_user_role(&program, &key, &id(3), &vault_key, 15, ROLE_TREASURY, &program),
        Err(VaultError::Unauthorized)
    );
    assert_eq!(
        verify_user_role(&id(4), &key, &user, &vault_key, 15, ROLE_TREASURY, &program),
        Err(VaultError::Unauthorized)
    );
}

#[test]
fn empty_vault_prices_shares_one_to_one() {
    let v = initialize(id(1));
    assert_eq!(v.assets_for_shares(500), 500);
    assert_eq!(v.shares_for_deposit(500), 500);
}

#[test]
fn assets_for_shares_beyond_the_issued_shares() {
    let mut v = initialize(id(1));
    v.total_assets = 300;
    v.total_shares = 100;
    assert_eq!(v.assets_for_shares(250), 750);
    assert_eq!(v.assets_for_shares(33), 99);
}

#[test]
fn well_formedness_check() {
    let mut v: Vault = initialize(id(1));
    v.total_shares = 1;
    assert!(!v.is_well_formed());
    v.total_assets = 1;
    assert!(v.is_well_formed());
}
