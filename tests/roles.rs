use yield_vault::identity::Identity;
use yield_vault::roles::{
    assign_role, emergency_pause, has_any_role, has_role, initialize_role_authority,
    is_valid_role, revoke_role, RbacError, RoleAuthority, UserRole, ROLE_ADMIN,
    ROLE_REGULAR_USER, ROLE_STRATEGY_MANAGER, ROLE_TREASURY,
};

fn id(b: u8) -> Identity {
    Identity::new([b; 32])
}

fn setup() -> (RoleAuthority, UserRole) {
    let mut auth = RoleAuthority::uninitialized();
    let mut admin = UserRole::unassigned();
    assert_eq!(initialize_role_authority(&mut auth, &mut admin, id(9), id(1), 42), Ok(()));
    (auth, admin)
}

#[test]
fn initializer_becomes_super_admin() {
    let (auth, admin) = setup();
    assert!(auth.initialized);
    assert!(!auth.emergency_pause);
    assert!(auth.super_admin == id(1));
    assert!(auth.vault == id(9));
    assert_eq!(admin.roles, ROLE_ADMIN);
    assert_eq!(admin.assigned_at, 42);
    assert!(admin.user == id(1));
    assert_eq!(has_role(&auth, &admin, ROLE_ADMIN), Ok(true));
    assert_eq!(has_role(&auth, &admin, ROLE_TREASURY), Ok(false));
}

#[test]
fn second_initialization_fails() {
    let (mut auth, mut admin) = setup();
    assert_eq!(
        initialize_role_authority(&mut auth, &mut admin, id(8), id(2), 50),
        Err(RbacError::AlreadyInitialized)
    );
    assert!(auth.super_admin == id(1));
    assert_eq!(admin.assigned_at, 42);
}

#[test]
fn super_admin_admin_bit_cannot_be_revoked() {
    let (auth, admin) = setup();
    let mut other = UserRole::unassigned();
    assign_role(&auth, &admin, &mut other, id(1), id(2), ROLE_ADMIN, 1).unwrap();
    let mut target = admin;
    assert_eq!(
        revoke_role(&auth, &admin, &mut target, id(1), id(1), ROLE_ADMIN, 2),
        Err(RbacError::CannotRevokeSuperAdmin)
    );
    assert_eq!(
        revoke_role(&auth, &other, &mut target, id(2), id(1), ROLE_ADMIN | ROLE_TREASURY, 2),
        Err(RbacError::CannotRevokeSuperAdmin)
    );
    assert_eq!(target.roles, ROLE_ADMIN);
    assert_eq!(target.assigned_at, 42);
    // other bits of the super-admin can still be revoked
    assign_role(&auth, &admin, &mut target, id(1), id(1), ROLE_TREASURY, 3).unwrap();
    assert_eq!(revoke_role(&auth, &other, &mut target, id(2), id(1), ROLE_TREASURY, 4), Ok(()));
    assert_eq!(target.roles, ROLE_ADMIN);
}

#[test]
fn assign_then_revoke_other_bit_keeps_unrelated_bits() {
    let (auth, admin) = setup();
    let mut user = UserRole::unassigned();
    assert_eq!(assign_role(&auth, &admin, &mut user, id(1), id(3), ROLE_REGULAR_USER, 5), Ok(()));
    assert!(user.user == id(3));
    assert!(user.vault == id(9));
    assert_eq!(
        assign_role(&auth, &admin, &mut user, id(1), id(3), ROLE_STRATEGY_MANAGER | ROLE_TREASURY, 6),
        Ok(())
    );
    assert_eq!(user.roles, 13);
    assert_eq!(revoke_role(&auth, &admin, &mut user, id(1), id(3), ROLE_TREASURY, 7), Ok(()));
    assert_eq!(user.roles, ROLE_REGULAR_USER | ROLE_STRATEGY_MANAGER);
    assert_eq!(user.assigned_at, 7);
    assert!(user.assigned_by == id(1));
    assert_eq!(has_role(&auth, &user, ROLE_STRATEGY_MANAGER), Ok(true));
    assert_eq!(has_role(&auth, &user, ROLE_TREASURY), Ok(false));
}

#[test]
fn pause_suppresses_role_checks() {
    let (mut auth, admin) = setup();
    assert_eq!(emergency_pause(&mut auth, id(1)), Ok(()));
    assert!(auth.emergency_pause);
    assert_eq!(has_role(&auth, &admin, ROLE_ADMIN), Ok(false));
    assert_eq!(admin.roles, ROLE_ADMIN);
    assert_eq!(emergency_pause(&mut auth, id(1)), Ok(()));
    assert_eq!(has_role(&auth, &admin, ROLE_ADMIN), Ok(true));
}

#[test]
fn pause_blocks_changes_and_only_super_admin_toggles() {
    let (mut auth, admin) = setup();
    assert_eq!(emergency_pause(&mut auth, id(2)), Err(RbacError::Unauthorized));
    assert!(!auth.emergency_pause);
    emergency_pause(&mut auth, id(1)).unwrap();
    let mut user = UserRole::unassigned();
    assert_eq!(
        assign_role(&auth, &admin, &mut user, id(1), id(3), ROLE_TREASURY, 1),
        Err(RbacError::EmergencyPaused)
    );
    assert_eq!(
        revoke_role(&auth, &admin, &mut user, id(1), id(3), ROLE_TREASURY, 1),
        Err(RbacError::EmergencyPaused)
    );
    assert_eq!(user.roles, 0);
}

#[test]
fn uninitialized_authority() {
    let mut auth = RoleAuthority::uninitialized();
    let record = UserRole::unassigned();
    let mut user = UserRole::unassigned();
    assert_eq!(has_role(&auth, &record, ROLE_ADMIN), Err(RbacError::NotInitialized));
    assert_eq!(
        assign_role(&auth, &record, &mut user, id(1), id(3), ROLE_TREASURY, 1),
        Err(RbacError::NotInitialized)
    );
    // the zero identity is the recorded super-admin of a blank record
    assert_eq!(emergency_pause(&mut auth, Identity::zero()), Err(RbacError::NotInitialized));
    assert_eq!(emergency_pause(&mut auth, id(1)), Err(RbacError::Unauthorized));
}

#[test]
fn only_admins_change_roles() {
    let (auth, admin) = setup();
    let mut user = UserRole::unassigned();
    assign_role(&auth, &admin, &mut user, id(1), id(3), ROLE_TREASURY, 1).unwrap();
    let mut other = UserRole::unassigned();
    assert_eq!(
        assign_role(&auth, &user, &mut other, id(3), id(4), ROLE_TREASURY, 2),
        Err(RbacError::Unauthorized)
    );
    // a record of someone else does not authorize the caller
    assert_eq!(
        assign_role(&auth, &admin, &mut other, id(3), id(4), ROLE_TREASURY, 2),
        Err(RbacError::Unauthorized)
    );
    let mut target = user;
    assert_eq!(
        revoke_role(&auth, &user, &mut target, id(3), id(3), ROLE_TREASURY, 2),
        Err(RbacError::Unauthorized)
    );
    assert_eq!(target.roles, ROLE_TREASURY);
}

#[test]
fn role_values_outside_four_bits_are_invalid() {
    let (auth, admin) = setup();
    let mut user = UserRole::unassigned();
    assert_eq!(
        assign_role(&auth, &admin, &mut user, id(1), id(3), 0, 1),
        Err(RbacError::InvalidRole)
    );
    assert_eq!(
        assign_role(&auth, &admin, &mut user, id(1), id(3), 16, 1),
        Err(RbacError::InvalidRole)
    );
    assert_eq!(assign_role(&auth, &admin, &mut user, id(1), id(3), 15, 1), Ok(()));
    assert_eq!(user.roles, 15);
}

#[test]
fn role_helpers() {
    assert!(is_valid_role(ROLE_REGULAR_USER));
    assert!(is_valid_role(ROLE_TREASURY));
    assert!(!is_valid_role(3));
    assert!(!is_valid_role(0));
    assert!(has_any_role(4));
    assert!(!has_any_role(0));
    let mut r = UserRole::unassigned();
    r.add_role(ROLE_ADMIN);
    r.add_role(ROLE_TREASURY);
    assert!(r.has_role(ROLE_ADMIN));
    r.remove_role(ROLE_ADMIN);
    assert!(!r.has_role(ROLE_ADMIN));
    assert_eq!(r.roles, ROLE_TREASURY);
}

#[test]
fn super_admin_record_refused_under_another_target() {
    let (auth, admin) = setup();
    let mut other = UserRole::unassigned();
    assign_role(&auth, &admin, &mut other, id(1), id(2), ROLE_ADMIN, 1).unwrap();
    let mut record = admin;
    assert_eq!(
        revoke_role(&auth, &other, &mut record, id(2), id(2), ROLE_ADMIN, 2),
        Err(RbacError::Unauthorized)
    );
    assert_eq!(
        revoke_role(&auth, &admin, &mut record, id(1), id(7), ROLE_ADMIN, 2),
        Err(RbacError::Unauthorized)
    );
    assert_eq!(record.roles, ROLE_ADMIN);
    assert_eq!(has_role(&auth, &record, ROLE_ADMIN), Ok(true));
}

#[test]
fn assign_refuses_a_record_of_someone_else() {
    let (auth, admin) = setup();
    let mut user = UserRole::unassigned();
    assign_role(&auth, &admin, &mut user, id(1), id(3), ROLE_REGULAR_USER, 1).unwrap();
    assert_eq!(
        assign_role(&auth, &admin, &mut user, id(1), id(4), ROLE_TREASURY, 2),
        Err(RbacError::Unauthorized)
    );
    let mut foreign = user;
    foreign.vault = id(8);
    assert_eq!(
        assign_role(&auth, &admin, &mut foreign, id(1), id(3), ROLE_TREASURY, 2),
        Err(RbacError::Unauthorized)
    );
    assert_eq!(user.roles, ROLE_REGULAR_USER);
    assert_eq!(foreign.roles, ROLE_REGULAR_USER);
}

#[test]
fn has_role_refuses_a_record_of_another_pool() {
    let (auth, admin) = setup();
    let mut foreign = admin;
    foreign.vault = id(8);
    assert_eq!(has_role(&auth, &foreign, ROLE_ADMIN), Err(RbacError::Unauthorized));
}
