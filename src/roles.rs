//! Role-based access control for one pool: a role bitfield per user, a
//! super-admin fixed at initialization who can never lose the admin bit, and
//! an emergency pause that makes every permission check report "no".
use crate::identity::{find_program_address, program_address, seeds_view, Identity};
use vstd::prelude::*;

verus! {

pub const ROLE_REGULAR_USER: u8 = 1;

pub const ROLE_ADMIN: u8 = 2;

pub const ROLE_STRATEGY_MANAGER: u8 = 4;

pub const ROLE_TREASURY: u8 = 8;

/// Largest bitfield that `assign_role` accepts: all four roles.
pub const ALL_ROLES: u8 = 15;

#[derive(Clone, Copy, Debug, PartialEq, Eq, Structural)]
pub enum RbacError {
    Unauthorized,
    InvalidRole,
    CannotRevokeSuperAdmin,
    MustHaveAdmin,
    AlreadyInitialized,
    NotInitialized,
    EmergencyPaused,
    InvalidRoleCombination,
}

/// The roles that one user holds in one pool.
#[derive(Clone, Copy, Debug)]
pub struct UserRole {
    pub user: Identity,
    pub vault: Identity,
    /// Bit 0 regular user, bit 1 admin, bit 2 strategy manager, bit 3 treasury.
    pub roles: u8,
    pub assigned_at: i64,
    pub assigned_by: Identity,
}

/// The per-pool record that anchors the permission system.
#[derive(Clone, Copy, Debug)]
pub struct RoleAuthority {
    pub vault: Identity,
    /// Fixed at initialization; always keeps the admin bit.
    pub super_admin: Identity,
    pub initialized: bool,
    pub emergency_pause: bool,
}

/// The key of a record that was never filled in.
pub open spec fn zero_key() -> Seq<u8> {
    Seq::new(32, |i: int| 0u8)
}

pub open spec fn holds(roles: u8, role: u8) -> bool {
    roles & role != 0
}

impl UserRole {
    /// A record that holds no role and belongs to nobody yet.
    pub fn unassigned() -> (r: UserRole)
        ensures
            r.user@ == zero_key(),
            r.vault@ == zero_key(),
            r.roles == 0,
            r.assigned_at == 0,
            r.assigned_by@ == zero_key(),
    {
        UserRole {
            user: Identity::zero(),
            vault: Identity::zero(),
            roles: 0,
            assigned_at: 0,
            assigned_by: Identity::zero(),
        }
    }

    pub fn has_role(&self, role: u8) -> (r: bool)
        ensures
            r == holds(self.roles, role),
    {
        self.roles & role != 0
    }

    pub fn add_role(&mut self, role: u8)
        ensures
            *final(self) == (UserRole { roles: old(self).roles | role, ..*old(self) }),
    {
        self.roles = self.roles | role;
    }

    pub fn remove_role(&mut self, role: u8)
        ensures
            *final(self) == (UserRole { roles: old(self).roles & !role, ..*old(self) }),
    {
        self.roles = self.roles & !role;
    }
}

impl RoleAuthority {
    /// A record for a pool whose permissions were never initialized.
    pub fn uninitialized() -> (r: RoleAuthority)
        ensures
            r.vault@ == zero_key(),
            r.super_admin@ == zero_key(),
            !r.initialized,
            !r.emergency_pause,
    {
        RoleAuthority {
            vault: Identity::zero(),
            super_admin: Identity::zero(),
            initialized: false,
            emergency_pause: false,
        }
    }
}

/// The authority record right after `admin` initialized the pool `vault`.
pub open spec fn initialized_authority(vault: Identity, admin: Identity) -> RoleAuthority {
    RoleAuthority { vault, super_admin: admin, initialized: true, emergency_pause: false }
}

/// The initializer's own record: the admin bit alone.
pub open spec fn initial_admin_record(vault: Identity, admin: Identity, now: i64) -> UserRole {
    UserRole { user: admin, vault, roles: ROLE_ADMIN, assigned_at: now, assigned_by: admin }
}

/// `caller` presents its own record of this pool, and it holds the admin bit.
pub open spec fn is_admin_of(auth: RoleAuthority, record: UserRole, caller: Identity) -> bool {
    &&& record.user@ == caller@
    &&& record.vault@ == auth.vault@
    &&& holds(record.roles, ROLE_ADMIN)
}

/// The checks that come before any change of roles, in order.
pub open spec fn admin_gate(auth: RoleAuthority, caller_record: UserRole, caller: Identity) -> Option<
    RbacError,
> {
    if auth.emergency_pause {
        Some(RbacError::EmergencyPaused)
    } else if !auth.initialized {
        Some(RbacError::NotInitialized)
    } else if !is_admin_of(auth, caller_record, caller) {
        Some(RbacError::Unauthorized)
    } else {
        None
    }
}

/// `record` is the record of `target` in this pool.
pub open spec fn belongs_to(auth: RoleAuthority, record: UserRole, target: Identity) -> bool {
    record.user@ == target@ && record.vault@ == auth.vault@
}

pub open spec fn assign_result(
    auth: RoleAuthority,
    caller_record: UserRole,
    target_record: UserRole,
    caller: Identity,
    target: Identity,
    role: u8,
) -> Result<(), RbacError> {
    match admin_gate(auth, caller_record, caller) {
        Some(e) => Err(e),
        None => if !(target_record.user@ == zero_key() || belongs_to(auth, target_record, target)) {
            Err(RbacError::Unauthorized)
        } else if role == 0 || role > ALL_ROLES {
            Err(RbacError::InvalidRole)
        } else {
            Ok(())
        },
    }
}

/// The target's record after `role` was granted: a record that belongs to
/// nobody is claimed for `target`, any other keeps its bits and gains `role`.
pub open spec fn after_assign(
    auth: RoleAuthority,
    record: UserRole,
    caller: Identity,
    target: Identity,
    role: u8,
    now: i64,
) -> UserRole {
    if record.user@ == zero_key() {
        UserRole { user: target, vault: auth.vault, roles: role, assigned_at: now, assigned_by: caller }
    } else {
        UserRole { roles: record.roles | role, assigned_at: now, assigned_by: caller, ..record }
    }
}

pub open spec fn revoke_result(
    auth: RoleAuthority,
    caller_record: UserRole,
    target_record: UserRole,
    caller: Identity,
    target: Identity,
    role: u8,
) -> Result<(), RbacError> {
    match admin_gate(auth, caller_record, caller) {
        Some(e) => Err(e),
        None => if !belongs_to(auth, target_record, target) {
            Err(RbacError::Unauthorized)
        } else if target@ == auth.super_admin@ && holds(role, ROLE_ADMIN) {
            Err(RbacError::CannotRevokeSuperAdmin)
        } else if holds(role, ROLE_ADMIN) && auth.super_admin@ == target@ && !holds(
            target_record.roles & !role,
            ROLE_ADMIN,
        ) {
            Err(RbacError::MustHaveAdmin)
        } else {
            Ok(())
        },
    }
}

pub open spec fn after_revoke(record: UserRole, caller: Identity, role: u8, now: i64) -> UserRole {
    UserRole { roles: record.roles & !role, assigned_at: now, assigned_by: caller, ..record }
}

pub open spec fn has_role_result(auth: RoleAuthority, record: UserRole, role: u8) -> Result<
    bool,
    RbacError,
> {
    if auth.emergency_pause {
        Ok(false)
    } else if !auth.initialized {
        Err(RbacError::NotInitialized)
    } else if record.vault@ != auth.vault@ {
        Err(RbacError::Unauthorized)
    } else {
        Ok(holds(record.roles, role))
    }
}

pub open spec fn pause_result(auth: RoleAuthority, caller: Identity) -> Result<(), RbacError> {
    if caller@ != auth.super_admin@ {
        Err(RbacError::Unauthorized)
    } else if !auth.initialized {
        Err(RbacError::NotInitialized)
    } else {
        Ok(())
    }
}

pub open spec fn after_pause(auth: RoleAuthority) -> RoleAuthority {
    RoleAuthority { emergency_pause: !auth.emergency_pause, ..auth }
}

/// Makes `admin` the permanent super-admin of the pool `vault` and gives it
/// the admin bit. Fails, changing nothing, when the pool is initialized.
pub fn initialize_role_authority(
    authority: &mut RoleAuthority,
    admin_record: &mut UserRole,
    vault: Identity,
    admin: Identity,
    now: i64,
) -> (r: Result<(), RbacError>)
    ensures
        old(authority).initialized ==> r == Err::<(), RbacError>(RbacError::AlreadyInitialized)
            && *final(authority) == *old(authority) && *final(admin_record) == *old(admin_record),
        !old(authority).initialized ==> r is Ok && *final(authority) == initialized_authority(
            vault,
            admin,
        ) && *final(admin_record) == initial_admin_record(vault, admin, now),
{
    if authority.initialized {
        return Err(RbacError::AlreadyInitialized);
    }
    authority.vault = vault;
    authority.super_admin = admin;
    authority.initialized = true;
    authority.emergency_pause = false;
    admin_record.user = admin;
    admin_record.vault = vault;
    admin_record.roles = ROLE_ADMIN;
    admin_record.assigned_at = now;
    admin_record.assigned_by = admin;
    Ok(())
}

fn check_admin(authority: &RoleAuthority, caller_record: &UserRole, caller: &Identity) -> (r: Result<
    (),
    RbacError,
>)
    ensures
        r == match admin_gate(*authority, *caller_record, *caller) {
            Some(e) => Err(e),
            None => Ok(()),
        },
{
    if authority.emergency_pause {
        return Err(RbacError::EmergencyPaused);
    }
    if !authority.initialized {
        return Err(RbacError::NotInitialized);
    }
    if !(caller_record.user == *caller && caller_record.vault == authority.vault
        && caller_record.has_role(ROLE_ADMIN)) {
        return Err(RbacError::Unauthorized);
    }
    Ok(())
}

/// Grants the bits of `role` (any non-empty subset of the four roles) to
/// `target`, on behalf of the admin `caller`. The target record must be a
/// blank one, which is claimed for `target`, or the record of `target` in this
/// pool, whose bits are kept. On an error nothing changes.
pub fn assign_role(
    authority: &RoleAuthority,
    caller_record: &UserRole,
    target_record: &mut UserRole,
    caller: Identity,
    target: Identity,
    role: u8,
    now: i64,
) -> (r: Result<(), RbacError>)
    ensures
        r == assign_result(*authority, *caller_record, *old(target_record), caller, target, role),
        r is Ok ==> *final(target_record) == after_assign(
            *authority,
            *old(target_record),
            caller,
            target,
            role,
            now,
        ),
        r is Err ==> *final(target_record) == *old(target_record),
{
    check_admin(authority, caller_record, &caller)?;
    if !(target_record.user == Identity::zero() || (target_record.user == target
        && target_record.vault == authority.vault)) {
        return Err(RbacError::Unauthorized);
    }
    if role == 0 || role > ALL_ROLES {
        return Err(RbacError::InvalidRole);
    }
    if target_record.user == Identity::zero() {
        target_record.user = target;
        target_record.vault = authority.vault;
        target_record.roles = role;
    } else {
        target_record.add_role(role);
    }
    target_record.assigned_at = now;
    target_record.assigned_by = caller;
    Ok(())
}

/// Clears the bits of `role` in the record of `target` in this pool, on
/// behalf of the admin `caller`; any other record is refused. The
/// super-admin's admin bit cannot be cleared. On an error nothing changes.
pub fn revoke_role(
    authority: &RoleAuthority,
    caller_record: &UserRole,
    target_record: &mut UserRole,
    caller: Identity,
    target: Identity,
    role: u8,
    now: i64,
) -> (r: Result<(), RbacError>)
    ensures
        r == revoke_result(*authority, *caller_record, *old(target_record), caller, target, role),
        r is Ok ==> *final(target_record) == after_revoke(*old(target_record), caller, role, now),
        r is Err ==> *final(target_record) == *old(target_record),
{
    check_admin(authority, caller_record, &caller)?;
    if !(target_record.user == target && target_record.vault == authority.vault) {
        return Err(RbacError::Unauthorized);
    }
    let revokes_admin = role & ROLE_ADMIN != 0;
    if target == authority.super_admin && revokes_admin {
        return Err(RbacError::CannotRevokeSuperAdmin);
    }
    let remaining = target_record.roles & !role;
    if revokes_admin && authority.super_admin == target && remaining & ROLE_ADMIN == 0 {
        return Err(RbacError::MustHaveAdmin);
    }
    target_record.remove_role(role);
    target_record.assigned_at = now;
    target_record.assigned_by = caller;
    Ok(())
}

/// Whether `record` holds any bit of `role`. While the pool is paused the
/// answer is always `false`; a record of another pool is refused.
pub fn has_role(authority: &RoleAuthority, record: &UserRole, role: u8) -> (r: Result<
    bool,
    RbacError,
>)
    ensures
        r == has_role_result(*authority, *record, role),
{
    if authority.emergency_pause {
        return Ok(false);
    }
    if !authority.initialized {
        return Err(RbacError::NotInitialized);
    }
    if record.vault != authority.vault {
        return Err(RbacError::Unauthorized);
    }
    Ok(record.has_role(role))
}

/// Flips the emergency pause; only the super-admin may. On an error nothing
/// changes.
pub fn emergency_pause(authority: &mut RoleAuthority, caller: Identity) -> (r: Result<(), RbacError>)
    ensures
        r == pause_result(*old(authority), caller),
        r is Ok ==> *final(authority) == after_pause(*old(authority)),
        r is Err ==> *final(authority) == *old(authority),
{
    if caller != authority.super_admin {
        return Err(RbacError::Unauthorized);
    }
    if !authority.initialized {
        return Err(RbacError::NotInitialized);
    }
    authority.emergency_pause = !authority.emergency_pause;
    Ok(())
}

/// Seed prefix of every role record address: the bytes of `user_role`.
pub open spec fn user_role_seed() -> Seq<u8> {
    seq![117u8, 115u8, 101u8, 114u8, 95u8, 114u8, 111u8, 108u8, 101u8]
}

/// Seeds from which the permission program derives the address of the role
/// record of `user` in `vault`.
pub open spec fn role_record_seeds(vault: Seq<u8>, user: Seq<u8>) -> Seq<Seq<u8>> {
    seq![user_role_seed(), vault, user]
}

/// Whether an account with key `record_key`, owned by `record_owner`, is the
/// genuine role record of `user` in `vault` under the permission program
/// `program`: owned by that program and at the address it derives.
pub fn is_role_record(
    record_owner: &Identity,
    record_key: &Identity,
    user: &Identity,
    vault: &Identity,
    program: &Identity,
) -> (r: bool)
    ensures
        r == (record_owner@ == program@ && program_address(role_record_seeds(vault@, user@), program@)
            == Some(record_key@)),
{
    if *record_owner != *program {
        return false;
    }
    let seeds = vec![
        vec![117u8, 115u8, 101u8, 114u8, 95u8, 114u8, 111u8, 108u8, 101u8],
        vault.to_vec(),
        user.to_vec(),
    ];
    assert(seeds_view(seeds@) =~= role_record_seeds(vault@, user@));
    match find_program_address(&seeds, program) {
        Some(address) => address == *record_key,
        None => false,
    }
}

/// Whether `role` names exactly one of the four roles.
pub fn is_valid_role(role: u8) -> (r: bool)
    ensures
        r == (role == ROLE_REGULAR_USER || role == ROLE_ADMIN || role == ROLE_STRATEGY_MANAGER
            || role == ROLE_TREASURY),
{
    role == ROLE_REGULAR_USER || role == ROLE_ADMIN || role == ROLE_STRATEGY_MANAGER || role
        == ROLE_TREASURY
}

/// Whether a bitfield holds any role at all.
pub fn has_any_role(roles: u8) -> (r: bool)
    ensures
        r == (roles != 0),
{
    roles != 0
}

/// Right after `admin` initializes a pool, its own record answers yes to the
/// admin role.
pub proof fn lemma_initializer_is_admin(vault: Identity, admin: Identity, now: i64)
    ensures
        has_role_result(
            initialized_authority(vault, admin),
            initial_admin_record(vault, admin, now),
            ROLE_ADMIN,
        ) == Ok::<bool, RbacError>(true),
{
    assert(2u8 & 2u8 != 0u8) by (bit_vector);
}

/// The super-admin's admin bit is never cleared. Revoking any role that
/// includes the admin bit from the super-admin fails, whoever asks, the
/// super-admin included, and so does revoking it from any record that belongs
/// to the super-admin, whatever target is named. Every revocation or grant
/// that succeeds on a record of the super-admin that holds the admin bit
/// leaves the bit there.
pub proof fn lemma_super_admin_keeps_admin(
    auth: RoleAuthority,
    caller_record: UserRole,
    record: UserRole,
    caller: Identity,
    target: Identity,
    role: u8,
    now: i64,
)
    ensures
        holds(role, ROLE_ADMIN) ==> revoke_result(
            auth,
            caller_record,
            record,
            caller,
            auth.super_admin,
            role,
        ) is Err,
        holds(role, ROLE_ADMIN) && record.user@ == auth.super_admin@ ==> revoke_result(
            auth,
            caller_record,
            record,
            caller,
            target,
            role,
        ) is Err,
        holds(record.roles, ROLE_ADMIN) && record.user@ == auth.super_admin@ && revoke_result(
            auth,
            caller_record,
            record,
            caller,
            target,
            role,
        ) is Ok ==> holds(after_revoke(record, caller, role, now).roles, ROLE_ADMIN),
        holds(record.roles, ROLE_ADMIN) && record.user@ != zero_key() ==> holds(
            after_assign(auth, record, caller, target, role, now).roles,
            ROLE_ADMIN,
        ),
{
    let roles = record.roles;
    assert((roles & 2u8) != 0u8 ==> ((roles | role) & 2u8) != 0u8) by (bit_vector);
    assert((roles & 2u8) != 0u8 && (role & 2u8) == 0u8 ==> ((roles & !role) & 2u8) != 0u8)
        by (bit_vector);
}

/// Granting `granted` and then revoking `revoked` on the same record touches
/// no other bit: the result is the old bits plus `granted` minus `revoked`,
/// granted bits that the revocation does not name stay set, and every bit
/// outside both keeps its old value.
pub proof fn lemma_role_bits_independent(
    auth: RoleAuthority,
    caller_record: UserRole,
    record: UserRole,
    caller: Identity,
    target: Identity,
    granted: u8,
    revoked: u8,
    granted_at: i64,
    revoked_at: i64,
)
    requires
        record.user@ != zero_key(),
        assign_result(auth, caller_record, record, caller, target, granted) is Ok,
        revoke_result(
            auth,
            caller_record,
            after_assign(auth, record, caller, target, granted, granted_at),
            caller,
            target,
            revoked,
        ) is Ok,
    ensures
        ({
            let bits = after_revoke(
                after_assign(auth, record, caller, target, granted, granted_at),
                caller,
                revoked,
                revoked_at,
            ).roles;
            &&& bits == (record.roles | granted) & !revoked
            &&& granted & revoked == 0 ==> bits & granted == granted
            &&& forall|mask: u8|
                #![trigger bits & mask]
                mask & (granted | revoked) == 0 ==> bits & mask == record.roles & mask
        }),
{
    let old_bits = record.roles;
    let bits = (old_bits | granted) & !revoked;
    assert(granted & revoked == 0 ==> bits & granted == granted) by (bit_vector)
        requires
            bits == (old_bits | granted) & !revoked,
    ;
    assert forall|mask: u8| #![trigger bits & mask] mask & (granted | revoked) == 0 implies bits & mask
        == old_bits & mask by {
        assert(mask & (granted | revoked) == 0 ==> bits & mask == old_bits & mask) by (bit_vector)
            requires
                bits == (old_bits | granted) & !revoked,
        ;
    }
}

/// While the pool is paused every permission check answers no, for every
/// record and role; unpausing restores the answers of before.
pub proof fn lemma_pause_suppresses_roles(
    auth: RoleAuthority,
    record: UserRole,
    caller: Identity,
    role: u8,
)
    requires
        !auth.emergency_pause,
        pause_result(auth, caller) is Ok,
    ensures
        has_role_result(after_pause(auth), record, role) == Ok::<bool, RbacError>(false),
        pause_result(after_pause(auth), caller) is Ok,
        after_pause(after_pause(auth)) == auth,
        has_role_result(after_pause(after_pause(auth)), record, role) == has_role_result(
            auth,
            record,
            role,
        ),
{
}

} // verus!
