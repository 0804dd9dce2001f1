//! Share accounting of a pooled vault: deposits mint shares, withdrawals burn
//! them behind a time lock, harvests raise the assets behind every share and
//! set aside a performance fee.
use crate::arith::{
    lemma_floor_monotone, lemma_fraction_le_trans, lemma_scaled_down, lemma_scaled_up,
    lemma_u64_product_fits,
};
use vstd::arithmetic::div_mod::{lemma_div_by_multiple, lemma_div_is_ordered, lemma_fundamental_div_mod};
use crate::identity::Identity;
use crate::roles::{has_role, holds, is_role_record, RbacError, RoleAuthority, UserRole, ROLE_TREASURY};
use vstd::prelude::*;

verus! {

/// Seconds that must pass after a user's latest deposit before a withdrawal.
pub const TIME_LOCK_DURATION: i64 = 24 * 60 * 60;

/// Share of the vault deployed to strategies right after initialization.
pub const DEFAULT_STRATEGY_ALLOCATION: u8 = 50;

/// The performance fee is one part in this many of a harvested yield.
pub const FEE_DIVISOR: u64 = 10;

#[derive(Clone, Copy, Debug, PartialEq, Eq, Structural)]
pub enum VaultError {
    Unauthorized,
    InvalidAmount,
    InsufficientBalance,
    InvalidAllocation,
    VaultEmpty,
    TimeLockActive,
    InvalidShares,
    OverflowError,
    NoYield,
    InvalidStrategy,
    InvalidRole,
    EmergencyPaused,
    RoleAuthorityNotFound,
}

/// The ledger of one pool.
#[derive(Clone, Copy, Debug)]
pub struct Vault {
    pub total_assets: u64,
    pub total_shares: u64,
    pub admin: Identity,
    /// Percentage of the assets deployed to strategies, at most 100.
    pub strategy_allocation: u8,
    pub total_yield: u64,
    pub accumulated_fees: u64,
    pub num_users: u64,
}

/// One user's claim on one pool.
#[derive(Clone, Copy, Debug)]
pub struct UserPosition {
    pub user: Identity,
    pub vault: Identity,
    pub shares: u64,
    /// Time of the latest deposit; the time lock runs from here.
    pub deposit_timestamp: i64,
    /// Sum of all amounts deposited.
    pub total_deposited: u64,
}

/// A yield venue as the vault records it.
#[derive(Clone, Copy, Debug)]
pub struct StrategyOpportunity {
    pub protocol_name: [u8; 32],
    pub apy: u16,
    pub volatility: u8,
    pub il_risk: u8,
    pub safety_score: u8,
    pub score: u16,
    pub active: bool,
}

impl Vault {
    /// Every share is backed by at least one unit of assets, so no
    /// conversion divides by zero or leaves `u64`; the allocation is a
    /// percentage.
    pub open spec fn wf(&self) -> bool {
        &&& self.total_shares <= self.total_assets
        &&& self.strategy_allocation <= 100
    }

    /// Shares minted for a deposit: one per unit into an empty vault, the
    /// floor of the proportional claim otherwise.
    pub open spec fn spec_shares_for_deposit(&self, amount: int) -> int {
        if self.total_shares == 0 {
            amount
        } else {
            amount * self.total_shares / (self.total_assets as int)
        }
    }

    /// Assets that `shares` shares redeem, rounded down; one per share while
    /// no share exists.
    pub open spec fn spec_assets_for_shares(&self, shares: int) -> int {
        if self.total_shares == 0 {
            shares
        } else {
            shares * self.total_assets / (self.total_shares as int)
        }
    }

    /// Assets per share, rounded down; one while no share exists.
    pub open spec fn spec_share_price(&self) -> int {
        if self.total_shares == 0 {
            1
        } else {
            self.total_assets as int / self.total_shares as int
        }
    }

    pub fn share_price(&self) -> (r: u64)
        ensures
            r == self.spec_share_price(),
    {
        if self.total_shares == 0 {
            1
        } else {
            self.total_assets / self.total_shares
        }
    }

    pub fn is_well_formed(&self) -> (r: bool)
        ensures
            r == self.wf(),
    {
        self.total_shares <= self.total_assets && self.strategy_allocation <= 100
    }

    pub fn shares_for_deposit(&self, amount: u64) -> (r: u64)
        requires
            self.wf(),
        ensures
            r == self.spec_shares_for_deposit(amount as int),
            r <= amount,
    {
        if self.total_shares == 0 {
            amount
        } else {
            proof {
                lemma_u64_product_fits(amount, self.total_shares);
                lemma_scaled_down(self.total_shares as int, amount as int, self.total_assets as int);
                vstd::arithmetic::mul::lemma_mul_is_commutative(self.total_shares as int, amount as int);
            }
            ((amount as u128) * (self.total_shares as u128) / (self.total_assets as u128)) as u64
        }
    }

    pub fn assets_for_shares(&self, shares: u64) -> (r: u64)
        requires
            self.spec_assets_for_shares(shares as int) <= u64::MAX,
        ensures
            r == self.spec_assets_for_shares(shares as int),
    {
        if self.total_shares == 0 {
            shares
        } else {
            proof {
                lemma_u64_product_fits(shares, self.total_assets);
            }
            ((shares as u128) * (self.total_assets as u128) / (self.total_shares as u128)) as u64
        }
    }

    /// The ledger after a deposit of `amount` that minted `shares`.
    pub open spec fn after_deposit(self, amount: u64, shares: u64, new_user: bool) -> Vault {
        Vault {
            total_assets: (self.total_assets + amount) as u64,
            total_shares: (self.total_shares + shares) as u64,
            num_users: if new_user {
                (self.num_users + 1) as u64
            } else {
                self.num_users
            },
            ..self
        }
    }

    /// The ledger after `shares` shares were redeemed for `assets`.
    pub open spec fn after_withdraw(self, shares: u64, assets: u64) -> Vault {
        Vault {
            total_assets: (self.total_assets - assets) as u64,
            total_shares: (self.total_shares - shares) as u64,
            ..self
        }
    }

    /// The ledger after a harvest that kept `net` and set aside `fee`.
    pub open spec fn after_harvest(self, net: u64, fee: u64) -> Vault {
        Vault {
            total_assets: (self.total_assets + net) as u64,
            total_yield: (self.total_yield + net) as u64,
            accumulated_fees: (self.accumulated_fees + fee) as u64,
            ..self
        }
    }
}

impl UserPosition {
    /// The position after a deposit of `amount` at `now` that minted `shares`.
    /// A position without shares is (re)claimed by `user`.
    pub open spec fn after_deposit(
        self,
        user: Identity,
        vault_key: Identity,
        amount: u64,
        shares: u64,
        now: i64,
    ) -> UserPosition {
        UserPosition {
            user: if self.shares == 0 {
                user
            } else {
                self.user
            },
            vault: if self.shares == 0 {
                vault_key
            } else {
                self.vault
            },
            shares: (self.shares + shares) as u64,
            deposit_timestamp: now,
            total_deposited: (self.total_deposited + amount) as u64,
        }
    }
}

/// What a deposit of `amount` into `v` by the holder of `p` returns.
pub open spec fn deposit_result(v: Vault, p: UserPosition, amount: u64) -> Result<u64, VaultError> {
    let shares = v.spec_shares_for_deposit(amount as int);
    if amount == 0 {
        Err(VaultError::InvalidAmount)
    } else if shares == 0 {
        Err(VaultError::InvalidShares)
    } else if v.total_assets + amount > u64::MAX || v.total_shares + shares > u64::MAX || (p.shares
        == 0 && v.num_users + 1 > u64::MAX) || p.total_deposited + amount > u64::MAX || p.shares
        + shares > u64::MAX {
        Err(VaultError::OverflowError)
    } else {
        Ok(shares as u64)
    }
}

/// What a withdrawal of `shares` at time `now` returns.
pub open spec fn withdraw_result(v: Vault, p: UserPosition, shares: u64, now: i64) -> Result<
    u64,
    VaultError,
> {
    let elapsed = now - p.deposit_timestamp;
    if shares == 0 {
        Err(VaultError::InvalidShares)
    } else if elapsed < i64::MIN || elapsed > i64::MAX {
        Err(VaultError::OverflowError)
    } else if elapsed < TIME_LOCK_DURATION {
        Err(VaultError::TimeLockActive)
    } else if shares > p.shares {
        Err(VaultError::InsufficientBalance)
    } else if shares > v.total_shares {
        // the position claims more shares than the ledger has issued
        Err(VaultError::OverflowError)
    } else if v.spec_assets_for_shares(shares as int) == 0 {
        Err(VaultError::InvalidAmount)
    } else {
        Ok(v.spec_assets_for_shares(shares as int) as u64)
    }
}

/// A fresh ledger administered by `admin`.
pub fn initialize(admin: Identity) -> (r: Vault)
    ensures
        r.wf(),
        r.total_assets == 0,
        r.total_shares == 0,
        r.admin == admin,
        r.strategy_allocation == DEFAULT_STRATEGY_ALLOCATION,
        r.total_yield == 0,
        r.accumulated_fees == 0,
        r.num_users == 0,
{
    Vault {
        total_assets: 0,
        total_shares: 0,
        admin,
        strategy_allocation: DEFAULT_STRATEGY_ALLOCATION,
        total_yield: 0,
        accumulated_fees: 0,
        num_users: 0,
    }
}

/// Deposits `amount` for `user` at time `now` and returns the shares minted.
/// Every deposit restarts the time lock of the whole position. On an error
/// nothing changes.
pub fn deposit(
    vault: &mut Vault,
    position: &mut UserPosition,
    user: Identity,
    vault_key: Identity,
    amount: u64,
    now: i64,
) -> (r: Result<u64, VaultError>)
    requires
        old(vault).wf(),
    ensures
        final(vault).wf(),
        r == deposit_result(*old(vault), *old(position), amount),
        match r {
            Ok(shares) => {
                &&& *final(vault) == old(vault).after_deposit(amount, shares, old(position).shares == 0)
                &&& *final(position) == old(position).after_deposit(user, vault_key, amount, shares, now)
            },
            Err(_) => *final(vault) == *old(vault) && *final(position) == *old(position),
        },
{
    if amount == 0 {
        return Err(VaultError::InvalidAmount);
    }
    let shares = vault.shares_for_deposit(amount);
    if shares == 0 {
        return Err(VaultError::InvalidShares);
    }
    let new_user = position.shares == 0;
    let total_assets = match vault.total_assets.checked_add(amount) {
        Some(x) => x,
        None => return Err(VaultError::OverflowError),
    };
    let total_shares = match vault.total_shares.checked_add(shares) {
        Some(x) => x,
        None => return Err(VaultError::OverflowError),
    };
    let num_users = if new_user {
        match vault.num_users.checked_add(1) {
            Some(x) => x,
            None => return Err(VaultError::OverflowError),
        }
    } else {
        vault.num_users
    };
    let total_deposited = match position.total_deposited.checked_add(amount) {
        Some(x) => x,
        None => return Err(VaultError::OverflowError),
    };
    let position_shares = match position.shares.checked_add(shares) {
        Some(x) => x,
        None => return Err(VaultError::OverflowError),
    };
    vault.total_assets = total_assets;
    vault.total_shares = total_shares;
    vault.num_users = num_users;
    if new_user {
        position.user = user;
        position.vault = vault_key;
    }
    position.shares = position_shares;
    position.deposit_timestamp = now;
    position.total_deposited = total_deposited;
    Ok(shares)
}

/// Redeems `shares` of the position at time `now` and returns the assets
/// paid out. On an error nothing changes.
pub fn withdraw(vault: &mut Vault, position: &mut UserPosition, shares: u64, now: i64) -> (r: Result<
    u64,
    VaultError,
>)
    requires
        old(vault).wf(),
    ensures
        final(vault).wf(),
        r == withdraw_result(*old(vault), *old(position), shares, now),
        match r {
            Ok(assets) => {
                &&& *final(vault) == old(vault).after_withdraw(shares, assets)
                &&& *final(position) == (UserPosition {
                    shares: (old(position).shares - shares) as u64,
                    ..*old(position)
                })
            },
            Err(_) => *final(vault) == *old(vault) && *final(position) == *old(position),
        },
{
    if shares == 0 {
        return Err(VaultError::InvalidShares);
    }
    let elapsed = match now.checked_sub(position.deposit_timestamp) {
        Some(x) => x,
        None => return Err(VaultError::OverflowError),
    };
    if elapsed < TIME_LOCK_DURATION {
        return Err(VaultError::TimeLockActive);
    }
    if shares > position.shares {
        return Err(VaultError::InsufficientBalance);
    }
    if shares > vault.total_shares {
        return Err(VaultError::OverflowError);
    }
    proof {
        lemma_scaled_down(shares as int, vault.total_assets as int, vault.total_shares as int);
    }
    let assets = vault.assets_for_shares(shares);
    if assets == 0 {
        return Err(VaultError::InvalidAmount);
    }
    proof {
        lemma_withdraw_keeps_backing(*vault, shares);
    }
    vault.total_assets = vault.total_assets - assets;
    vault.total_shares = vault.total_shares - shares;
    position.shares = position.shares - shares;
    Ok(assets)
}

/// What a harvest of `yield_amount` reported by `caller` returns: the yield
/// kept for the depositors and the performance fee.
pub open spec fn harvest_result(v: Vault, caller: Identity, yield_amount: u64) -> Result<
    (u64, u64),
    VaultError,
> {
    let fee = yield_amount / FEE_DIVISOR;
    let net = yield_amount - fee;
    if yield_amount == 0 {
        Err(VaultError::NoYield)
    } else if caller@ != v.admin@ {
        Err(VaultError::Unauthorized)
    } else if v.total_yield + net > u64::MAX || v.accumulated_fees + fee > u64::MAX
        || v.total_assets + net > u64::MAX {
        Err(VaultError::OverflowError)
    } else {
        Ok((net as u64, fee as u64))
    }
}

/// Adds a realized yield to the assets behind the existing shares, minus a
/// performance fee of a tenth (rounded down) that is set aside. Only the
/// vault's admin may harvest. On an error nothing changes.
pub fn harvest(vault: &mut Vault, caller: Identity, yield_amount: u64) -> (r: Result<
    (u64, u64),
    VaultError,
>)
    requires
        old(vault).wf(),
    ensures
        final(vault).wf(),
        r == harvest_result(*old(vault), caller, yield_amount),
        match r {
            Ok((net, fee)) => *final(vault) == old(vault).after_harvest(net, fee),
            Err(_) => *final(vault) == *old(vault),
        },
{
    if yield_amount == 0 {
        return Err(VaultError::NoYield);
    }
    if caller != vault.admin {
        return Err(VaultError::Unauthorized);
    }
    let fee = yield_amount / FEE_DIVISOR;
    let net = yield_amount - fee;
    let total_yield = match vault.total_yield.checked_add(net) {
        Some(x) => x,
        None => return Err(VaultError::OverflowError),
    };
    let accumulated_fees = match vault.accumulated_fees.checked_add(fee) {
        Some(x) => x,
        None => return Err(VaultError::OverflowError),
    };
    let total_assets = match vault.total_assets.checked_add(net) {
        Some(x) => x,
        None => return Err(VaultError::OverflowError),
    };
    vault.total_yield = total_yield;
    vault.accumulated_fees = accumulated_fees;
    vault.total_assets = total_assets;
    Ok((net, fee))
}

/// The permission checks in front of a role-gated operation: the pause
/// first, then the authority record, then the caller's own record of this
/// pool holding `role`.
pub open spec fn role_gate(auth: RoleAuthority, record: UserRole, caller: Identity, role: u8) -> Option<
    VaultError,
> {
    if auth.emergency_pause {
        Some(VaultError::EmergencyPaused)
    } else if !auth.initialized {
        Some(VaultError::RoleAuthorityNotFound)
    } else if !(record.user@ == caller@ && record.vault@ == auth.vault@ && holds(record.roles, role)) {
        Some(VaultError::Unauthorized)
    } else {
        None
    }
}

fn check_role(authority: &RoleAuthority, record: &UserRole, caller: &Identity, role: u8) -> (r: Result<
    (),
    VaultError,
>)
    ensures
        r == match role_gate(*authority, *record, *caller, role) {
            Some(e) => Err(e),
            None => Ok(()),
        },
{
    if authority.emergency_pause {
        return Err(VaultError::EmergencyPaused);
    }
    match has_role(authority, record, role) {
        Err(RbacError::NotInitialized) => Err(VaultError::RoleAuthorityNotFound),
        Err(_) => Err(VaultError::Unauthorized),
        Ok(held) => {
            if held && record.user == *caller && record.vault == authority.vault {
                Ok(())
            } else {
                Err(VaultError::Unauthorized)
            }
        },
    }
}

/// Pays out all accumulated fees to `treasury`, which must hold the
/// treasury role, and returns the amount. On an error nothing changes.
pub fn withdraw_fees(
    vault: &mut Vault,
    authority: &RoleAuthority,
    treasury_record: &UserRole,
    treasury: Identity,
) -> (r: Result<u64, VaultError>)
    requires
        old(vault).wf(),
    ensures
        final(vault).wf(),
        match role_gate(*authority, *treasury_record, treasury, ROLE_TREASURY) {
            Some(e) => r == Err::<u64, VaultError>(e),
            None => if old(vault).accumulated_fees == 0 {
                r == Err::<u64, VaultError>(VaultError::InvalidAmount)
            } else {
                r == Ok::<u64, VaultError>(old(vault).accumulated_fees)
            },
        },
        r is Ok ==> *final(vault) == (Vault { accumulated_fees: 0, ..*old(vault) }),
        r is Err ==> *final(vault) == *old(vault),
{
    check_role(authority, treasury_record, &treasury, ROLE_TREASURY)?;
    if vault.accumulated_fees == 0 {
        return Err(VaultError::InvalidAmount);
    }
    let fee_amount = vault.accumulated_fees;
    vault.accumulated_fees = 0;
    Ok(fee_amount)
}

/// Changes the strategy allocation when one is given; only the vault's admin
/// may. An allocation above 100 percent is refused and nothing changes.
pub fn update_settings(vault: &mut Vault, caller: Identity, strategy_allocation: Option<u8>) -> (r:
    Result<(), VaultError>)
    requires
        old(vault).wf(),
    ensures
        final(vault).wf(),
        caller@ != old(vault).admin@ ==> r == Err::<(), VaultError>(VaultError::Unauthorized),
        caller@ == old(vault).admin@ ==> match strategy_allocation {
            Some(a) => if a > 100 {
                r == Err::<(), VaultError>(VaultError::InvalidAllocation)
            } else {
                r is Ok && *final(vault) == (Vault { strategy_allocation: a, ..*old(vault) })
            },
            None => r is Ok,
        },
        r is Err || strategy_allocation is None ==> *final(vault) == *old(vault),
{
    if caller != vault.admin {
        return Err(VaultError::Unauthorized);
    }
    if let Some(allocation) = strategy_allocation {
        if allocation > 100 {
            return Err(VaultError::InvalidAllocation);
        }
        vault.strategy_allocation = allocation;
    }
    Ok(())
}

/// Accepts a role record presented for `user` in the pool `vault_key`, whose
/// stored bitfield is `roles`, only if it is owned by the permission program,
/// sits at the address that program derives for the pair, and holds some bit
/// of `required_role`.
pub fn verify_user_role(
    record_owner: &Identity,
    record_key: &Identity,
    user: &Identity,
    vault_key: &Identity,
    roles: u8,
    required_role: u8,
    program: &Identity,
) -> (r: Result<(), VaultError>)
    ensures
        r is Ok <==> (record_owner@ == program@ && crate::identity::program_address(
            crate::roles::role_record_seeds(vault_key@, user@),
            program@,
        ) == Some(record_key@) && crate::roles::holds(roles, required_role)),
        r is Err ==> r == Err::<(), VaultError>(VaultError::Unauthorized),
{
    if roles & required_role != 0 && is_role_record(record_owner, record_key, user, vault_key, program) {
        Ok(())
    } else {
        Err(VaultError::Unauthorized)
    }
}

/// Redeeming part of the shares leaves every remaining share backed.
proof fn lemma_withdraw_keeps_backing(v: Vault, shares: u64)
    requires
        v.wf(),
        0 < shares <= v.total_shares,
    ensures
        v.total_shares - shares <= v.total_assets - v.spec_assets_for_shares(shares as int),
{
    let a = v.total_assets as int;
    let s = v.total_shares as int;
    let k = shares as int;
    // with a = s + d, the payout k * a / s is k plus (k * d) / s, at most k + d
    let d = a - s;
    lemma_scaled_down(k, d, s);
    assert(k * a == k * s + k * d) by (nonlinear_arith)
        requires d == a - s;
    vstd::arithmetic::div_mod::lemma_div_multiples_vanish_fancy(k, 0, s);
    assert((k * s + k * d) / s == k + (k * d) / s) by {
        vstd::arithmetic::div_mod::lemma_fundamental_div_mod(k * d, s);
        vstd::arithmetic::div_mod::lemma_div_multiples_vanish_fancy(k + (k * d) / s, (k * d) % s, s);
        assert(s * (k + (k * d) / s) + (k * d) % s == k * s + k * d) by (nonlinear_arith)
            requires k * d == s * ((k * d) / s) + (k * d) % s;
    }
}

/// The share price of `b` is at least that of `a`: as a fraction of assets
/// over shares while both have shares, and as the quoted integer price.
pub open spec fn price_not_lower(a: Vault, b: Vault) -> bool {
    &&& a.total_shares > 0 && b.total_shares > 0 ==> a.total_assets * b.total_shares
        <= b.total_assets * a.total_shares
    &&& a.spec_share_price() <= b.spec_share_price()
}

/// The ledger after a sequence of deposit attempts, each by the holder of the
/// given position; a refused attempt leaves the ledger as it was.
pub open spec fn ledger_after_deposits(v: Vault, deposits: Seq<(UserPosition, u64)>) -> Vault
    decreases deposits.len(),
{
    if deposits.len() == 0 {
        v
    } else {
        let prev = ledger_after_deposits(v, deposits.drop_last());
        let (p, amount) = deposits.last();
        match deposit_result(prev, p, amount) {
            Ok(shares) => prev.after_deposit(amount, shares, p.shares == 0),
            Err(_) => prev,
        }
    }
}

proof fn lemma_integer_price_follows(a: Vault, b: Vault)
    requires
        a.wf(),
        b.wf(),
        a.total_shares > 0 && b.total_shares > 0 ==> a.total_assets * b.total_shares
            <= b.total_assets * a.total_shares,
        a.total_shares > 0 ==> b.total_shares > 0,
    ensures
        price_not_lower(a, b),
{
    if a.total_shares > 0 {
        lemma_floor_monotone(
            a.total_assets as int,
            a.total_shares as int,
            b.total_assets as int,
            b.total_shares as int,
        );
    } else if b.total_shares > 0 {
        lemma_scaled_up(1, b.total_assets as int, b.total_shares as int);
    }
}

/// A successful deposit keeps every share backed and never lowers the share
/// price.
pub proof fn lemma_deposit_keeps_share_price(v: Vault, p: UserPosition, amount: u64)
    requires
        v.wf(),
        deposit_result(v, p, amount) is Ok,
    ensures
        ({
            let after = v.after_deposit(
                amount,
                v.spec_shares_for_deposit(amount as int) as u64,
                p.shares == 0,
            );
            after.wf() && price_not_lower(v, after) && v.total_shares <= after.total_shares
        }),
{
    let sh = v.spec_shares_for_deposit(amount as int);
    let a = v.total_assets as int;
    let s = v.total_shares as int;
    if s > 0 {
        lemma_scaled_down(s, amount as int, a);
        vstd::arithmetic::mul::lemma_mul_is_commutative(s, amount as int);
        lemma_fundamental_div_mod(amount * s, a);
        assert(a * (s + sh) <= (a + amount) * s) by (nonlinear_arith)
            requires
                amount * s == a * sh + (amount * s) % a,
                0 <= (amount * s) % a,
        ;
    }
    let after = v.after_deposit(amount, sh as u64, p.shares == 0);
    lemma_integer_price_follows(v, after);
}

/// A successful harvest keeps every share backed and never lowers the share
/// price.
pub proof fn lemma_harvest_keeps_share_price(v: Vault, caller: Identity, yield_amount: u64)
    requires
        v.wf(),
        harvest_result(v, caller, yield_amount) is Ok,
    ensures
        ({
            let (net, fee) = harvest_result(v, caller, yield_amount)->Ok_0;
            let after = v.after_harvest(net, fee);
            after.wf() && price_not_lower(v, after)
        }),
{
    let (net, fee) = harvest_result(v, caller, yield_amount)->Ok_0;
    let after = v.after_harvest(net, fee);
    vstd::arithmetic::mul::lemma_mul_inequality(
        v.total_assets as int,
        after.total_assets as int,
        v.total_shares as int,
    );
    lemma_integer_price_follows(v, after);
}

/// A successful withdrawal that leaves shares outstanding never lowers the
/// share price. (Redeeming every share empties the vault, whose quoted price
/// is one by convention.)
pub proof fn lemma_withdraw_keeps_share_price(v: Vault, p: UserPosition, shares: u64, now: i64)
    requires
        v.wf(),
        withdraw_result(v, p, shares, now) is Ok,
        shares < v.total_shares,
    ensures
        ({
            let after = v.after_withdraw(shares, withdraw_result(v, p, shares, now)->Ok_0);
            after.wf() && price_not_lower(v, after)
        }),
{
    let a = v.total_assets as int;
    let s = v.total_shares as int;
    let k = shares as int;
    let out = k * a / s;
    lemma_withdraw_keeps_backing(v, shares);
    lemma_fundamental_div_mod(k * a, s);
    assert(a * (s - k) <= (a - out) * s) by (nonlinear_arith)
        requires
            k * a == s * out + (k * a) % s,
            0 <= (k * a) % s,
    ;
    let after = v.after_withdraw(shares, withdraw_result(v, p, shares, now)->Ok_0);
    lemma_integer_price_follows(v, after);
}

/// Over any sequence of deposits, with no withdrawal between them, every
/// share stays backed and the share price never falls.
pub proof fn lemma_deposits_never_lower_share_price(v: Vault, deposits: Seq<(UserPosition, u64)>)
    requires
        v.wf(),
    ensures
        ledger_after_deposits(v, deposits).wf(),
        price_not_lower(v, ledger_after_deposits(v, deposits)),
        v.total_shares <= ledger_after_deposits(v, deposits).total_shares,
    decreases deposits.len(),
{
    if deposits.len() > 0 {
        let prev = ledger_after_deposits(v, deposits.drop_last());
        lemma_deposits_never_lower_share_price(v, deposits.drop_last());
        let (p, amount) = deposits.last();
        let next = ledger_after_deposits(v, deposits);
        if deposit_result(prev, p, amount) is Ok {
            lemma_deposit_keeps_share_price(prev, p, amount);
            if v.total_shares > 0 {
                lemma_fraction_le_trans(
                    v.total_assets as int,
                    v.total_shares as int,
                    prev.total_assets as int,
                    prev.total_shares as int,
                    next.total_assets as int,
                    next.total_shares as int,
                );
            }
        }
    } else {
        lemma_integer_price_follows(v, v);
    }
}

/// Depositing `amount` and at once redeeming the shares that it minted gives
/// back exactly `amount` in an empty vault, and never more than `amount` in a
/// vault with shares. There the shortfall is the remainder of
/// `amount * shares / assets`, spread over the new share count and rounded
/// up: at most one unit whenever that remainder does not exceed the new
/// share count.
pub proof fn lemma_deposit_round_trip(v: Vault, p: UserPosition, amount: u64)
    requires
        v.wf(),
        deposit_result(v, p, amount) is Ok,
    ensures
        ({
            let minted = v.spec_shares_for_deposit(amount as int);
            let after = v.after_deposit(amount, minted as u64, p.shares == 0);
            let back = after.spec_assets_for_shares(minted);
            &&& v.total_shares == 0 && v.total_assets == 0 ==> back == amount
            &&& v.total_shares > 0 ==> back <= amount
            &&& v.total_shares > 0 && (amount * v.total_shares) % (v.total_assets as int)
                <= after.total_shares ==> amount - back <= 1
        }),
{
    let minted = v.spec_shares_for_deposit(amount as int);
    let after = v.after_deposit(amount, minted as u64, p.shares == 0);
    let a = v.total_assets as int;
    let s = v.total_shares as int;
    let amt = amount as int;
    if s == 0 && a == 0 {
        lemma_div_by_multiple(amt, amt);
    } else if s > 0 {
        let a2 = a + amt;
        let s2 = s + minted;
        let e = (amt * s) % a;
        lemma_fundamental_div_mod(amt * s, a);
        assert(minted * a2 == amt * s2 - e) by (nonlinear_arith)
            requires
                amt * s == a * minted + e,
                a2 == a + amt,
                s2 == s + minted,
        ;
        assert(0 <= e);
        lemma_div_is_ordered(minted * a2, amt * s2, s2);
        lemma_div_by_multiple(amt, s2);
        if e <= s2 {
            assert((amt - 1) * s2 <= minted * a2) by (nonlinear_arith)
                requires
                    minted * a2 == amt * s2 - e,
                    e <= s2,
            ;
            lemma_div_is_ordered((amt - 1) * s2, minted * a2, s2);
            lemma_div_by_multiple(amt - 1, s2);
        }
    }
}

/// The time lock: with enough shares in the position and in the ledger, a
/// withdrawal one second short of a full day after the latest deposit is
/// refused, and one at exactly a full day succeeds.
pub proof fn lemma_withdraw_time_lock(v: Vault, p: UserPosition, shares: u64)
    requires
        v.wf(),
        0 < shares <= p.shares,
        shares <= v.total_shares,
        p.deposit_timestamp + TIME_LOCK_DURATION <= i64::MAX,
    ensures
        withdraw_result(v, p, shares, (p.deposit_timestamp + TIME_LOCK_DURATION - 1) as i64)
            == Err::<u64, VaultError>(VaultError::TimeLockActive),
        withdraw_result(v, p, shares, (p.deposit_timestamp + TIME_LOCK_DURATION) as i64) is Ok,
{
    lemma_scaled_up(shares as int, v.total_assets as int, v.total_shares as int);
}

} // verus!
