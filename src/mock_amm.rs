//! A simulated liquidity pool: deposits are matched one to one by LP shares,
//! fees accrue at a fixed rate and impermanent loss grows with volatility.
use vstd::prelude::*;

verus! {

/// Fee rates are in thousandths of a percent: 500 is 0.5%.
pub const FEE_RATE_SCALE: u64 = 100_000;

pub struct MockAMM {
    /// Total liquidity in the pool.
    pub pool_liquidity: u64,
    /// Our own deposit.
    pub deposited: u64,
    pub yield_earned: u64,
    /// Fee earned per accrual, in thousandths of a percent of the deposit.
    pub fee_rate: u16,
    /// Impermanent loss accumulated so far.
    pub il_loss: u64,
}

pub open spec fn saturating_add_spec(a: u64, b: u64) -> u64 {
    if a + b > u64::MAX {
        u64::MAX
    } else {
        (a + b) as u64
    }
}

pub open spec fn saturating_sub_spec(a: u64, b: u64) -> u64 {
    if a > b {
        (a - b) as u64
    } else {
        0
    }
}

/// Fee earned on `deposited` at `fee_rate`, rounded down.
pub open spec fn fee_of(deposited: u64, fee_rate: u16) -> int {
    deposited * fee_rate / (FEE_RATE_SCALE as int)
}

/// Impermanent loss for `deposited` at `volatility_percent`: 0.5% of the
/// deposit per 10 points of volatility, rounded down at each step.
pub open spec fn il_of(deposited: u64, volatility_percent: u8) -> int {
    deposited * volatility_percent / 100 / 200
}

impl MockAMM {
    pub fn new(pool_liquidity: u64, fee_rate: u16) -> (r: Self)
        ensures
            r.pool_liquidity == pool_liquidity,
            r.fee_rate == fee_rate,
            r.deposited == 0,
            r.yield_earned == 0,
            r.il_loss == 0,
    {
        MockAMM { pool_liquidity, deposited: 0, yield_earned: 0, fee_rate, il_loss: 0 }
    }

    /// Adds `amount` to our deposit and to the pool and returns the LP shares
    /// minted, one per unit. Zero, or a sum past `u64`, is refused and
    /// nothing changes.
    pub fn deposit(&mut self, amount: u64) -> (r: Result<u64, String>)
        ensures
            amount == 0 || old(self).deposited + amount > u64::MAX || old(self).pool_liquidity
                + amount > u64::MAX ==> r is Err && *final(self) == *old(self),
            !(amount == 0 || old(self).deposited + amount > u64::MAX || old(self).pool_liquidity
                + amount > u64::MAX) ==> r == Ok::<u64, String>(amount) && *final(self) == (MockAMM {
                deposited: (old(self).deposited + amount) as u64,
                pool_liquidity: (old(self).pool_liquidity + amount) as u64,
                ..*old(self)
            }),
    {
        if amount == 0 {
            return Err("Deposit amount must be greater than 0".to_string());
        }
        let deposited = match self.deposited.checked_add(amount) {
            Some(x) => x,
            None => return Err("Overflow in deposit".to_string()),
        };
        let pool_liquidity = match self.pool_liquidity.checked_add(amount) {
            Some(x) => x,
            None => return Err("Overflow in pool".to_string()),
        };
        self.deposited = deposited;
        self.pool_liquidity = pool_liquidity;
        Ok(amount)
    }

    /// Takes `amount` out of our deposit and the pool and returns it. More
    /// than either holds is refused and nothing changes.
    pub fn withdraw(&mut self, amount: u64) -> (r: Result<u64, String>)
        ensures
            amount > old(self).deposited || amount > old(self).pool_liquidity ==> r is Err
                && *final(self) == *old(self),
            amount <= old(self).deposited && amount <= old(self).pool_liquidity ==> r == Ok::<
                u64,
                String,
            >(amount) && *final(self) == (MockAMM {
                deposited: (old(self).deposited - amount) as u64,
                pool_liquidity: (old(self).pool_liquidity - amount) as u64,
                ..*old(self)
            }),
    {
        if amount > self.deposited {
            return Err("Insufficient balance".to_string());
        }
        let pool_liquidity = match self.pool_liquidity.checked_sub(amount) {
            Some(x) => x,
            None => return Err("Underflow in pool".to_string()),
        };
        self.deposited = self.deposited - amount;
        self.pool_liquidity = pool_liquidity;
        Ok(amount)
    }

    /// Earns one period of fees on our deposit, adds them (saturating) to the
    /// yield and returns them.
    pub fn accrue_fees(&mut self) -> (r: u64)
        ensures
            r == fee_of(old(self).deposited, old(self).fee_rate),
            *final(self) == (MockAMM {
                yield_earned: saturating_add_spec(old(self).yield_earned, r),
                ..*old(self)
            }),
    {
        if self.deposited == 0 {
            return 0;
        }
        proof {
            crate::arith::lemma_u64_product_fits(self.deposited, self.fee_rate as u64);
        }
        let product = (self.deposited as u128) * (self.fee_rate as u128);
        proof {
            assert(self.deposited * self.fee_rate <= u64::MAX * FEE_RATE_SCALE) by (nonlinear_arith)
                requires
                    self.fee_rate <= 65535,
                    self.deposited <= u64::MAX,
            ;
            vstd::arithmetic::div_mod::lemma_div_is_ordered(
                self.deposited * self.fee_rate,
                u64::MAX * FEE_RATE_SCALE,
                FEE_RATE_SCALE as int,
            );
            vstd::arithmetic::div_mod::lemma_div_by_multiple(u64::MAX as int, FEE_RATE_SCALE as int);
        }
        let fees = (product / (FEE_RATE_SCALE as u128)) as u64;
        self.yield_earned = self.yield_earned.saturating_add(fees);
        fees
    }

    /// Adds (saturating) the impermanent loss of one price move of
    /// `volatility_percent` to the accumulated loss.
    pub fn simulate_il(&mut self, volatility_percent: u8)
        ensures
            *final(self) == (MockAMM {
                il_loss: saturating_add_spec(
                    old(self).il_loss,
                    il_of(old(self).deposited, volatility_percent) as u64,
                ),
                ..*old(self)
            }),
    {
        if self.deposited == 0 {
            return;
        }
        proof {
            crate::arith::lemma_u64_product_fits(self.deposited, volatility_percent as u64);
        }
        let product = (self.deposited as u128) * (volatility_percent as u128);
        proof {
            let x = self.deposited * volatility_percent;
            let m = u64::MAX as int;
            assert(x <= (m * 200) * 100) by (nonlinear_arith)
                requires
                    volatility_percent <= 255,
                    self.deposited <= m,
                    x == self.deposited * volatility_percent,
            ;
            vstd::arithmetic::div_mod::lemma_div_is_ordered(x, (m * 200) * 100, 100);
            vstd::arithmetic::div_mod::lemma_div_by_multiple(m * 200, 100);
            vstd::arithmetic::div_mod::lemma_div_is_ordered(x / 100, m * 200, 200);
            vstd::arithmetic::div_mod::lemma_div_by_multiple(m, 200);
        }
        let il = (product / 100 / 200) as u64;
        self.il_loss = self.il_loss.saturating_add(il);
    }

    /// Deposit plus yield (saturating) minus impermanent loss (floored at zero).
    pub fn get_net_value(&self) -> (r: u64)
        ensures
            r == saturating_sub_spec(saturating_add_spec(self.deposited, self.yield_earned), self.il_loss),
    {
        self.deposited.saturating_add(self.yield_earned).saturating_sub(self.il_loss)
    }
}

} // verus!
