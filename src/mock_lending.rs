//! A simulated lending market: a deposit earns simple interest at a fixed
//! annual rate from the time of the latest deposit.
use crate::mock_amm::saturating_add_spec;
use vstd::prelude::*;

verus! {

pub const SECONDS_PER_YEAR: u64 = 365 * 24 * 60 * 60;

/// Rates are in hundredths of a percent: 1050 is 10.50% a year.
pub const RATE_SCALE: u64 = 10_000;

/// A year of interest at a rate of one unit of `RATE_SCALE`.
pub const INTEREST_DIVISOR: u128 = 10_000 * 365 * 24 * 60 * 60;

pub struct MockLending {
    pub deposited: u64,
    pub interest_earned: u64,
    /// Annual rate in hundredths of a percent.
    pub annual_rate: u16,
    /// Time of the latest deposit; interest runs from here.
    pub deposit_timestamp: i64,
}

/// Seconds from `from` to `to`: zero when `to` is earlier, `i64::MAX` at most.
pub open spec fn elapsed_seconds(from: i64, to: i64) -> int {
    if to - from < 0 {
        0
    } else if to - from > i64::MAX {
        i64::MAX as int
    } else {
        to - from
    }
}

/// Simple interest on `deposited` at `annual_rate` over `seconds`, rounded
/// down; zero where the computation leaves `u128` or the result leaves `u64`.
pub open spec fn interest_of(deposited: u64, annual_rate: u16, seconds: int) -> int {
    let product = deposited * annual_rate * seconds;
    let interest = product / (INTEREST_DIVISOR as int);
    if deposited == 0 || product > u128::MAX || interest > u64::MAX {
        0
    } else {
        interest
    }
}

impl MockLending {
    pub fn new(annual_rate: u16) -> (r: Self)
        ensures
            r.annual_rate == annual_rate,
            r.deposited == 0,
            r.interest_earned == 0,
            r.deposit_timestamp == 0,
    {
        MockLending { deposited: 0, interest_earned: 0, annual_rate, deposit_timestamp: 0 }
    }

    /// Adds `amount` to the deposit; interest then runs from `timestamp`.
    /// Zero, or a sum past `u64`, is refused and nothing changes.
    pub fn deposit(&mut self, amount: u64, timestamp: i64) -> (r: Result<(), String>)
        ensures
            amount == 0 || old(self).deposited + amount > u64::MAX ==> r is Err && *final(self)
                == *old(self),
            !(amount == 0 || old(self).deposited + amount > u64::MAX) ==> r is Ok && *final(self)
                == (MockLending {
                deposited: (old(self).deposited + amount) as u64,
                deposit_timestamp: timestamp,
                ..*old(self)
            }),
    {
        if amount == 0 {
            return Err("Deposit amount must be greater than 0".to_string());
        }
        let deposited = match self.deposited.checked_add(amount) {
            Some(x) => x,
            None => return Err("Overflow in deposit".to_string()),
        };
        self.deposited = deposited;
        self.deposit_timestamp = timestamp;
        Ok(())
    }

    /// Takes `amount` out of the deposit and returns it. More than the
    /// deposit is refused and nothing changes.
    pub fn withdraw(&mut self, amount: u64) -> (r: Result<u64, String>)
        ensures
            amount > old(self).deposited ==> r is Err && *final(self) == *old(self),
            amount <= old(self).deposited ==> r == Ok::<u64, String>(amount) && *final(self) == (
            MockLending { deposited: (old(self).deposited - amount) as u64, ..*old(self) }),
    {
        if amount > self.deposited {
            return Err("Insufficient balance".to_string());
        }
        self.deposited = self.deposited - amount;
        Ok(amount)
    }

    /// Interest earned on the current deposit from its timestamp until
    /// `current_timestamp`.
    pub fn calculate_interest(&self, current_timestamp: i64) -> (r: u64)
        ensures
            r == interest_of(
                self.deposited,
                self.annual_rate,
                elapsed_seconds(self.deposit_timestamp, current_timestamp),
            ),
    {
        if self.deposited == 0 {
            return 0;
        }
        let seconds: u64 = match current_timestamp.checked_sub(self.deposit_timestamp) {
            Some(elapsed) => if elapsed < 0 {
                0
            } else {
                elapsed as u64
            },
            None => if current_timestamp > self.deposit_timestamp {
                i64::MAX as u64
            } else {
                0
            },
        };
        proof {
            crate::arith::lemma_u64_product_fits(self.deposited, self.annual_rate as u64);
        }
        let interest = match (self.deposited as u128).checked_mul(self.annual_rate as u128) {
            Some(x) => match x.checked_mul(seconds as u128) {
                Some(y) => y / INTEREST_DIVISOR,
                None => return 0,
            },
            None => return 0,
        };
        if interest > u64::MAX as u128 {
            0
        } else {
            interest as u64
        }
    }

    /// Raises the recorded interest to what has accrued by
    /// `current_timestamp`; it never goes down.
    pub fn accrue_interest(&mut self, current_timestamp: i64)
        ensures
            ({
                let accrued = interest_of(
                    old(self).deposited,
                    old(self).annual_rate,
                    elapsed_seconds(old(self).deposit_timestamp, current_timestamp),
                );
                *final(self) == (MockLending {
                    interest_earned: if accrued > old(self).interest_earned {
                        accrued as u64
                    } else {
                        old(self).interest_earned
                    },
                    ..*old(self)
                })
            }),
    {
        let new_interest = self.calculate_interest(current_timestamp);
        if new_interest > self.interest_earned {
            self.interest_earned = new_interest;
        }
    }

    /// Deposit plus interest, saturating at `u64::MAX`.
    pub fn get_balance(&self) -> (r: u64)
        ensures
            r == saturating_add_spec(self.deposited, self.interest_earned),
    {
        self.deposited.saturating_add(self.interest_earned)
    }

    pub fn get_apy(&self) -> (r: u16)
        ensures
            r == self.annual_rate,
    {
        self.annual_rate
    }
}

} // verus!
