use vstd::prelude::*;
use crate::error::ErrorCode;
use crate::locker::Locker;
use crate::math::{mul_div, floor_mul_div, lemma_mul_div_at_most, lemma_mul_div_monotone};

verus! {

pub open spec fn min_of(a: int, b: int) -> int {
    if a <= b {
        a
    } else {
        b
    }
}

/// Where the linear schedule is measured from: the last withdrawal if there
/// was one, so that a release is never granted twice, else the vesting start.
pub open spec fn schedule_start(start_emission: i64, last_withdraw: Option<i64>) -> i64 {
    match last_withdraw {
        Some(t) => t,
        None => start_emission,
    }
}

/// What a withdrawal at time `now` may move, given the vault balance and the
/// amount asked for.
///
/// Without a vesting start (a cliff), nothing before the unlock date and
/// everything after it. With one, after the unlock date everything; before
/// it `deposited * elapsed / period` (floored), where the period runs from
/// the schedule start to the unlock date and must not be empty. The result
/// is capped by the amount asked for and by the vault balance.
pub open spec fn withdrawable(locker: Locker, vault_balance: u64, now: i64, requested: u64) -> Result<
    u64,
    ErrorCode,
> {
    let cap = min_of(requested as int, vault_balance as int);
    let unlock = locker.current_unlock_date;
    match locker.start_emission {
        None => if now > unlock {
            Ok(cap as u64)
        } else {
            Err(ErrorCode::TooEarlyToWithdraw)
        },
        Some(start_emission) => if now > unlock {
            Ok(cap as u64)
        } else {
            let start = schedule_start(start_emission, locker.last_withdraw);
            if start >= unlock {
                Err(ErrorCode::InvalidPeriod)
            } else {
                let elapsed = if now < start {
                    0
                } else {
                    now - start
                };
                let vested = floor_mul_div(
                    locker.deposited_amount as int,
                    elapsed,
                    unlock - start,
                );
                Ok(min_of(vested, cap) as u64)
            }
        },
    }
}

/// Computes how much a withdrawal at `now` may move.
pub fn withdrawable_amount(locker: &Locker, vault_balance: u64, now: i64, requested: u64) -> (r:
    Result<u64, ErrorCode>)
    ensures
        r == withdrawable(*locker, vault_balance, now, requested),
        r matches Ok(a) ==> a <= requested && a <= vault_balance,
{
    let cap = if requested <= vault_balance {
        requested
    } else {
        vault_balance
    };
    let unlock = locker.current_unlock_date;
    match locker.start_emission {
        None => {
            if now > unlock {
                Ok(cap)
            } else {
                Err(ErrorCode::TooEarlyToWithdraw)
            }
        },
        Some(start_emission) => {
            if now > unlock {
                return Ok(cap);
            }
            let start = match locker.last_withdraw {
                Some(t) => t,
                None => start_emission,
            };
            if start >= unlock {
                return Err(ErrorCode::InvalidPeriod);
            }
            let period: u64 = ((unlock as i128) - (start as i128)) as u64;
            let elapsed: u64 = if now < start {
                0
            } else {
                ((now as i128) - (start as i128)) as u64
            };
            proof {
                lemma_mul_div_at_most(locker.deposited_amount as int, elapsed as int, period as int);
            }
            let vested = match mul_div(locker.deposited_amount, elapsed, period) {
                Some(v) => v,
                None => return Err(ErrorCode::IntegerOverflow),
            };
            if vested <= cap {
                Ok(vested)
            } else {
                Ok(cap)
            }
        },
    }
}

/// What may be withdrawn never shrinks as time passes: a withdrawal that is
/// possible at `t1` is possible at any later `t2`, for at least as much.
pub proof fn withdrawable_monotone(
    locker: Locker,
    vault_balance: u64,
    requested: u64,
    t1: i64,
    t2: i64,
)
    requires
        t1 <= t2,
        withdrawable(locker, vault_balance, t1, requested) is Ok,
    ensures
        withdrawable(locker, vault_balance, t2, requested) matches Ok(a2) && withdrawable(
            locker,
            vault_balance,
            t1,
            requested,
        ) matches Ok(a1) && a1 <= a2,
{
    let unlock = locker.current_unlock_date;
    if let Some(start_emission) = locker.start_emission {
        if t2 <= unlock {
            let start = schedule_start(start_emission, locker.last_withdraw);
            let e1: int = if t1 < start {
                0
            } else {
                t1 - start
            };
            let e2: int = if t2 < start {
                0
            } else {
                t2 - start
            };
            lemma_mul_div_monotone(locker.deposited_amount as int, e1, e2, unlock - start);
            lemma_mul_div_at_most(locker.deposited_amount as int, e1, unlock - start);
            lemma_mul_div_at_most(locker.deposited_amount as int, e2, unlock - start);
        } else if t1 <= unlock {
            let start = schedule_start(start_emission, locker.last_withdraw);
            let e1: int = if t1 < start {
                0
            } else {
                t1 - start
            };
            lemma_mul_div_at_most(locker.deposited_amount as int, e1, unlock - start);
        }
    }
}

} // verus!
