use vstd::prelude::*;
use crate::error::ErrorCode;

verus! {

/// The source balance went down by exactly `amount`.
pub open spec fn moved_exactly(before: u64, after: u64, amount: u64) -> bool {
    before as int - after as int == amount as int
}

/// Checks a transfer by the balance of its source, read before and after:
/// anything but a drop of exactly `amount` is an `AmountMismatch`.
pub fn verify_transfer(before: u64, after: u64, amount: u64) -> (r: Result<(), ErrorCode>)
    ensures
        r == (if moved_exactly(before, after, amount) {
            Ok(())
        } else {
            Err(ErrorCode::AmountMismatch)
        }),
{
    if after <= before && before - after == amount {
        Ok(())
    } else {
        Err(ErrorCode::AmountMismatch)
    }
}

} // verus!
