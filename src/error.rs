use vstd::prelude::*;

verus! {

/// Every way an operation of the engine can fail. A failed operation leaves
/// all state as it was.
#[derive(Clone, Copy, Debug, PartialEq, Eq, Structural)]
pub enum ErrorCode {
    /// The requested unlock date is not after the current time.
    UnlockInThePast,
    /// The unlock date is implausibly large (a millisecond timestamp).
    InvalidTimestamp,
    /// A vesting period is misordered or has zero length.
    InvalidPeriod,
    /// The fee account is not the configured fee destination.
    InvalidFeeDestination,
    /// An amount or a counter overflowed.
    IntegerOverflow,
    /// Nothing is left to lock once the fee is taken.
    NothingToLock,
    /// The amount to move is zero or exceeds what is available.
    InvalidAmount,
    /// A transfer moved a different amount than was requested.
    AmountMismatch,
    /// A relock asked for a date that is not later than the current one.
    CannotUnlockEarlier,
    /// A cliff lock was withdrawn from before its unlock date.
    TooEarlyToWithdraw,
    /// The country is on the ban list.
    InvalidCountry,
    /// The signer is not the owner or the admin the operation requires.
    Unauthorized,
    /// A fee rate with a numerator above its denominator, or a zero denominator.
    InvalidFeeRate,
    /// A vesting start was given while linear emission is switched off.
    LinearEmissionDisabled,
}

} // verus!
