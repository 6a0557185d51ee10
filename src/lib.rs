//! Token locking and vesting engine: fee arithmetic, fee policy, vesting
//! schedules, checked transfers and the locker lifecycle.
mod country;
mod error;
mod fee;
mod lifecycle;
mod locker;
mod math;
mod pubkey;
mod transfer;
mod vesting;

pub use country::{code_field_or_unknown, sorted_unique_codes};
pub use error::ErrorCode;
pub use fee::{
    Config, ConfigArgs, ConfigUpdate, FeeCharge, FeeMode, InitMintInfo, MintInfo, init_config,
    init_mint_info, is_fee_due, resolve_fee, update_config,
};
pub use lifecycle::{
    CloseLocker, CreateLocker, CreateLockerArgs, FundingReport, IncrementLock, LockPlan,
    LockerStatus, MAX_UNLOCK_DATE, Relock, SplitLocker, SplitLockerArgs, TransferOwnership,
    WithdrawFunds, close_locker, create_locker, increment_lock, plan_close_locker,
    plan_create_locker, plan_increment_lock, plan_split_locker, plan_withdraw_funds, relock,
    split_locker, transfer_ownership, withdraw_funds,
};
pub use locker::Locker;
pub use math::mul_div;
pub use pubkey::Pubkey;
pub use transfer::verify_transfer;
pub use vesting::withdrawable_amount;
