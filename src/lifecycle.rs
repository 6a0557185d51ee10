use vstd::prelude::*;
use crate::error::ErrorCode;
use crate::fee::{Config, FeeCharge, FeeMode, MintInfo, resolve_fee, resolved_fee};
use crate::locker::Locker;
use crate::pubkey::Pubkey;
use crate::transfer::{moved_exactly, verify_transfer};
use crate::vesting::{withdrawable, withdrawable_amount};

verus! {

/// Unlock dates at or above this are taken for millisecond timestamps.
pub const MAX_UNLOCK_DATE: i64 = 10_000_000_000;

/// Whether a locker is still open after an operation, or was emptied and
/// must be released together with its vault.
#[derive(Clone, Copy, Debug, PartialEq, Eq, Structural)]
pub enum LockerStatus {
    Active,
    Closed,
}

pub open spec fn status_after(vault_after: u64) -> LockerStatus {
    if vault_after == 0 {
        LockerStatus::Closed
    } else {
        LockerStatus::Active
    }
}

fn status_of(vault_after: u64) -> (r: LockerStatus)
    ensures
        r == status_after(vault_after),
{
    if vault_after == 0 {
        LockerStatus::Closed
    } else {
        LockerStatus::Active
    }
}

/// The amounts an operation that locks value will move: the fee, and what
/// goes into the vault.
#[derive(Clone, Copy, Debug, PartialEq, Eq, Structural)]
pub struct LockPlan {
    pub fee: FeeCharge,
    pub amount_to_lock: u64,
}

/// Balances of the funding account read after each transfer of an
/// operation that locks value: after the fee (equal to the starting balance
/// when no token fee is moved) and after the deposit into the vault.
#[derive(Clone, Copy, Debug, PartialEq, Eq, Structural)]
pub struct FundingReport {
    pub after_fee: u64,
    pub after_lock: u64,
}

/// Both transfers of a locking operation moved exactly what was planned.
pub open spec fn funding_verified(before: u64, report: FundingReport, plan: LockPlan) -> bool {
    &&& moved_exactly(before, report.after_fee, plan.fee.token_amount())
    &&& moved_exactly(report.after_fee, report.after_lock, plan.amount_to_lock)
}

fn verify_funding(before: u64, report: &FundingReport, plan: &LockPlan) -> (r: Result<
    (),
    ErrorCode,
>)
    ensures
        r == (if funding_verified(before, *report, *plan) {
            Ok(())
        } else {
            Err(ErrorCode::AmountMismatch)
        }),
{
    verify_transfer(before, report.after_fee, plan.fee.token_fee())?;
    verify_transfer(report.after_fee, report.after_lock, plan.amount_to_lock)
}

/// The mint record after a fee was paid: a flat fee marks it paid.
pub open spec fn mint_info_after(mint_info: MintInfo, fee: FeeCharge) -> MintInfo {
    match fee {
        FeeCharge::Flat(_) => MintInfo { fee_paid: true, ..mint_info },
        _ => mint_info,
    }
}

// ---------------------------------------------------------------- create

/// What creating a locker reads from its accounts and the clock.
#[derive(Clone, Copy, Debug)]
pub struct CreateLocker {
    pub creator: Pubkey,
    pub owner: Pubkey,
    pub vault: Pubkey,
    pub mint: Pubkey,
    pub fee_wallet: Pubkey,
    pub now: i64,
    /// The ban list's answer for the requested country.
    pub country_allowed: bool,
    /// Balance of the funding account before the call.
    pub funding_balance: u64,
}

#[derive(Clone, Copy, Debug)]
pub struct CreateLockerArgs {
    pub amount: u64,
    pub unlock_date: i64,
    pub country_code: u16,
    pub start_emission: Option<i64>,
    pub locker_bump: u8,
    pub vault_bump: u8,
    pub fee_mode: FeeMode,
}

/// The checks of a creation, in order, then the fee and what is locked.
pub open spec fn create_plan(
    config: Config,
    mint_info: MintInfo,
    ctx: CreateLocker,
    args: CreateLockerArgs,
) -> Result<LockPlan, ErrorCode> {
    if args.unlock_date <= ctx.now {
        Err(ErrorCode::UnlockInThePast)
    } else if args.unlock_date >= MAX_UNLOCK_DATE {
        Err(ErrorCode::InvalidTimestamp)
    } else if !ctx.country_allowed {
        Err(ErrorCode::InvalidCountry)
    } else if args.start_emission is Some && !config.linear_emission_enabled {
        Err(ErrorCode::LinearEmissionDisabled)
    } else if args.start_emission matches Some(s) && s >= args.unlock_date {
        Err(ErrorCode::InvalidPeriod)
    } else {
        match resolved_fee(config, mint_info, args.fee_mode, args.amount, ctx.fee_wallet@, ctx.mint@) {
            Err(e) => Err(e),
            Ok(fee) => if args.amount - fee.token_amount() <= 0 {
                Err(ErrorCode::NothingToLock)
            } else {
                Ok(LockPlan { fee, amount_to_lock: (args.amount - fee.token_amount()) as u64 })
            },
        }
    }
}

/// The locker a successful creation records.
pub open spec fn created_locker(ctx: CreateLocker, args: CreateLockerArgs, amount: u64) -> Locker {
    Locker {
        owner: ctx.owner,
        country_code: args.country_code,
        current_unlock_date: args.unlock_date,
        start_emission: args.start_emission,
        last_withdraw: None,
        deposited_amount: amount,
        vault: ctx.vault,
        vault_bump: args.vault_bump,
        creator: ctx.creator,
        original_unlock_date: args.unlock_date,
        bump: args.locker_bump,
    }
}

/// The outcome of a creation whose transfers left the funding account as
/// `report` says.
pub open spec fn create_outcome(
    config: Config,
    mint_info: MintInfo,
    ctx: CreateLocker,
    args: CreateLockerArgs,
    report: FundingReport,
) -> Result<Locker, ErrorCode> {
    match create_plan(config, mint_info, ctx, args) {
        Err(e) => Err(e),
        Ok(p) => if funding_verified(ctx.funding_balance, report, p) {
            Ok(created_locker(ctx, args, p.amount_to_lock))
        } else {
            Err(ErrorCode::AmountMismatch)
        },
    }
}

/// Checks a creation and works out the transfers it needs: the token fee to
/// the fee account, then the rest into the vault.
pub fn plan_create_locker(
    config: &Config,
    mint_info: &MintInfo,
    ctx: &CreateLocker,
    args: &CreateLockerArgs,
) -> (r: Result<LockPlan, ErrorCode>)
    requires
        config.wf(),
    ensures
        r == create_plan(*config, *mint_info, *ctx, *args),
        r matches Ok(p) ==> p.fee.token_amount() + p.amount_to_lock == args.amount
            && p.amount_to_lock > 0,
{
    if args.unlock_date <= ctx.now {
        return Err(ErrorCode::UnlockInThePast);
    }
    if args.unlock_date >= MAX_UNLOCK_DATE {
        return Err(ErrorCode::InvalidTimestamp);
    }
    if !ctx.country_allowed {
        return Err(ErrorCode::InvalidCountry);
    }
    if let Some(s) = args.start_emission {
        if !config.linear_emission_enabled {
            return Err(ErrorCode::LinearEmissionDisabled);
        }
        if s >= args.unlock_date {
            return Err(ErrorCode::InvalidPeriod);
        }
    }
    let fee = resolve_fee(config, mint_info, args.fee_mode, args.amount, &ctx.fee_wallet, &ctx.mint)?;
    let amount_to_lock = args.amount - fee.token_fee();
    if amount_to_lock == 0 {
        return Err(ErrorCode::NothingToLock);
    }
    Ok(LockPlan { fee, amount_to_lock })
}

/// Completes a creation once its transfers were made: both must have moved
/// exactly the planned amounts out of the funding account. Records the
/// locker, and marks the mint's fee paid when a flat fee was charged. On
/// failure the mint record is unchanged.
pub fn create_locker(
    config: &Config,
    mint_info: &mut MintInfo,
    ctx: &CreateLocker,
    args: &CreateLockerArgs,
    report: &FundingReport,
) -> (r: Result<Locker, ErrorCode>)
    requires
        config.wf(),
    ensures
        r == create_outcome(*config, *old(mint_info), *ctx, *args, *report),
        r is Ok ==> (create_plan(*config, *old(mint_info), *ctx, *args) matches Ok(p)
            && *final(mint_info) == mint_info_after(*old(mint_info), p.fee)
            && ctx.funding_balance - report.after_lock == args.amount
            && p.fee.token_amount() + p.amount_to_lock == args.amount),
        r is Err ==> *final(mint_info) == *old(mint_info),
        r matches Ok(l) ==> (create_plan(*config, *old(mint_info), *ctx, *args) matches Ok(p)
            && ctx.funding_balance - report.after_lock == l.deposited_amount
            + p.fee.token_amount()),
        r matches Ok(l) ==> l.wf(),
{
    let plan = plan_create_locker(config, mint_info, ctx, args)?;
    verify_funding(ctx.funding_balance, report, &plan)?;
    if let FeeCharge::Flat(_) = plan.fee {
        mint_info.fee_paid = true;
    }
    Ok(
        Locker {
            owner: ctx.owner,
            country_code: args.country_code,
            current_unlock_date: args.unlock_date,
            start_emission: args.start_emission,
            last_withdraw: None,
            deposited_amount: plan.amount_to_lock,
            vault: ctx.vault,
            vault_bump: args.vault_bump,
            creator: ctx.creator,
            original_unlock_date: args.unlock_date,
            bump: args.locker_bump,
        },
    )
}

// ---------------------------------------------------------------- relock

/// The signer of a relock.
#[derive(Clone, Copy, Debug)]
pub struct Relock {
    pub owner: Pubkey,
}

/// Moves the release date later. Only the owner may, and only to a date
/// after the current one; nothing else changes, and on failure nothing does.
pub fn relock(locker: &mut Locker, ctx: &Relock, unlock_date: i64) -> (r: Result<(), ErrorCode>)
    ensures
        ctx.owner@ != old(locker).owner@ ==> r == Err::<(), ErrorCode>(ErrorCode::Unauthorized),
        ctx.owner@ == old(locker).owner@ && unlock_date <= old(locker).current_unlock_date ==> r
            == Err::<(), ErrorCode>(ErrorCode::CannotUnlockEarlier),
        ctx.owner@ == old(locker).owner@ && unlock_date > old(locker).current_unlock_date ==> r
            is Ok,
        r is Ok ==> *final(locker) == (Locker { current_unlock_date: unlock_date, ..*old(locker) }),
        r is Err ==> *final(locker) == *old(locker),
        final(locker).current_unlock_date >= old(locker).current_unlock_date,
        old(locker).wf() ==> final(locker).wf(),
{
    if !ctx.owner.same_as(&locker.owner) {
        return Err(ErrorCode::Unauthorized);
    }
    if unlock_date <= locker.current_unlock_date {
        return Err(ErrorCode::CannotUnlockEarlier);
    }
    locker.current_unlock_date = unlock_date;
    Ok(())
}

// ---------------------------------------------------------------- ownership

#[derive(Clone, Copy, Debug)]
pub struct TransferOwnership {
    /// The signer.
    pub owner: Pubkey,
    pub new_owner: Pubkey,
}

/// Hands the locker to `new_owner`; only the owner may.
pub fn transfer_ownership(locker: &mut Locker, ctx: &TransferOwnership) -> (r: Result<
    (),
    ErrorCode,
>)
    ensures
        ctx.owner@ != old(locker).owner@ ==> r == Err::<(), ErrorCode>(ErrorCode::Unauthorized)
            && *final(locker) == *old(locker),
        ctx.owner@ == old(locker).owner@ ==> r is Ok && *final(locker) == (Locker {
            owner: ctx.new_owner,
            ..*old(locker)
        }),
        final(locker).current_unlock_date == old(locker).current_unlock_date,
        old(locker).wf() ==> final(locker).wf(),
{
    if !ctx.owner.same_as(&locker.owner) {
        return Err(ErrorCode::Unauthorized);
    }
    locker.owner = ctx.new_owner;
    Ok(())
}

// ---------------------------------------------------------------- increment

/// What adding to a locker reads from its accounts.
#[derive(Clone, Copy, Debug)]
pub struct IncrementLock {
    pub mint: Pubkey,
    pub fee_wallet: Pubkey,
    /// Balance of the funding account before the call.
    pub funding_balance: u64,
}

/// The checks of an increment: the proportional fee if one is still due,
/// and room in the deposited total for the rest.
pub open spec fn increment_plan(
    locker: Locker,
    config: Config,
    mint_info: MintInfo,
    ctx: IncrementLock,
    amount: u64,
) -> Result<LockPlan, ErrorCode> {
    match resolved_fee(config, mint_info, FeeMode::Proportional, amount, ctx.fee_wallet@, ctx.mint@) {
        Err(e) => Err(e),
        Ok(fee) => if locker.deposited_amount + (amount - fee.token_amount()) > u64::MAX {
            Err(ErrorCode::IntegerOverflow)
        } else {
            Ok(LockPlan { fee, amount_to_lock: (amount - fee.token_amount()) as u64 })
        },
    }
}

/// Checks an increment of `amount` and works out its transfers.
pub fn plan_increment_lock(
    locker: &Locker,
    config: &Config,
    mint_info: &MintInfo,
    ctx: &IncrementLock,
    amount: u64,
) -> (r: Result<LockPlan, ErrorCode>)
    requires
        config.wf(),
    ensures
        r == increment_plan(*locker, *config, *mint_info, *ctx, amount),
        r matches Ok(p) ==> p.fee.token_amount() + p.amount_to_lock == amount,
{
    let fee = resolve_fee(
        config,
        mint_info,
        FeeMode::Proportional,
        amount,
        &ctx.fee_wallet,
        &ctx.mint,
    )?;
    let amount_to_lock = amount - fee.token_fee();
    if amount_to_lock > u64::MAX - locker.deposited_amount {
        return Err(ErrorCode::IntegerOverflow);
    }
    Ok(LockPlan { fee, amount_to_lock })
}

/// Completes an increment once its transfers were made: both must have
/// moved exactly the planned amounts; the amount locked is added to the
/// deposited total. The checkpoint of the last withdrawal is kept. On
/// failure the locker is unchanged.
pub fn increment_lock(
    locker: &mut Locker,
    config: &Config,
    mint_info: &MintInfo,
    ctx: &IncrementLock,
    amount: u64,
    report: &FundingReport,
) -> (r: Result<(), ErrorCode>)
    requires
        config.wf(),
    ensures
        match increment_plan(*old(locker), *config, *mint_info, *ctx, amount) {
            Err(e) => r == Err::<(), ErrorCode>(e),
            Ok(p) => if funding_verified(ctx.funding_balance, *report, p) {
                &&& r is Ok
                &&& *final(locker) == (Locker {
                    deposited_amount: (old(locker).deposited_amount + p.amount_to_lock) as u64,
                    ..*old(locker)
                })
                &&& ctx.funding_balance - report.after_lock == amount
                &&& ctx.funding_balance - report.after_lock == (final(locker).deposited_amount
                    - old(locker).deposited_amount) + p.fee.token_amount()
            } else {
                r == Err::<(), ErrorCode>(ErrorCode::AmountMismatch)
            },
        },
        r is Err ==> *final(locker) == *old(locker),
        final(locker).current_unlock_date == old(locker).current_unlock_date,
        old(locker).wf() ==> final(locker).wf(),
{
    let plan = plan_increment_lock(locker, config, mint_info, ctx, amount)?;
    verify_funding(ctx.funding_balance, report, &plan)?;
    locker.deposited_amount = locker.deposited_amount + plan.amount_to_lock;
    Ok(())
}

// ---------------------------------------------------------------- withdraw

/// What a withdrawal reads from its accounts and the clock.
#[derive(Clone, Copy, Debug)]
pub struct WithdrawFunds {
    /// The signer.
    pub owner: Pubkey,
    pub now: i64,
    /// Balance of the vault before the call.
    pub vault_balance: u64,
}

/// The checks of a withdrawal of `amount`, and what it moves. Asking for
/// nothing is always an error.
pub open spec fn withdraw_plan(locker: Locker, ctx: WithdrawFunds, amount: u64) -> Result<
    u64,
    ErrorCode,
> {
    if amount == 0 {
        Err(ErrorCode::InvalidAmount)
    } else if ctx.owner@ != locker.owner@ {
        Err(ErrorCode::Unauthorized)
    } else {
        match withdrawable(locker, ctx.vault_balance, ctx.now, amount) {
            Err(e) => Err(e),
            Ok(a) => if a == 0 {
                Err(ErrorCode::InvalidAmount)
            } else {
                Ok(a)
            },
        }
    }
}

/// The locker after a withdrawal at `now`: a linear schedule records `now`
/// as its checkpoint.
pub open spec fn after_withdraw(locker: Locker, now: i64) -> Locker {
    if locker.start_emission is Some {
        Locker { last_withdraw: Some(now), ..locker }
    } else {
        locker
    }
}

/// Checks a withdrawal of `amount` and works out what it moves out of the
/// vault.
pub fn plan_withdraw_funds(locker: &Locker, ctx: &WithdrawFunds, amount: u64) -> (r: Result<
    u64,
    ErrorCode,
>)
    ensures
        r == withdraw_plan(*locker, *ctx, amount),
        amount == 0 ==> r == Err::<u64, ErrorCode>(ErrorCode::InvalidAmount),
        r matches Ok(a) ==> 0 < a <= amount && a <= ctx.vault_balance,
{
    if amount == 0 {
        return Err(ErrorCode::InvalidAmount);
    }
    if !ctx.owner.same_as(&locker.owner) {
        return Err(ErrorCode::Unauthorized);
    }
    let to_move = withdrawable_amount(locker, ctx.vault_balance, ctx.now, amount)?;
    if to_move == 0 {
        return Err(ErrorCode::InvalidAmount);
    }
    Ok(to_move)
}

/// Completes a withdrawal once the vault was read again as `vault_after`:
/// it must have gone down by exactly the planned amount. Records the
/// checkpoint of a linear schedule and reports the locker closed when the
/// vault is empty. On failure the locker is unchanged.
pub fn withdraw_funds(locker: &mut Locker, ctx: &WithdrawFunds, amount: u64, vault_after: u64) -> (r:
    Result<LockerStatus, ErrorCode>)
    ensures
        match withdraw_plan(*old(locker), *ctx, amount) {
            Err(e) => r == Err::<LockerStatus, ErrorCode>(e),
            Ok(a) => if moved_exactly(ctx.vault_balance, vault_after, a) {
                &&& r == Ok::<LockerStatus, ErrorCode>(status_after(vault_after))
                &&& *final(locker) == after_withdraw(*old(locker), ctx.now)
            } else {
                r == Err::<LockerStatus, ErrorCode>(ErrorCode::AmountMismatch)
            },
        },
        amount == 0 ==> r == Err::<LockerStatus, ErrorCode>(ErrorCode::InvalidAmount),
        r is Ok ==> (withdraw_plan(*old(locker), *ctx, amount) matches Ok(a)
            && ctx.vault_balance - vault_after == a),
        r is Err ==> *final(locker) == *old(locker),
        final(locker).current_unlock_date == old(locker).current_unlock_date,
        final(locker).deposited_amount == old(locker).deposited_amount,
        old(locker).wf() ==> final(locker).wf(),
{
    let to_move = plan_withdraw_funds(locker, ctx, amount)?;
    verify_transfer(ctx.vault_balance, vault_after, to_move)?;
    if locker.start_emission.is_some() {
        locker.last_withdraw = Some(ctx.now);
    }
    Ok(status_of(vault_after))
}

// ---------------------------------------------------------------- split

#[derive(Clone, Copy, Debug)]
pub struct SplitLockerArgs {
    pub locker_bump: u8,
    pub vault_bump: u8,
    pub amount: u64,
}

/// What a split reads from its accounts.
#[derive(Clone, Copy, Debug)]
pub struct SplitLocker {
    /// The signer.
    pub old_owner: Pubkey,
    /// Balance of the old vault before the call.
    pub old_vault_balance: u64,
    pub new_owner: Pubkey,
    pub new_vault: Pubkey,
}

/// The checks of a split; on success the amount moves to the new vault.
pub open spec fn split_plan(old_locker: Locker, ctx: SplitLocker, args: SplitLockerArgs) -> Result<
    u64,
    ErrorCode,
> {
    if ctx.old_owner@ != old_locker.owner@ {
        Err(ErrorCode::Unauthorized)
    } else if args.amount == 0 || args.amount > ctx.old_vault_balance {
        Err(ErrorCode::InvalidAmount)
    } else if args.amount > old_locker.deposited_amount {
        Err(ErrorCode::IntegerOverflow)
    } else {
        Ok(args.amount)
    }
}

/// The locker a split creates: the old one's country, release date and
/// vesting start, a fresh owner, no withdrawal history.
pub open spec fn split_off_locker(old_locker: Locker, ctx: SplitLocker, args: SplitLockerArgs) -> Locker {
    Locker {
        owner: ctx.new_owner,
        country_code: old_locker.country_code,
        current_unlock_date: old_locker.current_unlock_date,
        start_emission: old_locker.start_emission,
        last_withdraw: None,
        deposited_amount: args.amount,
        vault: ctx.new_vault,
        vault_bump: args.vault_bump,
        creator: ctx.old_owner,
        original_unlock_date: old_locker.current_unlock_date,
        bump: args.locker_bump,
    }
}

/// Checks a split and returns the amount to move to the new vault.
pub fn plan_split_locker(old_locker: &Locker, ctx: &SplitLocker, args: &SplitLockerArgs) -> (r:
    Result<u64, ErrorCode>)
    ensures
        r == split_plan(*old_locker, *ctx, *args),
{
    if !ctx.old_owner.same_as(&old_locker.owner) {
        return Err(ErrorCode::Unauthorized);
    }
    if args.amount == 0 || args.amount > ctx.old_vault_balance {
        return Err(ErrorCode::InvalidAmount);
    }
    if args.amount > old_locker.deposited_amount {
        return Err(ErrorCode::IntegerOverflow);
    }
    Ok(args.amount)
}

/// Completes a split once the old vault was read again as
/// `old_vault_after`: it must have gone down by exactly the amount. The old
/// locker's deposited total drops by the amount, which the new locker
/// holds; the old one is reported closed when its vault is empty. On
/// failure the old locker is unchanged.
pub fn split_locker(
    old_locker: &mut Locker,
    ctx: &SplitLocker,
    args: &SplitLockerArgs,
    old_vault_after: u64,
) -> (r: Result<(Locker, LockerStatus), ErrorCode>)
    ensures
        match split_plan(*old(old_locker), *ctx, *args) {
            Err(e) => r == Err::<(Locker, LockerStatus), ErrorCode>(e),
            Ok(a) => if moved_exactly(ctx.old_vault_balance, old_vault_after, a) {
                &&& r == Ok::<(Locker, LockerStatus), ErrorCode>(
                    (split_off_locker(*old(old_locker), *ctx, *args), status_after(old_vault_after)),
                )
                &&& *final(old_locker) == (Locker {
                    deposited_amount: (old(old_locker).deposited_amount - a) as u64,
                    ..*old(old_locker)
                })
            } else {
                r == Err::<(Locker, LockerStatus), ErrorCode>(ErrorCode::AmountMismatch)
            },
        },
        r is Err ==> *final(old_locker) == *old(old_locker),
        r matches Ok((n, _)) ==> final(old_locker).deposited_amount + n.deposited_amount
            == old(old_locker).deposited_amount,
        r matches Ok((n, _)) ==> ctx.old_vault_balance - old_vault_after == n.deposited_amount,
        final(old_locker).current_unlock_date == old(old_locker).current_unlock_date,
        old(old_locker).wf() ==> final(old_locker).wf(),
        old(old_locker).wf() ==> (r matches Ok((n, _)) ==> n.wf()),
{
    let amount = plan_split_locker(old_locker, ctx, args)?;
    verify_transfer(ctx.old_vault_balance, old_vault_after, amount)?;
    old_locker.deposited_amount = old_locker.deposited_amount - amount;
    let new_locker = Locker {
        owner: ctx.new_owner,
        country_code: old_locker.country_code,
        current_unlock_date: old_locker.current_unlock_date,
        start_emission: old_locker.start_emission,
        last_withdraw: None,
        deposited_amount: amount,
        vault: ctx.new_vault,
        vault_bump: args.vault_bump,
        creator: ctx.old_owner,
        original_unlock_date: old_locker.current_unlock_date,
        bump: args.locker_bump,
    };
    Ok((new_locker, status_of(old_vault_after)))
}

// ---------------------------------------------------------------- close

/// What closing a locker reads from its accounts.
#[derive(Clone, Copy, Debug)]
pub struct CloseLocker {
    /// The signer.
    pub owner: Pubkey,
    /// Balance of the vault before the call.
    pub vault_balance: u64,
}

/// Checks a close and returns what it moves: the whole vault.
pub fn plan_close_locker(locker: &Locker, ctx: &CloseLocker) -> (r: Result<u64, ErrorCode>)
    ensures
        ctx.owner@ != locker.owner@ ==> r == Err::<u64, ErrorCode>(ErrorCode::Unauthorized),
        ctx.owner@ == locker.owner@ ==> r == Ok::<u64, ErrorCode>(ctx.vault_balance),
{
    if !ctx.owner.same_as(&locker.owner) {
        return Err(ErrorCode::Unauthorized);
    }
    Ok(ctx.vault_balance)
}

/// Completes a close once the vault was read again as `vault_after`: it
/// must be empty. Returns the amount released; the locker and its vault are
/// then released together.
pub fn close_locker(locker: &Locker, ctx: &CloseLocker, vault_after: u64) -> (r: Result<
    u64,
    ErrorCode,
>)
    ensures
        ctx.owner@ != locker.owner@ ==> r == Err::<u64, ErrorCode>(ErrorCode::Unauthorized),
        ctx.owner@ == locker.owner@ && vault_after != 0 ==> r == Err::<u64, ErrorCode>(
            ErrorCode::AmountMismatch,
        ),
        ctx.owner@ == locker.owner@ && vault_after == 0 ==> r == Ok::<u64, ErrorCode>(
            ctx.vault_balance,
        ),
{
    let amount = plan_close_locker(locker, ctx)?;
    verify_transfer(ctx.vault_balance, vault_after, amount)?;
    Ok(amount)
}

} // verus!
