use locker::{
    close_locker, create_locker, increment_lock, plan_close_locker, plan_create_locker,
    plan_increment_lock, plan_split_locker, plan_withdraw_funds, relock, split_locker,
    transfer_ownership, withdraw_funds, CloseLocker, Config, CreateLocker, CreateLockerArgs,
    ErrorCode, FeeCharge, FeeMode, FundingReport, IncrementLock, LockPlan, Locker,
    LockerStatus, MintInfo, Pubkey, Relock, SplitLocker, SplitLockerArgs, TransferOwnership,
    WithdrawFunds,
};

const NOW: i64 = 1_700_000_000;

fn key(n: u8) -> Pubkey {
    Pubkey::new_from_array([n; 32])
}

fn ata(wallet: &Pubkey, mint: &Pubkey) -> Pubkey {
    let a = anchor_spl::associated_token::get_associated_token_address(
        &wallet.to_bytes().into(),
        &mint.to_bytes().into(),
    );
    Pubkey::new_from_array(a.to_bytes())
}

fn config() -> Config {
    Config {
        admin: key(1),
        flat_fee_amount: 1_000_000_000,
        proportional_fee_numerator: 35,
        proportional_fee_denominator: 10_000,
        mint_info_permissioned: false,
        linear_emission_enabled: true,
        fee_destination: key(2),
        country_list: key(3),
    }
}

fn create_ctx(funding_balance: u64, fee_wallet: Pubkey) -> CreateLocker {
    CreateLocker {
        creator: key(4),
        owner: key(5),
        vault: key(6),
        mint: key(7),
        fee_wallet,
        now: NOW,
        country_allowed: true,
        funding_balance,
    }
}

fn create_args(amount: u64, unlock_date: i64, start_emission: Option<i64>, fee_mode: FeeMode) -> CreateLockerArgs {
    CreateLockerArgs {
        amount,
        unlock_date,
        country_code: 0x5553,
        start_emission,
        locker_bump: 254,
        vault_bump: 253,
        fee_mode,
    }
}

fn proportional_ctx(funding_balance: u64) -> CreateLocker {
    create_ctx(funding_balance, ata(&key(2), &key(7)))
}

fn cliff_locker(deposited: u64, unlock: i64) -> Locker {
    Locker {
        owner: key(5),
        country_code: 0x5553,
        current_unlock_date: unlock,
        start_emission: None,
        last_withdraw: None,
        deposited_amount: deposited,
        vault: key(6),
        vault_bump: 1,
        creator: key(4),
        original_unlock_date: unlock,
        bump: 2,
    }
}

fn linear_locker(deposited: u64, start: i64, unlock: i64) -> Locker {
    Locker { start_emission: Some(start), ..cliff_locker(deposited, unlock) }
}

fn withdraw_ctx(now: i64, vault_balance: u64) -> WithdrawFunds {
    WithdrawFunds { owner: key(5), now, vault_balance }
}

#[test]
fn proportional_fee_then_cliff_release() {
    let cfg = config();
    let mut mint_info = MintInfo { bump: 9, fee_paid: false };
    let ctx = proportional_ctx(50_000);
    let args = create_args(10_000, NOW + 100, None, FeeMode::Proportional);
    let plan = plan_create_locker(&cfg, &mint_info, &ctx, &args).unwrap();
    assert_eq!(plan, LockPlan { fee: FeeCharge::Proportional(35), amount_to_lock: 9965 });
    let report = FundingReport { after_fee: 50_000 - 35, after_lock: 50_000 - 10_000 };
    let mut l = create_locker(&cfg, &mut mint_info, &ctx, &args, &report).unwrap();
    assert_eq!(l.deposited_amount, 9965);
    assert_eq!(l.current_unlock_date, NOW + 100);
    assert_eq!(l.original_unlock_date, NOW + 100);
    assert_eq!(l.last_withdraw, None);
    assert!(!mint_info.fee_paid);

    let early = withdraw_ctx(NOW + 50, 9965);
    assert_eq!(plan_withdraw_funds(&l, &early, 9965), Err(ErrorCode::TooEarlyToWithdraw));
    let at_date = withdraw_ctx(NOW + 100, 9965);
    assert_eq!(withdraw_funds(&mut l, &at_date, 9965, 0), Err(ErrorCode::TooEarlyToWithdraw));

    let late = withdraw_ctx(NOW + 101, 9965);
    assert_eq!(plan_withdraw_funds(&l, &late, 9965), Ok(9965));
    assert_eq!(withdraw_funds(&mut l, &late, 9965, 0), Ok(LockerStatus::Closed));
}

#[test]
fn linear_vesting_rebases_on_checkpoint() {
    let cfg = config();
    let mut mint_info = MintInfo { bump: 9, fee_paid: true };
    let ctx = proportional_ctx(1000);
    let args = create_args(1000, NOW + 1000, Some(NOW), FeeMode::Proportional);
    let report = FundingReport { after_fee: 1000, after_lock: 0 };
    let mut l = create_locker(&cfg, &mut mint_info, &ctx, &args, &report).unwrap();
    assert_eq!(l.deposited_amount, 1000);
    assert_eq!(l.start_emission, Some(NOW));

    let first = withdraw_ctx(NOW + 250, 1000);
    assert_eq!(plan_withdraw_funds(&l, &first, 1000), Ok(250));
    assert_eq!(withdraw_funds(&mut l, &first, 1000, 750), Ok(LockerStatus::Active));
    assert_eq!(l.last_withdraw, Some(NOW + 250));
    assert_eq!(l.deposited_amount, 1000);

    let second = withdraw_ctx(NOW + 500, 750);
    assert_eq!(plan_withdraw_funds(&l, &second, 1000), Ok(333));
    assert_eq!(withdraw_funds(&mut l, &second, 1000, 417), Ok(LockerStatus::Active));
    assert_eq!(l.last_withdraw, Some(NOW + 500));
}

#[test]
fn split_moves_part_to_new_locker() {
    let mut old = cliff_locker(1000, NOW + 100);
    let ctx = SplitLocker { old_owner: key(5), old_vault_balance: 1000, new_owner: key(8), new_vault: key(9) };
    let args = SplitLockerArgs { locker_bump: 11, vault_bump: 12, amount: 400 };
    assert_eq!(plan_split_locker(&old, &ctx, &args), Ok(400));
    let (new, status) = split_locker(&mut old, &ctx, &args, 600).unwrap();
    assert_eq!(status, LockerStatus::Active);
    assert_eq!(old.deposited_amount, 600);
    assert_eq!(new.deposited_amount, 400);
    assert_eq!(old.deposited_amount + new.deposited_amount, 1000);
    assert_eq!(new.owner, key(8));
    assert_eq!(new.vault, key(9));
    assert_eq!(new.country_code, old.country_code);
    assert_eq!(new.current_unlock_date, old.current_unlock_date);
    assert_eq!(new.original_unlock_date, old.current_unlock_date);
    assert_eq!(new.start_emission, old.start_emission);
    assert_eq!(new.last_withdraw, None);
    assert_eq!(new.creator, key(5));
    assert_eq!(new.bump, 11);
    assert_eq!(new.vault_bump, 12);
}

#[test]
fn split_of_whole_vault_closes_old() {
    let mut old = linear_locker(1000, NOW, NOW + 100);
    old.last_withdraw = Some(NOW + 10);
    let ctx = SplitLocker { old_owner: key(5), old_vault_balance: 1000, new_owner: key(8), new_vault: key(9) };
    let args = SplitLockerArgs { locker_bump: 11, vault_bump: 12, amount: 1000 };
    let (new, status) = split_locker(&mut old, &ctx, &args, 0).unwrap();
    assert_eq!(status, LockerStatus::Closed);
    assert_eq!(old.deposited_amount, 0);
    assert_eq!(new.start_emission, Some(NOW));
    assert_eq!(new.last_withdraw, None);
}

#[test]
fn split_errors() {
    let old = cliff_locker(1000, NOW + 100);
    let ctx = SplitLocker { old_owner: key(5), old_vault_balance: 1000, new_owner: key(8), new_vault: key(9) };
    let zero = SplitLockerArgs { locker_bump: 1, vault_bump: 1, amount: 0 };
    assert_eq!(plan_split_locker(&old, &ctx, &zero), Err(ErrorCode::InvalidAmount));
    let too_much = SplitLockerArgs { locker_bump: 1, vault_bump: 1, amount: 1001 };
    assert_eq!(plan_split_locker(&old, &ctx, &too_much), Err(ErrorCode::InvalidAmount));
    let stranger = SplitLocker { old_owner: key(99), ..ctx };
    let some = SplitLockerArgs { locker_bump: 1, vault_bump: 1, amount: 10 };
    assert_eq!(plan_split_locker(&old, &stranger, &some), Err(ErrorCode::Unauthorized));
    let rich = SplitLocker { old_vault_balance: 5000, ..ctx };
    let over_deposit = SplitLockerArgs { locker_bump: 1, vault_bump: 1, amount: 2000 };
    assert_eq!(plan_split_locker(&old, &rich, &over_deposit), Err(ErrorCode::IntegerOverflow));
    let mut unchanged = old;
    assert_eq!(split_locker(&mut unchanged, &ctx, &some, 995), Err(ErrorCode::AmountMismatch));
    assert_eq!(unchanged, old);
}

#[test]
fn relock_only_to_later_date() {
    let mut l = cliff_locker(1000, NOW + 100);
    let before = l;
    let ctx = Relock { owner: key(5) };
    assert_eq!(relock(&mut l, &ctx, NOW + 50), Err(ErrorCode::CannotUnlockEarlier));
    assert_eq!(relock(&mut l, &ctx, NOW + 100), Err(ErrorCode::CannotUnlockEarlier));
    assert_eq!(l, before);
    assert_eq!(relock(&mut l, &ctx, NOW + 200), Ok(()));
    assert_eq!(l, Locker { current_unlock_date: NOW + 200, ..before });
    assert_eq!(relock(&mut l, &Relock { owner: key(6) }, NOW + 300), Err(ErrorCode::Unauthorized));
    assert_eq!(l.current_unlock_date, NOW + 200);
}

#[test]
fn short_transfer_is_rejected() {
    let mut l = cliff_locker(1000, NOW + 100);
    let before = l;
    let ctx = withdraw_ctx(NOW + 200, 1000);
    assert_eq!(plan_withdraw_funds(&l, &ctx, 600), Ok(600));
    assert_eq!(withdraw_funds(&mut l, &ctx, 600, 410), Err(ErrorCode::AmountMismatch));
    assert_eq!(l, before);

    let mut lin = linear_locker(1000, NOW, NOW + 100);
    let lin_before = lin;
    assert_eq!(withdraw_funds(&mut lin, &withdraw_ctx(NOW + 50, 1000), 1000, 501), Err(ErrorCode::AmountMismatch));
    assert_eq!(lin, lin_before);

    let cfg = config();
    let mut mint_info = MintInfo { bump: 9, fee_paid: false };
    let cctx = proportional_ctx(50_000);
    let args = create_args(10_000, NOW + 100, None, FeeMode::Proportional);
    let short = FundingReport { after_fee: 50_000 - 35, after_lock: 50_000 - 9_000 };
    assert_eq!(create_locker(&cfg, &mut mint_info, &cctx, &args, &short).err(), Some(ErrorCode::AmountMismatch));
    let short_fee = FundingReport { after_fee: 50_000 - 30, after_lock: 50_000 - 9_995 };
    assert_eq!(create_locker(&cfg, &mut mint_info, &cctx, &args, &short_fee).err(), Some(ErrorCode::AmountMismatch));
    assert_eq!(mint_info, MintInfo { bump: 9, fee_paid: false });
}

#[test]
fn withdraw_of_nothing_fails() {
    let mut l = cliff_locker(1000, NOW + 100);
    let before = l;
    assert_eq!(withdraw_funds(&mut l, &withdraw_ctx(NOW + 200, 1000), 0, 1000), Err(ErrorCode::InvalidAmount));
    assert_eq!(withdraw_funds(&mut l, &withdraw_ctx(NOW, 1000), 0, 1000), Err(ErrorCode::InvalidAmount));
    let mut lin = linear_locker(1000, NOW, NOW + 100);
    assert_eq!(withdraw_funds(&mut lin, &withdraw_ctx(NOW + 50, 1000), 0, 1000), Err(ErrorCode::InvalidAmount));
    assert_eq!(l, before);
    // nothing vested yet
    assert_eq!(plan_withdraw_funds(&lin, &withdraw_ctx(NOW, 1000), 10), Err(ErrorCode::InvalidAmount));
    // empty vault
    assert_eq!(plan_withdraw_funds(&l, &withdraw_ctx(NOW + 200, 0), 10), Err(ErrorCode::InvalidAmount));
}

#[test]
fn withdraw_errors() {
    let l = cliff_locker(1000, NOW + 100);
    let stranger = WithdrawFunds { owner: key(42), now: NOW + 200, vault_balance: 1000 };
    assert_eq!(plan_withdraw_funds(&l, &stranger, 10), Err(ErrorCode::Unauthorized));
    let mut lin = linear_locker(1000, NOW, NOW + 100);
    lin.last_withdraw = Some(NOW + 100);
    assert_eq!(plan_withdraw_funds(&lin, &withdraw_ctx(NOW + 100, 1000), 10), Err(ErrorCode::InvalidPeriod));
    // after the unlock date the whole vault is available, whatever the checkpoint
    assert_eq!(plan_withdraw_funds(&lin, &withdraw_ctx(NOW + 101, 1200), 5000), Ok(1200));
}

#[test]
fn linear_withdraw_caps() {
    let l = linear_locker(1000, NOW, NOW + 100);
    assert_eq!(plan_withdraw_funds(&l, &withdraw_ctx(NOW + 40, 1000), 100), Ok(100));
    assert_eq!(plan_withdraw_funds(&l, &withdraw_ctx(NOW + 40, 300), 1000), Ok(300));
    assert_eq!(plan_withdraw_funds(&l, &withdraw_ctx(NOW + 40, 1000), 1000), Ok(400));
    assert_eq!(plan_withdraw_funds(&l, &withdraw_ctx(NOW + 100, 1000), 1000), Ok(1000));
    assert_eq!(plan_withdraw_funds(&l, &withdraw_ctx(NOW - 5, 1000), 1000), Err(ErrorCode::InvalidAmount));
}

#[test]
fn withdrawable_grows_with_time() {
    let l = linear_locker(777, NOW, NOW + 1000);
    let mut last = 0u64;
    let mut t = NOW + 1;
    while t <= NOW + 1100 {
        let a = plan_withdraw_funds(&l, &withdraw_ctx(t, 777), 777).unwrap_or(0);
        assert!(a >= last);
        last = a;
        t += 37;
    }
    assert_eq!(last, 777);
}

#[test]
fn create_errors() {
    let cfg = config();
    let mi = MintInfo { bump: 0, fee_paid: false };
    let ctx = proportional_ctx(100_000);
    let past = create_args(1000, NOW, None, FeeMode::Proportional);
    assert_eq!(plan_create_locker(&cfg, &mi, &ctx, &past), Err(ErrorCode::UnlockInThePast));
    let millis = create_args(1000, 1_700_000_000_000, None, FeeMode::Proportional);
    assert_eq!(plan_create_locker(&cfg, &mi, &ctx, &millis), Err(ErrorCode::InvalidTimestamp));
    let banned = CreateLocker { country_allowed: false, ..ctx };
    let ok_args = create_args(1000, NOW + 10, None, FeeMode::Proportional);
    assert_eq!(plan_create_locker(&cfg, &mi, &banned, &ok_args), Err(ErrorCode::InvalidCountry));
    let misordered = create_args(1000, NOW + 10, Some(NOW + 10), FeeMode::Proportional);
    assert_eq!(plan_create_locker(&cfg, &mi, &ctx, &misordered), Err(ErrorCode::InvalidPeriod));
    let no_linear = Config { linear_emission_enabled: false, ..cfg };
    let vesting = create_args(1000, NOW + 10, Some(NOW), FeeMode::Proportional);
    assert_eq!(plan_create_locker(&no_linear, &mi, &ctx, &vesting), Err(ErrorCode::LinearEmissionDisabled));
    let everything_is_fee = Config { proportional_fee_numerator: 10_000, ..cfg };
    assert_eq!(plan_create_locker(&everything_is_fee, &mi, &ctx, &ok_args), Err(ErrorCode::NothingToLock));
    let zero = create_args(0, NOW + 10, None, FeeMode::Proportional);
    assert_eq!(plan_create_locker(&cfg, &mi, &ctx, &zero), Err(ErrorCode::NothingToLock));
    // the fee destination itself is not its token account
    let wrong_wallet = create_ctx(100_000, key(2));
    assert_eq!(plan_create_locker(&cfg, &mi, &wrong_wallet, &ok_args), Err(ErrorCode::InvalidFeeDestination));
    let flat = create_args(1000, NOW + 10, None, FeeMode::Flat);
    assert_eq!(plan_create_locker(&cfg, &mi, &ctx, &flat), Err(ErrorCode::InvalidFeeDestination));
}

#[test]
fn flat_fee_is_paid_once_per_mint() {
    let cfg = config();
    let mut mi = MintInfo { bump: 3, fee_paid: false };
    let ctx = create_ctx(5000, key(2));
    let args = create_args(1000, NOW + 10, None, FeeMode::Flat);
    let plan = plan_create_locker(&cfg, &mi, &ctx, &args).unwrap();
    assert_eq!(plan, LockPlan { fee: FeeCharge::Flat(1_000_000_000), amount_to_lock: 1000 });
    let report = FundingReport { after_fee: 5000, after_lock: 4000 };
    let l = create_locker(&cfg, &mut mi, &ctx, &args, &report).unwrap();
    assert_eq!(l.deposited_amount, 1000);
    assert_eq!(mi, MintInfo { bump: 3, fee_paid: true });
    // next time no fee, whichever mode and fee account
    let plan2 = plan_create_locker(&cfg, &mi, &create_ctx(5000, key(77)), &args).unwrap();
    assert_eq!(plan2, LockPlan { fee: FeeCharge::Waived, amount_to_lock: 1000 });
}

#[test]
fn permissioned_fee_is_paid_every_time() {
    let cfg = Config { mint_info_permissioned: true, ..config() };
    let mut mi = MintInfo { bump: 3, fee_paid: true };
    let ctx = proportional_ctx(20_000);
    let args = create_args(10_000, NOW + 10, None, FeeMode::Proportional);
    let plan = plan_create_locker(&cfg, &mi, &ctx, &args).unwrap();
    assert_eq!(plan.fee, FeeCharge::Proportional(35));
    let report = FundingReport { after_fee: 19_965, after_lock: 10_000 };
    let l = create_locker(&cfg, &mut mi, &ctx, &args, &report).unwrap();
    assert_eq!(l.deposited_amount, 9965);
}

#[test]
fn increment_adds_after_fee() {
    let cfg = config();
    let mi = MintInfo { bump: 0, fee_paid: false };
    let mut l = cliff_locker(9965, NOW + 100);
    let ctx = IncrementLock { mint: key(7), fee_wallet: ata(&key(2), &key(7)), funding_balance: 20_000 };
    let plan = plan_increment_lock(&l, &cfg, &mi, &ctx, 2000).unwrap();
    assert_eq!(plan, LockPlan { fee: FeeCharge::Proportional(7), amount_to_lock: 1993 });
    let report = FundingReport { after_fee: 19_993, after_lock: 18_000 };
    assert_eq!(increment_lock(&mut l, &cfg, &mi, &ctx, 2000, &report), Ok(()));
    assert_eq!(l.deposited_amount, 11_958);

    let paid = MintInfo { bump: 0, fee_paid: true };
    let ctx2 = IncrementLock { fee_wallet: key(55), funding_balance: 500, ..ctx };
    let report2 = FundingReport { after_fee: 500, after_lock: 0 };
    assert_eq!(increment_lock(&mut l, &cfg, &paid, &ctx2, 500, &report2), Ok(()));
    assert_eq!(l.deposited_amount, 12_458);
}

#[test]
fn increment_errors() {
    let cfg = config();
    let mi = MintInfo { bump: 0, fee_paid: true };
    let mut l = cliff_locker(u64::MAX - 10, NOW + 100);
    let before = l;
    let ctx = IncrementLock { mint: key(7), fee_wallet: key(2), funding_balance: 100 };
    assert_eq!(plan_increment_lock(&l, &cfg, &mi, &ctx, 11), Err(ErrorCode::IntegerOverflow));
    assert_eq!(plan_increment_lock(&l, &cfg, &mi, &ctx, 10).map(|p| p.amount_to_lock), Ok(10));
    let report = FundingReport { after_fee: 100, after_lock: 91 };
    assert_eq!(increment_lock(&mut l, &cfg, &mi, &ctx, 10, &report), Err(ErrorCode::AmountMismatch));
    assert_eq!(l, before);
    let unpaid = MintInfo { bump: 0, fee_paid: false };
    assert_eq!(plan_increment_lock(&l, &cfg, &unpaid, &ctx, 10), Err(ErrorCode::InvalidFeeDestination));
}

#[test]
fn transfer_ownership_reassigns_owner() {
    let mut l = cliff_locker(1000, NOW + 100);
    let before = l;
    let bad = TransferOwnership { owner: key(8), new_owner: key(8) };
    assert_eq!(transfer_ownership(&mut l, &bad), Err(ErrorCode::Unauthorized));
    assert_eq!(l, before);
    let good = TransferOwnership { owner: key(5), new_owner: key(8) };
    assert_eq!(transfer_ownership(&mut l, &good), Ok(()));
    assert_eq!(l, Locker { owner: key(8), ..before });
    let old_owner = withdraw_ctx(NOW + 200, 1000);
    assert_eq!(plan_withdraw_funds(&l, &old_owner, 10), Err(ErrorCode::Unauthorized));
}

#[test]
fn close_moves_everything() {
    let l = linear_locker(1000, NOW, NOW + 100);
    let ctx = CloseLocker { owner: key(5), vault_balance: 640 };
    assert_eq!(plan_close_locker(&l, &ctx), Ok(640));
    assert_eq!(close_locker(&l, &ctx, 0), Ok(640));
    assert_eq!(close_locker(&l, &ctx, 1), Err(ErrorCode::AmountMismatch));
    let stranger = CloseLocker { owner: key(6), vault_balance: 640 };
    assert_eq!(close_locker(&l, &stranger, 0), Err(ErrorCode::Unauthorized));
}

#[test]
fn default_locker_is_empty() {
    let l = Locker::default();
    assert_eq!(l.deposited_amount, 0);
    assert_eq!(l.owner, Pubkey::new_from_array([0; 32]));
    assert_eq!(l.start_emission, None);
    assert_eq!(MintInfo::default(), MintInfo { bump: 0, fee_paid: false });
}
