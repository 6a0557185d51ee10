use vstd::prelude::*;
use crate::error::ErrorCode;
use crate::math::{mul_div, mul_div_result, floor_mul_div, lemma_mul_div_at_most};
use crate::pubkey::{Pubkey, associated_token_address, derive_associated_token_address};

verus! {

/// Process-wide settings, owned by `admin`.
#[derive(Clone, Copy, Debug)]
pub struct Config {
    pub admin: Pubkey,
    /// Fee charged on the native ledger in flat mode.
    pub flat_fee_amount: u64,
    pub proportional_fee_numerator: u64,
    pub proportional_fee_denominator: u64,
    /// When set, every operation pays the fee and only the admin registers
    /// a mint; otherwise the fee is paid once per mint.
    pub mint_info_permissioned: bool,
    /// Whether a locker may be created with a vesting start.
    pub linear_emission_enabled: bool,
    pub fee_destination: Pubkey,
    pub country_list: Pubkey,
}

impl Config {
    /// The fee rate is a fraction of at most one.
    pub open spec fn wf(&self) -> bool {
        &&& self.proportional_fee_denominator > 0
        &&& self.proportional_fee_numerator <= self.proportional_fee_denominator
    }
}

/// The settings given when the configuration is created.
#[derive(Clone, Copy, Debug)]
pub struct ConfigArgs {
    pub flat_fee_amount: u64,
    pub proportional_fee_numerator: u64,
    pub proportional_fee_denominator: u64,
    pub mint_info_permissioned: bool,
    pub linear_emission_enabled: bool,
    pub fee_destination: Pubkey,
    pub country_list: Pubkey,
}

/// A partial update: `None` leaves a setting as it is.
#[derive(Clone, Copy, Debug)]
pub struct ConfigUpdate {
    pub admin: Option<Pubkey>,
    pub flat_fee_amount: Option<u64>,
    pub proportional_fee_numerator: Option<u64>,
    pub proportional_fee_denominator: Option<u64>,
    pub mint_info_permissioned: Option<bool>,
    pub linear_emission_enabled: Option<bool>,
    pub fee_destination: Option<Pubkey>,
    pub country_list: Option<Pubkey>,
}

pub open spec fn or_keep<T>(new: Option<T>, old: T) -> T {
    match new {
        Some(v) => v,
        None => old,
    }
}

fn pick<T>(new: Option<T>, old: T) -> (r: T)
    ensures
        r == or_keep(new, old),
{
    match new {
        Some(v) => v,
        None => old,
    }
}

/// The configuration that `update` describes over `c`.
pub open spec fn updated_config(c: Config, u: ConfigUpdate) -> Config {
    Config {
        admin: or_keep(u.admin, c.admin),
        flat_fee_amount: or_keep(u.flat_fee_amount, c.flat_fee_amount),
        proportional_fee_numerator: or_keep(
            u.proportional_fee_numerator,
            c.proportional_fee_numerator,
        ),
        proportional_fee_denominator: or_keep(
            u.proportional_fee_denominator,
            c.proportional_fee_denominator,
        ),
        mint_info_permissioned: or_keep(u.mint_info_permissioned, c.mint_info_permissioned),
        linear_emission_enabled: or_keep(u.linear_emission_enabled, c.linear_emission_enabled),
        fee_destination: or_keep(u.fee_destination, c.fee_destination),
        country_list: or_keep(u.country_list, c.country_list),
    }
}

fn check_rate(numerator: u64, denominator: u64) -> (r: Result<(), ErrorCode>)
    ensures
        r == (if denominator > 0 && numerator <= denominator {
            Ok(())
        } else {
            Err(ErrorCode::InvalidFeeRate)
        }),
{
    if denominator > 0 && numerator <= denominator {
        Ok(())
    } else {
        Err(ErrorCode::InvalidFeeRate)
    }
}

/// Creates the configuration owned by `admin`; the fee rate must be a
/// fraction of at most one.
pub fn init_config(admin: Pubkey, args: ConfigArgs) -> (r: Result<Config, ErrorCode>)
    ensures
        args.proportional_fee_denominator > 0 && args.proportional_fee_numerator
            <= args.proportional_fee_denominator ==> r == Ok::<Config, ErrorCode>(
            Config {
                admin,
                flat_fee_amount: args.flat_fee_amount,
                proportional_fee_numerator: args.proportional_fee_numerator,
                proportional_fee_denominator: args.proportional_fee_denominator,
                mint_info_permissioned: args.mint_info_permissioned,
                linear_emission_enabled: args.linear_emission_enabled,
                fee_destination: args.fee_destination,
                country_list: args.country_list,
            },
        ),
        !(args.proportional_fee_denominator > 0 && args.proportional_fee_numerator
            <= args.proportional_fee_denominator) ==> r == Err::<Config, ErrorCode>(
            ErrorCode::InvalidFeeRate,
        ),
        r matches Ok(c) ==> c.wf(),
{
    check_rate(args.proportional_fee_numerator, args.proportional_fee_denominator)?;
    Ok(
        Config {
            admin,
            flat_fee_amount: args.flat_fee_amount,
            proportional_fee_numerator: args.proportional_fee_numerator,
            proportional_fee_denominator: args.proportional_fee_denominator,
            mint_info_permissioned: args.mint_info_permissioned,
            linear_emission_enabled: args.linear_emission_enabled,
            fee_destination: args.fee_destination,
            country_list: args.country_list,
        },
    )
}

/// Applies a partial update signed by `signer`, who must be the admin; the
/// resulting fee rate must stay a fraction of at most one. On failure the
/// configuration is unchanged.
pub fn update_config(config: &mut Config, signer: &Pubkey, update: ConfigUpdate) -> (r: Result<
    (),
    ErrorCode,
>)
    ensures
        signer@ != old(config).admin@ ==> r == Err::<(), ErrorCode>(ErrorCode::Unauthorized),
        signer@ == old(config).admin@ && !updated_config(*old(config), update).wf() ==> r == Err::<
            (),
            ErrorCode,
        >(ErrorCode::InvalidFeeRate),
        signer@ == old(config).admin@ && updated_config(*old(config), update).wf() ==> r is Ok,
        r is Ok ==> *final(config) == updated_config(*old(config), update),
        r is Err ==> *final(config) == *old(config),
        old(config).wf() ==> final(config).wf(),
{
    if !signer.same_as(&config.admin) {
        return Err(ErrorCode::Unauthorized);
    }
    let next = Config {
        admin: pick(update.admin, config.admin),
        flat_fee_amount: pick(update.flat_fee_amount, config.flat_fee_amount),
        proportional_fee_numerator: pick(
            update.proportional_fee_numerator,
            config.proportional_fee_numerator,
        ),
        proportional_fee_denominator: pick(
            update.proportional_fee_denominator,
            config.proportional_fee_denominator,
        ),
        mint_info_permissioned: pick(update.mint_info_permissioned, config.mint_info_permissioned),
        linear_emission_enabled: pick(
            update.linear_emission_enabled,
            config.linear_emission_enabled,
        ),
        fee_destination: pick(update.fee_destination, config.fee_destination),
        country_list: pick(update.country_list, config.country_list),
    };
    check_rate(next.proportional_fee_numerator, next.proportional_fee_denominator)?;
    *config = next;
    Ok(())
}

/// Per-mint record of whether the once-per-mint fee has been paid.
#[derive(Clone, Copy, Debug, PartialEq, Eq, Structural)]
pub struct MintInfo {
    pub bump: u8,
    pub fee_paid: bool,
}

impl Default for MintInfo {
    fn default() -> (r: MintInfo)
        ensures
            r == (MintInfo { bump: 0, fee_paid: false }),
    {
        MintInfo { bump: 0, fee_paid: false }
    }
}

/// What registering a mint reads from its accounts.
#[derive(Clone, Copy, Debug)]
pub struct InitMintInfo {
    pub payer: Pubkey,
    pub mint: Pubkey,
}

/// Registers a mint with no fee paid yet. Under a permissioned
/// configuration only the admin may do so.
pub fn init_mint_info(ctx: &InitMintInfo, config: &Config, bump: u8) -> (r: Result<
    MintInfo,
    ErrorCode,
>)
    ensures
        config.mint_info_permissioned && ctx.payer@ != config.admin@ ==> r == Err::<
            MintInfo,
            ErrorCode,
        >(ErrorCode::Unauthorized),
        !(config.mint_info_permissioned && ctx.payer@ != config.admin@) ==> r == Ok::<
            MintInfo,
            ErrorCode,
        >(MintInfo { bump, fee_paid: false }),
{
    if config.mint_info_permissioned && !ctx.payer.same_as(&config.admin) {
        return Err(ErrorCode::Unauthorized);
    }
    Ok(MintInfo { bump, fee_paid: false })
}

/// How the caller asks to pay the fee.
#[derive(Clone, Copy, Debug, PartialEq, Eq, Structural)]
pub enum FeeMode {
    /// A fixed amount on the native ledger.
    Flat,
    /// A fraction of the amount being locked, in the locked token.
    Proportional,
}

/// The fee an operation pays, once resolved.
#[derive(Clone, Copy, Debug, PartialEq, Eq, Structural)]
pub enum FeeCharge {
    /// No fee is due.
    Waived,
    /// This amount goes to the fee destination on the native ledger.
    Flat(u64),
    /// This amount of the locked token goes to the fee account.
    Proportional(u64),
}

impl FeeCharge {
    /// The part of the fee taken from the locked token.
    pub open spec fn token_amount(self) -> u64 {
        match self {
            FeeCharge::Proportional(f) => f,
            _ => 0,
        }
    }

    pub fn token_fee(&self) -> (r: u64)
        ensures
            r == self.token_amount(),
    {
        match self {
            FeeCharge::Proportional(f) => *f,
            _ => 0,
        }
    }
}

/// A fee is due on every operation under a permissioned configuration, and
/// otherwise only until it has been paid for the mint.
pub open spec fn fee_due(permissioned: bool, fee_paid: bool) -> bool {
    permissioned || !fee_paid
}

pub fn is_fee_due(config: &Config, mint_info: &MintInfo) -> (r: bool)
    ensures
        r == fee_due(config.mint_info_permissioned, mint_info.fee_paid),
{
    config.mint_info_permissioned || !mint_info.fee_paid
}

/// The fee for locking `amount` in `mode`, paid into `fee_wallet`: a flat fee
/// goes to the configured destination, a proportional one to that
/// destination's token account for `mint`.
pub open spec fn resolved_fee(
    config: Config,
    mint_info: MintInfo,
    mode: FeeMode,
    amount: u64,
    fee_wallet: Seq<u8>,
    mint: Seq<u8>,
) -> Result<FeeCharge, ErrorCode> {
    if !fee_due(config.mint_info_permissioned, mint_info.fee_paid) {
        Ok(FeeCharge::Waived)
    } else {
        match mode {
            FeeMode::Flat => if fee_wallet == config.fee_destination@ {
                Ok(FeeCharge::Flat(config.flat_fee_amount))
            } else {
                Err(ErrorCode::InvalidFeeDestination)
            },
            FeeMode::Proportional => if fee_wallet != associated_token_address(
                config.fee_destination@,
                mint,
            ) {
                Err(ErrorCode::InvalidFeeDestination)
            } else {
                match mul_div_result(
                    amount,
                    config.proportional_fee_numerator,
                    config.proportional_fee_denominator,
                ) {
                    Some(f) => Ok(FeeCharge::Proportional(f)),
                    None => Err(ErrorCode::IntegerOverflow),
                }
            },
        }
    }
}

/// Resolves the fee of one operation. A proportional fee is
/// `floor(amount * numerator / denominator)` of the pre-fee amount and never
/// exceeds it.
pub fn resolve_fee(
    config: &Config,
    mint_info: &MintInfo,
    mode: FeeMode,
    amount: u64,
    fee_wallet: &Pubkey,
    mint: &Pubkey,
) -> (r: Result<FeeCharge, ErrorCode>)
    requires
        config.wf(),
    ensures
        r == resolved_fee(*config, *mint_info, mode, amount, fee_wallet@, mint@),
        r matches Ok(FeeCharge::Proportional(f)) ==> f == floor_mul_div(
            amount as int,
            config.proportional_fee_numerator as int,
            config.proportional_fee_denominator as int,
        ),
        r matches Ok(c) ==> c.token_amount() <= amount,
        r != Err::<FeeCharge, ErrorCode>(ErrorCode::IntegerOverflow),
{
    if !is_fee_due(config, mint_info) {
        return Ok(FeeCharge::Waived);
    }
    match mode {
        FeeMode::Flat => {
            if fee_wallet.same_as(&config.fee_destination) {
                Ok(FeeCharge::Flat(config.flat_fee_amount))
            } else {
                Err(ErrorCode::InvalidFeeDestination)
            }
        },
        FeeMode::Proportional => {
            let expected = derive_associated_token_address(&config.fee_destination, mint);
            if !fee_wallet.same_as(&expected) {
                return Err(ErrorCode::InvalidFeeDestination);
            }
            proof {
                lemma_mul_div_at_most(
                    amount as int,
                    config.proportional_fee_numerator as int,
                    config.proportional_fee_denominator as int,
                );
            }
            match mul_div(
                amount,
                config.proportional_fee_numerator,
                config.proportional_fee_denominator,
            ) {
                Some(f) => Ok(FeeCharge::Proportional(f)),
                None => Err(ErrorCode::IntegerOverflow),
            }
        },
    }
}

} // verus!
