use vstd::prelude::*;
use crate::pubkey::Pubkey;

verus! {

/// One locked position.
#[derive(Clone, Copy, Debug, PartialEq, Eq)]
pub struct Locker {
    /// Who may relock, hand over, withdraw, split and close.
    pub owner: Pubkey,
    pub country_code: u16,
    /// Release date; only ever moved later.
    pub current_unlock_date: i64,
    /// Start of linear vesting; `None` for a cliff lock.
    pub start_emission: Option<i64>,
    /// Time of the last partial withdrawal under linear vesting.
    pub last_withdraw: Option<i64>,
    /// Total locked so far: grows with increments, shrinks with splits.
    pub deposited_amount: u64,
    pub vault: Pubkey,
    pub vault_bump: u8,
    /// The creator and the original unlock date only serve to derive the
    /// locker's address.
    pub creator: Pubkey,
    pub original_unlock_date: i64,
    pub bump: u8,
}

impl Locker {
    /// The release date never falls below the original one, and a vesting
    /// start lies before the release date.
    pub open spec fn wf(&self) -> bool {
        &&& self.original_unlock_date <= self.current_unlock_date
        &&& self.start_emission matches Some(s) ==> s < self.current_unlock_date
    }
}

impl Default for Locker {
    fn default() -> (r: Locker)
        ensures
            r.owner@ == Seq::new(32, |i: int| 0u8),
            r.creator@ == Seq::new(32, |i: int| 0u8),
            r.vault@ == Seq::new(32, |i: int| 0u8),
            r.country_code == 0,
            r.current_unlock_date == 0,
            r.start_emission is None,
            r.last_withdraw is None,
            r.deposited_amount == 0,
            r.vault_bump == 0,
            r.original_unlock_date == 0,
            r.bump == 0,
    {
        Locker {
            owner: Pubkey::zeroed(),
            country_code: 0,
            current_unlock_date: 0,
            start_emission: None,
            last_withdraw: None,
            deposited_amount: 0,
            vault: Pubkey::zeroed(),
            vault_bump: 0,
            creator: Pubkey::zeroed(),
            original_unlock_date: 0,
            bump: 0,
        }
    }
}

} // verus!
