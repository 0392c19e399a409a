//! Withdraw: the owner of the treasury takes native asset out of custody.

use crate::errors::{CustomError, ProgramError};
use crate::states::{Account, AccountView, GameAuthority, GameAuthorityView, Signer, SignerView};
use vstd::prelude::*;

verus! {

/// The records of a withdrawal: the caller and the treasury.
#[derive(Clone, Debug, PartialEq, Eq)]
pub struct Withdraw {
    pub owner: Signer,
    pub config: Account<GameAuthority>,
}

/// The records of a withdrawal as a mathematical value.
pub struct WithdrawView {
    pub owner: SignerView,
    pub config: AccountView<GameAuthorityView>,
}

impl View for Withdraw {
    type V = WithdrawView;

    open spec fn view(&self) -> WithdrawView {
        WithdrawView { owner: self.owner@, config: self.config@ }
    }
}

impl WithdrawView {
    /// What a withdrawal of `amount` native-asset units comes to: the
    /// records after it, or the reason why it is turned down.
    pub open spec fn withdraw(self, amount: nat) -> Result<WithdrawView, ProgramError> {
        if self.config.data is None {
            Err(ProgramError::UninitializedAccount)
        } else if self.owner.key != self.config.data->0.owner {
            Err(ProgramError::Custom(CustomError::Unauthorized))
        } else if self.config.lamports < amount {
            Err(ProgramError::Custom(CustomError::InsufficientFunds))
        } else {
            Ok(
                WithdrawView {
                    owner: SignerView { lamports: self.owner.lamports + amount, ..self.owner },
                    config: AccountView {
                        lamports: (self.config.lamports - amount) as nat,
                        ..self.config
                    },
                },
            )
        }
    }

    /// Every amount in the records can be written in 64 bits.
    pub open spec fn fits(self) -> bool {
        &&& self.owner.lamports <= u64::MAX
        &&& self.config.lamports <= u64::MAX
    }
}

impl Withdraw {
    /// Whether a withdrawal of `amount` can be carried out on these records:
    /// whether it is turned down, or leaves amounts that can be written in
    /// 64 bits.
    pub fn withdraw_fits(&self, amount: u64) -> (fits: bool)
        ensures
            fits == (self@.withdraw(amount as nat) matches Ok(next) ==> next.fits()),
    {
        match &self.config.data {
            Some(authority) => {
                if self.owner.key != authority.owner || self.config.lamports < amount {
                    true
                } else {
                    self.owner.lamports.checked_add(amount).is_some()
                }
            },
            None => true,
        }
    }
}

/// Moves `amount` native-asset units from the treasury's custody to the
/// caller. No player's coin balance is touched. A caller who does not own
/// the treasury is turned down, and so is an amount that the treasury does
/// not hold, or a request whose treasury does not exist; then nothing
/// changes.
pub fn withdraw_funds(ctx: &mut Withdraw, amount: u64) -> (result: Result<(), ProgramError>)
    requires
        old(ctx)@.withdraw(amount as nat) matches Ok(next) ==> next.fits(),
    ensures
        match old(ctx)@.withdraw(amount as nat) {
            Ok(next) => result is Ok && final(ctx)@ == next,
            Err(reason) => result == Err::<(), ProgramError>(reason) && *final(ctx) == *old(ctx),
        },
{
    match &ctx.config.data {
        Some(authority) => {
            if ctx.owner.key != authority.owner {
                return Err(ProgramError::Custom(CustomError::Unauthorized));
            }
        },
        None => {
            return Err(ProgramError::UninitializedAccount);
        },
    }
    if ctx.config.lamports < amount {
        return Err(ProgramError::Custom(CustomError::InsufficientFunds));
    }
    ctx.owner.lamports = ctx.owner.lamports + amount;
    ctx.config.lamports = ctx.config.lamports - amount;
    Ok(())
}

/// A caller who does not own the treasury cannot withdraw, whatever the
/// amount: the request is turned down as unauthorized.
pub proof fn lemma_withdraw_by_stranger_is_refused(ctx: WithdrawView, amount: nat)
    requires
        ctx.config.data matches Some(authority) && authority.owner != ctx.owner.key,
    ensures
        ctx.withdraw(amount) == Err::<WithdrawView, ProgramError>(
            ProgramError::Custom(CustomError::Unauthorized),
        ),
{
}

/// The owner cannot withdraw more than the treasury holds in custody: the
/// request is turned down for want of funds.
pub proof fn lemma_withdraw_beyond_custody_is_refused(ctx: WithdrawView, amount: nat)
    requires
        ctx.config.data matches Some(authority) && authority.owner == ctx.owner.key,
        amount > ctx.config.lamports,
    ensures
        ctx.withdraw(amount) == Err::<WithdrawView, ProgramError>(
            ProgramError::Custom(CustomError::InsufficientFunds),
        ),
{
}

/// The owner who withdraws an amount that the treasury holds is served: the
/// custody goes down by exactly the amount and the owner's holdings go up by
/// exactly the amount. The treasury's record stays as it was.
pub proof fn lemma_withdraw_moves_exactly_the_amount(ctx: WithdrawView, amount: nat)
    requires
        ctx.config.data matches Some(authority) && authority.owner == ctx.owner.key,
        amount <= ctx.config.lamports,
    ensures
        ctx.withdraw(amount) matches Ok(next) && {
            &&& next.config.lamports == ctx.config.lamports - amount
            &&& next.owner.lamports == ctx.owner.lamports + amount
            &&& next.owner.key == ctx.owner.key
            &&& next.config.data == ctx.config.data
        },
{
}

} // verus!
