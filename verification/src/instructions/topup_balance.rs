//! Top-up: the caller buys coins with the native asset.

use crate::errors::{CustomError, ProgramError};
use crate::states::{
    Account, AccountView, GameAuthority, GameAuthorityView, Signer, SignerView, UserData,
    UserDataView, LAMPORT_PER_COIN,
};
use vstd::prelude::*;

verus! {

/// The records of a top-up: the caller, the caller's player record, and the
/// treasury that takes the payment into custody.
#[derive(Clone, Debug, PartialEq, Eq)]
pub struct TopupBalance {
    pub signer: Signer,
    pub user_data: Account<UserData>,
    pub config: Account<GameAuthority>,
}

/// The records of a top-up as a mathematical value.
pub struct TopupBalanceView {
    pub signer: SignerView,
    pub user_data: AccountView<UserDataView>,
    pub config: AccountView<GameAuthorityView>,
}

impl View for TopupBalance {
    type V = TopupBalanceView;

    open spec fn view(&self) -> TopupBalanceView {
        TopupBalanceView {
            signer: self.signer@,
            user_data: self.user_data@,
            config: self.config@,
        }
    }
}

/// Native-asset units that `amount` coins cost.
pub open spec fn topup_cost(amount: nat) -> nat {
    amount * LAMPORT_PER_COIN as nat
}

impl TopupBalanceView {
    /// What a top-up of `amount` coins comes to: the records after it, or the
    /// reason why it is turned down.
    pub open spec fn topup(self, amount: nat) -> Result<TopupBalanceView, ProgramError> {
        if self.user_data.data is None || self.config.data is None {
            Err(ProgramError::UninitializedAccount)
        } else if self.signer.lamports < topup_cost(amount) {
            Err(ProgramError::Custom(CustomError::InsufficientFunds))
        } else {
            let user = self.user_data.data->0;
            Ok(
                TopupBalanceView {
                    signer: SignerView {
                        lamports: (self.signer.lamports - topup_cost(amount)) as nat,
                        ..self.signer
                    },
                    user_data: AccountView {
                        data: Some(
                            UserDataView { balance: user.balance + amount, ..user },
                        ),
                        ..self.user_data
                    },
                    config: AccountView {
                        lamports: self.config.lamports + topup_cost(amount),
                        ..self.config
                    },
                },
            )
        }
    }

    /// Every amount in the records can be written in 64 bits.
    pub open spec fn fits(self) -> bool {
        &&& self.signer.lamports <= u64::MAX
        &&& self.config.lamports <= u64::MAX
        &&& self.user_data.lamports <= u64::MAX
        &&& self.user_data.data matches Some(user) ==> user.balance <= u64::MAX
            && user.pokemon_count <= u64::MAX
    }
}

/// The price of `amount` coins in native-asset units, or `None` where the
/// price is more than any caller can hold.
pub fn checked_topup_cost(amount: u64) -> (cost: Option<u64>)
    ensures
        match cost {
            Some(c) => c == topup_cost(amount as nat),
            None => topup_cost(amount as nat) > u64::MAX,
        },
{
    amount.checked_mul(LAMPORT_PER_COIN)
}

impl TopupBalance {
    /// Whether a top-up of `amount` coins can be carried out on these
    /// records: whether it is turned down, or leaves amounts that can be
    /// written in 64 bits.
    pub fn topup_fits(&self, amount: u64) -> (fits: bool)
        ensures
            fits == (self@.topup(amount as nat) matches Ok(next) ==> next.fits()),
    {
        match (&self.user_data.data, checked_topup_cost(amount)) {
            (Some(user), Some(cost)) => {
                if self.config.data.is_none() || self.signer.lamports < cost {
                    true
                } else {
                    self.config.lamports.checked_add(cost).is_some()
                        && user.balance.checked_add(amount).is_some()
                }
            },
            _ => true,
        }
    }
}

/// Sells `amount` coins to the caller: the price moves from the caller's
/// holdings into the treasury's custody, and the coins are added to the
/// caller's balance. A caller who cannot pay the price is turned down, and
/// so is a request whose records do not exist; then nothing changes.
pub fn topup_balance(ctx: &mut TopupBalance, amount: u64) -> (result: Result<(), ProgramError>)
    requires
        old(ctx)@.topup(amount as nat) matches Ok(next) ==> next.fits(),
    ensures
        match old(ctx)@.topup(amount as nat) {
            Ok(next) => result is Ok && final(ctx)@ == next,
            Err(reason) => result == Err::<(), ProgramError>(reason) && *final(ctx) == *old(ctx),
        },
{
    if ctx.user_data.data.is_none() || ctx.config.data.is_none() {
        return Err(ProgramError::UninitializedAccount);
    }
    let cost = match checked_topup_cost(amount) {
        Some(cost) => cost,
        None => {
            return Err(ProgramError::Custom(CustomError::InsufficientFunds));
        },
    };
    if ctx.signer.lamports < cost {
        return Err(ProgramError::Custom(CustomError::InsufficientFunds));
    }
    ctx.signer.lamports = ctx.signer.lamports - cost;
    ctx.config.lamports = ctx.config.lamports + cost;
    match &mut ctx.user_data.data {
        Some(user) => {
            user.balance = user.balance + amount;
        },
        None => {},
    }
    Ok(())
}

/// A caller who holds the price of `amount` coins is served: exactly the
/// price leaves the caller's holdings and enters the treasury's custody, and
/// exactly `amount` coins are added to the caller's balance. Nothing else in
/// the records changes, and no native asset is made or lost.
pub proof fn lemma_topup_charges_price_and_credits_amount(ctx: TopupBalanceView, amount: nat)
    requires
        ctx.user_data.data is Some,
        ctx.config.data is Some,
        ctx.signer.lamports >= amount * LAMPORT_PER_COIN,
    ensures
        ctx.topup(amount) matches Ok(next) && {
            &&& next.signer.lamports == ctx.signer.lamports - amount * LAMPORT_PER_COIN
            &&& next.config.lamports == ctx.config.lamports + amount * LAMPORT_PER_COIN
            &&& next.user_data.data matches Some(user) && user.balance
                == ctx.user_data.data->0.balance + amount
            &&& next.signer.lamports + next.config.lamports == ctx.signer.lamports
                + ctx.config.lamports
            &&& next.signer.key == ctx.signer.key
            &&& next.config.data == ctx.config.data
            &&& next.user_data.lamports == ctx.user_data.lamports
            &&& next.user_data.data->0 == (UserDataView {
                balance: next.user_data.data->0.balance,
                ..ctx.user_data.data->0
            })
        },
{
}

/// A caller who holds less than the price of `amount` coins is turned down
/// for want of funds, whatever else the records hold.
pub proof fn lemma_topup_without_funds_is_refused(ctx: TopupBalanceView, amount: nat)
    requires
        ctx.user_data.data is Some,
        ctx.config.data is Some,
        ctx.signer.lamports < amount * LAMPORT_PER_COIN,
    ensures
        ctx.topup(amount) == Err::<TopupBalanceView, ProgramError>(
            ProgramError::Custom(CustomError::InsufficientFunds),
        ),
{
}

} // verus!
