//! State-transition rules of a collectible game ledger: players hold coins
//! backed by deposits of the host network's native asset, spend them on
//! draws of collectibles, and release collectibles for coins again.
//!
//! Each instruction is a function from the records it touches and its
//! arguments to the records afterwards, or to the reason why it is turned
//! down; an instruction that is turned down changes nothing.

pub mod address;
pub mod errors;
pub mod instructions;
pub mod invariants;
pub mod layout;
pub mod states;

use crate::errors::ProgramError;
use crate::instructions::{
    initialize_config, initialize_user, release_pokemon, rename_pokemon, save_gacha,
    topup_balance, withdraw_funds, Gacha, InitializeConfig, InitializeUser, ReleasePokemon,
    RenamePokemon, TopupBalance, Withdraw,
};
use crate::states::GachaResult;
use vstd::prelude::*;

verus! {

/// The instruction `register`: see [`initialize_user`].
pub fn create_user(ctx: &mut InitializeUser, username: String) -> (result: Result<
    (),
    ProgramError,
>)
    ensures
        match old(ctx)@.register(username@) {
            Ok(next) => result is Ok && final(ctx)@ == next,
            Err(reason) => result == Err::<(), ProgramError>(reason) && *final(ctx) == *old(ctx),
        },
{
    initialize_user(ctx, username)
}

/// The instruction `init-treasury`: see [`initialize_config`].
pub fn initialize(ctx: &mut InitializeConfig) -> (result: Result<(), ProgramError>)
    ensures
        match old(ctx)@.initialize() {
            Ok(next) => result is Ok && final(ctx)@ == next,
            Err(reason) => result == Err::<(), ProgramError>(reason) && *final(ctx) == *old(ctx),
        },
{
    initialize_config(ctx)
}

/// The instruction `top-up`: see [`topup_balance`].
pub fn topup(ctx: &mut TopupBalance, amount: u64) -> (result: Result<(), ProgramError>)
    requires
        old(ctx)@.topup(amount as nat) matches Ok(next) ==> next.fits(),
    ensures
        match old(ctx)@.topup(amount as nat) {
            Ok(next) => result is Ok && final(ctx)@ == next,
            Err(reason) => result == Err::<(), ProgramError>(reason) && *final(ctx) == *old(ctx),
        },
{
    topup_balance(ctx, amount)
}

/// The instruction `withdraw`: see [`withdraw_funds`].
pub fn withdraw(ctx: &mut Withdraw, amount: u64) -> (result: Result<(), ProgramError>)
    requires
        old(ctx)@.withdraw(amount as nat) matches Ok(next) ==> next.fits(),
    ensures
        match old(ctx)@.withdraw(amount as nat) {
            Ok(next) => result is Ok && final(ctx)@ == next,
            Err(reason) => result == Err::<(), ProgramError>(reason) && *final(ctx) == *old(ctx),
        },
{
    withdraw_funds(ctx, amount)
}

/// The instruction `draw`: see [`save_gacha`].
pub fn gacha(ctx: &mut Gacha, result: GachaResult) -> (served: Result<(), ProgramError>)
    requires
        old(ctx)@.draw(result) matches Ok(next) ==> next.fits(),
    ensures
        match old(ctx)@.draw(result) {
            Ok(next) => served is Ok && final(ctx)@ == next,
            Err(reason) => served == Err::<(), ProgramError>(reason) && *final(ctx) == *old(ctx),
        },
{
    save_gacha(ctx, result)
}

/// The instruction `release`: see [`release_pokemon`].
pub fn release(ctx: &mut ReleasePokemon) -> (result: Result<(), ProgramError>)
    requires
        old(ctx)@.release() matches Ok(next) ==> next.fits(),
    ensures
        match old(ctx)@.release() {
            Ok(next) => result is Ok && final(ctx)@ == next,
            Err(reason) => result == Err::<(), ProgramError>(reason) && *final(ctx) == *old(ctx),
        },
{
    release_pokemon(ctx)
}

/// The instruction `rename`: see [`rename_pokemon`].
pub fn rename(ctx: &mut RenamePokemon, name: String) -> (result: Result<(), ProgramError>)
    ensures
        match old(ctx)@.rename(name@) {
            Ok(next) => result is Ok && final(ctx)@ == next,
            Err(reason) => result == Err::<(), ProgramError>(reason) && *final(ctx) == *old(ctx),
        },
{
    rename_pokemon(ctx, name)
}

} // verus!
