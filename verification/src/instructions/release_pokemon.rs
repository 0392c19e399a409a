//! Release: a player gives a collectible up for its worth in coins.

use crate::errors::{CustomError, ProgramError};
use crate::states::{
    Account, AccountView, GameAuthority, GameAuthorityView, Pokemon, PokemonView, Signer,
    SignerView, UserData, UserDataView,
};
use vstd::prelude::*;

verus! {

/// The records of a release: the caller, the caller's player record, the
/// collectible, and the treasury that takes back what the collectible's
/// place held.
#[derive(Clone, Debug, PartialEq, Eq)]
pub struct ReleasePokemon {
    pub signer: Signer,
    pub user_data: Account<UserData>,
    pub pokemon: Account<Pokemon>,
    pub config: Account<GameAuthority>,
}

/// The records of a release as a mathematical value.
pub struct ReleasePokemonView {
    pub signer: SignerView,
    pub user_data: AccountView<UserDataView>,
    pub pokemon: AccountView<PokemonView>,
    pub config: AccountView<GameAuthorityView>,
}

impl View for ReleasePokemon {
    type V = ReleasePokemonView;

    open spec fn view(&self) -> ReleasePokemonView {
        ReleasePokemonView {
            signer: self.signer@,
            user_data: self.user_data@,
            pokemon: self.pokemon@,
            config: self.config@,
        }
    }
}

impl ReleasePokemonView {
    /// What a release comes to: the records after it, or the reason why it
    /// is turned down.
    pub open spec fn release(self) -> Result<ReleasePokemonView, ProgramError> {
        if self.user_data.data is None || self.pokemon.data is None || self.config.data is None {
            Err(ProgramError::UninitializedAccount)
        } else if self.signer.key != self.pokemon.data->0.owner {
            Err(ProgramError::Custom(CustomError::Unauthorized))
        } else {
            let user = self.user_data.data->0;
            Ok(
                ReleasePokemonView {
                    signer: self.signer,
                    user_data: AccountView {
                        data: Some(
                            UserDataView {
                                balance: user.balance + self.pokemon.data->0.worth,
                                ..user
                            },
                        ),
                        ..self.user_data
                    },
                    pokemon: AccountView { lamports: 0, data: None },
                    config: AccountView {
                        lamports: self.config.lamports + self.pokemon.lamports,
                        ..self.config
                    },
                },
            )
        }
    }

    /// Every amount in the records can be written in 64 bits.
    pub open spec fn fits(self) -> bool {
        &&& self.config.lamports <= u64::MAX
        &&& self.user_data.data matches Some(user) ==> user.balance <= u64::MAX
    }
}

impl ReleasePokemon {
    /// Whether a release can be carried out on these records: whether it is
    /// turned down, or leaves amounts that can be written in 64 bits.
    pub fn release_fits(&self) -> (fits: bool)
        ensures
            fits == (self@.release() matches Ok(next) ==> next.fits()),
    {
        match (&self.user_data.data, &self.pokemon.data) {
            (Some(user), Some(pokemon)) => {
                if self.config.data.is_none() || self.signer.key != pokemon.owner {
                    true
                } else {
                    user.balance.checked_add(pokemon.worth).is_some()
                        && self.config.lamports.checked_add(self.pokemon.lamports).is_some()
                }
            },
            _ => true,
        }
    }
}

/// Releases the caller's collectible: its worth is added to the caller's
/// balance, then the record is destroyed and what its place held goes to the
/// treasury's custody. A caller who does not own the collectible is turned
/// down, and so is a request whose records do not exist; then nothing
/// changes.
pub fn release_pokemon(ctx: &mut ReleasePokemon) -> (result: Result<(), ProgramError>)
    requires
        old(ctx)@.release() matches Ok(next) ==> next.fits(),
    ensures
        match old(ctx)@.release() {
            Ok(next) => result is Ok && final(ctx)@ == next,
            Err(reason) => result == Err::<(), ProgramError>(reason) && *final(ctx) == *old(ctx),
        },
{
    if ctx.user_data.data.is_none() || ctx.config.data.is_none() {
        return Err(ProgramError::UninitializedAccount);
    }
    let worth = match &ctx.pokemon.data {
        Some(pokemon) => {
            if ctx.signer.key != pokemon.owner {
                return Err(ProgramError::Custom(CustomError::Unauthorized));
            }
            pokemon.worth
        },
        None => {
            return Err(ProgramError::UninitializedAccount);
        },
    };
    match &mut ctx.user_data.data {
        Some(user) => {
            user.balance = user.balance + worth;
        },
        None => {},
    }
    ctx.config.lamports = ctx.config.lamports + ctx.pokemon.lamports;
    ctx.pokemon.lamports = 0;
    ctx.pokemon.data = None;
    Ok(())
}

/// The owner of a collectible who releases it is credited exactly its worth,
/// and afterwards the collectible is no more: its place holds no record and
/// no native asset, and what it held is in the treasury's custody. Nothing
/// else changes, and no native asset is made or lost.
pub proof fn lemma_release_credits_worth_and_destroys_record(ctx: ReleasePokemonView)
    requires
        ctx.user_data.data is Some,
        ctx.pokemon.data is Some,
        ctx.config.data is Some,
        ctx.signer.key == ctx.pokemon.data->0.owner,
    ensures
        ctx.release() matches Ok(next) && {
            &&& next.user_data.data matches Some(user) && user == (UserDataView {
                balance: ctx.user_data.data->0.balance + ctx.pokemon.data->0.worth,
                ..ctx.user_data.data->0
            })
            &&& next.pokemon.data is None
            &&& next.pokemon.lamports == 0
            &&& next.config.lamports == ctx.config.lamports + ctx.pokemon.lamports
            &&& next.config.data == ctx.config.data
            &&& next.signer == ctx.signer
            &&& next.user_data.lamports == ctx.user_data.lamports
        },
{
}

/// A caller who does not own the collectible cannot release it: the request
/// is turned down as unauthorized.
pub proof fn lemma_release_by_stranger_is_refused(ctx: ReleasePokemonView)
    requires
        ctx.user_data.data is Some,
        ctx.pokemon.data is Some,
        ctx.config.data is Some,
        ctx.signer.key != ctx.pokemon.data->0.owner,
    ensures
        ctx.release() == Err::<ReleasePokemonView, ProgramError>(
            ProgramError::Custom(CustomError::Unauthorized),
        ),
{
}

/// A collectible is released once: every later release that meets the place
/// which a served release left is turned down, because no record is there.
pub proof fn lemma_released_collectible_is_gone(ctx: ReleasePokemonView, again: ReleasePokemonView)
    requires
        ctx.release() matches Ok(next) && again.pokemon == next.pokemon,
    ensures
        again.release() == Err::<ReleasePokemonView, ProgramError>(
            ProgramError::UninitializedAccount,
        ),
{
}

/// Collectibles are released independently of each other: where a player
/// owns two, both can be released, in either order, and either order leaves
/// the same balance and the same custody.
pub proof fn lemma_releases_are_independent(
    ctx: ReleasePokemonView,
    other: AccountView<PokemonView>,
)
    requires
        ctx.user_data.data is Some,
        ctx.config.data is Some,
        ctx.pokemon.data matches Some(one) && one.owner == ctx.signer.key,
        other.data matches Some(two) && two.owner == ctx.signer.key,
    ensures
        ({
            let swapped = ReleasePokemonView { pokemon: other, ..ctx };
            &&& ctx.release() matches Ok(halfway) && (ReleasePokemonView {
                pokemon: other,
                ..halfway
            }).release() matches Ok(done) && swapped.release() matches Ok(halfway_swapped)
                && (ReleasePokemonView { pokemon: ctx.pokemon, ..halfway_swapped }).release()
                matches Ok(done_swapped) && done == done_swapped
                && done.user_data.data->0.balance == ctx.user_data.data->0.balance
                + ctx.pokemon.data->0.worth + other.data->0.worth
        }),
{
}

} // verus!
