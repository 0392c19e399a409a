//! Draw: a player pays coins and a collectible with the supplied outcome is
//! recorded.

use crate::errors::{CustomError, ProgramError};
use crate::states::{
    Account, AccountView, GachaResult, Pokedex, PokedexView, Pokemon, PokemonView, Signer,
    SignerView, UserData, UserDataView, GACHA_COST, POKEDEX_LENGTH,
};
use vstd::prelude::*;

verus! {

/// The records of a draw: the caller, the player who pays, that player's
/// pokedex, and the place where the new collectible is to be stored.
#[derive(Clone, Debug, PartialEq, Eq)]
pub struct Gacha {
    pub owner: Signer,
    pub user_data: Account<UserData>,
    pub pokedex: Account<Pokedex>,
    pub pokemon: Account<Pokemon>,
}

/// The records of a draw as a mathematical value.
pub struct GachaView {
    pub owner: SignerView,
    pub user_data: AccountView<UserDataView>,
    pub pokedex: AccountView<PokedexView>,
    pub pokemon: AccountView<PokemonView>,
}

impl View for Gacha {
    type V = GachaView;

    open spec fn view(&self) -> GachaView {
        GachaView {
            owner: self.owner@,
            user_data: self.user_data@,
            pokedex: self.pokedex@,
            pokemon: self.pokemon@,
        }
    }
}

impl GachaView {
    /// What a draw with the given outcome comes to: the records after it, or
    /// the reason why it is turned down.
    pub open spec fn draw(self, outcome: GachaResult) -> Result<GachaView, ProgramError> {
        if self.user_data.data is None || self.pokedex.data is None {
            Err(ProgramError::UninitializedAccount)
        } else if self.pokemon.data is Some {
            Err(ProgramError::AccountAlreadyInitialized)
        } else if self.user_data.data->0.balance < GACHA_COST {
            Err(ProgramError::Custom(CustomError::InsufficientCoins))
        } else if !self.pokedex.data->0.ids.contains(outcome.id)
            && self.pokedex.data->0.ids.len() >= POKEDEX_LENGTH {
            Err(ProgramError::AccountDataTooSmall)
        } else {
            let user = self.user_data.data->0;
            Ok(
                GachaView {
                    owner: self.owner,
                    user_data: AccountView {
                        data: Some(
                            UserDataView {
                                balance: (user.balance - GACHA_COST) as nat,
                                pokemon_count: user.pokemon_count + 1,
                                ..user
                            },
                        ),
                        ..self.user_data
                    },
                    pokedex: AccountView {
                        data: Some(self.pokedex.data->0.seen(outcome.id)),
                        ..self.pokedex
                    },
                    pokemon: AccountView {
                        data: Some(PokemonView::drawn(user.address, outcome)),
                        ..self.pokemon
                    },
                },
            )
        }
    }

    /// Every amount in the records can be written in 64 bits.
    pub open spec fn fits(self) -> bool {
        self.user_data.data matches Some(user) ==> user.balance <= u64::MAX && user.pokemon_count
            <= u64::MAX
    }
}

impl Gacha {
    /// Whether a draw with the given outcome can be carried out on these
    /// records: whether it is turned down, or leaves amounts that can be
    /// written in 64 bits.
    pub fn draw_fits(&self, outcome: GachaResult) -> (fits: bool)
        ensures
            fits == (self@.draw(outcome) matches Ok(next) ==> next.fits()),
    {
        match (&self.user_data.data, &self.pokedex.data) {
            (Some(user), Some(pokedex)) => {
                if self.pokemon.data.is_some() || user.balance < GACHA_COST {
                    true
                } else if !pokedex.contains(outcome.id) && pokedex.ids.len()
                    >= POKEDEX_LENGTH as usize {
                    true
                } else {
                    user.pokemon_count < u64::MAX
                }
            },
            _ => true,
        }
    }
}

/// Records a draw. The player pays `GACHA_COST` coins; the species enters
/// the pokedex unless it is listed there already; a collectible that carries
/// the outcome and belongs to the player is stored at the vacant place; and
/// the player's count of collectibles goes up by one. A player who cannot pay
/// is turned down, and so is a request whose records are not as a draw needs
/// them, or whose species no longer fits the pokedex; then nothing changes.
pub fn save_gacha(ctx: &mut Gacha, gacha_result: GachaResult) -> (result: Result<
    (),
    ProgramError,
>)
    requires
        old(ctx)@.draw(gacha_result) matches Ok(next) ==> next.fits(),
    ensures
        match old(ctx)@.draw(gacha_result) {
            Ok(next) => result is Ok && final(ctx)@ == next,
            Err(reason) => result == Err::<(), ProgramError>(reason) && *final(ctx) == *old(ctx),
        },
{
    let owner = match &ctx.user_data.data {
        Some(user) => {
            if ctx.pokedex.data.is_none() {
                return Err(ProgramError::UninitializedAccount);
            }
            if ctx.pokemon.data.is_some() {
                return Err(ProgramError::AccountAlreadyInitialized);
            }
            if user.balance < GACHA_COST {
                return Err(ProgramError::Custom(CustomError::InsufficientCoins));
            }
            user.address
        },
        None => {
            return Err(ProgramError::UninitializedAccount);
        },
    };
    match &mut ctx.pokedex.data {
        Some(pokedex) => {
            if !pokedex.contains(gacha_result.id) {
                if pokedex.ids.len() >= POKEDEX_LENGTH as usize {
                    return Err(ProgramError::AccountDataTooSmall);
                }
                pokedex.ids.push(gacha_result.id);
            }
        },
        None => {},
    }
    ctx.pokemon.data = Some(
        Pokemon {
            id: gacha_result.id,
            name: String::new(),
            owner,
            gender: gacha_result.gender,
            is_shiny: gacha_result.is_shiny,
            worth: gacha_result.worth,
            bump: 0,
        },
    );
    match &mut ctx.user_data.data {
        Some(user) => {
            user.balance = user.balance - GACHA_COST;
            user.pokemon_count = user.pokemon_count + 1;
        },
        None => {},
    }
    Ok(())
}

/// A player who holds fewer than `GACHA_COST` coins cannot draw: the request
/// is turned down for want of coins, whatever the outcome it carries.
pub proof fn lemma_draw_without_coins_is_refused(ctx: GachaView, outcome: GachaResult)
    requires
        ctx.user_data.data is Some,
        ctx.pokedex.data is Some,
        ctx.pokemon.data is None,
        ctx.user_data.data->0.balance < 10,
    ensures
        ctx.draw(outcome) == Err::<GachaView, ProgramError>(
            ProgramError::Custom(CustomError::InsufficientCoins),
        ),
{
}

/// A player who holds `GACHA_COST` coins or more is served, as long as the
/// species is listed in the pokedex or the pokedex has room for it: the
/// balance goes down by exactly `GACHA_COST`, the count of collectibles goes
/// up by exactly one, the species is listed, and the new collectible carries
/// the outcome as supplied and belongs to the player. Nothing else changes.
pub proof fn lemma_draw_pays_cost_and_records_outcome(ctx: GachaView, outcome: GachaResult)
    requires
        ctx.user_data.data is Some,
        ctx.pokedex.data is Some,
        ctx.pokemon.data is None,
        ctx.user_data.data->0.balance >= 10,
        ctx.pokedex.data->0.ids.contains(outcome.id) || ctx.pokedex.data->0.ids.len() < 200,
    ensures
        ctx.draw(outcome) matches Ok(next) && {
            &&& next.user_data.data matches Some(user) && {
                &&& user.balance == ctx.user_data.data->0.balance - 10
                &&& user.pokemon_count == ctx.user_data.data->0.pokemon_count + 1
                &&& user.address == ctx.user_data.data->0.address
                &&& user.username == ctx.user_data.data->0.username
                &&& user.bio == ctx.user_data.data->0.bio
            }
            &&& next.pokemon.data matches Some(pokemon) && {
                &&& pokemon.id == outcome.id
                &&& pokemon.is_shiny == outcome.is_shiny
                &&& pokemon.gender == outcome.gender
                &&& pokemon.worth == outcome.worth
                &&& pokemon.owner == ctx.user_data.data->0.address
                &&& pokemon.name.len() == 0
            }
            &&& next.pokedex.data matches Some(pokedex) && pokedex.ids.contains(outcome.id)
                && pokedex.owner == ctx.pokedex.data->0.owner
            &&& next.owner == ctx.owner
            &&& next.user_data.lamports == ctx.user_data.lamports
            &&& next.pokedex.lamports == ctx.pokedex.lamports
            &&& next.pokemon.lamports == ctx.pokemon.lamports
        },
{
    let ids = ctx.pokedex.data->0.ids;
    if !ids.contains(outcome.id) {
        assert(ids.push(outcome.id)[ids.len() as int] == outcome.id);
    }
}

/// A draw keeps the pokedex in order: it lists no species twice and never
/// more than `POKEDEX_LENGTH`, it keeps every species it listed, in place,
/// and afterwards it lists the species that was drawn.
pub proof fn lemma_draw_keeps_pokedex_well_formed(ctx: GachaView, outcome: GachaResult)
    requires
        ctx.pokedex.data matches Some(pokedex) && pokedex.wf(),
    ensures
        ctx.draw(outcome) matches Ok(next) ==> {
            &&& next.pokedex.data->0.wf()
            &&& next.pokedex.data->0.owner == ctx.pokedex.data->0.owner
            &&& next.pokedex.data->0.ids.contains(outcome.id)
            &&& ctx.pokedex.data->0.ids.is_prefix_of(next.pokedex.data->0.ids)
            &&& next.pokedex.data->0.ids.len() <= ctx.pokedex.data->0.ids.len() + 1
        },
{
    let ids = ctx.pokedex.data->0.ids;
    if ctx.draw(outcome) is Ok && !ids.contains(outcome.id) {
        let grown = ids.push(outcome.id);
        assert(grown[ids.len() as int] == outcome.id);
        assert forall|i: int, j: int|
            0 <= i < grown.len() && 0 <= j < grown.len() && i != j implies grown[i]
            != grown[j] by {
            if i < ids.len() {
                assert(ids.contains(ids[i]));
            }
            if j < ids.len() {
                assert(ids.contains(ids[j]));
            }
        }
    }
}

/// A species drawn twice is listed once. Where two draws of one species are
/// served one after the other for the same player, the second meeting the
/// player record and the pokedex that the first left, the pokedex after the
/// second is the one after the first and holds the species exactly once;
/// and there are two collectibles of that species, both the player's, drawn
/// at counts that differ by one.
pub proof fn lemma_species_drawn_twice_is_listed_once(
    first: GachaView,
    first_outcome: GachaResult,
    second: GachaView,
    second_outcome: GachaResult,
)
    requires
        first.pokedex.data matches Some(pokedex) && pokedex.wf(),
        first_outcome.id == second_outcome.id,
        first.draw(first_outcome) matches Ok(between) && second.user_data == between.user_data
            && second.pokedex == between.pokedex,
        second.draw(second_outcome) is Ok,
    ensures
        ({
            let between = first.draw(first_outcome)->Ok_0;
            let last = second.draw(second_outcome)->Ok_0;
            &&& last.pokedex == between.pokedex
            &&& last.pokedex.data->0.ids.to_multiset().count(first_outcome.id) == 1
            &&& between.pokemon.data matches Some(one) && one.id == first_outcome.id && one.owner
                == first.user_data.data->0.address
            &&& last.pokemon.data matches Some(other) && other.id == first_outcome.id
                && other.owner == first.user_data.data->0.address
            &&& second.user_data.data->0.pokemon_count == first.user_data.data->0.pokemon_count + 1
            &&& last.user_data.data->0.pokemon_count == first.user_data.data->0.pokemon_count + 2
            &&& last.user_data.data->0.balance == first.user_data.data->0.balance - 20
        }),
{
    lemma_draw_keeps_pokedex_well_formed(first, first_outcome);
    let between = first.draw(first_outcome)->Ok_0;
    let ids = between.pokedex.data->0.ids;
    ids.lemma_multiset_has_no_duplicates();
    ids.to_multiset_ensures();
}

} // verus!
