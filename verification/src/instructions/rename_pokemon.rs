//! Rename: the owner of a collectible gives it a display name.

use crate::errors::{CustomError, ProgramError};
use crate::states::{
    byte_len, Account, AccountView, Pokemon, PokemonView, Signer, SignerView, USERNAME_LENGTH,
};
use vstd::prelude::*;

verus! {

/// The records of a rename: the caller and the collectible.
#[derive(Clone, Debug, PartialEq, Eq)]
pub struct RenamePokemon {
    pub signer: Signer,
    pub pokemon: Account<Pokemon>,
}

/// The records of a rename as a mathematical value.
pub struct RenamePokemonView {
    pub signer: SignerView,
    pub pokemon: AccountView<PokemonView>,
}

impl View for RenamePokemon {
    type V = RenamePokemonView;

    open spec fn view(&self) -> RenamePokemonView {
        RenamePokemonView { signer: self.signer@, pokemon: self.pokemon@ }
    }
}

impl RenamePokemonView {
    /// What a rename to `name` comes to: the records after it, or the reason
    /// why it is turned down.
    pub open spec fn rename(self, name: Seq<char>) -> Result<RenamePokemonView, ProgramError> {
        if self.pokemon.data is None {
            Err(ProgramError::UninitializedAccount)
        } else if self.signer.key != self.pokemon.data->0.owner {
            Err(ProgramError::Custom(CustomError::Unauthorized))
        } else if byte_len(name) > USERNAME_LENGTH {
            Err(ProgramError::Custom(CustomError::NameTooLong))
        } else {
            Ok(
                RenamePokemonView {
                    signer: self.signer,
                    pokemon: AccountView {
                        data: Some(PokemonView { name, ..self.pokemon.data->0 }),
                        ..self.pokemon
                    },
                },
            )
        }
    }
}

/// Gives the caller's collectible the display name `name`; no other field
/// changes. A caller who does not own the collectible is turned down, and so
/// is a name of more than `USERNAME_LENGTH` bytes, or a request whose
/// collectible does not exist; then nothing changes.
pub fn rename_pokemon(ctx: &mut RenamePokemon, name: String) -> (result: Result<(), ProgramError>)
    ensures
        match old(ctx)@.rename(name@) {
            Ok(next) => result is Ok && final(ctx)@ == next,
            Err(reason) => result == Err::<(), ProgramError>(reason) && *final(ctx) == *old(ctx),
        },
{
    match &mut ctx.pokemon.data {
        Some(pokemon) => {
            if ctx.signer.key != pokemon.owner {
                return Err(ProgramError::Custom(CustomError::Unauthorized));
            }
            if name.as_str().as_bytes().len() > USERNAME_LENGTH {
                return Err(ProgramError::Custom(CustomError::NameTooLong));
            }
            pokemon.name = name;
            Ok(())
        },
        None => Err(ProgramError::UninitializedAccount),
    }
}

/// A name of more than `USERNAME_LENGTH` bytes is turned down as too long,
/// also where the owner asks for it.
pub proof fn lemma_long_name_is_refused(ctx: RenamePokemonView, name: Seq<char>)
    requires
        ctx.pokemon.data matches Some(pokemon) && pokemon.owner == ctx.signer.key,
        byte_len(name) > USERNAME_LENGTH,
    ensures
        ctx.rename(name) == Err::<RenamePokemonView, ProgramError>(
            ProgramError::Custom(CustomError::NameTooLong),
        ),
{
}

/// A caller who does not own the collectible cannot rename it, whatever the
/// name: the request is turned down as unauthorized.
pub proof fn lemma_rename_by_stranger_is_refused(ctx: RenamePokemonView, name: Seq<char>)
    requires
        ctx.pokemon.data matches Some(pokemon) && pokemon.owner != ctx.signer.key,
    ensures
        ctx.rename(name) == Err::<RenamePokemonView, ProgramError>(
            ProgramError::Custom(CustomError::Unauthorized),
        ),
{
}

/// The owner who asks for a name that fits gets it, and nothing else about
/// the collectible changes; the record keeps within its limits.
pub proof fn lemma_rename_changes_only_the_name(ctx: RenamePokemonView, name: Seq<char>)
    requires
        ctx.pokemon.data matches Some(pokemon) && pokemon.owner == ctx.signer.key,
        byte_len(name) <= USERNAME_LENGTH,
    ensures
        ctx.rename(name) matches Ok(next) && {
            &&& next.pokemon.data == Some(PokemonView { name, ..ctx.pokemon.data->0 })
            &&& next.pokemon.lamports == ctx.pokemon.lamports
            &&& next.signer == ctx.signer
            &&& ctx.pokemon.data->0.owner.len() == 32 ==> next.pokemon.data->0.wf()
        },
{
}

} // verus!
