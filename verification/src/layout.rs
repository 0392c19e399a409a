//! How much room a record takes where it is stored. Every record starts
//! with a header of fixed size; a text or a list is stored as its length,
//! in four bytes, and then its bytes; the room reserved for a record is what
//! it takes when every text and list is as long as its limit allows.

use crate::states::{
    byte_len, Pokedex, PokedexView, Pokemon, PokemonView, UserData, UserDataView, BIO_LENGTH,
    POKEDEX_LENGTH, USERNAME_LENGTH,
};
use vstd::prelude::*;

verus! {

/// Bytes of the header that every record starts with.
pub const HEADER_LENGTH: usize = 8;

/// Bytes of an identity.
pub const PUBKEY_LENGTH: usize = 32;

/// Bytes in which the length of a text or a list is stored.
pub const PREFIX_LENGTH: usize = 4;

/// Room reserved for a player's record.
pub const USER_DATA_SPACE: usize = 284;

/// Room reserved for a collectible's record.
pub const POKEMON_SPACE: usize = 76;

/// Room reserved for a pokedex.
pub const POKEDEX_SPACE: usize = 244;

/// Room reserved for the treasury's record.
pub const GAME_AUTHORITY_SPACE: usize = 40;

impl UserDataView {
    /// Bytes that the record takes: header, owner, name, bio, count and
    /// balance.
    pub open spec fn stored_len(self) -> nat {
        HEADER_LENGTH as nat + PUBKEY_LENGTH as nat + PREFIX_LENGTH as nat + byte_len(
            self.username,
        ) + PREFIX_LENGTH as nat + byte_len(self.bio) + 8 + 8
    }
}

impl PokemonView {
    /// Bytes that the record takes: header, species, name, owner, gender,
    /// shiny flag, worth and bump.
    pub open spec fn stored_len(self) -> nat {
        HEADER_LENGTH as nat + 1 + PREFIX_LENGTH as nat + byte_len(self.name)
            + PUBKEY_LENGTH as nat + 1 + 1 + 8 + 1
    }
}

impl PokedexView {
    /// Bytes that the pokedex takes: header, owner and the list of species.
    pub open spec fn stored_len(self) -> nat {
        HEADER_LENGTH as nat + PUBKEY_LENGTH as nat + PREFIX_LENGTH as nat + self.ids.len()
    }
}

/// Bytes that the treasury's record takes: header and owner.
pub open spec fn game_authority_stored_len() -> nat {
    HEADER_LENGTH as nat + PUBKEY_LENGTH as nat
}

impl UserData {
    /// Whether name and bio keep within their limits.
    pub fn within_limits(&self) -> (within: bool)
        ensures
            within == self@.wf(),
    {
        self.username.as_str().as_bytes().len() <= USERNAME_LENGTH
            && self.bio.as_str().as_bytes().len() <= BIO_LENGTH
    }
}

impl Pokemon {
    /// Whether the name keeps within its limit.
    pub fn within_limits(&self) -> (within: bool)
        ensures
            within == self@.wf(),
    {
        self.name.as_str().as_bytes().len() <= USERNAME_LENGTH
    }
}

impl Pokedex {
    /// Whether the list keeps within its limit and names no species twice.
    pub fn within_limits(&self) -> (within: bool)
        ensures
            within == self@.wf(),
    {
        if self.ids.len() > POKEDEX_LENGTH as usize {
            return false;
        }
        let mut i: usize = 0;
        while i < self.ids.len()
            invariant
                i <= self.ids.len(),
                forall|a: int, b: int| 0 <= a < b < i ==> self.ids@[a] != self.ids@[b],
            decreases self.ids.len() - i,
        {
            let mut j: usize = 0;
            while j < i
                invariant
                    j <= i < self.ids.len(),
                    forall|a: int| 0 <= a < j ==> self.ids@[a] != self.ids@[i as int],
                decreases i - j,
            {
                if self.ids[j] == self.ids[i] {
                    return false;
                }
                j += 1;
            }
            i += 1;
        }
        true
    }
}

/// A record that keeps within its limits fits the room reserved for it, and
/// a record in which every text and list is as long as its limit allows
/// fills that room to the last byte.
pub proof fn lemma_well_formed_records_fit(
    user: UserDataView,
    pokemon: PokemonView,
    pokedex: PokedexView,
)
    ensures
        user.wf() ==> user.stored_len() <= USER_DATA_SPACE,
        byte_len(user.username) == USERNAME_LENGTH && byte_len(user.bio) == BIO_LENGTH
            ==> user.stored_len() == USER_DATA_SPACE,
        pokemon.wf() ==> pokemon.stored_len() <= POKEMON_SPACE,
        byte_len(pokemon.name) == USERNAME_LENGTH ==> pokemon.stored_len() == POKEMON_SPACE,
        pokedex.wf() ==> pokedex.stored_len() <= POKEDEX_SPACE,
        pokedex.ids.len() <= POKEDEX_LENGTH <==> pokedex.stored_len() <= POKEDEX_SPACE,
        game_authority_stored_len() == GAME_AUTHORITY_SPACE,
{
}

} // verus!
