//! Where records live: the address of a record is derived from a namespace
//! tag and the identity it belongs to, so that anybody can compute it.

use crate::states::{Pubkey, UserData, CONFIG_SEED, POKEDEX_SEED, POKEMON_SEED, USER_SEED};
use vstd::bytes::{spec_u64_to_le_bytes, u64_to_le_bytes};
use vstd::prelude::*;
use vstd::string::StrSliceExecFns;
use vstd::utf8::encode_utf8;

verus! {

/// The address that the ledger derives for a program from a list of seeds,
/// together with the bump byte that it found for it; `None` where the ledger
/// derives none.
pub uninterp spec fn program_address(seeds: Seq<Seq<u8>>, program_id: Seq<u8>) -> Option<
    (Seq<u8>, u8),
>;

/// A list of seeds as a mathematical value.
pub open spec fn seeds_view(seeds: Seq<Vec<u8>>) -> Seq<Seq<u8>> {
    Seq::new(seeds.len(), |i: int| seeds[i]@)
}

/// An address and its bump byte as a mathematical value.
pub open spec fn found_view(found: Option<(Pubkey, u8)>) -> Option<(Seq<u8>, u8)> {
    match found {
        Some((address, bump)) => Some((address@, bump)),
        None => None,
    }
}

/// Calls `anchor_lang::prelude::Pubkey::try_find_program_address`, which
/// looks for the highest bump byte under which the seeds and the program's
/// identity hash to an address off the signature curve. Not proved here:
/// that the address and the bump byte which it returns depend on the seeds
/// and the program's identity alone; `program_address` names that result.
#[verifier::external_body]
fn find_program_address(seeds: &Vec<Vec<u8>>, program_id: &Pubkey) -> (found: Option<
    (Pubkey, u8),
>)
    ensures
        found_view(found) == program_address(seeds_view(seeds@), program_id@),
{
    let slices: Vec<&[u8]> = seeds.iter().map(|seed| seed.as_slice()).collect();
    let program = anchor_lang::prelude::Pubkey::new_from_array(program_id.bytes);
    match anchor_lang::prelude::Pubkey::try_find_program_address(&slices, &program) {
        Some((address, bump)) => Some((Pubkey { bytes: address.to_bytes() }, bump)),
        None => None,
    }
}

/// Seeds of the treasury record: its namespace tag.
pub open spec fn config_seeds_spec() -> Seq<Seq<u8>> {
    seq![encode_utf8(CONFIG_SEED@)]
}

/// Seeds of a player's record: the namespace tag, then the player.
pub open spec fn user_seeds_spec(owner: Seq<u8>) -> Seq<Seq<u8>> {
    seq![encode_utf8(USER_SEED@), owner]
}

/// Seeds of a player's pokedex: the namespace tag, then the player.
pub open spec fn pokedex_seeds_spec(owner: Seq<u8>) -> Seq<Seq<u8>> {
    seq![encode_utf8(POKEDEX_SEED@), owner]
}

/// Seeds of a collectible: the namespace tag, the player who drew it, and
/// the player's count of collectibles at the time of the draw, written in
/// eight bytes with the lowest first.
pub open spec fn pokemon_seeds_spec(owner: Seq<u8>, sequence: u64) -> Seq<Seq<u8>> {
    seq![encode_utf8(POKEMON_SEED@), owner, spec_u64_to_le_bytes(sequence)]
}

/// The seeds of the treasury record.
pub fn config_seeds() -> (seeds: Vec<Vec<u8>>)
    ensures
        seeds_view(seeds@) == config_seeds_spec(),
{
    let mut seeds: Vec<Vec<u8>> = Vec::new();
    seeds.push(CONFIG_SEED.as_bytes_vec());
    assert(seeds_view(seeds@) =~= config_seeds_spec());
    seeds
}

/// The seeds of the record of the player `owner`.
pub fn user_seeds(owner: &Pubkey) -> (seeds: Vec<Vec<u8>>)
    ensures
        seeds_view(seeds@) == user_seeds_spec(owner@),
{
    let mut seeds: Vec<Vec<u8>> = Vec::new();
    seeds.push(USER_SEED.as_bytes_vec());
    seeds.push(owner.to_bytes());
    assert(seeds_view(seeds@) =~= user_seeds_spec(owner@));
    seeds
}

/// The seeds of the pokedex of the player `owner`.
pub fn pokedex_seeds(owner: &Pubkey) -> (seeds: Vec<Vec<u8>>)
    ensures
        seeds_view(seeds@) == pokedex_seeds_spec(owner@),
{
    let mut seeds: Vec<Vec<u8>> = Vec::new();
    seeds.push(POKEDEX_SEED.as_bytes_vec());
    seeds.push(owner.to_bytes());
    assert(seeds_view(seeds@) =~= pokedex_seeds_spec(owner@));
    seeds
}

/// The seeds of the collectible that the player `owner` drew when the
/// player's count of collectibles was `sequence`.
pub fn pokemon_seeds(owner: &Pubkey, sequence: u64) -> (seeds: Vec<Vec<u8>>)
    ensures
        seeds_view(seeds@) == pokemon_seeds_spec(owner@, sequence),
{
    let mut seeds: Vec<Vec<u8>> = Vec::new();
    seeds.push(POKEMON_SEED.as_bytes_vec());
    seeds.push(owner.to_bytes());
    seeds.push(u64_to_le_bytes(sequence));
    assert(seeds_view(seeds@) =~= pokemon_seeds_spec(owner@, sequence));
    seeds
}

/// The address of the treasury record of the program `program_id`.
pub fn config_address(program_id: &Pubkey) -> (found: Option<(Pubkey, u8)>)
    ensures
        found_view(found) == program_address(config_seeds_spec(), program_id@),
{
    let seeds = config_seeds();
    find_program_address(&seeds, program_id)
}

/// The address of the record of the player `owner`.
pub fn user_address(program_id: &Pubkey, owner: &Pubkey) -> (found: Option<(Pubkey, u8)>)
    ensures
        found_view(found) == program_address(user_seeds_spec(owner@), program_id@),
{
    let seeds = user_seeds(owner);
    find_program_address(&seeds, program_id)
}

/// The address of the pokedex of the player `owner`.
pub fn pokedex_address(program_id: &Pubkey, owner: &Pubkey) -> (found: Option<(Pubkey, u8)>)
    ensures
        found_view(found) == program_address(pokedex_seeds_spec(owner@), program_id@),
{
    let seeds = pokedex_seeds(owner);
    find_program_address(&seeds, program_id)
}

/// The address of the collectible that the player `owner` drew when the
/// player's count of collectibles was `sequence`.
pub fn pokemon_address(program_id: &Pubkey, owner: &Pubkey, sequence: u64) -> (found: Option<
    (Pubkey, u8),
>)
    ensures
        found_view(found) == program_address(pokemon_seeds_spec(owner@, sequence), program_id@),
{
    let seeds = pokemon_seeds(owner, sequence);
    find_program_address(&seeds, program_id)
}

/// The address at which the next collectible of the player `user` is to be
/// stored: the one derived from the player and the player's present count.
pub fn next_pokemon_address(program_id: &Pubkey, user: &UserData) -> (found: Option<(Pubkey, u8)>)
    ensures
        found_view(found) == program_address(
            pokemon_seeds_spec(user.address@, user.pokemon_count),
            program_id@,
        ),
{
    pokemon_address(program_id, &user.address, user.pokemon_count)
}

/// Collectibles that one player drew at different counts have different
/// seeds.
pub proof fn lemma_pokemon_seeds_differ_by_sequence(owner: Seq<u8>, first: u64, second: u64)
    requires
        first != second,
    ensures
        pokemon_seeds_spec(owner, first) != pokemon_seeds_spec(owner, second),
{
    vstd::bytes::lemma_auto_spec_u64_to_from_le_bytes();
    assert(pokemon_seeds_spec(owner, first)[2] == spec_u64_to_le_bytes(first));
    assert(pokemon_seeds_spec(owner, second)[2] == spec_u64_to_le_bytes(second));
}

/// Records of one kind that belong to different players have different
/// seeds.
pub proof fn lemma_seeds_differ_by_owner(first: Seq<u8>, second: Seq<u8>, sequence: u64)
    requires
        first != second,
    ensures
        user_seeds_spec(first) != user_seeds_spec(second),
        pokedex_seeds_spec(first) != pokedex_seeds_spec(second),
        pokemon_seeds_spec(first, sequence) != pokemon_seeds_spec(second, sequence),
{
    assert(user_seeds_spec(first)[1] == first);
    assert(user_seeds_spec(second)[1] == second);
    assert(pokedex_seeds_spec(first)[1] == first);
    assert(pokedex_seeds_spec(second)[1] == second);
    assert(pokemon_seeds_spec(first, sequence)[1] == first);
    assert(pokemon_seeds_spec(second, sequence)[1] == second);
}

/// The four kinds of record have different seeds, whoever they belong to:
/// no two namespace tags are the same.
pub proof fn lemma_seeds_differ_by_kind(owner: Seq<u8>, other: Seq<u8>, sequence: u64)
    ensures
        user_seeds_spec(owner) != pokedex_seeds_spec(other),
        user_seeds_spec(owner) != pokemon_seeds_spec(other, sequence),
        pokedex_seeds_spec(owner) != pokemon_seeds_spec(other, sequence),
        config_seeds_spec() != user_seeds_spec(owner),
        config_seeds_spec() != pokedex_seeds_spec(owner),
        config_seeds_spec() != pokemon_seeds_spec(owner, sequence),
{
    reveal_strlit("USER_SEED");
    reveal_strlit("POKEDEX_SEED");
    reveal_strlit("POKEMON_SEED");
    reveal_strlit("CONFIG_SEED");
    vstd::utf8::is_ascii_chars_encode_utf8(USER_SEED@);
    vstd::utf8::is_ascii_chars_encode_utf8(POKEDEX_SEED@);
    vstd::utf8::is_ascii_chars_encode_utf8(POKEMON_SEED@);
    vstd::utf8::is_ascii_chars_encode_utf8(CONFIG_SEED@);
    assert(user_seeds_spec(owner)[0].len() == 9);
    assert(pokedex_seeds_spec(other)[0].len() == 12);
    assert(pokedex_seeds_spec(owner)[0][3] == 'E' as u8);
    assert(pokemon_seeds_spec(other, sequence)[0][3] == 'E' as u8);
    assert(pokedex_seeds_spec(owner)[0][4] == 'D' as u8);
    assert(pokemon_seeds_spec(other, sequence)[0][4] == 'M' as u8);
    assert(config_seeds_spec().len() == 1);
    assert(user_seeds_spec(owner).len() == 2);
    assert(pokedex_seeds_spec(owner).len() == 2);
    assert(pokemon_seeds_spec(owner, sequence).len() == 3);
}

} // verus!
