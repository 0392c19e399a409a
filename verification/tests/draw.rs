use pokegacha_contract::errors::{CustomError, ProgramError};
use pokegacha_contract::gacha;
use pokegacha_contract::instructions::{release_pokemon, save_gacha, Gacha, ReleasePokemon};
use pokegacha_contract::layout::{
    GAME_AUTHORITY_SPACE, HEADER_LENGTH, POKEDEX_SPACE, POKEMON_SPACE, PREFIX_LENGTH,
    PUBKEY_LENGTH, USER_DATA_SPACE,
};
use pokegacha_contract::states::{
    Account, GachaResult, GachaType, GameAuthority, Gender, Pokedex, Pokemon, Pubkey, Signer,
    UserData, GACHA_COST, POKEDEX_LENGTH,
};

fn key(tag: u8) -> Pubkey {
    Pubkey::new_from_array([tag; 32])
}

fn player(owner: u8, balance: u64, pokemon_count: u64) -> UserData {
    UserData {
        address: key(owner),
        username: "ash".to_string(),
        bio: "catching them all".to_string(),
        pokemon_count,
        balance,
    }
}

fn table(balance: u64, ids: Vec<u8>) -> Gacha {
    Gacha {
        owner: Signer { key: key(1), lamports: 40 },
        user_data: Account::holding(11, player(1, balance, 3)),
        pokedex: Account::holding(12, Pokedex { owner: key(1), ids }),
        pokemon: Account::vacant(13),
    }
}

fn outcome(id: u8, worth: u64) -> GachaResult {
    GachaResult { id, is_shiny: true, gender: Gender::Female, worth }
}

#[test]
fn draw_costs_ten_coins_and_records_the_outcome() {
    let mut ctx = table(100, vec![1, 2]);
    assert_eq!(save_gacha(&mut ctx, outcome(25, 70)), Ok(()));
    assert_eq!(ctx.user_data.data, Some(player(1, 90, 4)));
    assert_eq!(ctx.pokedex.data, Some(Pokedex { owner: key(1), ids: vec![1, 2, 25] }));
    let expected = Pokemon {
        id: 25,
        name: String::new(),
        owner: key(1),
        gender: Gender::Female,
        is_shiny: true,
        worth: 70,
        bump: 0,
    };
    assert_eq!(ctx.pokemon.data, Some(expected));
    assert_eq!(ctx.owner, Signer { key: key(1), lamports: 40 });
    assert_eq!(
        (ctx.user_data.lamports, ctx.pokedex.lamports, ctx.pokemon.lamports),
        (11, 12, 13)
    );
    assert_eq!(GACHA_COST, 10);
}

#[test]
fn draw_with_nine_coins_is_refused_and_changes_nothing() {
    let mut ctx = table(9, vec![1]);
    let before = ctx.clone();
    assert_eq!(
        save_gacha(&mut ctx, outcome(25, 70)),
        Err(ProgramError::Custom(CustomError::InsufficientCoins))
    );
    assert_eq!(ctx, before);
    assert!(!ctx.pokemon.is_initialized());
}

#[test]
fn draw_with_exactly_ten_coins_empties_the_balance() {
    let mut ctx = table(10, vec![]);
    assert_eq!(save_gacha(&mut ctx, outcome(7, 1)), Ok(()));
    assert_eq!(ctx.user_data.data.as_ref().map(|user| user.balance), Some(0));
    let mut next = Gacha { pokemon: Account::vacant(0), ..ctx };
    assert_eq!(
        save_gacha(&mut next, outcome(7, 1)),
        Err(ProgramError::Custom(CustomError::InsufficientCoins))
    );
}

#[test]
fn drawing_a_species_twice_lists_it_once() {
    let mut first = table(100, vec![3]);
    assert_eq!(save_gacha(&mut first, outcome(25, 70)), Ok(()));
    let mut second = Gacha {
        owner: first.owner,
        user_data: first.user_data.clone(),
        pokedex: first.pokedex.clone(),
        pokemon: Account::vacant(13),
    };
    let male = GachaResult { id: 25, is_shiny: false, gender: Gender::Male, worth: 5 };
    assert_eq!(save_gacha(&mut second, male), Ok(()));
    let ids = second.pokedex.data.clone().map(|pokedex| pokedex.ids);
    assert_eq!(ids, Some(vec![3, 25]));
    assert_eq!(second.user_data.data, Some(player(1, 80, 5)));
    let one = first.pokemon.data.clone().map(|pokemon| (pokemon.id, pokemon.worth, pokemon.gender));
    let other =
        second.pokemon.data.clone().map(|pokemon| (pokemon.id, pokemon.worth, pokemon.gender));
    assert_eq!(one, Some((25, 70, Gender::Female)));
    assert_eq!(other, Some((25, 5, Gender::Male)));

    // Each of the two can be released by itself, in either order.
    let mut release_second = ReleasePokemon {
        signer: Signer { key: key(1), lamports: 40 },
        user_data: second.user_data.clone(),
        pokemon: second.pokemon.clone(),
        config: Account::holding(1_000, GameAuthority { owner: key(9) }),
    };
    assert_eq!(release_pokemon(&mut release_second), Ok(()));
    assert_eq!(release_second.user_data.data.as_ref().map(|user| user.balance), Some(85));
    let mut release_first = ReleasePokemon {
        signer: release_second.signer,
        user_data: release_second.user_data.clone(),
        pokemon: first.pokemon.clone(),
        config: release_second.config.clone(),
    };
    assert_eq!(release_pokemon(&mut release_first), Ok(()));
    assert_eq!(release_first.user_data.data.as_ref().map(|user| user.balance), Some(155));
    assert_eq!(release_first.config.lamports, 1_026);
    assert!(!release_first.pokemon.is_initialized());
    assert!(!release_second.pokemon.is_initialized());
}

#[test]
fn draw_into_an_occupied_place_is_refused() {
    let mut ctx = table(100, vec![]);
    assert_eq!(save_gacha(&mut ctx, outcome(1, 1)), Ok(()));
    let before = ctx.clone();
    assert_eq!(save_gacha(&mut ctx, outcome(2, 2)), Err(ProgramError::AccountAlreadyInitialized));
    assert_eq!(ctx, before);
}

#[test]
fn draw_for_an_unregistered_player_is_refused() {
    let mut ctx = table(100, vec![]);
    ctx.user_data = Account::vacant(11);
    let before = ctx.clone();
    assert_eq!(save_gacha(&mut ctx, outcome(1, 1)), Err(ProgramError::UninitializedAccount));
    assert_eq!(ctx, before);
    let mut no_pokedex = table(100, vec![]);
    no_pokedex.pokedex = Account::vacant(12);
    assert_eq!(save_gacha(&mut no_pokedex, outcome(1, 1)), Err(ProgramError::UninitializedAccount));
}

#[test]
fn missing_records_are_reported_before_missing_coins() {
    let mut ctx = table(0, vec![]);
    ctx.pokedex = Account::vacant(12);
    assert_eq!(save_gacha(&mut ctx, outcome(1, 1)), Err(ProgramError::UninitializedAccount));
    let mut occupied = table(0, vec![]);
    occupied.pokemon = Account::holding(
        13,
        Pokemon {
            id: 1,
            name: String::new(),
            owner: key(1),
            gender: Gender::Male,
            is_shiny: false,
            worth: 0,
            bump: 0,
        },
    );
    assert_eq!(
        save_gacha(&mut occupied, outcome(1, 1)),
        Err(ProgramError::AccountAlreadyInitialized)
    );
}

#[test]
fn full_pokedex_takes_no_new_species_but_known_ones() {
    let ids: Vec<u8> = (0..200).collect();
    assert_eq!(ids.len(), POKEDEX_LENGTH as usize);
    let mut ctx = table(100, ids.clone());
    let before = ctx.clone();
    assert_eq!(save_gacha(&mut ctx, outcome(200, 1)), Err(ProgramError::AccountDataTooSmall));
    assert_eq!(ctx, before);
    assert_eq!(save_gacha(&mut ctx, outcome(199, 1)), Ok(()));
    assert_eq!(ctx.pokedex.data, Some(Pokedex { owner: key(1), ids }));
    assert_eq!(ctx.user_data.data.map(|user| user.balance), Some(90));
}

#[test]
fn pokedex_with_one_free_line_takes_one_more_species() {
    let ids: Vec<u8> = (0..199).collect();
    let mut ctx = table(100, ids);
    assert_eq!(save_gacha(&mut ctx, outcome(250, 1)), Ok(()));
    let listed = ctx.pokedex.data.map(|pokedex| pokedex.ids).unwrap_or_default();
    assert_eq!(listed.len(), 200);
    assert_eq!(listed.last(), Some(&250));
}

#[test]
fn pokedex_knows_what_it_lists() {
    let pokedex = Pokedex { owner: key(1), ids: vec![4, 9, 200] };
    assert!(pokedex.contains(4));
    assert!(pokedex.contains(200));
    assert!(!pokedex.contains(5));
    assert!(!Pokedex { owner: key(1), ids: vec![] }.contains(0));
}

#[test]
fn collectible_belongs_to_the_player_not_to_the_caller() {
    let mut ctx = table(100, vec![]);
    ctx.owner = Signer { key: key(50), lamports: 1 };
    assert_eq!(gacha(&mut ctx, outcome(8, 3)), Ok(()));
    assert_eq!(ctx.pokemon.data.map(|pokemon| pokemon.owner), Some(key(1)));
}

#[test]
fn gacha_types_are_distinct() {
    assert_ne!(GachaType::Single, GachaType::Multi);
    assert_ne!(Gender::Male, Gender::Female);
}

#[test]
fn pokedex_within_limits_lists_no_species_twice() {
    let of = |ids: Vec<u8>| Pokedex { owner: key(1), ids };
    assert!(of(vec![]).within_limits());
    assert!(of(vec![1, 2, 3]).within_limits());
    assert!(!of(vec![1, 2, 1]).within_limits());
    assert!(!of(vec![7, 7]).within_limits());
    assert!(of((0..200).collect()).within_limits());
    assert!(!of((0..201).map(|i| i as u8).collect()).within_limits());
}

#[test]
fn reserved_room_is_header_plus_longest_fields() {
    assert_eq!(HEADER_LENGTH, 8);
    assert_eq!(USER_DATA_SPACE, 8 + 32 + (4 + 20) + (4 + 200) + 8 + 8);
    assert_eq!(POKEMON_SPACE, 8 + 1 + (4 + 20) + 32 + 1 + 1 + 8 + 1);
    assert_eq!(POKEDEX_SPACE, 8 + 32 + 4 + 200);
    assert_eq!(GAME_AUTHORITY_SPACE, HEADER_LENGTH + PUBKEY_LENGTH);
    assert_eq!(PREFIX_LENGTH, 4);
}

#[test]
fn drawn_collectible_keeps_within_limits_until_its_name_grows() {
    let mut ctx = table(100, vec![]);
    assert_eq!(save_gacha(&mut ctx, outcome(1, 1)), Ok(()));
    let pokemon = ctx.pokemon.data.unwrap();
    assert!(pokemon.within_limits());
    assert!(!Pokemon { name: "z".repeat(21), ..pokemon }.within_limits());
}

#[test]
fn draw_fits_unless_the_count_is_at_its_end() {
    assert!(table(100, vec![]).draw_fits(outcome(1, 1)));
    let mut veteran = table(100, vec![]);
    veteran.user_data = Account::holding(11, player(1, 100, u64::MAX));
    assert!(!veteran.draw_fits(outcome(1, 1)));
    // Turned down for want of coins: nothing to write.
    veteran.user_data = Account::holding(11, player(1, 9, u64::MAX));
    assert!(veteran.draw_fits(outcome(1, 1)));
    // Turned down because the pokedex is full.
    let mut full = table(100, (0..200).collect());
    full.user_data = Account::holding(11, player(1, 100, u64::MAX));
    assert!(full.draw_fits(outcome(200, 1)));
    assert!(!full.draw_fits(outcome(199, 1)));
}
