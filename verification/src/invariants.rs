//! What holds of the ledger whichever instruction is served.

use crate::instructions::initialize_user::InitializeUserView;
use crate::instructions::release_pokemon::ReleasePokemonView;
use crate::instructions::rename_pokemon::RenamePokemonView;
use crate::instructions::save_gacha::GachaView;
use crate::instructions::topup_balance::TopupBalanceView;
use crate::instructions::withdraw_funds::WithdrawView;
use crate::states::GachaResult;
use vstd::prelude::*;

verus! {

/// The owner of the treasury never changes: every instruction that works on
/// an existing treasury leaves its record as it found it.
pub proof fn lemma_treasury_owner_is_fixed(
    topup: TopupBalanceView,
    coins: nat,
    withdraw: WithdrawView,
    amount: nat,
    release: ReleasePokemonView,
)
    ensures
        topup.topup(coins) matches Ok(next) ==> next.config.data == topup.config.data,
        withdraw.withdraw(amount) matches Ok(next) ==> next.config.data == withdraw.config.data,
        release.release() matches Ok(next) ==> next.config.data == release.config.data,
{
}

/// No instruction makes or loses native asset: what the caller and the
/// places on the ledger hold together is the same before and after.
pub proof fn lemma_native_asset_is_conserved(
    topup: TopupBalanceView,
    coins: nat,
    withdraw: WithdrawView,
    amount: nat,
    release: ReleasePokemonView,
)
    ensures
        topup.topup(coins) matches Ok(next) ==> next.signer.lamports + next.config.lamports
            + next.user_data.lamports == topup.signer.lamports + topup.config.lamports
            + topup.user_data.lamports,
        withdraw.withdraw(amount) matches Ok(next) ==> next.owner.lamports + next.config.lamports
            == withdraw.owner.lamports + withdraw.config.lamports,
        release.release() matches Ok(next) ==> next.signer.lamports + next.config.lamports
            + next.pokemon.lamports + next.user_data.lamports == release.signer.lamports
            + release.config.lamports + release.pokemon.lamports + release.user_data.lamports,
{
}

/// A player's count of collectibles never falls, and the player stays who
/// they are: a draw adds one to the count, and no other instruction on an
/// existing player touches the count or the identity.
pub proof fn lemma_collectible_count_never_falls(
    topup: TopupBalanceView,
    coins: nat,
    draw: GachaView,
    outcome: GachaResult,
    release: ReleasePokemonView,
)
    ensures
        topup.topup(coins) matches Ok(next) ==> next.user_data.data->0.pokemon_count
            == topup.user_data.data->0.pokemon_count && next.user_data.data->0.address
            == topup.user_data.data->0.address,
        draw.draw(outcome) matches Ok(next) ==> next.user_data.data->0.pokemon_count
            == draw.user_data.data->0.pokemon_count + 1 && next.user_data.data->0.address
            == draw.user_data.data->0.address,
        release.release() matches Ok(next) ==> next.user_data.data->0.pokemon_count
            == release.user_data.data->0.pokemon_count && next.user_data.data->0.address
            == release.user_data.data->0.address,
{
}

/// Records keep within the limits of their layout: every instruction that
/// meets well-formed records leaves well-formed records, and the records
/// that an instruction creates are well-formed.
pub proof fn lemma_records_stay_well_formed(
    register: InitializeUserView,
    username: Seq<char>,
    topup: TopupBalanceView,
    coins: nat,
    draw: GachaView,
    outcome: GachaResult,
    release: ReleasePokemonView,
    rename: RenamePokemonView,
    name: Seq<char>,
)
    requires
        register.signer.key.len() == 32,
        topup.user_data.data matches Some(user) ==> user.wf(),
        draw.user_data.data matches Some(user) ==> user.wf(),
        draw.pokedex.data matches Some(pokedex) ==> pokedex.wf(),
        release.user_data.data matches Some(user) ==> user.wf(),
        rename.pokemon.data matches Some(pokemon) ==> pokemon.wf(),
    ensures
        register.register(username) matches Ok(next) ==> next.user_data.data->0.wf()
            && next.pokedex.data->0.wf(),
        topup.topup(coins) matches Ok(next) ==> next.user_data.data->0.wf(),
        draw.draw(outcome) matches Ok(next) ==> next.user_data.data->0.wf()
            && next.pokedex.data->0.wf() && next.pokemon.data->0.wf(),
        release.release() matches Ok(next) ==> next.user_data.data->0.wf(),
        rename.rename(name) matches Ok(next) ==> next.pokemon.data->0.wf(),
{
    crate::instructions::initialize_user::lemma_registration_leaves_records_well_formed(
        register,
        username,
    );
    if draw.draw(outcome) is Ok {
        crate::instructions::save_gacha::lemma_draw_keeps_pokedex_well_formed(draw, outcome);
        assert(vstd::utf8::encode_utf8(Seq::<char>::empty()).len() == 0);
    }
}

} // verus!
