//! Registration: a new player gets a record and an empty pokedex.

use crate::errors::{CustomError, ProgramError};
use crate::states::{
    byte_len, Account, AccountView, Pokedex, PokedexView, Signer, SignerView, UserData,
    UserDataView,
    DEFAULT_BIO, STARTING_BALANCE, USERNAME_LENGTH,
};
use vstd::prelude::*;

verus! {

/// The records of a registration: the caller, and the two places where the
/// caller's player record and pokedex are to be stored.
#[derive(Clone, Debug, PartialEq, Eq)]
pub struct InitializeUser {
    pub signer: Signer,
    pub user_data: Account<UserData>,
    pub pokedex: Account<Pokedex>,
}

/// The records of a registration as a mathematical value.
pub struct InitializeUserView {
    pub signer: SignerView,
    pub user_data: AccountView<UserDataView>,
    pub pokedex: AccountView<PokedexView>,
}

impl View for InitializeUser {
    type V = InitializeUserView;

    open spec fn view(&self) -> InitializeUserView {
        InitializeUserView {
            signer: self.signer@,
            user_data: self.user_data@,
            pokedex: self.pokedex@,
        }
    }
}

impl InitializeUserView {
    /// What a registration under `username` comes to: the records after it,
    /// or the reason why it is turned down.
    pub open spec fn register(self, username: Seq<char>) -> Result<
        InitializeUserView,
        ProgramError,
    > {
        if self.user_data.data is Some || self.pokedex.data is Some {
            Err(ProgramError::AccountAlreadyInitialized)
        } else if byte_len(username) > USERNAME_LENGTH {
            Err(ProgramError::Custom(CustomError::NameTooLong))
        } else {
            Ok(
                InitializeUserView {
                    signer: self.signer,
                    user_data: AccountView {
                        data: Some(UserDataView::registered(self.signer.key, username)),
                        ..self.user_data
                    },
                    pokedex: AccountView {
                        data: Some(PokedexView::empty(self.signer.key)),
                        ..self.pokedex
                    },
                },
            )
        }
    }
}

/// Registers the caller as a player under `username`: the player record
/// starts with `STARTING_BALANCE` coins, no collectibles and the default
/// bio, and the pokedex starts empty; both belong to the caller. A caller
/// who is registered already is turned down, and so is a name of more than
/// `USERNAME_LENGTH` bytes; then nothing changes.
pub fn initialize_user(ctx: &mut InitializeUser, username: String) -> (result: Result<
    (),
    ProgramError,
>)
    ensures
        match old(ctx)@.register(username@) {
            Ok(next) => result is Ok && final(ctx)@ == next,
            Err(reason) => result == Err::<(), ProgramError>(reason) && *final(ctx) == *old(ctx),
        },
{
    if ctx.user_data.data.is_some() || ctx.pokedex.data.is_some() {
        return Err(ProgramError::AccountAlreadyInitialized);
    }
    if username.as_str().as_bytes().len() > USERNAME_LENGTH {
        return Err(ProgramError::Custom(CustomError::NameTooLong));
    }
    ctx.user_data.data = Some(
        UserData {
            address: ctx.signer.key,
            username,
            bio: DEFAULT_BIO.to_owned(),
            pokemon_count: 0,
            balance: STARTING_BALANCE,
        },
    );
    ctx.pokedex.data = Some(Pokedex { owner: ctx.signer.key, ids: Vec::new() });
    Ok(())
}

/// Every registration under a name that fits is served where the caller
/// has no records yet, and leaves a player who belongs to the caller, holds
/// exactly `STARTING_BALANCE` coins and no collectibles, carries the name and
/// the default bio, and has an empty pokedex of their own. The caller's
/// holdings, and what the two places hold of the native asset, stay as they
/// were.
pub proof fn lemma_registration_grants_starting_balance(
    ctx: InitializeUserView,
    username: Seq<char>,
)
    requires
        ctx.user_data.data is None,
        ctx.pokedex.data is None,
        byte_len(username) <= USERNAME_LENGTH,
    ensures
        ctx.register(username) matches Ok(next) && {
            &&& next.user_data.data matches Some(user) && {
                &&& user.balance == 100
                &&& user.pokemon_count == 0
                &&& user.address == ctx.signer.key
                &&& user.username == username
                &&& user.bio == DEFAULT_BIO@
            }
            &&& next.pokedex.data matches Some(pokedex) && pokedex.owner == ctx.signer.key
                && pokedex.ids.len() == 0
            &&& next.signer == ctx.signer
            &&& next.user_data.lamports == ctx.user_data.lamports
            &&& next.pokedex.lamports == ctx.pokedex.lamports
        },
{
}

/// Nobody registers twice: once a registration has been served, every later
/// registration that meets the player record or the pokedex that it left is
/// turned down, whatever name it asks for.
pub proof fn lemma_second_registration_is_refused(
    ctx: InitializeUserView,
    username: Seq<char>,
    again: InitializeUserView,
    other_name: Seq<char>,
)
    requires
        ctx.register(username) matches Ok(next) && (again.user_data == next.user_data
            || again.pokedex == next.pokedex),
    ensures
        again.register(other_name) == Err::<InitializeUserView, ProgramError>(
            ProgramError::AccountAlreadyInitialized,
        ),
{
}

/// A name of more than `USERNAME_LENGTH` bytes is turned down as too long
/// wherever the caller could register at all.
pub proof fn lemma_long_username_is_refused(ctx: InitializeUserView, username: Seq<char>)
    requires
        ctx.user_data.data is None,
        ctx.pokedex.data is None,
        byte_len(username) > USERNAME_LENGTH,
    ensures
        ctx.register(username) == Err::<InitializeUserView, ProgramError>(
            ProgramError::Custom(CustomError::NameTooLong),
        ),
{
}

/// The records that a registration leaves keep within their limits.
pub proof fn lemma_registration_leaves_records_well_formed(
    ctx: InitializeUserView,
    username: Seq<char>,
)
    requires
        ctx.signer.key.len() == 32,
    ensures
        ctx.register(username) matches Ok(next) ==> next.user_data.data->0.wf()
            && next.pokedex.data->0.wf(),
{
    reveal_strlit("This user has not write anything yet");
    vstd::utf8::is_ascii_chars_encode_utf8(DEFAULT_BIO@);
}

} // verus!
