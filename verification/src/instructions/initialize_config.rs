//! Treasury initialisation: the one treasury record is created.

use crate::errors::ProgramError;
use crate::states::{Account, AccountView, GameAuthority, GameAuthorityView, Signer, SignerView};
use vstd::prelude::*;

verus! {

/// The records of a treasury initialisation: the caller and the place where
/// the treasury record is to be stored.
#[derive(Clone, Debug, PartialEq, Eq)]
pub struct InitializeConfig {
    pub signer: Signer,
    pub config: Account<GameAuthority>,
}

/// The records of a treasury initialisation as a mathematical value.
pub struct InitializeConfigView {
    pub signer: SignerView,
    pub config: AccountView<GameAuthorityView>,
}

impl View for InitializeConfig {
    type V = InitializeConfigView;

    open spec fn view(&self) -> InitializeConfigView {
        InitializeConfigView { signer: self.signer@, config: self.config@ }
    }
}

impl InitializeConfigView {
    /// What a treasury initialisation comes to: the records after it, or the
    /// reason why it is turned down.
    pub open spec fn initialize(self) -> Result<InitializeConfigView, ProgramError> {
        if self.config.data is Some {
            Err(ProgramError::AccountAlreadyInitialized)
        } else {
            Ok(
                InitializeConfigView {
                    signer: self.signer,
                    config: AccountView {
                        data: Some(GameAuthorityView { owner: self.signer.key }),
                        ..self.config
                    },
                },
            )
        }
    }
}

/// Creates the treasury record and makes the caller its owner. Where the
/// treasury exists already the request is turned down and nothing changes.
pub fn initialize_config(ctx: &mut InitializeConfig) -> (result: Result<(), ProgramError>)
    ensures
        match old(ctx)@.initialize() {
            Ok(next) => result is Ok && final(ctx)@ == next,
            Err(reason) => result == Err::<(), ProgramError>(reason) && *final(ctx) == *old(ctx),
        },
{
    if ctx.config.data.is_some() {
        return Err(ProgramError::AccountAlreadyInitialized);
    }
    ctx.config.data = Some(GameAuthority { owner: ctx.signer.key });
    Ok(())
}

/// Where no treasury exists the initialisation is served and makes the
/// caller the owner; what the place and the caller hold stays as it was.
pub proof fn lemma_initialization_records_caller_as_owner(ctx: InitializeConfigView)
    requires
        ctx.config.data is None,
    ensures
        ctx.initialize() matches Ok(next) && {
            &&& next.config.data matches Some(authority) && authority.owner == ctx.signer.key
            &&& next.config.lamports == ctx.config.lamports
            &&& next.signer == ctx.signer
        },
{
}

/// The treasury is created once: every later initialisation that meets the
/// treasury which a served one left is turned down, whoever asks.
pub proof fn lemma_second_initialization_is_refused(
    ctx: InitializeConfigView,
    again: InitializeConfigView,
)
    requires
        ctx.initialize() matches Ok(next) && again.config == next.config,
    ensures
        again.initialize() == Err::<InitializeConfigView, ProgramError>(
            ProgramError::AccountAlreadyInitialized,
        ),
{
}

} // verus!
