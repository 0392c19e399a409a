//! Why an instruction is turned down.

use vstd::prelude::*;

verus! {

/// The four ways in which a request can break the rules of the game.
#[derive(Clone, Copy, Debug, PartialEq, Eq, Structural)]
pub enum CustomError {
    /// The in-record coin balance does not cover a draw.
    InsufficientCoins,
    /// The native-asset holdings do not cover a top-up or a withdrawal.
    InsufficientFunds,
    /// The caller is not the owner that the instruction asks for.
    Unauthorized,
    /// A display name is longer than `USERNAME_LENGTH` bytes.
    NameTooLong,
}

/// Everything that can end an instruction without effect: a broken rule of
/// the game, or a record that is not in the state the instruction needs.
#[derive(Clone, Copy, Debug, PartialEq, Eq, Structural)]
pub enum ProgramError {
    /// A rule of the game was broken.
    Custom(CustomError),
    /// A record that the instruction creates already exists at its address.
    AccountAlreadyInitialized,
    /// A record that the instruction works on does not exist.
    UninitializedAccount,
    /// A record would outgrow the space that its layout reserves.
    AccountDataTooSmall,
}

/// First number of the range in which the ledger reports broken rules.
pub const ERROR_CODE_OFFSET: u32 = 6000;

impl CustomError {
    /// Position of the kind in the error taxonomy, counted from zero.
    pub open spec fn spec_index(self) -> nat {
        match self {
            CustomError::InsufficientCoins => 0,
            CustomError::InsufficientFunds => 1,
            CustomError::Unauthorized => 2,
            CustomError::NameTooLong => 3,
        }
    }

    /// The text shown to the caller for each kind.
    pub open spec fn spec_message(self) -> Seq<char> {
        match self {
            CustomError::InsufficientCoins => "Unable to gacha, Insufficient Coins"@,
            CustomError::InsufficientFunds => "Unable to topup, Insufficient funds in wallet"@,
            CustomError::Unauthorized => "You are nor permitted to do this action"@,
            CustomError::NameTooLong => "Name is too long"@,
        }
    }

    /// The number under which the ledger reports this kind.
    pub fn code(&self) -> (code: u32)
        ensures
            code == ERROR_CODE_OFFSET + self.spec_index(),
    {
        match self {
            CustomError::InsufficientCoins => ERROR_CODE_OFFSET,
            CustomError::InsufficientFunds => ERROR_CODE_OFFSET + 1,
            CustomError::Unauthorized => ERROR_CODE_OFFSET + 2,
            CustomError::NameTooLong => ERROR_CODE_OFFSET + 3,
        }
    }

    /// The text shown to the caller.
    pub fn message(&self) -> (text: String)
        ensures
            text@ == self.spec_message(),
    {
        match self {
            CustomError::InsufficientCoins => "Unable to gacha, Insufficient Coins".to_owned(),
            CustomError::InsufficientFunds => {
                "Unable to topup, Insufficient funds in wallet".to_owned()
            },
            CustomError::Unauthorized => "You are nor permitted to do this action".to_owned(),
            CustomError::NameTooLong => "Name is too long".to_owned(),
        }
    }
}

/// Distinct kinds are reported under distinct numbers.
pub proof fn lemma_codes_are_distinct(a: CustomError, b: CustomError)
    ensures
        a.spec_index() == b.spec_index() <==> a == b,
{
}

} // verus!
