//! One module per instruction: the records it touches and its handler.

pub mod initialize_config;
pub mod initialize_user;
pub mod release_pokemon;
pub mod rename_pokemon;
pub mod save_gacha;
pub mod topup_balance;
pub mod withdraw_funds;

pub use initialize_config::{initialize_config, InitializeConfig};
pub use initialize_user::{initialize_user, InitializeUser};
pub use release_pokemon::{release_pokemon, ReleasePokemon};
pub use rename_pokemon::{rename_pokemon, RenamePokemon};
pub use save_gacha::{save_gacha, Gacha};
pub use topup_balance::{topup_balance, TopupBalance};
pub use withdraw_funds::{withdraw_funds, Withdraw};
