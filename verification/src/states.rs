//! The records of the ledger, their limits, and the handles through which an
//! instruction reaches them.

use vstd::prelude::*;
use vstd::utf8::encode_utf8;

verus! {

/// Most species that one pokedex can list.
pub const POKEDEX_LENGTH: u8 = 200;

/// Native-asset units that one coin costs.
pub const LAMPORT_PER_COIN: u64 = 1_000_00;

/// Most bytes of a display name, of a player or of a collectible.
pub const USERNAME_LENGTH: usize = 20;

/// Most bytes of a player's bio.
pub const BIO_LENGTH: usize = 200;

/// Coins granted to a player at registration.
pub const STARTING_BALANCE: u64 = 100;

/// Coins that one draw costs.
pub const GACHA_COST: u64 = 10;

/// Namespace tag of player records.
pub const USER_SEED: &'static str = "USER_SEED";

/// Namespace tag of collectible records.
pub const POKEMON_SEED: &'static str = "POKEMON_SEED";

/// Namespace tag of pokedex records.
pub const POKEDEX_SEED: &'static str = "POKEDEX_SEED";

/// Namespace tag of the treasury record.
pub const CONFIG_SEED: &'static str = "CONFIG_SEED";

/// Bio of a player who has not written one.
pub const DEFAULT_BIO: &'static str = "This user has not write anything yet";

/// Number of bytes that a text takes when stored.
pub open spec fn byte_len(text: Seq<char>) -> nat {
    encode_utf8(text).len()
}

/// An identity on the ledger, or the address of a record: 32 bytes.
#[derive(Clone, Copy, Debug)]
pub struct Pubkey {
    pub bytes: [u8; 32],
}

impl View for Pubkey {
    type V = Seq<u8>;

    open spec fn view(&self) -> Seq<u8> {
        self.bytes@
    }
}

impl PartialEq for Pubkey {
    fn eq(&self, other: &Pubkey) -> (same: bool) {
        let mut i: usize = 0;
        while i < 32
            invariant
                i <= 32,
                forall|j: int| 0 <= j < i ==> self.bytes@[j] == other.bytes@[j],
            decreases 32 - i,
        {
            if self.bytes[i] != other.bytes[i] {
                return false;
            }
            i += 1;
        }
        assert(self.bytes@ =~= other.bytes@);
        true
    }
}

impl Eq for Pubkey {}

impl vstd::std_specs::cmp::PartialEqSpecImpl for Pubkey {
    open spec fn obeys_eq_spec() -> bool {
        true
    }

    open spec fn eq_spec(&self, other: &Pubkey) -> bool {
        self@ == other@
    }
}

impl Pubkey {
    /// The key made of the given bytes.
    pub fn new_from_array(bytes: [u8; 32]) -> (key: Pubkey)
        ensures
            key.bytes == bytes,
            key@ == bytes@,
    {
        Pubkey { bytes }
    }

    /// The bytes of the key, in order.
    pub fn to_bytes(&self) -> (bytes: Vec<u8>)
        ensures
            bytes@ == self@,
    {
        let mut bytes: Vec<u8> = Vec::new();
        let mut i: usize = 0;
        while i < 32
            invariant
                i <= 32,
                bytes@ == self.bytes@.subrange(0, i as int),
            decreases 32 - i,
        {
            bytes.push(self.bytes[i]);
            assert(self.bytes@.subrange(0, i as int).push(self.bytes@[i as int])
                =~= self.bytes@.subrange(0, i + 1));
            i += 1;
        }
        assert(self.bytes@.subrange(0, 32) =~= self.bytes@);
        bytes
    }
}

/// Two keys with the same bytes are the same key.
pub proof fn lemma_pubkey_view_is_injective(a: Pubkey, b: Pubkey)
    ensures
        a@ == b@ <==> a == b,
        a@.len() == 32,
{
    if a@ == b@ {
        assert(a.bytes =~= b.bytes);
    }
}

/// Gender tag of a collectible.
#[derive(Clone, Copy, Debug, PartialEq, Eq, Structural)]
pub enum Gender {
    Male,
    Female,
}

/// How many collectibles one request draws.
#[derive(Clone, Copy, Debug, PartialEq, Eq, Structural)]
pub enum GachaType {
    Single,
    Multi,
}

/// What a draw came to. The ledger records it as supplied.
#[derive(Clone, Copy, Debug, PartialEq, Eq, Structural)]
pub struct GachaResult {
    pub id: u8,
    pub is_shiny: bool,
    pub gender: Gender,
    pub worth: u64,
}

/// The record of a player.
#[derive(Clone, Debug, PartialEq, Eq)]
pub struct UserData {
    pub address: Pubkey,
    pub username: String,
    pub bio: String,
    pub pokemon_count: u64,
    pub balance: u64,
}

/// A player's record as a mathematical value.
#[verifier::ext_equal]
pub struct UserDataView {
    pub address: Seq<u8>,
    pub username: Seq<char>,
    pub bio: Seq<char>,
    pub pokemon_count: nat,
    pub balance: nat,
}

impl View for UserData {
    type V = UserDataView;

    open spec fn view(&self) -> UserDataView {
        UserDataView {
            address: self.address@,
            username: self.username@,
            bio: self.bio@,
            pokemon_count: self.pokemon_count as nat,
            balance: self.balance as nat,
        }
    }
}

impl UserDataView {
    /// The texts of the record fit the space that its layout reserves.
    pub open spec fn wf(self) -> bool {
        &&& self.address.len() == 32
        &&& byte_len(self.username) <= USERNAME_LENGTH
        &&& byte_len(self.bio) <= BIO_LENGTH
    }

    /// The record of a player who has just registered under `username`.
    pub open spec fn registered(owner: Seq<u8>, username: Seq<char>) -> UserDataView {
        UserDataView {
            address: owner,
            username,
            bio: DEFAULT_BIO@,
            pokemon_count: 0,
            balance: STARTING_BALANCE as nat,
        }
    }
}

/// The record of a collectible.
#[derive(Clone, Debug, PartialEq, Eq)]
pub struct Pokemon {
    pub id: u8,
    pub name: String,
    pub owner: Pubkey,
    pub gender: Gender,
    pub is_shiny: bool,
    pub worth: u64,
    pub bump: u8,
}

/// A collectible's record as a mathematical value.
#[verifier::ext_equal]
pub struct PokemonView {
    pub id: u8,
    pub name: Seq<char>,
    pub owner: Seq<u8>,
    pub gender: Gender,
    pub is_shiny: bool,
    pub worth: nat,
    pub bump: u8,
}

impl View for Pokemon {
    type V = PokemonView;

    open spec fn view(&self) -> PokemonView {
        PokemonView {
            id: self.id,
            name: self.name@,
            owner: self.owner@,
            gender: self.gender,
            is_shiny: self.is_shiny,
            worth: self.worth as nat,
            bump: self.bump,
        }
    }
}

impl PokemonView {
    /// The name of the record fits the space that its layout reserves.
    pub open spec fn wf(self) -> bool {
        &&& self.owner.len() == 32
        &&& byte_len(self.name) <= USERNAME_LENGTH
    }

    /// The record of a collectible that `owner` has just drawn: it carries
    /// the outcome as supplied and has no name yet.
    pub open spec fn drawn(owner: Seq<u8>, outcome: GachaResult) -> PokemonView {
        PokemonView {
            id: outcome.id,
            name: Seq::empty(),
            owner,
            gender: outcome.gender,
            is_shiny: outcome.is_shiny,
            worth: outcome.worth as nat,
            bump: 0,
        }
    }
}

/// The species that a player has seen, in the order of first sight.
#[derive(Clone, Debug, PartialEq, Eq)]
pub struct Pokedex {
    pub owner: Pubkey,
    pub ids: Vec<u8>,
}

/// A pokedex as a mathematical value.
#[verifier::ext_equal]
pub struct PokedexView {
    pub owner: Seq<u8>,
    pub ids: Seq<u8>,
}

impl View for Pokedex {
    type V = PokedexView;

    open spec fn view(&self) -> PokedexView {
        PokedexView { owner: self.owner@, ids: self.ids@ }
    }
}

impl Pokedex {
    /// Whether the species `id` is listed.
    pub fn contains(&self, id: u8) -> (listed: bool)
        ensures
            listed == self@.ids.contains(id),
    {
        let mut i: usize = 0;
        while i < self.ids.len()
            invariant
                i <= self.ids.len(),
                forall|j: int| 0 <= j < i ==> self.ids@[j] != id,
            decreases self.ids.len() - i,
        {
            if self.ids[i] == id {
                return true;
            }
            i += 1;
        }
        false
    }
}

impl PokedexView {
    /// No species is listed twice, and the list fits the pokedex.
    pub open spec fn wf(self) -> bool {
        &&& self.owner.len() == 32
        &&& self.ids.no_duplicates()
        &&& self.ids.len() <= POKEDEX_LENGTH
    }

    /// The pokedex of a player who has seen nothing yet.
    pub open spec fn empty(owner: Seq<u8>) -> PokedexView {
        PokedexView { owner, ids: Seq::empty() }
    }

    /// The pokedex after its owner has seen `id`: a species not listed yet
    /// is appended, a listed one changes nothing.
    pub open spec fn seen(self, id: u8) -> PokedexView {
        if self.ids.contains(id) {
            self
        } else {
            PokedexView { ids: self.ids.push(id), ..self }
        }
    }
}

/// The treasury's record: who may withdraw from it.
#[derive(Clone, Copy, Debug, PartialEq, Eq)]
pub struct GameAuthority {
    pub owner: Pubkey,
}

/// The treasury's record as a mathematical value.
pub struct GameAuthorityView {
    pub owner: Seq<u8>,
}

impl View for GameAuthority {
    type V = GameAuthorityView;

    open spec fn view(&self) -> GameAuthorityView {
        GameAuthorityView { owner: self.owner@ }
    }
}

/// The caller of an instruction: an identity whose signature the host has
/// checked, and the native asset it holds.
#[derive(Clone, Copy, Debug, PartialEq, Eq)]
pub struct Signer {
    pub key: Pubkey,
    pub lamports: u64,
}

/// A caller as a mathematical value.
pub struct SignerView {
    pub key: Seq<u8>,
    pub lamports: nat,
}

impl View for Signer {
    type V = SignerView;

    open spec fn view(&self) -> SignerView {
        SignerView { key: self.key@, lamports: self.lamports as nat }
    }
}

/// One place on the ledger: the native asset kept there, and the record
/// stored there, if there is one.
#[derive(Clone, Debug, PartialEq, Eq)]
pub struct Account<T> {
    pub lamports: u64,
    pub data: Option<T>,
}

/// A place on the ledger as a mathematical value.
pub struct AccountView<V> {
    pub lamports: nat,
    pub data: Option<V>,
}

impl<T: View> View for Account<T> {
    type V = AccountView<T::V>;

    open spec fn view(&self) -> AccountView<T::V> {
        AccountView {
            lamports: self.lamports as nat,
            data: match self.data {
                Some(record) => Some(record@),
                None => None,
            },
        }
    }
}

impl<T> Account<T> {
    /// A place that holds `lamports` and no record.
    pub fn vacant(lamports: u64) -> (account: Account<T>)
        ensures
            account.lamports == lamports,
            account.data is None,
    {
        Account { lamports, data: None }
    }

    /// A place that holds `lamports` and the record `data`.
    pub fn holding(lamports: u64, data: T) -> (account: Account<T>)
        ensures
            account.lamports == lamports,
            account.data == Some(data),
    {
        Account { lamports, data: Some(data) }
    }

    /// Whether a record is stored at this place.
    pub fn is_initialized(&self) -> (held: bool)
        ensures
            held == self.data is Some,
    {
        self.data.is_some()
    }
}

} // verus!
