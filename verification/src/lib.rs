//! Economic core of a collectible-card game: card draws, the player ledger,
//! the marketplace escrow and match results.
//!
//! Every operation is one transaction. It is handed the records that the
//! host has loaded for it and the identity of the caller, which the host has
//! authenticated. It checks what it was handed, and then either changes the
//! records in memory and returns `Ok`, for the host to store them, or returns
//! the reason for its refusal and leaves every record as it was. A record
//! that may or may not exist is handed in as an `Option`. Where an operation
//! calls for work that only the host can do, moving a token or taking a
//! payment, it returns a description of that work; should the host fail at
//! it, the host drops the changed records with the transaction.
//!
//! The rules are proved against their contracts. Two things are taken on
//! trust from `anchor_lang`: the SHA-256 digest behind the random values
//! (`draw::sha256`) and the derivation of storage addresses
//! (`address::program_address`).

pub mod address;
pub mod clock;
pub mod config;
pub mod deck;
pub mod draw;
pub mod error;
pub mod exchange;
pub mod gacha;
pub mod identity;
pub mod layout;
pub mod market;
pub mod matches;
pub mod player;
pub mod pool;
pub mod rarity;
pub mod template;
pub mod text;

pub use clock::Clock;
pub use config::GameConfig;
pub use deck::PlayerDeck;
pub use error::{ErrorKind, GameError};
pub use identity::Pubkey;
pub use market::{CardInstance, CardLocation, Listing};
pub use player::PlayerProfile;
pub use pool::RarityPool;
pub use rarity::{Rarity, RarityBands, TraitType};
pub use template::CardTemplate;
