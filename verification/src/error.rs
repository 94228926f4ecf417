//! Failures of game operations.
//!
//! Every failure aborts the operation it occurred in: the records the
//! operation was given are left exactly as they were.

use vstd::prelude::*;

verus! {

/// The reason an operation was rejected.
#[derive(Clone, Copy, Debug, PartialEq, Eq, Structural)]
pub enum GameError {
    DuplicateCardTypeId,
    InvalidTrait,
    InvalidRarity,
    EmptyString,
    StarterPackAlreadyClaimed,
    InsufficientBalance,
    Unauthorized,
    InvalidUsername,
    EmptyRarityPool,
    InvalidPackType,
    NumericalOverflow,
    CardCreatorsListFull,
    StringTooLong,
    InvalidStatRange,
    InsufficientTickets,
    InvalidDrawCount,
    InvalidDeckIndex,
    TooManyCardsInDeck,
    InvalidPrice,
    ListingNotActive,
    CannotBuyOwnCard,
    InvalidAmount,
    /// A record was to be created under a key that already holds one.
    RecordAlreadyExists,
    /// A record would outgrow the room reserved for it.
    RecordCapacityExceeded,
}

/// The four families of failure.
#[derive(Clone, Copy, Debug, PartialEq, Eq, Structural)]
pub enum ErrorKind {
    /// Bad input: an empty or oversized string, a zero amount, an unknown
    /// tag, an inverted stat range.
    Validation,
    /// The caller is not the authority, creator, owner or seller required.
    Authorization,
    /// The records are not in a state that admits the operation.
    State,
    /// A balance update would leave the representable range.
    Arithmetic,
}

/// First code of the range in which failures are reported to clients.
pub const ERROR_CODE_OFFSET: u32 = 6000;

impl GameError {
    /// Position of the variant in the declaration order.
    pub open spec fn ordinal(self) -> int {
        match self {
            GameError::DuplicateCardTypeId => 0,
            GameError::InvalidTrait => 1,
            GameError::InvalidRarity => 2,
            GameError::EmptyString => 3,
            GameError::StarterPackAlreadyClaimed => 4,
            GameError::InsufficientBalance => 5,
            GameError::Unauthorized => 6,
            GameError::InvalidUsername => 7,
            GameError::EmptyRarityPool => 8,
            GameError::InvalidPackType => 9,
            GameError::NumericalOverflow => 10,
            GameError::CardCreatorsListFull => 11,
            GameError::StringTooLong => 12,
            GameError::InvalidStatRange => 13,
            GameError::InsufficientTickets => 14,
            GameError::InvalidDrawCount => 15,
            GameError::InvalidDeckIndex => 16,
            GameError::TooManyCardsInDeck => 17,
            GameError::InvalidPrice => 18,
            GameError::ListingNotActive => 19,
            GameError::CannotBuyOwnCard => 20,
            GameError::InvalidAmount => 21,
            GameError::RecordAlreadyExists => 22,
            GameError::RecordCapacityExceeded => 23,
        }
    }

    /// The family a failure belongs to.
    pub open spec fn kind_of(self) -> ErrorKind {
        match self {
            GameError::InvalidTrait
            | GameError::InvalidRarity
            | GameError::EmptyString
            | GameError::InvalidUsername
            | GameError::InvalidPackType
            | GameError::StringTooLong
            | GameError::InvalidStatRange
            | GameError::InvalidDrawCount
            | GameError::InvalidDeckIndex
            | GameError::TooManyCardsInDeck
            | GameError::InvalidPrice
            | GameError::InvalidAmount => ErrorKind::Validation,
            GameError::Unauthorized | GameError::CannotBuyOwnCard => ErrorKind::Authorization,
            GameError::DuplicateCardTypeId
            | GameError::StarterPackAlreadyClaimed
            | GameError::InsufficientBalance
            | GameError::EmptyRarityPool
            | GameError::CardCreatorsListFull
            | GameError::InsufficientTickets
            | GameError::ListingNotActive
            | GameError::RecordAlreadyExists
            | GameError::RecordCapacityExceeded => ErrorKind::State,
            GameError::NumericalOverflow => ErrorKind::Arithmetic,
        }
    }

    /// The family a failure belongs to.
    pub fn kind(&self) -> (k: ErrorKind)
        ensures
            k == self.kind_of(),
    {
        match self {
            GameError::InvalidTrait
            | GameError::InvalidRarity
            | GameError::EmptyString
            | GameError::InvalidUsername
            | GameError::InvalidPackType
            | GameError::StringTooLong
            | GameError::InvalidStatRange
            | GameError::InvalidDrawCount
            | GameError::InvalidDeckIndex
            | GameError::TooManyCardsInDeck
            | GameError::InvalidPrice
            | GameError::InvalidAmount => ErrorKind::Validation,
            GameError::Unauthorized | GameError::CannotBuyOwnCard => ErrorKind::Authorization,
            GameError::DuplicateCardTypeId
            | GameError::StarterPackAlreadyClaimed
            | GameError::InsufficientBalance
            | GameError::EmptyRarityPool
            | GameError::CardCreatorsListFull
            | GameError::InsufficientTickets
            | GameError::ListingNotActive
            | GameError::RecordAlreadyExists
            | GameError::RecordCapacityExceeded => ErrorKind::State,
            GameError::NumericalOverflow => ErrorKind::Arithmetic,
        }
    }

    /// The code under which the failure is reported to clients.
    pub fn code(&self) -> (c: u32)
        ensures
            c == ERROR_CODE_OFFSET + self.ordinal(),
    {
        let ordinal: u32 = match self {
            GameError::DuplicateCardTypeId => 0,
            GameError::InvalidTrait => 1,
            GameError::InvalidRarity => 2,
            GameError::EmptyString => 3,
            GameError::StarterPackAlreadyClaimed => 4,
            GameError::InsufficientBalance => 5,
            GameError::Unauthorized => 6,
            GameError::InvalidUsername => 7,
            GameError::EmptyRarityPool => 8,
            GameError::InvalidPackType => 9,
            GameError::NumericalOverflow => 10,
            GameError::CardCreatorsListFull => 11,
            GameError::StringTooLong => 12,
            GameError::InvalidStatRange => 13,
            GameError::InsufficientTickets => 14,
            GameError::InvalidDrawCount => 15,
            GameError::InvalidDeckIndex => 16,
            GameError::TooManyCardsInDeck => 17,
            GameError::InvalidPrice => 18,
            GameError::ListingNotActive => 19,
            GameError::CannotBuyOwnCard => 20,
            GameError::InvalidAmount => 21,
            GameError::RecordAlreadyExists => 22,
            GameError::RecordCapacityExceeded => 23,
        };
        ERROR_CODE_OFFSET + ordinal
    }

    /// The text shown to a person for the failure.
    pub fn message(&self) -> (text: &'static str)
        ensures
            text@ == self.message_text(),
    {
        match self {
            GameError::DuplicateCardTypeId => "Card type ID already exists",
            GameError::InvalidTrait => "Invalid trait type",
            GameError::InvalidRarity => "Invalid rarity",
            GameError::EmptyString => "Name or description cannot be empty",
            GameError::StarterPackAlreadyClaimed => "Player has already claimed starter pack",
            GameError::InsufficientBalance => "Insufficient BUG token balance",
            GameError::Unauthorized => "Unauthorized access",
            GameError::InvalidUsername => "Invalid username",
            GameError::EmptyRarityPool => "Rarity pool is empty",
            GameError::InvalidPackType => "Invalid pack type",
            GameError::NumericalOverflow => "Numerical overflow",
            GameError::CardCreatorsListFull => "Card creators list is full",
            GameError::StringTooLong => "String exceeds maximum length",
            GameError::InvalidStatRange => "Invalid stat range: min cannot be greater than max",
            GameError::InsufficientTickets => "Insufficient gacha tickets",
            GameError::InvalidDrawCount => "Invalid draw count (must be 1-10)",
            GameError::InvalidDeckIndex => "Invalid deck index (must be 0-4)",
            GameError::TooManyCardsInDeck => "Too many cards in deck (max 10)",
            GameError::InvalidPrice => "Invalid price (must be greater than 0)",
            GameError::ListingNotActive => "Listing is not active",
            GameError::CannotBuyOwnCard => "Cannot buy your own card",
            GameError::InvalidAmount => "Invalid amount (must be greater than 0)",
            GameError::RecordAlreadyExists => "Record already exists",
            GameError::RecordCapacityExceeded => "Record exceeds its reserved capacity",
        }
    }

    /// The characters of the text shown for the failure.
    pub open spec fn message_text(self) -> Seq<char> {
        match self {
            GameError::DuplicateCardTypeId => "Card type ID already exists"@,
            GameError::InvalidTrait => "Invalid trait type"@,
            GameError::InvalidRarity => "Invalid rarity"@,
            GameError::EmptyString => "Name or description cannot be empty"@,
            GameError::StarterPackAlreadyClaimed => "Player has already claimed starter pack"@,
            GameError::InsufficientBalance => "Insufficient BUG token balance"@,
            GameError::Unauthorized => "Unauthorized access"@,
            GameError::InvalidUsername => "Invalid username"@,
            GameError::EmptyRarityPool => "Rarity pool is empty"@,
            GameError::InvalidPackType => "Invalid pack type"@,
            GameError::NumericalOverflow => "Numerical overflow"@,
            GameError::CardCreatorsListFull => "Card creators list is full"@,
            GameError::StringTooLong => "String exceeds maximum length"@,
            GameError::InvalidStatRange => "Invalid stat range: min cannot be greater than max"@,
            GameError::InsufficientTickets => "Insufficient gacha tickets"@,
            GameError::InvalidDrawCount => "Invalid draw count (must be 1-10)"@,
            GameError::InvalidDeckIndex => "Invalid deck index (must be 0-4)"@,
            GameError::TooManyCardsInDeck => "Too many cards in deck (max 10)"@,
            GameError::InvalidPrice => "Invalid price (must be greater than 0)"@,
            GameError::ListingNotActive => "Listing is not active"@,
            GameError::CannotBuyOwnCard => "Cannot buy your own card"@,
            GameError::InvalidAmount => "Invalid amount (must be greater than 0)"@,
            GameError::RecordAlreadyExists => "Record already exists"@,
            GameError::RecordCapacityExceeded => "Record exceeds its reserved capacity"@,
        }
    }
}

} // verus!
