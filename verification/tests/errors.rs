use zoo_contract::error::{ErrorKind, GameError};

fn all() -> Vec<GameError> {
    vec![
        GameError::DuplicateCardTypeId,
        GameError::InvalidTrait,
        GameError::InvalidRarity,
        GameError::EmptyString,
        GameError::StarterPackAlreadyClaimed,
        GameError::InsufficientBalance,
        GameError::Unauthorized,
        GameError::InvalidUsername,
        GameError::EmptyRarityPool,
        GameError::InvalidPackType,
        GameError::NumericalOverflow,
        GameError::CardCreatorsListFull,
        GameError::StringTooLong,
        GameError::InvalidStatRange,
        GameError::InsufficientTickets,
        GameError::InvalidDrawCount,
        GameError::InvalidDeckIndex,
        GameError::TooManyCardsInDeck,
        GameError::InvalidPrice,
        GameError::ListingNotActive,
        GameError::CannotBuyOwnCard,
        GameError::InvalidAmount,
        GameError::RecordAlreadyExists,
        GameError::RecordCapacityExceeded,
    ]
}

#[test]
fn codes_count_up_from_six_thousand() {
    for (i, error) in all().iter().enumerate() {
        assert_eq!(error.code(), 6000 + i as u32);
    }
    assert_eq!(GameError::DuplicateCardTypeId.code(), 6000);
    assert_eq!(GameError::InvalidAmount.code(), 6021);
}

#[test]
fn messages() {
    assert_eq!(GameError::DuplicateCardTypeId.message(), "Card type ID already exists");
    assert_eq!(GameError::EmptyString.message(), "Name or description cannot be empty");
    assert_eq!(GameError::InsufficientBalance.message(), "Insufficient BUG token balance");
    assert_eq!(
        GameError::InvalidStatRange.message(),
        "Invalid stat range: min cannot be greater than max"
    );
    assert_eq!(GameError::InvalidPrice.message(), "Invalid price (must be greater than 0)");
    assert_eq!(GameError::CannotBuyOwnCard.message(), "Cannot buy your own card");
    for error in all() {
        assert!(!error.message().is_empty());
    }
}

#[test]
fn kinds() {
    assert_eq!(GameError::EmptyString.kind(), ErrorKind::Validation);
    assert_eq!(GameError::StringTooLong.kind(), ErrorKind::Validation);
    assert_eq!(GameError::InvalidAmount.kind(), ErrorKind::Validation);
    assert_eq!(GameError::InvalidRarity.kind(), ErrorKind::Validation);
    assert_eq!(GameError::InvalidStatRange.kind(), ErrorKind::Validation);
    assert_eq!(GameError::Unauthorized.kind(), ErrorKind::Authorization);
    assert_eq!(GameError::StarterPackAlreadyClaimed.kind(), ErrorKind::State);
    assert_eq!(GameError::ListingNotActive.kind(), ErrorKind::State);
    assert_eq!(GameError::EmptyRarityPool.kind(), ErrorKind::State);
    assert_eq!(GameError::DuplicateCardTypeId.kind(), ErrorKind::State);
    assert_eq!(GameError::RecordAlreadyExists.kind(), ErrorKind::State);
    assert_eq!(GameError::NumericalOverflow.kind(), ErrorKind::Arithmetic);
}
