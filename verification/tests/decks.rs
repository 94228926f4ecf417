use zoo_contract::deck::{delete_deck, save_deck, DeleteDeck, PlayerDeck, SaveDeck};
use zoo_contract::error::GameError;
use zoo_contract::identity::Pubkey;

fn key(byte: u8) -> Pubkey {
    Pubkey::new_from_array([byte; 32])
}

fn cards(n: u8) -> Vec<Pubkey> {
    (0..n).map(|i| key(100 + i)).collect()
}

fn slot() -> SaveDeck {
    SaveDeck { player_deck: None, player: key(1), player_deck_bump: 210 }
}

#[test]
fn saving_fills_the_slot() {
    let mut ctx = slot();
    assert_eq!(save_deck(&mut ctx, 2, String::from("Rush"), cards(3)), Ok(()));
    assert_eq!(
        ctx.player_deck,
        Some(PlayerDeck {
            owner: key(1),
            deck_index: 2,
            deck_name: String::from("Rush"),
            card_mints: cards(3),
            is_active: true,
            bump: 210,
        })
    );
}

#[test]
fn saving_again_replaces_the_deck() {
    let mut ctx = slot();
    assert_eq!(save_deck(&mut ctx, 2, String::from("Rush"), cards(3)), Ok(()));
    ctx.player_deck_bump = 211;
    assert_eq!(save_deck(&mut ctx, 2, String::from("Wall"), cards(10)), Ok(()));
    let deck = ctx.player_deck.clone().unwrap();
    assert_eq!(deck.deck_name, "Wall");
    assert_eq!(deck.card_mints, cards(10));
    assert_eq!(deck.bump, 211);
    assert_eq!(save_deck(&mut ctx, 2, String::new(), vec![]), Ok(()));
    assert!(ctx.player_deck.unwrap().is_active);
}

#[test]
fn deck_bounds() {
    let mut ctx = slot();
    assert_eq!(save_deck(&mut ctx, 5, String::from("Rush"), cards(3)), Err(GameError::InvalidDeckIndex));
    assert_eq!(save_deck(&mut ctx, 255, String::from("Rush"), cards(3)), Err(GameError::InvalidDeckIndex));
    assert_eq!(save_deck(&mut ctx, 4, String::from("Rush"), cards(11)), Err(GameError::TooManyCardsInDeck));
    assert_eq!(save_deck(&mut ctx, 4, "n".repeat(33), cards(10)), Err(GameError::StringTooLong));
    assert_eq!(save_deck(&mut ctx, 5, "n".repeat(33), cards(11)), Err(GameError::InvalidDeckIndex));
    assert_eq!(save_deck(&mut ctx, 4, "n".repeat(33), cards(11)), Err(GameError::TooManyCardsInDeck));
    assert_eq!(ctx, slot());
    for index in 0..5u8 {
        let mut ctx = slot();
        assert_eq!(save_deck(&mut ctx, index, "n".repeat(32), cards(10)), Ok(()));
    }
}

#[test]
fn saving_into_the_slot_of_another_is_refused() {
    let mut ctx = slot();
    assert_eq!(save_deck(&mut ctx, 2, String::from("Rush"), cards(3)), Ok(()));
    let mut other = SaveDeck { player_deck: ctx.player_deck.clone(), player: key(2), player_deck_bump: 210 };
    let before = other.clone();
    assert_eq!(save_deck(&mut other, 2, String::from("Mine"), cards(1)), Err(GameError::Unauthorized));
    assert_eq!(other, before);
    let before = ctx.clone();
    assert_eq!(save_deck(&mut ctx, 3, String::from("Rush"), cards(3)), Err(GameError::Unauthorized));
    assert_eq!(ctx, before);
}

#[test]
fn deleting_clears_the_slot_in_place() {
    let mut ctx = slot();
    assert_eq!(save_deck(&mut ctx, 2, String::from("Rush"), cards(3)), Ok(()));
    let mut delete = DeleteDeck { player_deck: ctx.player_deck.unwrap(), player: key(1) };
    assert_eq!(delete_deck(&mut delete, 2), Ok(()));
    assert_eq!(
        delete.player_deck,
        PlayerDeck {
            owner: key(1),
            deck_index: 2,
            deck_name: String::new(),
            card_mints: vec![],
            is_active: false,
            bump: 210,
        }
    );
    assert_eq!(delete_deck(&mut delete, 2), Ok(()));
    let mut reuse = SaveDeck { player_deck: Some(delete.player_deck), player: key(1), player_deck_bump: 210 };
    assert_eq!(save_deck(&mut reuse, 2, String::from("Again"), cards(2)), Ok(()));
    assert!(reuse.player_deck.unwrap().is_active);
}

#[test]
fn deleting_the_deck_of_another_is_refused() {
    let mut ctx = slot();
    assert_eq!(save_deck(&mut ctx, 2, String::from("Rush"), cards(3)), Ok(()));
    let mut delete = DeleteDeck { player_deck: ctx.player_deck.unwrap(), player: key(2) };
    let before = delete.clone();
    assert_eq!(delete_deck(&mut delete, 2), Err(GameError::Unauthorized));
    assert_eq!(delete, before);
    delete.player = key(1);
    let before = delete.clone();
    assert_eq!(delete_deck(&mut delete, 3), Err(GameError::Unauthorized));
    assert_eq!(delete, before);
}
