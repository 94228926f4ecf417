//! Saved decks: up to five per player, of up to ten cards each.

use vstd::prelude::*;
use crate::error::GameError;
use crate::identity::{Pubkey, PUBKEY_BYTES};
use crate::layout::{LENGTH_PREFIX_LEN, RECORD_HEADER_LEN};
use crate::text::{byte_len, validate_string_length};

verus! {

/// Number of deck slots per player.
pub const MAX_DECKS: u8 = 5;

/// Most cards in a deck.
pub const MAX_DECK_CARDS: usize = 10;

/// Longest name of a deck, in bytes.
pub const MAX_DECK_NAME_LEN: usize = 32;

/// Bytes reserved for a stored deck.
pub const PLAYER_DECK_LEN: usize = 8 + 32 + 1 + 4 + 32 + 4 + (32 * 10) + 1 + 1;

/// One deck slot of a player, keyed by the owner and the slot's index.
#[derive(Clone, Debug, PartialEq, Eq)]
pub struct PlayerDeck {
    pub owner: Pubkey,
    pub deck_index: u8,
    pub deck_name: String,
    /// The tokens of the cards in the deck.
    pub card_mints: Vec<Pubkey>,
    /// Whether the slot holds a deck. A deleted deck leaves its slot behind,
    /// cleared, to be used again.
    pub is_active: bool,
    /// Address seed of the record.
    pub bump: u8,
}

impl PlayerDeck {
    /// The slot is one of the five, and name and cards are within their
    /// bounds.
    pub open spec fn wf(&self) -> bool {
        &&& self.deck_index < MAX_DECKS
        &&& self.card_mints@.len() <= MAX_DECK_CARDS
        &&& byte_len(self.deck_name@) <= MAX_DECK_NAME_LEN
    }

    /// Bytes that the stored deck takes.
    pub open spec fn stored_len(&self) -> nat {
        (RECORD_HEADER_LEN + PUBKEY_BYTES + 1 + LENGTH_PREFIX_LEN + byte_len(self.deck_name@)
            + LENGTH_PREFIX_LEN + PUBKEY_BYTES * self.card_mints@.len() + 1 + 1) as nat
    }

    /// A deck whose name and cards are within their bounds fits the room
    /// reserved for it.
    pub proof fn lemma_fits(&self)
        requires
            self.wf(),
        ensures
            self.stored_len() <= PLAYER_DECK_LEN,
    {
    }

    /// Whether the slot is the one stored under `owner` and `deck_index`.
    pub open spec fn is_slot(&self, owner: Pubkey, deck_index: u8) -> bool {
        self.owner == owner && self.deck_index == deck_index
    }
}

/// The records that saving a deck works on.
#[derive(Clone, Debug, PartialEq, Eq)]
pub struct SaveDeck {
    /// The slot stored under the caller and the index, if it was used before.
    pub player_deck: Option<PlayerDeck>,
    /// The caller.
    pub player: Pubkey,
    /// Address seed of the slot.
    pub player_deck_bump: u8,
}

/// Why saving a deck is refused, or `None` where it goes through.
pub open spec fn save_deck_rejection(
    ctx: SaveDeck,
    deck_index: u8,
    deck_name: Seq<char>,
    card_mints: Seq<Pubkey>,
) -> Option<GameError> {
    if ctx.player_deck matches Some(deck) && !deck.is_slot(ctx.player, deck_index) {
        Some(GameError::Unauthorized)
    } else if deck_index >= MAX_DECKS {
        Some(GameError::InvalidDeckIndex)
    } else if card_mints.len() > MAX_DECK_CARDS {
        Some(GameError::TooManyCardsInDeck)
    } else if byte_len(deck_name) > MAX_DECK_NAME_LEN {
        Some(GameError::StringTooLong)
    } else {
        None
    }
}

/// The deck that saving puts into the slot.
pub open spec fn saved_deck(
    ctx: SaveDeck,
    deck_index: u8,
    deck_name: String,
    card_mints: Vec<Pubkey>,
) -> PlayerDeck {
    PlayerDeck {
        owner: ctx.player,
        deck_index,
        deck_name,
        card_mints,
        is_active: true,
        bump: ctx.player_deck_bump,
    }
}

/// Saves a deck into one of the caller's slots, replacing what the slot
/// held.
///
/// Refused with `Unauthorized` where the slot handed in is not the one of the
/// caller and the index, with `InvalidDeckIndex` for an index past the fifth
/// slot, with `TooManyCardsInDeck` for more than ten cards, and with
/// `StringTooLong` for a name of more than 32 bytes, in this order.
pub fn save_deck(
    ctx: &mut SaveDeck,
    deck_index: u8,
    deck_name: String,
    card_mints: Vec<Pubkey>,
) -> (r: Result<(), GameError>)
    ensures
        match save_deck_rejection(*old(ctx), deck_index, deck_name@, card_mints@) {
            Some(e) => r == Err::<(), GameError>(e) && *final(ctx) == *old(ctx),
            None => r == Ok::<(), GameError>(()) && *final(ctx) == (SaveDeck {
                player_deck: Some(saved_deck(*old(ctx), deck_index, deck_name, card_mints)),
                ..*old(ctx)
            }) && final(ctx).player_deck->0.wf(),
        },
{
    match &ctx.player_deck {
        Some(deck) => {
            if deck.owner != ctx.player || deck.deck_index != deck_index {
                return Err(GameError::Unauthorized);
            }
        },
        None => {},
    }
    if deck_index >= MAX_DECKS {
        return Err(GameError::InvalidDeckIndex);
    }
    if card_mints.len() > MAX_DECK_CARDS {
        return Err(GameError::TooManyCardsInDeck);
    }
    match validate_string_length(deck_name.as_str(), MAX_DECK_NAME_LEN) {
        Ok(()) => {},
        Err(e) => {
            return Err(e);
        },
    }
    ctx.player_deck = Some(
        PlayerDeck {
            owner: ctx.player,
            deck_index,
            deck_name,
            card_mints,
            is_active: true,
            bump: ctx.player_deck_bump,
        },
    );
    Ok(())
}

/// The records that deleting a deck works on.
#[derive(Clone, Debug, PartialEq, Eq)]
pub struct DeleteDeck {
    pub player_deck: PlayerDeck,
    /// The caller.
    pub player: Pubkey,
}

/// Deletes a deck: the slot stays, inactive, with no name and no cards.
///
/// Refused with `Unauthorized` where the slot is not the one of the caller
/// and the index.
pub fn delete_deck(ctx: &mut DeleteDeck, deck_index: u8) -> (r: Result<(), GameError>)
    ensures
        final(ctx).player == old(ctx).player,
        final(ctx).player_deck.owner == old(ctx).player_deck.owner,
        final(ctx).player_deck.deck_index == old(ctx).player_deck.deck_index,
        final(ctx).player_deck.bump == old(ctx).player_deck.bump,
        if old(ctx).player_deck.is_slot(old(ctx).player, deck_index) {
            &&& r == Ok::<(), GameError>(())
            &&& !final(ctx).player_deck.is_active
            &&& final(ctx).player_deck.deck_name@ == Seq::<char>::empty()
            &&& final(ctx).player_deck.card_mints@ == Seq::<Pubkey>::empty()
        } else {
            &&& r == Err::<(), GameError>(GameError::Unauthorized)
            &&& *final(ctx) == *old(ctx)
        },
        old(ctx).player_deck.wf() ==> final(ctx).player_deck.wf(),
{
    if ctx.player_deck.owner != ctx.player || ctx.player_deck.deck_index != deck_index {
        return Err(GameError::Unauthorized);
    }
    ctx.player_deck.is_active = false;
    ctx.player_deck.card_mints = Vec::new();
    ctx.player_deck.deck_name = String::new();
    Ok(())
}

} // verus!
