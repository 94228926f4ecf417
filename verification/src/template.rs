//! Card templates: for each card type, what a card of that type is and the
//! ranges its stats are rolled from.

use vstd::prelude::*;
use crate::config::{is_authorized_creator, GameConfig};
use crate::error::GameError;
use crate::identity::Pubkey;
use crate::layout::{LENGTH_PREFIX_LEN, RECORD_HEADER_LEN};
use crate::rarity::{Rarity, TraitType};
use crate::text::{byte_len, is_blank, validate_non_empty_string, validate_string_length};

verus! {

/// Longest name of a card type, in bytes.
pub const MAX_NAME_LEN: usize = 32;

/// Longest description of a card type, in bytes.
pub const MAX_DESCRIPTION_LEN: usize = 200;

/// Longest image reference of a card type, in bytes.
pub const MAX_IMAGE_URI_LEN: usize = 200;

/// Bytes reserved for a stored template.
pub const CARD_TEMPLATE_LEN: usize = 8 + 4 + 4 + 32 + 1 + 1 + 2 + 2 + 2 + 2 + 4 + 200 + 4 + 200
    + 1;

/// The template of one card type, keyed by the card type's id. A template is
/// created once and never changed.
#[derive(Clone, Debug, PartialEq, Eq)]
pub struct CardTemplate {
    pub card_type_id: u32,
    pub name: String,
    pub trait_type: TraitType,
    pub rarity: Rarity,
    pub min_attack: u16,
    pub max_attack: u16,
    pub min_health: u16,
    pub max_health: u16,
    pub description: String,
    pub image_uri: String,
    /// Address seed of the record.
    pub bump: u8,
}

impl CardTemplate {
    /// The stat ranges are not inverted, name and description say something,
    /// and every text is within its bound.
    pub open spec fn wf(&self) -> bool {
        &&& self.min_attack <= self.max_attack
        &&& self.min_health <= self.max_health
        &&& !is_blank(self.name@)
        &&& !is_blank(self.description@)
        &&& byte_len(self.name@) <= MAX_NAME_LEN
        &&& byte_len(self.description@) <= MAX_DESCRIPTION_LEN
        &&& byte_len(self.image_uri@) <= MAX_IMAGE_URI_LEN
    }

    /// Bytes that the stored template takes.
    pub open spec fn stored_len(&self) -> nat {
        (RECORD_HEADER_LEN + 4 + LENGTH_PREFIX_LEN + byte_len(self.name@) + 1 + 1 + 2 + 2 + 2 + 2
            + LENGTH_PREFIX_LEN + byte_len(self.description@) + LENGTH_PREFIX_LEN + byte_len(
            self.image_uri@,
        ) + 1) as nat
    }

    /// A template whose texts are within their bounds fits the room reserved
    /// for it.
    pub proof fn lemma_fits(&self)
        requires
            self.wf(),
        ensures
            self.stored_len() <= CARD_TEMPLATE_LEN,
    {
    }
}

/// The records that creating a template works on.
#[derive(Clone, Debug, PartialEq, Eq)]
pub struct CreateCardTemplate {
    /// The template stored under the card type's id, if there is one.
    pub card_template: Option<CardTemplate>,
    pub game_config: GameConfig,
    /// The caller.
    pub creator: Pubkey,
    /// Address seed of the template to be created.
    pub card_template_bump: u8,
}

/// Why creating the template `template` is refused, or `None` where it goes
/// through.
pub open spec fn create_card_template_rejection(
    ctx: CreateCardTemplate,
    template: CardTemplate,
) -> Option<GameError> {
    if ctx.card_template is Some {
        Some(GameError::DuplicateCardTypeId)
    } else if !ctx.game_config.authorizes(ctx.creator) {
        Some(GameError::Unauthorized)
    } else if template.min_attack > template.max_attack || template.min_health
        > template.max_health {
        Some(GameError::InvalidStatRange)
    } else if is_blank(template.name@) || is_blank(template.description@) {
        Some(GameError::EmptyString)
    } else if byte_len(template.name@) > MAX_NAME_LEN || byte_len(template.description@)
        > MAX_DESCRIPTION_LEN || byte_len(template.image_uri@) > MAX_IMAGE_URI_LEN {
        Some(GameError::StringTooLong)
    } else {
        None
    }
}

/// Creates the template of a card type.
///
/// Refused with `DuplicateCardTypeId` where the card type has a template,
/// with `Unauthorized` for a caller who is neither the authority nor an
/// authorized creator, with `InvalidStatRange` for a range whose low end is
/// above its high end, with `EmptyString` for a name or description of white
/// space only, and with `StringTooLong` for a text over its bound, in this
/// order.
pub fn create_card_template(
    ctx: &mut CreateCardTemplate,
    card_type_id: u32,
    name: String,
    trait_type: TraitType,
    rarity: Rarity,
    min_attack: u16,
    max_attack: u16,
    min_health: u16,
    max_health: u16,
    description: String,
    image_uri: String,
) -> (r: Result<(), GameError>)
    ensures
        ({
            let template = CardTemplate {
                card_type_id,
                name,
                trait_type,
                rarity,
                min_attack,
                max_attack,
                min_health,
                max_health,
                description,
                image_uri,
                bump: old(ctx).card_template_bump,
            };
            match create_card_template_rejection(*old(ctx), template) {
                Some(e) => r == Err::<(), GameError>(e) && *final(ctx) == *old(ctx),
                None => r == Ok::<(), GameError>(()) && *final(ctx) == (CreateCardTemplate {
                    card_template: Some(template),
                    ..*old(ctx)
                }) && template.wf(),
            }
        }),
{
    if ctx.card_template.is_some() {
        return Err(GameError::DuplicateCardTypeId);
    }
    if !is_authorized_creator(&ctx.game_config, &ctx.creator) {
        return Err(GameError::Unauthorized);
    }
    if min_attack > max_attack || min_health > max_health {
        return Err(GameError::InvalidStatRange);
    }
    if validate_non_empty_string(name.as_str()).is_err() || validate_non_empty_string(
        description.as_str(),
    ).is_err() {
        return Err(GameError::EmptyString);
    }
    if validate_string_length(name.as_str(), MAX_NAME_LEN).is_err() || validate_string_length(
        description.as_str(),
        MAX_DESCRIPTION_LEN,
    ).is_err() || validate_string_length(image_uri.as_str(), MAX_IMAGE_URI_LEN).is_err() {
        return Err(GameError::StringTooLong);
    }
    ctx.card_template = Some(
        CardTemplate {
            card_type_id,
            name,
            trait_type,
            rarity,
            min_attack,
            max_attack,
            min_health,
            max_health,
            description,
            image_uri,
            bump: ctx.card_template_bump,
        },
    );
    Ok(())
}

} // verus!
