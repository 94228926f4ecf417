//! The game's configuration: its authority, the creators it has authorized,
//! and its prices.

use vstd::prelude::*;
use crate::error::GameError;
use crate::identity::{Pubkey, PUBKEY_BYTES};
use crate::layout::{LENGTH_PREFIX_LEN, RECORD_HEADER_LEN};

verus! {

/// Most creators that the authority can authorize.
pub const MAX_CARD_CREATORS: usize = 10;

/// Cards in a pack, as every configuration starts out.
pub const DEFAULT_PACK_CARD_COUNT: u8 = 10;

/// Bytes reserved for a stored configuration.
pub const GAME_CONFIG_LEN: usize = 8 + 32 + 4 + (32 * 10) + 8 + 1 + 8 + 8 + 1;

/// The game's configuration. There is one, created once.
#[derive(Clone, Debug, PartialEq, Eq)]
pub struct GameConfig {
    /// The administrator. Fixed when the configuration is created.
    pub authority: Pubkey,
    /// Identities that may create card templates besides the authority.
    pub card_creators: Vec<Pubkey>,
    /// Price of a pack, in currency.
    pub normal_pack_price: u64,
    /// Cards in a pack.
    pub starter_pack_card_count: u8,
    /// Currency granted for one whole unit (10^9 base units) of payment.
    pub sol_to_bug_rate: u64,
    /// Price of one ticket, in currency.
    pub ticket_price: u64,
    /// Address seed of the record.
    pub bump: u8,
}

/// A configuration as a mathematical value.
pub struct GameConfigView {
    pub authority: Pubkey,
    pub card_creators: Seq<Pubkey>,
    pub normal_pack_price: u64,
    pub starter_pack_card_count: u8,
    pub sol_to_bug_rate: u64,
    pub ticket_price: u64,
    pub bump: u8,
}

impl View for GameConfig {
    type V = GameConfigView;

    open spec fn view(&self) -> GameConfigView {
        GameConfigView {
            authority: self.authority,
            card_creators: self.card_creators@,
            normal_pack_price: self.normal_pack_price,
            starter_pack_card_count: self.starter_pack_card_count,
            sol_to_bug_rate: self.sol_to_bug_rate,
            ticket_price: self.ticket_price,
            bump: self.bump,
        }
    }
}

impl GameConfig {
    /// The creator list is within its bound.
    pub open spec fn wf(&self) -> bool {
        self.card_creators@.len() <= MAX_CARD_CREATORS
    }

    /// Bytes that the stored configuration takes.
    pub open spec fn stored_len(&self) -> nat {
        (RECORD_HEADER_LEN + PUBKEY_BYTES + LENGTH_PREFIX_LEN + PUBKEY_BYTES
            * self.card_creators@.len() + 8 + 1 + 8 + 8 + 1) as nat
    }

    /// A configuration fits the room reserved for it exactly when its
    /// creator list is within its bound.
    pub proof fn lemma_fits(&self)
        ensures
            self.wf() <==> self.stored_len() <= GAME_CONFIG_LEN,
    {
    }

    /// Whether `signer` may create card templates under this configuration.
    pub open spec fn authorizes(&self, signer: Pubkey) -> bool {
        signer == self.authority || self.card_creators@.contains(signer)
    }
}

/// Whether `signer` may create card templates: the authority may, and so may
/// every authorized creator.
pub fn is_authorized_creator(game_config: &GameConfig, signer: &Pubkey) -> (r: bool)
    ensures
        r == game_config.authorizes(*signer),
{
    if *signer == game_config.authority {
        return true;
    }
    let mut i: usize = 0;
    while i < game_config.card_creators.len()
        invariant
            i <= game_config.card_creators@.len(),
            forall|j: int| 0 <= j < i ==> game_config.card_creators@[j] != *signer,
        decreases game_config.card_creators@.len() - i,
    {
        if game_config.card_creators[i] == *signer {
            return true;
        }
        i += 1;
    }
    false
}

/// The records that creating the configuration works on.
#[derive(Clone, Debug, PartialEq, Eq)]
pub struct Initialize {
    /// The configuration, if it has been created.
    pub game_config: Option<GameConfig>,
    /// The caller, who becomes the authority.
    pub authority: Pubkey,
    /// Address seed of the configuration to be created.
    pub game_config_bump: u8,
}

/// The configuration that `initialize` creates.
pub open spec fn initial_config(
    authority: Pubkey,
    normal_pack_price: u64,
    sol_to_bug_rate: u64,
    ticket_price: u64,
    bump: u8,
) -> GameConfigView {
    GameConfigView {
        authority,
        card_creators: Seq::empty(),
        normal_pack_price,
        starter_pack_card_count: DEFAULT_PACK_CARD_COUNT,
        sol_to_bug_rate,
        ticket_price,
        bump,
    }
}

/// Creates the configuration with the caller as its authority, no creators
/// and the given prices.
///
/// Refused with `RecordAlreadyExists` where a configuration exists.
pub fn initialize(
    ctx: &mut Initialize,
    normal_pack_price: u64,
    sol_to_bug_rate: u64,
    ticket_price: u64,
) -> (r: Result<(), GameError>)
    ensures
        final(ctx).authority == old(ctx).authority,
        final(ctx).game_config_bump == old(ctx).game_config_bump,
        old(ctx).game_config is Some ==> r == Err::<(), GameError>(GameError::RecordAlreadyExists)
            && *final(ctx) == *old(ctx),
        old(ctx).game_config is None ==> r == Ok::<(), GameError>(()) && final(ctx).game_config
            is Some && final(ctx).game_config->0@ == initial_config(
            old(ctx).authority,
            normal_pack_price,
            sol_to_bug_rate,
            ticket_price,
            old(ctx).game_config_bump,
        ) && final(ctx).game_config->0.wf(),
{
    if ctx.game_config.is_some() {
        return Err(GameError::RecordAlreadyExists);
    }
    ctx.game_config = Some(
        GameConfig {
            authority: ctx.authority,
            card_creators: Vec::new(),
            normal_pack_price,
            starter_pack_card_count: DEFAULT_PACK_CARD_COUNT,
            sol_to_bug_rate,
            ticket_price,
            bump: ctx.game_config_bump,
        },
    );
    Ok(())
}

/// The records that authorizing a creator works on.
#[derive(Clone, Debug, PartialEq, Eq)]
pub struct AddCardCreator {
    pub game_config: GameConfig,
    /// The caller.
    pub authority: Pubkey,
}

/// Why authorizing a creator is refused, or `None` where it goes through.
pub open spec fn add_card_creator_rejection(ctx: AddCardCreator) -> Option<GameError> {
    if ctx.authority != ctx.game_config.authority {
        Some(GameError::Unauthorized)
    } else if ctx.game_config.card_creators@.len() >= MAX_CARD_CREATORS {
        Some(GameError::CardCreatorsListFull)
    } else {
        None
    }
}

/// Adds `new_creator` at the end of the list of authorized creators.
///
/// Refused with `Unauthorized` for a caller who is not the authority, and
/// with `CardCreatorsListFull` where the list holds ten creators already.
pub fn add_card_creator(ctx: &mut AddCardCreator, new_creator: Pubkey) -> (r: Result<
    (),
    GameError,
>)
    ensures
        final(ctx).authority == old(ctx).authority,
        match add_card_creator_rejection(*old(ctx)) {
            Some(e) => r == Err::<(), GameError>(e) && *final(ctx) == *old(ctx),
            None => r == Ok::<(), GameError>(()) && final(ctx).game_config@ == (GameConfigView {
                card_creators: old(ctx).game_config.card_creators@.push(new_creator),
                ..old(ctx).game_config@
            }),
        },
        old(ctx).game_config.wf() ==> final(ctx).game_config.wf(),
{
    if ctx.authority != ctx.game_config.authority {
        return Err(GameError::Unauthorized);
    }
    if ctx.game_config.card_creators.len() >= MAX_CARD_CREATORS {
        return Err(GameError::CardCreatorsListFull);
    }
    ctx.game_config.card_creators.push(new_creator);
    Ok(())
}

} // verus!
