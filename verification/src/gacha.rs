//! Drawing cards: the roll that names a card type, the draw that spends a
//! ticket for a card, and the purchase of a pack.
//!
//! The roll and the draw are separate operations, and nothing binds them: the
//! draw takes whatever template the caller hands in.

use vstd::prelude::*;
use crate::clock::Clock;
use crate::config::GameConfig;
use crate::draw::{generate_random_u64, random_value, roll_card_stats, rolled_attack, rolled_health};
use crate::error::GameError;
use crate::identity::Pubkey;
use crate::market::CardInstance;
use crate::player::PlayerProfile;
use crate::pool::{picked_index, select_random_card, RarityPool};
use crate::rarity::{roll_rarity, rolled_rarity, Rarity};
use crate::template::CardTemplate;

verus! {

/// What the salt of a card's stat roll is ahead of the salt of its draw.
pub const STATS_SALT_OFFSET: u64 = 1000;

/// The card type that `random_value` draws from the three pools: the value
/// rolls a tier, and then picks an entry of that tier's pool.
pub open spec fn drawn_card(
    common: RarityPool,
    rare: RarityPool,
    legendary: RarityPool,
    random_value: u64,
) -> Result<(Rarity, u32), GameError> {
    let rarity = rolled_rarity(random_value);
    let ids = match rarity {
        Rarity::Common => common.card_type_ids@,
        Rarity::Rare => rare.card_type_ids@,
        Rarity::Legendary => legendary.card_type_ids@,
    };
    if ids.len() == 0 {
        Err(GameError::EmptyRarityPool)
    } else {
        Ok((rarity, ids[picked_index(random_value, ids.len())]))
    }
}

/// A drawn card type comes from the pool of the tier that was rolled.
pub proof fn lemma_drawn_card_is_pooled(
    common: RarityPool,
    rare: RarityPool,
    legendary: RarityPool,
    random_value: u64,
)
    ensures
        match drawn_card(common, rare, legendary, random_value) {
            Ok((rarity, card_type_id)) => rarity == rolled_rarity(random_value) && (match rarity {
                Rarity::Common => common.card_type_ids@,
                Rarity::Rare => rare.card_type_ids@,
                Rarity::Legendary => legendary.card_type_ids@,
            }).contains(card_type_id),
            Err(e) => e == GameError::EmptyRarityPool,
        },
{
}

/// Draws a card type from the three pools with one random value.
///
/// Refused with `EmptyRarityPool` where the pool of the rolled tier holds
/// nothing.
pub fn draw_card(
    common: &RarityPool,
    rare: &RarityPool,
    legendary: &RarityPool,
    random_value: u64,
) -> (r: Result<(Rarity, u32), GameError>)
    ensures
        r == drawn_card(*common, *rare, *legendary, random_value),
{
    let rarity = roll_rarity(random_value);
    let pool = match rarity {
        Rarity::Common => common,
        Rarity::Rare => rare,
        Rarity::Legendary => legendary,
    };
    match select_random_card(pool, random_value) {
        Ok(card_type_id) => Ok((rarity, card_type_id)),
        Err(e) => Err(e),
    }
}

/// The records that a roll reads.
#[derive(Clone, Debug, PartialEq, Eq)]
pub struct RollGacha {
    pub rarity_pool_common: RarityPool,
    pub rarity_pool_rare: RarityPool,
    pub rarity_pool_legendary: RarityPool,
    /// The caller.
    pub player: Pubkey,
}

/// Tells the caller which card type the present moment would draw. Nothing
/// is changed.
///
/// The random value is derived from the clock and the caller, salted with
/// the slot. Refused with `EmptyRarityPool` where the pool of the rolled tier
/// holds nothing.
pub fn roll_gacha(ctx: &RollGacha, clock: &Clock) -> (r: Result<u32, GameError>)
    ensures
        r == match drawn_card(
            ctx.rarity_pool_common,
            ctx.rarity_pool_rare,
            ctx.rarity_pool_legendary,
            random_value(*clock, ctx.player, clock.slot) as u64,
        ) {
            Ok((_, card_type_id)) => Ok::<u32, GameError>(card_type_id),
            Err(e) => Err::<u32, GameError>(e),
        },
{
    let value: u64 = generate_random_u64(clock, &ctx.player, clock.slot);
    match draw_card(
        &ctx.rarity_pool_common,
        &ctx.rarity_pool_rare,
        &ctx.rarity_pool_legendary,
        value,
    ) {
        Ok((_, card_type_id)) => Ok(card_type_id),
        Err(e) => Err(e),
    }
}

/// The records that a draw works on.
#[derive(Clone, Debug, PartialEq, Eq)]
pub struct GachaDraw {
    pub player_profile: PlayerProfile,
    /// The template of the card type to draw, as the caller chose it.
    pub card_template: CardTemplate,
    /// The token that will stand for the card.
    pub card_mint: Pubkey,
    /// The card stored under the token, if there is one.
    pub card_instance: Option<CardInstance>,
    /// The caller.
    pub player: Pubkey,
    /// Address seed of the card to be created.
    pub card_instance_bump: u8,
}

/// Why a draw is refused, or `None` where it goes through.
pub open spec fn gacha_draw_rejection(ctx: GachaDraw) -> Option<GameError> {
    if ctx.player_profile.wallet != ctx.player {
        Some(GameError::Unauthorized)
    } else if ctx.card_instance is Some {
        Some(GameError::RecordAlreadyExists)
    } else if ctx.player_profile.gacha_tickets < 1 {
        Some(GameError::InsufficientTickets)
    } else {
        None
    }
}

/// The card that a draw with `random_value` creates.
pub open spec fn drawn_instance(ctx: GachaDraw, random_value: u64) -> CardInstance {
    CardInstance {
        mint: ctx.card_mint,
        card_type_id: ctx.card_template.card_type_id,
        attack: rolled_attack(
            ctx.card_template.min_attack,
            ctx.card_template.max_attack,
            random_value,
        ) as u16,
        health: rolled_health(
            ctx.card_template.min_health,
            ctx.card_template.max_health,
            random_value,
        ) as u16,
        owner: ctx.player,
        bump: ctx.card_instance_bump,
    }
}

/// The records after a draw with `random_value` that went through.
pub open spec fn gacha_draw_effect(ctx: GachaDraw, random_value: u64) -> GachaDraw {
    GachaDraw {
        player_profile: PlayerProfile {
            gacha_tickets: (ctx.player_profile.gacha_tickets - 1) as u64,
            ..ctx.player_profile
        },
        card_instance: Some(drawn_instance(ctx, random_value)),
        ..ctx
    }
}

/// Spends one ticket and creates a card of the template's type, with stats
/// rolled from `random_value`. The card is returned as well; its token is
/// still to be minted to its owner.
///
/// Refused with `Unauthorized` unless the profile is the caller's, with
/// `RecordAlreadyExists` where the token stands for a card already, and with
/// `InsufficientTickets` where the caller has no ticket, in this order. The
/// stats lie in the template's ranges where these are not inverted.
pub fn draw_with_value(ctx: &mut GachaDraw, random_value: u64) -> (r: Result<
    CardInstance,
    GameError,
>)
    ensures
        match gacha_draw_rejection(*old(ctx)) {
            Some(e) => r == Err::<CardInstance, GameError>(e) && *final(ctx) == *old(ctx),
            None => {
                &&& r == Ok::<CardInstance, GameError>(drawn_instance(*old(ctx), random_value))
                &&& *final(ctx) == gacha_draw_effect(*old(ctx), random_value)
                &&& final(ctx).player_profile.gacha_tickets == old(ctx).player_profile.gacha_tickets
                    - 1
                &&& old(ctx).card_template.wf() ==> {
                    &&& old(ctx).card_template.min_attack <= r->Ok_0.attack
                        <= old(ctx).card_template.max_attack
                    &&& old(ctx).card_template.min_health <= r->Ok_0.health
                        <= old(ctx).card_template.max_health
                }
            },
        },
{
    if ctx.player_profile.wallet != ctx.player {
        return Err(GameError::Unauthorized);
    }
    if ctx.card_instance.is_some() {
        return Err(GameError::RecordAlreadyExists);
    }
    if ctx.player_profile.gacha_tickets < 1 {
        return Err(GameError::InsufficientTickets);
    }
    let (attack, health) = roll_card_stats(
        ctx.card_template.min_attack,
        ctx.card_template.max_attack,
        ctx.card_template.min_health,
        ctx.card_template.max_health,
        random_value,
    );
    let card = CardInstance {
        mint: ctx.card_mint,
        card_type_id: ctx.card_template.card_type_id,
        attack,
        health,
        owner: ctx.player,
        bump: ctx.card_instance_bump,
    };
    ctx.player_profile.gacha_tickets = ctx.player_profile.gacha_tickets - 1;
    ctx.card_instance = Some(card);
    Ok(card)
}

/// Draws one card for one ticket. The random value is derived from the clock
/// and the caller, salted with the slot; the rest is `draw_with_value`.
pub fn gacha_draw(ctx: &mut GachaDraw, clock: &Clock) -> (r: Result<CardInstance, GameError>)
    ensures
        ({
            let value = random_value(*clock, old(ctx).player, clock.slot) as u64;
            match gacha_draw_rejection(*old(ctx)) {
                Some(e) => r == Err::<CardInstance, GameError>(e) && *final(ctx) == *old(ctx),
                None => {
                    &&& r == Ok::<CardInstance, GameError>(drawn_instance(*old(ctx), value))
                    &&& *final(ctx) == gacha_draw_effect(*old(ctx), value)
                    &&& final(ctx).player_profile.gacha_tickets
                        == old(ctx).player_profile.gacha_tickets - 1
                },
            }
        }),
{
    let value: u64 = generate_random_u64(clock, &ctx.player, clock.slot);
    draw_with_value(ctx, value)
}

/// The two random values behind one card of a pack.
#[derive(Clone, Copy, Debug, PartialEq, Eq, Structural)]
pub struct PackRoll {
    /// The value that rolls the tier and picks the card type.
    pub draw_value: u64,
    /// The value that the card's stats are to be rolled from.
    pub stats_seed: u64,
}

/// One card of an opened pack: what was drawn, and the value its stats are to
/// be rolled from. Opening a pack creates no card records.
#[derive(Clone, Copy, Debug, PartialEq, Eq, Structural)]
pub struct PackCard {
    pub rarity: Rarity,
    pub card_type_id: u32,
    pub stats_seed: u64,
}

/// The records that a pack purchase works on.
#[derive(Clone, Debug, PartialEq, Eq)]
pub struct PurchasePack {
    pub player_profile: PlayerProfile,
    pub game_config: GameConfig,
    pub rarity_pool_common: RarityPool,
    pub rarity_pool_rare: RarityPool,
    pub rarity_pool_legendary: RarityPool,
    /// The caller.
    pub player: Pubkey,
}

/// The random values behind card number `index` of a pack: the draw is
/// salted with the index, the stats with the index plus a thousand.
pub open spec fn pack_roll(clock: Clock, player: Pubkey, index: int) -> PackRoll {
    PackRoll {
        draw_value: random_value(clock, player, index as u64) as u64,
        stats_seed: random_value(clock, player, (index + STATS_SALT_OFFSET) as u64) as u64,
    }
}

/// The random values behind the `count` cards of a pack.
pub open spec fn pack_rolls_of(clock: Clock, player: Pubkey, count: u8) -> Seq<PackRoll> {
    Seq::new(count as nat, |index: int| pack_roll(clock, player, index))
}

/// The card that the values `roll` yield from the pools.
pub open spec fn pack_card(ctx: PurchasePack, roll: PackRoll) -> Result<PackCard, GameError> {
    match drawn_card(
        ctx.rarity_pool_common,
        ctx.rarity_pool_rare,
        ctx.rarity_pool_legendary,
        roll.draw_value,
    ) {
        Ok((rarity, card_type_id)) => Ok(
            PackCard { rarity, card_type_id, stats_seed: roll.stats_seed },
        ),
        Err(e) => Err(e),
    }
}

/// Why a pack purchase with the values `rolls` is refused, or `None` where it
/// goes through.
pub open spec fn open_pack_rejection(ctx: PurchasePack, rolls: Seq<PackRoll>) -> Option<
    GameError,
> {
    if ctx.player_profile.wallet != ctx.player {
        Some(GameError::Unauthorized)
    } else if ctx.player_profile.bug_balance < ctx.game_config.normal_pack_price {
        Some(GameError::InsufficientBalance)
    } else if exists|i: int| 0 <= i < rolls.len() && #[trigger] pack_card(ctx, rolls[i]) is Err {
        Some(GameError::EmptyRarityPool)
    } else {
        None
    }
}

/// The records after a pack purchase that went through.
pub open spec fn open_pack_effect(ctx: PurchasePack) -> PurchasePack {
    PurchasePack {
        player_profile: PlayerProfile {
            bug_balance: (ctx.player_profile.bug_balance - ctx.game_config.normal_pack_price) as u64,
            ..ctx.player_profile
        },
        ..ctx
    }
}

/// The random values behind the `count` cards of a pack bought by `player`
/// at the moment `clock`.
pub fn pack_rolls(clock: &Clock, player: &Pubkey, count: u8) -> (rolls: Vec<PackRoll>)
    ensures
        rolls@ == pack_rolls_of(*clock, *player, count),
{
    let mut rolls: Vec<PackRoll> = Vec::new();
    let mut i: u8 = 0;
    while i < count
        invariant
            i <= count,
            rolls@.len() == i,
            forall|j: int| 0 <= j < i ==> rolls@[j] == pack_roll(*clock, *player, j),
        decreases count - i,
    {
        let draw_value: u64 = generate_random_u64(clock, player, i as u64);
        let stats_seed: u64 = generate_random_u64(clock, player, i as u64 + STATS_SALT_OFFSET);
        rolls.push(PackRoll { draw_value, stats_seed });
        i += 1;
    }
    rolls
}

/// Pays the pack price and draws one card for each pair of values in
/// `rolls`, in order.
///
/// Refused with `Unauthorized` unless the profile is the caller's, with
/// `InsufficientBalance` where the caller has less than the pack price, and
/// with `EmptyRarityPool` where a draw rolls a tier whose pool holds nothing,
/// in this order. A purchase that goes through takes exactly the price.
pub fn open_pack(ctx: &mut PurchasePack, rolls: &Vec<PackRoll>) -> (r: Result<
    Vec<PackCard>,
    GameError,
>)
    ensures
        match open_pack_rejection(*old(ctx), rolls@) {
            Some(e) => r == Err::<Vec<PackCard>, GameError>(e) && *final(ctx) == *old(ctx),
            None => {
                &&& r is Ok
                &&& r->Ok_0@.len() == rolls@.len()
                &&& forall|i: int|
                    0 <= i < rolls@.len() ==> Ok::<PackCard, GameError>(#[trigger] r->Ok_0@[i])
                        == pack_card(*old(ctx), rolls@[i])
                &&& *final(ctx) == open_pack_effect(*old(ctx))
                &&& final(ctx).player_profile.bug_balance == old(ctx).player_profile.bug_balance
                    - old(ctx).game_config.normal_pack_price
            },
        },
{
    if ctx.player_profile.wallet != ctx.player {
        return Err(GameError::Unauthorized);
    }
    let price: u64 = ctx.game_config.normal_pack_price;
    if ctx.player_profile.bug_balance < price {
        return Err(GameError::InsufficientBalance);
    }
    let mut cards: Vec<PackCard> = Vec::new();
    let mut i: usize = 0;
    while i < rolls.len()
        invariant
            i <= rolls@.len(),
            cards@.len() == i,
            *ctx == *old(ctx),
            ctx.player_profile.wallet == ctx.player,
            price == ctx.game_config.normal_pack_price,
            ctx.player_profile.bug_balance >= price,
            forall|j: int|
                0 <= j < i ==> Ok::<PackCard, GameError>(#[trigger] cards@[j]) == pack_card(
                    *ctx,
                    rolls@[j],
                ),
        decreases rolls@.len() - i,
    {
        let roll: PackRoll = rolls[i];
        match draw_card(
            &ctx.rarity_pool_common,
            &ctx.rarity_pool_rare,
            &ctx.rarity_pool_legendary,
            roll.draw_value,
        ) {
            Ok((rarity, card_type_id)) => {
                cards.push(PackCard { rarity, card_type_id, stats_seed: roll.stats_seed });
            },
            Err(e) => {
                assert(pack_card(*ctx, rolls@[i as int]) is Err);
                return Err(e);
            },
        }
        i += 1;
    }
    assert forall|k: int| 0 <= k < rolls@.len() implies !(#[trigger] pack_card(
        *ctx,
        rolls@[k],
    ) is Err) by {
        assert(Ok::<PackCard, GameError>(cards@[k]) == pack_card(*ctx, rolls@[k]));
    }
    ctx.player_profile.bug_balance = ctx.player_profile.bug_balance - price;
    Ok(cards)
}

/// Buys a pack: pays the pack price and draws as many cards as the
/// configuration says a pack holds. The random values are derived from the
/// clock and the caller as `pack_rolls` says; the rest is `open_pack`.
pub fn purchase_pack(ctx: &mut PurchasePack, clock: &Clock, _pack_type: u8) -> (r: Result<
    Vec<PackCard>,
    GameError,
>)
    ensures
        ({
            let rolls = pack_rolls_of(
                *clock,
                old(ctx).player,
                old(ctx).game_config.starter_pack_card_count,
            );
            match open_pack_rejection(*old(ctx), rolls) {
                Some(e) => r == Err::<Vec<PackCard>, GameError>(e) && *final(ctx) == *old(ctx),
                None => {
                    &&& r is Ok
                    &&& r->Ok_0@.len() == rolls.len()
                    &&& forall|i: int|
                        0 <= i < rolls.len() ==> Ok::<PackCard, GameError>(
                            #[trigger] r->Ok_0@[i],
                        ) == pack_card(*old(ctx), rolls[i])
                    &&& *final(ctx) == open_pack_effect(*old(ctx))
                    &&& final(ctx).player_profile.bug_balance
                        == old(ctx).player_profile.bug_balance
                        - old(ctx).game_config.normal_pack_price
                },
            }
        }),
{
    let rolls = pack_rolls(clock, &ctx.player, ctx.game_config.starter_pack_card_count);
    open_pack(ctx, &rolls)
}

} // verus!
