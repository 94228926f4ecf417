//! Rarity pools: for each tier, the card types that a draw of that tier can
//! yield.
//!
//! A pool only grows. It holds no card type twice, and card types stay in the
//! order in which they were added.

use vstd::prelude::*;
use crate::config::GameConfig;
use crate::error::GameError;
use crate::identity::Pubkey;
use crate::layout::{LENGTH_PREFIX_LEN, RECORD_HEADER_LEN};
use crate::rarity::Rarity;

verus! {

/// Most card types that a pool can hold.
pub const MAX_POOL_CARDS: usize = 100;

/// Bytes reserved for a stored pool.
pub const RARITY_POOL_LEN: usize = 8 + 1 + 4 + (4 * 100) + 1;

/// The card types of one rarity tier, keyed by the tier.
#[derive(Clone, Debug, PartialEq, Eq)]
pub struct RarityPool {
    pub rarity: Rarity,
    pub card_type_ids: Vec<u32>,
    /// Address seed of the record.
    pub bump: u8,
}

impl RarityPool {
    /// The pool holds no card type twice and is within its bound.
    pub open spec fn wf(&self) -> bool {
        &&& self.card_type_ids@.no_duplicates()
        &&& self.card_type_ids@.len() <= MAX_POOL_CARDS
    }

    /// Bytes that the stored pool takes.
    pub open spec fn stored_len(&self) -> nat {
        (RECORD_HEADER_LEN + 1 + LENGTH_PREFIX_LEN + 4 * self.card_type_ids@.len() + 1) as nat
    }

    /// A pool fits the room reserved for it exactly when it holds at most a
    /// hundred card types.
    pub proof fn lemma_fits(&self)
        ensures
            self.card_type_ids@.len() <= MAX_POOL_CARDS <==> self.stored_len() <= RARITY_POOL_LEN,
    {
    }
}

/// The pool `pool` after the card types `ids` were added one by one, each
/// going to the end unless the pool holds it already.
pub open spec fn merged_ids(pool: Seq<u32>, ids: Seq<u32>) -> Seq<u32>
    decreases ids.len(),
{
    if ids.len() == 0 {
        pool
    } else {
        let before = merged_ids(pool, ids.drop_last());
        if before.contains(ids.last()) {
            before
        } else {
            before.push(ids.last())
        }
    }
}

/// Adding card types keeps what the pool held, in place; the pool then holds
/// exactly what it held or was given; and no card type is added twice.
pub proof fn lemma_merged_ids(pool: Seq<u32>, ids: Seq<u32>)
    ensures
        pool.len() <= merged_ids(pool, ids).len() <= pool.len() + ids.len(),
        merged_ids(pool, ids).subrange(0, pool.len() as int) == pool,
        forall|id: u32|
            merged_ids(pool, ids).contains(id) <==> pool.contains(id) || ids.contains(id),
        pool.no_duplicates() ==> merged_ids(pool, ids).no_duplicates(),
    decreases ids.len(),
{
    if ids.len() > 0 {
        let merged = merged_ids(pool, ids);
        let before = merged_ids(pool, ids.drop_last());
        lemma_merged_ids(pool, ids.drop_last());
        assert forall|id: u32| merged.contains(id) <==> pool.contains(id) || ids.contains(
            id,
        ) by {
            if ids.drop_last().contains(id) {
                let k = choose|k: int| 0 <= k < ids.drop_last().len() && ids.drop_last()[k] == id;
                assert(ids[k] == id);
            }
            if ids.contains(id) && id != ids.last() {
                let k = choose|k: int| 0 <= k < ids.len() && ids[k] == id;
                assert(ids.drop_last()[k] == id);
            }
            if before.contains(id) {
                let m = choose|m: int| 0 <= m < before.len() && before[m] == id;
                assert(merged[m] == id);
            }
            if merged.contains(id) && !before.contains(id) {
                let m = choose|m: int| 0 <= m < merged.len() && merged[m] == id;
                assert(m == before.len());
            }
            if id == ids.last() {
                assert(ids[ids.len() - 1] == id);
                if !before.contains(id) {
                    assert(merged[before.len() as int] == id);
                }
            }
        }
    }
}

/// Adding card types that the pool holds already changes nothing; so adding
/// the same card types a second time changes nothing.
pub proof fn lemma_merged_ids_again(pool: Seq<u32>, ids: Seq<u32>)
    ensures
        (forall|i: int| 0 <= i < ids.len() ==> pool.contains(#[trigger] ids[i])) ==> merged_ids(
            pool,
            ids,
        ) == pool,
        merged_ids(merged_ids(pool, ids), ids) == merged_ids(pool, ids),
{
    if forall|i: int| 0 <= i < ids.len() ==> pool.contains(#[trigger] ids[i]) {
        lemma_all_held(pool, ids);
    }
    let merged = merged_ids(pool, ids);
    lemma_merged_ids(pool, ids);
    assert forall|i: int| 0 <= i < ids.len() implies merged.contains(#[trigger] ids[i]) by {
        assert(ids.contains(ids[i]));
    }
    lemma_all_held(merged, ids);
}

proof fn lemma_all_held(pool: Seq<u32>, ids: Seq<u32>)
    requires
        forall|i: int| 0 <= i < ids.len() ==> pool.contains(#[trigger] ids[i]),
    ensures
        merged_ids(pool, ids) == pool,
    decreases ids.len(),
{
    if ids.len() > 0 {
        lemma_all_held(pool, ids.drop_last());
    }
}

/// Whether `ids` holds `id`.
fn holds_id(ids: &Vec<u32>, id: u32) -> (r: bool)
    ensures
        r == ids@.contains(id),
{
    let mut i: usize = 0;
    while i < ids.len()
        invariant
            i <= ids@.len(),
            forall|j: int| 0 <= j < i ==> ids@[j] != id,
        decreases ids@.len() - i,
    {
        if ids[i] == id {
            return true;
        }
        i += 1;
    }
    false
}

/// The records that adding card types to a pool works on.
#[derive(Clone, Debug, PartialEq, Eq)]
pub struct UpdateRarityPool {
    /// The pool of the tier, if it has been written before.
    pub rarity_pool: Option<RarityPool>,
    pub game_config: GameConfig,
    /// The caller.
    pub authority: Pubkey,
    /// Address seed of the pool, used where the pool is first written.
    pub rarity_pool_bump: u8,
}

impl UpdateRarityPool {
    /// The card types that the pool holds; none where it was never written.
    pub open spec fn held_ids(self) -> Seq<u32> {
        match self.rarity_pool {
            Some(pool) => pool.card_type_ids@,
            None => Seq::empty(),
        }
    }
}

/// Why adding card types is refused, or `None` where it goes through.
pub open spec fn update_rarity_pool_rejection(
    ctx: UpdateRarityPool,
    rarity_discriminant: u8,
    card_type_ids: Seq<u32>,
) -> Option<GameError> {
    if ctx.authority != ctx.game_config.authority {
        Some(GameError::Unauthorized)
    } else if rarity_discriminant > 2 {
        Some(GameError::InvalidRarity)
    } else if merged_ids(ctx.held_ids(), card_type_ids).len() > MAX_POOL_CARDS {
        Some(GameError::RecordCapacityExceeded)
    } else {
        None
    }
}

/// Adds card types to the pool of a tier, each unless the pool holds it
/// already. A pool that holds nothing yet takes the tier named by
/// `rarity_discriminant`; a pool that holds card types keeps its tier.
///
/// Refused with `Unauthorized` for a caller who is not the authority, with
/// `InvalidRarity` for a tag that names no tier, and with
/// `RecordCapacityExceeded` where the pool would hold more than a hundred
/// card types, in this order.
pub fn update_rarity_pool(
    ctx: &mut UpdateRarityPool,
    rarity_discriminant: u8,
    card_type_ids: Vec<u32>,
) -> (r: Result<(), GameError>)
    ensures
        final(ctx).game_config == old(ctx).game_config,
        final(ctx).authority == old(ctx).authority,
        final(ctx).rarity_pool_bump == old(ctx).rarity_pool_bump,
        match update_rarity_pool_rejection(*old(ctx), rarity_discriminant, card_type_ids@) {
            Some(e) => r == Err::<(), GameError>(e) && *final(ctx) == *old(ctx),
            None => {
                &&& r == Ok::<(), GameError>(())
                &&& final(ctx).rarity_pool is Some
                &&& final(ctx).rarity_pool->0.card_type_ids@ == merged_ids(
                    old(ctx).held_ids(),
                    card_type_ids@,
                )
                &&& if old(ctx).held_ids().len() == 0 {
                    &&& final(ctx).rarity_pool->0.rarity.index() == rarity_discriminant
                    &&& final(ctx).rarity_pool->0.bump == old(ctx).rarity_pool_bump
                } else {
                    &&& final(ctx).rarity_pool->0.rarity == old(ctx).rarity_pool->0.rarity
                    &&& final(ctx).rarity_pool->0.bump == old(ctx).rarity_pool->0.bump
                }
            },
        },
        (old(ctx).rarity_pool matches Some(pool) ==> pool.wf()) && r is Ok ==> final(ctx).rarity_pool->0.wf(),
{
    if ctx.authority != ctx.game_config.authority {
        return Err(GameError::Unauthorized);
    }
    let mut rarity = match Rarity::from_discriminant(rarity_discriminant) {
        Some(rarity) => rarity,
        None => {
            return Err(GameError::InvalidRarity);
        },
    };
    let mut bump: u8 = ctx.rarity_pool_bump;
    let mut merged: Vec<u32> = Vec::new();
    match &ctx.rarity_pool {
        Some(pool) => {
            if pool.card_type_ids.len() > 0 {
                rarity = pool.rarity;
                bump = pool.bump;
            }
            let mut k: usize = 0;
            while k < pool.card_type_ids.len()
                invariant
                    k <= pool.card_type_ids@.len(),
                    merged@ == pool.card_type_ids@.subrange(0, k as int),
                decreases pool.card_type_ids@.len() - k,
            {
                merged.push(pool.card_type_ids[k]);
                k += 1;
            }
        },
        None => {},
    }
    let ghost held = ctx.held_ids();
    let mut i: usize = 0;
    while i < card_type_ids.len()
        invariant
            i <= card_type_ids@.len(),
            merged@ == merged_ids(held, card_type_ids@.subrange(0, i as int)),
        decreases card_type_ids@.len() - i,
    {
        let id: u32 = card_type_ids[i];
        proof {
            let next = card_type_ids@.subrange(0, i + 1);
            assert(next.drop_last() =~= card_type_ids@.subrange(0, i as int));
        }
        if !holds_id(&merged, id) {
            merged.push(id);
        }
        i += 1;
    }
    assert(card_type_ids@.subrange(0, i as int) =~= card_type_ids@);
    if merged.len() > MAX_POOL_CARDS {
        return Err(GameError::RecordCapacityExceeded);
    }
    proof {
        lemma_merged_ids(held, card_type_ids@);
    }
    ctx.rarity_pool = Some(RarityPool { rarity, card_type_ids: merged, bump });
    Ok(())
}

/// The index that `random_value` picks among `len` entries.
pub open spec fn picked_index(random_value: u64, len: nat) -> int {
    random_value as int % len as int
}

/// Picks a card type from a pool: the entry at the position that is the
/// random value modulo the pool's size.
///
/// Refused with `EmptyRarityPool` where the pool holds nothing.
pub fn select_random_card(rarity_pool: &RarityPool, random_value: u64) -> (r: Result<
    u32,
    GameError,
>)
    ensures
        r == if rarity_pool.card_type_ids@.len() == 0 {
            Err::<u32, GameError>(GameError::EmptyRarityPool)
        } else {
            Ok::<u32, GameError>(
                rarity_pool.card_type_ids@[picked_index(
                    random_value,
                    rarity_pool.card_type_ids@.len(),
                )],
            )
        },
{
    let len: usize = rarity_pool.card_type_ids.len();
    if len == 0 {
        return Err(GameError::EmptyRarityPool);
    }
    let index: usize = (random_value % (len as u64)) as usize;
    Ok(rarity_pool.card_type_ids[index])
}

} // verus!
