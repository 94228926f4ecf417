//! The match engine: what a win and a loss do to two players' ledgers.

use vstd::prelude::*;
use crate::config::GameConfig;
use crate::error::GameError;
use crate::identity::Pubkey;
use crate::player::{PlayerProfile, BASE_TROPHY_GAIN, TROPHY_LOSS, WIN_REWARD};

verus! {

/// The records that recording a match works on.
#[derive(Clone, Debug, PartialEq, Eq)]
pub struct RecordMatchResult {
    pub winner_profile: PlayerProfile,
    pub loser_profile: PlayerProfile,
    pub game_config: GameConfig,
    /// The caller.
    pub authority: Pubkey,
}

/// The trophies that a win is worth to a player on a streak of `win_streak`
/// wins before it: the base gain plus the length of the streak with this win.
pub open spec fn trophy_gain(win_streak: u32) -> int {
    BASE_TROPHY_GAIN + (win_streak + 1)
}

/// The trophies that a player with `trophies` is left with after a loss:
/// thirty fewer, but never fewer than none.
pub open spec fn trophies_after_loss(trophies: u32) -> int {
    if trophies >= TROPHY_LOSS {
        trophies - TROPHY_LOSS
    } else {
        0
    }
}

/// Why recording a match is refused, or `None` where it goes through.
pub open spec fn record_match_result_rejection(ctx: RecordMatchResult) -> Option<GameError> {
    let winner = ctx.winner_profile;
    if ctx.authority != ctx.game_config.authority {
        Some(GameError::Unauthorized)
    } else if winner.win_streak + 1 > u32::MAX || trophy_gain(winner.win_streak) > u32::MAX
        || winner.trophies + trophy_gain(winner.win_streak) > u32::MAX || winner.total_wins + 1
        > u32::MAX || ctx.loser_profile.total_losses + 1 > u32::MAX || winner.bug_balance
        + WIN_REWARD > u64::MAX {
        Some(GameError::NumericalOverflow)
    } else {
        None
    }
}

/// The records after a match that was recorded.
pub open spec fn record_match_result_effect(ctx: RecordMatchResult) -> RecordMatchResult {
    let winner = ctx.winner_profile;
    let loser = ctx.loser_profile;
    RecordMatchResult {
        winner_profile: PlayerProfile {
            win_streak: (winner.win_streak + 1) as u32,
            trophies: (winner.trophies + trophy_gain(winner.win_streak)) as u32,
            total_wins: (winner.total_wins + 1) as u32,
            bug_balance: (winner.bug_balance + WIN_REWARD) as u64,
            ..winner
        },
        loser_profile: PlayerProfile {
            trophies: trophies_after_loss(loser.trophies) as u32,
            win_streak: 0,
            total_losses: (loser.total_losses + 1) as u32,
            ..loser
        },
        ..ctx
    }
}

/// Records the result of a match. The winner's streak grows by one, the
/// winner gains thirty trophies plus the new streak and a reward of a hundred
/// in currency; the loser loses thirty trophies as far as there are any, and
/// the loser's streak ends. Wins and losses are counted.
///
/// Refused with `Unauthorized` for a caller who is not the authority, and
/// with `NumericalOverflow` where any of the winner's or loser's counters
/// cannot hold its new value; nothing is changed then.
pub fn record_match_result(ctx: &mut RecordMatchResult) -> (r: Result<(), GameError>)
    ensures
        match record_match_result_rejection(*old(ctx)) {
            Some(e) => r == Err::<(), GameError>(e) && *final(ctx) == *old(ctx),
            None => r == Ok::<(), GameError>(()) && *final(ctx) == record_match_result_effect(
                *old(ctx),
            ),
        },
{
    if ctx.authority != ctx.game_config.authority {
        return Err(GameError::Unauthorized);
    }
    let win_streak: u32 = match ctx.winner_profile.win_streak.checked_add(1) {
        Some(streak) => streak,
        None => {
            return Err(GameError::NumericalOverflow);
        },
    };
    let gain: u32 = match BASE_TROPHY_GAIN.checked_add(win_streak) {
        Some(gain) => gain,
        None => {
            return Err(GameError::NumericalOverflow);
        },
    };
    let winner_trophies: u32 = match ctx.winner_profile.trophies.checked_add(gain) {
        Some(trophies) => trophies,
        None => {
            return Err(GameError::NumericalOverflow);
        },
    };
    let total_wins: u32 = match ctx.winner_profile.total_wins.checked_add(1) {
        Some(wins) => wins,
        None => {
            return Err(GameError::NumericalOverflow);
        },
    };
    let total_losses: u32 = match ctx.loser_profile.total_losses.checked_add(1) {
        Some(losses) => losses,
        None => {
            return Err(GameError::NumericalOverflow);
        },
    };
    let winner_balance: u64 = match ctx.winner_profile.bug_balance.checked_add(WIN_REWARD) {
        Some(balance) => balance,
        None => {
            return Err(GameError::NumericalOverflow);
        },
    };
    ctx.winner_profile.win_streak = win_streak;
    ctx.winner_profile.trophies = winner_trophies;
    ctx.winner_profile.total_wins = total_wins;
    ctx.winner_profile.bug_balance = winner_balance;
    ctx.loser_profile.trophies = ctx.loser_profile.trophies.saturating_sub(TROPHY_LOSS);
    ctx.loser_profile.win_streak = 0;
    ctx.loser_profile.total_losses = total_losses;
    Ok(())
}

/// Consecutive wins are worth more and more: each further win of a streak
/// gains exactly one trophy more than the win before it, and the first win
/// after a loss gains thirty-one.
pub proof fn lemma_streak_gains(ctx: RecordMatchResult)
    requires
        record_match_result_rejection(ctx) is None,
    ensures
        ({
            let after = record_match_result_effect(ctx);
            &&& after.winner_profile.trophies - ctx.winner_profile.trophies == 30
                + after.winner_profile.win_streak
            &&& trophy_gain(after.winner_profile.win_streak) == trophy_gain(
                ctx.winner_profile.win_streak,
            ) + 1
            &&& trophy_gain(after.loser_profile.win_streak) == 31
            &&& ctx.winner_profile.win_streak == 0 ==> after.winner_profile.trophies
                == ctx.winner_profile.trophies + 31 && after.winner_profile.win_streak == 1
            &&& ctx.loser_profile.trophies < 30 ==> after.loser_profile.trophies == 0
            &&& after.loser_profile.trophies <= ctx.loser_profile.trophies
        }),
{
}

} // verus!
