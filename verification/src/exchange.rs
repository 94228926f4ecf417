//! The exchange: currency for payment, tickets for currency.
//!
//! Every balance update is checked: an update that would leave the
//! representable range fails the operation instead of wrapping.

use vstd::prelude::*;
use crate::config::GameConfig;
use crate::error::GameError;
use crate::identity::Pubkey;
use crate::player::PlayerProfile;

verus! {

/// Base units in one whole unit of payment.
pub const PAYMENT_SCALE: u64 = 1_000_000_000;

/// A payment that the host's transfer service is to carry out. Should the
/// service fail, the operation that asked for the payment fails with it.
#[derive(Clone, Copy, Debug, PartialEq, Eq)]
pub struct Payment {
    pub from: Pubkey,
    pub to: Pubkey,
    /// The amount, in base units.
    pub amount: u64,
}

/// The currency that `amount` base units of payment buy at `rate`: the rate
/// is per whole unit, and the result is rounded down.
pub open spec fn converted_amount(amount: u64, rate: u64) -> int {
    amount * rate / PAYMENT_SCALE as int
}

/// The records that a currency purchase works on.
#[derive(Clone, Debug, PartialEq, Eq)]
pub struct BuyBugTokens {
    pub game_config: GameConfig,
    pub player_profile: PlayerProfile,
    /// Who receives the payment.
    pub treasury: Pubkey,
    /// The caller.
    pub player: Pubkey,
}

/// Why a currency purchase is refused, or `None` where it goes through.
pub open spec fn buy_bug_tokens_rejection(ctx: BuyBugTokens, sol_amount: u64) -> Option<
    GameError,
> {
    let bought = converted_amount(sol_amount, ctx.game_config.sol_to_bug_rate);
    if ctx.player_profile.wallet != ctx.player {
        Some(GameError::Unauthorized)
    } else if sol_amount == 0 {
        Some(GameError::InvalidAmount)
    } else if bought > u64::MAX {
        Some(GameError::NumericalOverflow)
    } else if bought == 0 {
        Some(GameError::InvalidAmount)
    } else if ctx.player_profile.bug_balance + bought > u64::MAX {
        Some(GameError::NumericalOverflow)
    } else {
        None
    }
}

/// The records after a currency purchase that went through.
pub open spec fn buy_bug_tokens_effect(ctx: BuyBugTokens, sol_amount: u64) -> BuyBugTokens {
    BuyBugTokens {
        player_profile: PlayerProfile {
            bug_balance: (ctx.player_profile.bug_balance + converted_amount(
                sol_amount,
                ctx.game_config.sol_to_bug_rate,
            )) as u64,
            ..ctx.player_profile
        },
        ..ctx
    }
}

/// Buys currency for `sol_amount` base units of payment. The caller is
/// credited the converted amount, and the payment from the caller to the
/// treasury is returned for the transfer service to carry out.
///
/// Refused with `Unauthorized` unless the profile is the caller's, with
/// `InvalidAmount` for a payment of zero, with `NumericalOverflow` where the
/// converted amount cannot be represented, with `InvalidAmount` where it
/// rounds down to zero, and with `NumericalOverflow` where the balance cannot
/// hold the sum, in this order.
pub fn buy_bug_tokens(ctx: &mut BuyBugTokens, sol_amount: u64) -> (r: Result<Payment, GameError>)
    ensures
        match buy_bug_tokens_rejection(*old(ctx), sol_amount) {
            Some(e) => r == Err::<Payment, GameError>(e) && *final(ctx) == *old(ctx),
            None => r == Ok::<Payment, GameError>(
                Payment { from: old(ctx).player, to: old(ctx).treasury, amount: sol_amount },
            ) && *final(ctx) == buy_bug_tokens_effect(*old(ctx), sol_amount),
        },
{
    if ctx.player_profile.wallet != ctx.player {
        return Err(GameError::Unauthorized);
    }
    if sol_amount == 0 {
        return Err(GameError::InvalidAmount);
    }
    let rate: u64 = ctx.game_config.sol_to_bug_rate;
    assert(sol_amount * rate <= u64::MAX * u64::MAX) by (nonlinear_arith)
        requires
            sol_amount <= u64::MAX,
            rate <= u64::MAX,
    ;
    let product: u128 = (sol_amount as u128) * (rate as u128);
    let bought: u128 = product / (PAYMENT_SCALE as u128);
    if bought > u64::MAX as u128 {
        return Err(GameError::NumericalOverflow);
    }
    if bought == 0 {
        return Err(GameError::InvalidAmount);
    }
    match ctx.player_profile.bug_balance.checked_add(bought as u64) {
        Some(balance) => {
            ctx.player_profile.bug_balance = balance;
            Ok(Payment { from: ctx.player, to: ctx.treasury, amount: sol_amount })
        },
        None => Err(GameError::NumericalOverflow),
    }
}

/// The records that a ticket purchase works on.
#[derive(Clone, Debug, PartialEq, Eq)]
pub struct BuyGachaTickets {
    pub game_config: GameConfig,
    pub player_profile: PlayerProfile,
    /// The caller.
    pub player: Pubkey,
}

/// Why a ticket purchase is refused, or `None` where it goes through.
pub open spec fn buy_gacha_tickets_rejection(ctx: BuyGachaTickets, ticket_count: u64) -> Option<
    GameError,
> {
    let cost = ctx.game_config.ticket_price * ticket_count;
    if ctx.player_profile.wallet != ctx.player {
        Some(GameError::Unauthorized)
    } else if ticket_count == 0 {
        Some(GameError::InvalidAmount)
    } else if cost > u64::MAX {
        Some(GameError::NumericalOverflow)
    } else if ctx.player_profile.bug_balance < cost {
        Some(GameError::InsufficientBalance)
    } else if ctx.player_profile.gacha_tickets + ticket_count > u64::MAX {
        Some(GameError::NumericalOverflow)
    } else {
        None
    }
}

/// The records after a ticket purchase that went through.
pub open spec fn buy_gacha_tickets_effect(ctx: BuyGachaTickets, ticket_count: u64) -> BuyGachaTickets {
    BuyGachaTickets {
        player_profile: PlayerProfile {
            bug_balance: (ctx.player_profile.bug_balance - ctx.game_config.ticket_price
                * ticket_count) as u64,
            gacha_tickets: (ctx.player_profile.gacha_tickets + ticket_count) as u64,
            ..ctx.player_profile
        },
        ..ctx
    }
}

/// Buys `ticket_count` tickets at the configured price each: the cost leaves
/// the caller's currency balance and the tickets join the ticket balance.
///
/// Refused with `Unauthorized` unless the profile is the caller's, with
/// `InvalidAmount` for a count of zero, with `NumericalOverflow` where the
/// cost cannot be represented, with `InsufficientBalance` where the caller
/// has less than the cost, and with `NumericalOverflow` where the ticket
/// balance cannot hold the sum, in this order.
pub fn buy_gacha_tickets(ctx: &mut BuyGachaTickets, ticket_count: u64) -> (r: Result<
    (),
    GameError,
>)
    ensures
        match buy_gacha_tickets_rejection(*old(ctx), ticket_count) {
            Some(e) => r == Err::<(), GameError>(e) && *final(ctx) == *old(ctx),
            None => r == Ok::<(), GameError>(()) && *final(ctx) == buy_gacha_tickets_effect(
                *old(ctx),
                ticket_count,
            ),
        },
{
    if ctx.player_profile.wallet != ctx.player {
        return Err(GameError::Unauthorized);
    }
    if ticket_count == 0 {
        return Err(GameError::InvalidAmount);
    }
    let total_cost: u64 = match ctx.game_config.ticket_price.checked_mul(ticket_count) {
        Some(cost) => cost,
        None => {
            return Err(GameError::NumericalOverflow);
        },
    };
    if ctx.player_profile.bug_balance < total_cost {
        return Err(GameError::InsufficientBalance);
    }
    let tickets: u64 = match ctx.player_profile.gacha_tickets.checked_add(ticket_count) {
        Some(tickets) => tickets,
        None => {
            return Err(GameError::NumericalOverflow);
        },
    };
    ctx.player_profile.bug_balance = ctx.player_profile.bug_balance - total_cost;
    ctx.player_profile.gacha_tickets = tickets;
    Ok(())
}

} // verus!
