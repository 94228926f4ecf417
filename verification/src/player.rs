//! The player ledger: currency, tickets, trophies and win streaks.

use vstd::prelude::*;
use crate::config::GameConfig;
use crate::error::GameError;
use crate::identity::{Pubkey, PUBKEY_BYTES};
use crate::layout::{LENGTH_PREFIX_LEN, RECORD_HEADER_LEN};
use crate::text::{byte_len, is_blank, validate_non_empty_string, validate_string_length};

verus! {

/// Bytes reserved for a stored profile.
pub const PLAYER_PROFILE_LEN: usize = 8 + 32 + 4 + 32 + 1 + 8 + 8 + 4 + 4 + 4 + 4 + 1;

/// Longest username, in bytes.
pub const MAX_USERNAME_LEN: usize = 32;

/// Tickets granted by the one-time starter claim.
pub const FREE_STARTER_TICKETS: u64 = 10;

/// Trophies a win is worth before the streak bonus.
pub const BASE_TROPHY_GAIN: u32 = 30;

/// Trophies a loss costs, as far as the loser has them.
pub const TROPHY_LOSS: u32 = 30;

/// Currency credited to the winner of a match.
pub const WIN_REWARD: u64 = 100;

/// One player's ledger, keyed by the owner's identity.
#[derive(Clone, Debug, PartialEq, Eq)]
pub struct PlayerProfile {
    pub wallet: Pubkey,
    pub username: String,
    pub has_claimed_starter_pack: bool,
    pub gacha_tickets: u64,
    pub bug_balance: u64,
    pub trophies: u32,
    pub total_wins: u32,
    pub total_losses: u32,
    pub win_streak: u32,
    pub bump: u8,
}

impl PlayerProfile {
    /// The username says something and is within its bound.
    pub open spec fn wf(&self) -> bool {
        &&& !is_blank(self.username@)
        &&& byte_len(self.username@) <= MAX_USERNAME_LEN
    }

    /// Bytes that the stored profile takes.
    pub open spec fn stored_len(&self) -> nat {
        (RECORD_HEADER_LEN + PUBKEY_BYTES + LENGTH_PREFIX_LEN + byte_len(self.username@) + 1 + 8
            + 8 + 4 + 4 + 4 + 4 + 1) as nat
    }

    /// A profile fits the room reserved for it exactly when its username is
    /// within its bound.
    pub proof fn lemma_fits(&self)
        ensures
            byte_len(self.username@) <= MAX_USERNAME_LEN <==> self.stored_len()
                <= PLAYER_PROFILE_LEN,
    {
    }
}

/// The profile that registration creates: every counter at zero.
pub open spec fn new_profile(wallet: Pubkey, username: String, bump: u8) -> PlayerProfile {
    PlayerProfile {
        wallet,
        username,
        has_claimed_starter_pack: false,
        gacha_tickets: 0,
        bug_balance: 0,
        trophies: 0,
        total_wins: 0,
        total_losses: 0,
        win_streak: 0,
        bump,
    }
}

/// The records that registration works on.
#[derive(Clone, Debug, PartialEq, Eq)]
pub struct RegisterPlayer {
    /// The profile stored under the caller, if there is one.
    pub player_profile: Option<PlayerProfile>,
    /// The caller.
    pub player: Pubkey,
    /// Address seed of the profile to be created.
    pub player_profile_bump: u8,
}

/// Why registration is refused, or `None` where it goes through.
pub open spec fn register_player_rejection(ctx: RegisterPlayer, username: Seq<char>) -> Option<
    GameError,
> {
    if ctx.player_profile is Some {
        Some(GameError::RecordAlreadyExists)
    } else if is_blank(username) {
        Some(GameError::EmptyString)
    } else if byte_len(username) > MAX_USERNAME_LEN {
        Some(GameError::StringTooLong)
    } else {
        None
    }
}

/// The records after a registration that went through.
pub open spec fn register_player_effect(ctx: RegisterPlayer, username: String) -> RegisterPlayer {
    RegisterPlayer {
        player_profile: Some(new_profile(ctx.player, username, ctx.player_profile_bump)),
        ..ctx
    }
}

/// Creates the caller's profile, with every counter at zero.
///
/// Refused with `RecordAlreadyExists` where the caller has a profile, with
/// `EmptyString` for a username of white space only, and with
/// `StringTooLong` for a username of more than 32 bytes, in this order.
pub fn register_player(ctx: &mut RegisterPlayer, username: String) -> (r: Result<(), GameError>)
    ensures
        match register_player_rejection(*old(ctx), username@) {
            Some(e) => r == Err::<(), GameError>(e) && *final(ctx) == *old(ctx),
            None => r == Ok::<(), GameError>(()) && *final(ctx) == register_player_effect(
                *old(ctx),
                username,
            ) && final(ctx).player_profile->0.wf(),
        },
{
    if ctx.player_profile.is_some() {
        return Err(GameError::RecordAlreadyExists);
    }
    match validate_non_empty_string(username.as_str()) {
        Ok(()) => {},
        Err(e) => {
            return Err(e);
        },
    }
    match validate_string_length(username.as_str(), MAX_USERNAME_LEN) {
        Ok(()) => {},
        Err(e) => {
            return Err(e);
        },
    }
    ctx.player_profile = Some(
        PlayerProfile {
            wallet: ctx.player,
            username,
            has_claimed_starter_pack: false,
            gacha_tickets: 0,
            bug_balance: 0,
            trophies: 0,
            total_wins: 0,
            total_losses: 0,
            win_streak: 0,
            bump: ctx.player_profile_bump,
        },
    );
    Ok(())
}

/// Registration happens once: a caller who registers again, on the records
/// that the first registration left, is refused with a failure of the state
/// family, and the records stay as they were.
pub proof fn lemma_register_twice(ctx: RegisterPlayer, first: String, second: String)
    requires
        register_player_rejection(ctx, first@) is None,
    ensures
        register_player_rejection(register_player_effect(ctx, first), second@) == Some(
            GameError::RecordAlreadyExists,
        ),
        GameError::RecordAlreadyExists.kind_of() == crate::error::ErrorKind::State,
{
}

/// The records that the starter claim works on.
#[derive(Clone, Debug, PartialEq, Eq)]
pub struct ClaimStarterTickets {
    pub player_profile: PlayerProfile,
    /// The caller.
    pub player: Pubkey,
}

/// Why the starter claim is refused, or `None` where it goes through.
pub open spec fn claim_starter_tickets_rejection(ctx: ClaimStarterTickets) -> Option<GameError> {
    if ctx.player_profile.wallet != ctx.player {
        Some(GameError::Unauthorized)
    } else if ctx.player_profile.has_claimed_starter_pack {
        Some(GameError::StarterPackAlreadyClaimed)
    } else if ctx.player_profile.gacha_tickets + FREE_STARTER_TICKETS > u64::MAX {
        Some(GameError::NumericalOverflow)
    } else {
        None
    }
}

/// The records after a starter claim that went through.
pub open spec fn claim_starter_tickets_effect(ctx: ClaimStarterTickets) -> ClaimStarterTickets {
    ClaimStarterTickets {
        player_profile: PlayerProfile {
            gacha_tickets: (ctx.player_profile.gacha_tickets + FREE_STARTER_TICKETS) as u64,
            has_claimed_starter_pack: true,
            ..ctx.player_profile
        },
        ..ctx
    }
}

/// Claims the starter tickets: the caller is granted ten tickets, and the
/// claim is marked as made.
///
/// Refused with `Unauthorized` unless the profile is the caller's, with
/// `StarterPackAlreadyClaimed` where the claim was made before, and with
/// `NumericalOverflow` where the ticket balance cannot hold the sum, in this
/// order.
pub fn claim_starter_tickets(ctx: &mut ClaimStarterTickets) -> (r: Result<(), GameError>)
    ensures
        match claim_starter_tickets_rejection(*old(ctx)) {
            Some(e) => r == Err::<(), GameError>(e) && *final(ctx) == *old(ctx),
            None => r == Ok::<(), GameError>(()) && *final(ctx) == claim_starter_tickets_effect(
                *old(ctx),
            ),
        },
{
    if ctx.player_profile.wallet != ctx.player {
        return Err(GameError::Unauthorized);
    }
    if ctx.player_profile.has_claimed_starter_pack {
        return Err(GameError::StarterPackAlreadyClaimed);
    }
    match ctx.player_profile.gacha_tickets.checked_add(FREE_STARTER_TICKETS) {
        Some(tickets) => {
            ctx.player_profile.gacha_tickets = tickets;
            ctx.player_profile.has_claimed_starter_pack = true;
            Ok(())
        },
        None => Err(GameError::NumericalOverflow),
    }
}

/// The starter claim is made once: claiming again, on the records that the
/// first claim left, is refused.
pub proof fn lemma_claim_twice(ctx: ClaimStarterTickets)
    requires
        claim_starter_tickets_rejection(ctx) is None,
    ensures
        claim_starter_tickets_rejection(claim_starter_tickets_effect(ctx)) == Some(
            GameError::StarterPackAlreadyClaimed,
        ),
{
}

/// The records that a ticket gift by the authority works on.
#[derive(Clone, Debug, PartialEq, Eq)]
pub struct AddGachaTickets {
    pub player_profile: PlayerProfile,
    pub game_config: GameConfig,
    /// The caller.
    pub authority: Pubkey,
}

/// Why a ticket gift is refused, or `None` where it goes through.
pub open spec fn add_gacha_tickets_rejection(ctx: AddGachaTickets, amount: u64) -> Option<
    GameError,
> {
    if ctx.authority != ctx.game_config.authority {
        Some(GameError::Unauthorized)
    } else if ctx.player_profile.gacha_tickets + amount > u64::MAX {
        Some(GameError::NumericalOverflow)
    } else {
        None
    }
}

/// The records after a ticket gift that went through.
pub open spec fn add_gacha_tickets_effect(ctx: AddGachaTickets, amount: u64) -> AddGachaTickets {
    AddGachaTickets {
        player_profile: PlayerProfile {
            gacha_tickets: (ctx.player_profile.gacha_tickets + amount) as u64,
            ..ctx.player_profile
        },
        ..ctx
    }
}

/// Gives a player `amount` tickets.
///
/// Refused with `Unauthorized` for a caller who is not the authority, and
/// with `NumericalOverflow` where the ticket balance cannot hold the sum.
pub fn add_gacha_tickets(ctx: &mut AddGachaTickets, amount: u64) -> (r: Result<(), GameError>)
    ensures
        match add_gacha_tickets_rejection(*old(ctx), amount) {
            Some(e) => r == Err::<(), GameError>(e) && *final(ctx) == *old(ctx),
            None => r == Ok::<(), GameError>(()) && *final(ctx) == add_gacha_tickets_effect(
                *old(ctx),
                amount,
            ),
        },
{
    if ctx.authority != ctx.game_config.authority {
        return Err(GameError::Unauthorized);
    }
    match ctx.player_profile.gacha_tickets.checked_add(amount) {
        Some(tickets) => {
            ctx.player_profile.gacha_tickets = tickets;
            Ok(())
        },
        None => Err(GameError::NumericalOverflow),
    }
}

} // verus!
