use zoo_contract::config::GameConfig;
use zoo_contract::error::GameError;
use zoo_contract::identity::Pubkey;
use zoo_contract::matches::{record_match_result, RecordMatchResult};
use zoo_contract::player::PlayerProfile;

fn key(byte: u8) -> Pubkey {
    Pubkey::new_from_array([byte; 32])
}

fn config() -> GameConfig {
    GameConfig {
        authority: key(100),
        card_creators: Vec::new(),
        normal_pack_price: 500,
        starter_pack_card_count: 10,
        sol_to_bug_rate: 1000,
        ticket_price: 50,
        bump: 255,
    }
}

fn profile(wallet: Pubkey) -> PlayerProfile {
    PlayerProfile {
        wallet,
        username: String::from("player"),
        has_claimed_starter_pack: false,
        gacha_tickets: 0,
        bug_balance: 0,
        trophies: 0,
        total_wins: 0,
        total_losses: 0,
        win_streak: 0,
        bump: 250,
    }
}

fn game(winner: PlayerProfile, loser: PlayerProfile) -> RecordMatchResult {
    RecordMatchResult {
        winner_profile: winner,
        loser_profile: loser,
        game_config: config(),
        authority: key(100),
    }
}

#[test]
fn test_match_result_recording() {
    let mut loser = profile(key(2));
    loser.trophies = 10;
    loser.win_streak = 4;
    let mut ctx = game(profile(key(1)), loser);
    assert_eq!(record_match_result(&mut ctx), Ok(()));
    assert_eq!(ctx.winner_profile.trophies, 31);
    assert_eq!(ctx.winner_profile.win_streak, 1);
    assert_eq!(ctx.winner_profile.total_wins, 1);
    assert_eq!(ctx.winner_profile.total_losses, 0);
    assert_eq!(ctx.winner_profile.bug_balance, 100);
    assert_eq!(ctx.loser_profile.trophies, 0);
    assert_eq!(ctx.loser_profile.win_streak, 0);
    assert_eq!(ctx.loser_profile.total_losses, 1);
    assert_eq!(ctx.loser_profile.total_wins, 0);
    assert_eq!(ctx.loser_profile.bug_balance, 0);
    assert_eq!(ctx.game_config, config());
}

#[test]
fn a_match_recorded_by_another_than_the_authority_is_refused() {
    let mut ctx = game(profile(key(1)), profile(key(2)));
    ctx.authority = key(1);
    let before = ctx.clone();
    assert_eq!(record_match_result(&mut ctx), Err(GameError::Unauthorized));
    assert_eq!(ctx, before);
}

#[test]
fn test_match_result_flow() {
    let mut ctx = game(profile(key(1)), profile(key(2)));
    let mut expected_trophies = 0u32;
    for n in 1..=5u32 {
        assert_eq!(record_match_result(&mut ctx), Ok(()));
        expected_trophies += 30 + n;
        assert_eq!(ctx.winner_profile.win_streak, n);
        assert_eq!(ctx.winner_profile.trophies, expected_trophies);
        assert_eq!(ctx.winner_profile.total_wins, n);
        assert_eq!(ctx.winner_profile.bug_balance, 100 * n as u64);
        assert_eq!(ctx.loser_profile.trophies, 0);
        assert_eq!(ctx.loser_profile.total_losses, n);
    }
    assert_eq!(ctx.winner_profile.trophies, 31 + 32 + 33 + 34 + 35);

    let mut rematch = game(ctx.loser_profile.clone(), ctx.winner_profile.clone());
    assert_eq!(record_match_result(&mut rematch), Ok(()));
    assert_eq!(rematch.winner_profile.trophies, 31);
    assert_eq!(rematch.winner_profile.win_streak, 1);
    assert_eq!(rematch.loser_profile.trophies, 165 - 30);
    assert_eq!(rematch.loser_profile.win_streak, 0);
    assert_eq!(rematch.loser_profile.total_wins, 5);
    assert_eq!(rematch.loser_profile.total_losses, 1);
}

#[test]
fn trophy_loss_stops_at_zero() {
    for (before, after) in [(0u32, 0u32), (1, 0), (29, 0), (30, 0), (31, 1), (1000, 970), (u32::MAX, u32::MAX - 30)] {
        let mut loser = profile(key(2));
        loser.trophies = before;
        let mut ctx = game(profile(key(1)), loser);
        assert_eq!(record_match_result(&mut ctx), Ok(()));
        assert_eq!(ctx.loser_profile.trophies, after);
    }
}

#[test]
fn a_counter_that_overflows_fails_the_match() {
    for case in 0..6 {
        let mut ctx = game(profile(key(1)), profile(key(2)));
        ctx.loser_profile.trophies = 50;
        ctx.loser_profile.win_streak = 3;
        match case {
            0 => ctx.winner_profile.win_streak = u32::MAX,
            1 => ctx.winner_profile.win_streak = u32::MAX - 30,
            2 => ctx.winner_profile.trophies = u32::MAX - 30,
            3 => ctx.winner_profile.total_wins = u32::MAX,
            4 => ctx.loser_profile.total_losses = u32::MAX,
            _ => ctx.winner_profile.bug_balance = u64::MAX - 99,
        }
        let before = ctx.clone();
        assert_eq!(record_match_result(&mut ctx), Err(GameError::NumericalOverflow));
        assert_eq!(ctx, before);
    }
}

#[test]
fn counters_may_reach_their_maximum() {
    let mut ctx = game(profile(key(1)), profile(key(2)));
    ctx.winner_profile.win_streak = 9;
    ctx.winner_profile.trophies = u32::MAX - 40;
    ctx.winner_profile.total_wins = u32::MAX - 1;
    ctx.loser_profile.total_losses = u32::MAX - 1;
    ctx.winner_profile.bug_balance = u64::MAX - 100;
    assert_eq!(record_match_result(&mut ctx), Ok(()));
    assert_eq!(ctx.winner_profile.trophies, u32::MAX);
    assert_eq!(ctx.winner_profile.win_streak, 10);
    assert_eq!(ctx.winner_profile.total_wins, u32::MAX);
    assert_eq!(ctx.loser_profile.total_losses, u32::MAX);
    assert_eq!(ctx.winner_profile.bug_balance, u64::MAX);
}
