use zoo_contract::config::GameConfig;
use zoo_contract::error::{ErrorKind, GameError};
use zoo_contract::exchange::{buy_bug_tokens, buy_gacha_tickets, BuyBugTokens, BuyGachaTickets, Payment};
use zoo_contract::identity::Pubkey;
use zoo_contract::player::{
    add_gacha_tickets, claim_starter_tickets, register_player, AddGachaTickets,
    ClaimStarterTickets, PlayerProfile, RegisterPlayer,
};

fn key(byte: u8) -> Pubkey {
    Pubkey::new_from_array([byte; 32])
}

fn config() -> GameConfig {
    GameConfig {
        authority: key(100),
        card_creators: Vec::new(),
        normal_pack_price: 500,
        starter_pack_card_count: 10,
        sol_to_bug_rate: 1000,
        ticket_price: 50,
        bump: 255,
    }
}

fn registered(byte: u8, name: &str) -> PlayerProfile {
    let mut ctx = RegisterPlayer { player_profile: None, player: key(byte), player_profile_bump: 250 };
    assert_eq!(register_player(&mut ctx, String::from(name)), Ok(()));
    ctx.player_profile.unwrap()
}

#[test]
fn test_player_registration() {
    let profile = registered(1, "alice");
    assert_eq!(
        profile,
        PlayerProfile {
            wallet: key(1),
            username: String::from("alice"),
            has_claimed_starter_pack: false,
            gacha_tickets: 0,
            bug_balance: 0,
            trophies: 0,
            total_wins: 0,
            total_losses: 0,
            win_streak: 0,
            bump: 250,
        }
    );
    for blank in ["", "   ", "\t\n"] {
        let mut ctx = RegisterPlayer { player_profile: None, player: key(1), player_profile_bump: 250 };
        assert_eq!(register_player(&mut ctx, String::from(blank)), Err(GameError::EmptyString));
        assert_eq!(ctx.player_profile, None);
    }
}

#[test]
fn registering_twice_is_refused() {
    let mut ctx = RegisterPlayer { player_profile: None, player: key(1), player_profile_bump: 250 };
    assert_eq!(register_player(&mut ctx, String::from("alice")), Ok(()));
    let after = ctx.clone();
    let second = register_player(&mut ctx, String::from("alice"));
    assert_eq!(second, Err(GameError::RecordAlreadyExists));
    assert_eq!(second.unwrap_err().kind(), ErrorKind::State);
    assert_eq!(ctx, after);
    assert_eq!(register_player(&mut ctx, String::from("bob")), Err(GameError::RecordAlreadyExists));
    assert_eq!(ctx, after);
}

#[test]
fn username_bounds() {
    let longest = "n".repeat(32);
    assert_eq!(registered(1, &longest).username, longest);
    let mut ctx = RegisterPlayer { player_profile: None, player: key(1), player_profile_bump: 250 };
    assert_eq!(register_player(&mut ctx, "n".repeat(33)), Err(GameError::StringTooLong));
    assert_eq!(ctx.player_profile, None);
    assert_eq!(register_player(&mut ctx, " ".repeat(40)), Err(GameError::EmptyString));
}

#[test]
fn test_starter_pack_claim() {
    let mut ctx = ClaimStarterTickets { player_profile: registered(1, "alice"), player: key(1) };
    assert_eq!(claim_starter_tickets(&mut ctx), Ok(()));
    assert_eq!(ctx.player_profile.gacha_tickets, 10);
    assert!(ctx.player_profile.has_claimed_starter_pack);
    let after = ctx.clone();
    assert_eq!(claim_starter_tickets(&mut ctx), Err(GameError::StarterPackAlreadyClaimed));
    assert_eq!(ctx, after);
}

#[test]
fn starter_claim_for_another_is_refused() {
    let mut ctx = ClaimStarterTickets { player_profile: registered(1, "alice"), player: key(2) };
    let before = ctx.clone();
    assert_eq!(claim_starter_tickets(&mut ctx), Err(GameError::Unauthorized));
    assert_eq!(ctx, before);
}

#[test]
fn starter_claim_adds_to_the_ticket_balance() {
    let mut profile = registered(1, "alice");
    profile.gacha_tickets = 3;
    let mut ctx = ClaimStarterTickets { player_profile: profile, player: key(1) };
    assert_eq!(claim_starter_tickets(&mut ctx), Ok(()));
    assert_eq!(ctx.player_profile.gacha_tickets, 13);

    let mut profile = registered(1, "alice");
    profile.gacha_tickets = u64::MAX - 10;
    let mut ctx = ClaimStarterTickets { player_profile: profile, player: key(1) };
    assert_eq!(claim_starter_tickets(&mut ctx), Ok(()));
    assert_eq!(ctx.player_profile.gacha_tickets, u64::MAX);

    let mut profile = registered(1, "alice");
    profile.gacha_tickets = u64::MAX - 9;
    let mut ctx = ClaimStarterTickets { player_profile: profile, player: key(1) };
    let before = ctx.clone();
    assert_eq!(claim_starter_tickets(&mut ctx), Err(GameError::NumericalOverflow));
    assert_eq!(ctx, before);
}

#[test]
fn the_authority_gives_tickets() {
    let mut ctx = AddGachaTickets {
        player_profile: registered(1, "alice"),
        game_config: config(),
        authority: key(100),
    };
    assert_eq!(add_gacha_tickets(&mut ctx, 7), Ok(()));
    assert_eq!(add_gacha_tickets(&mut ctx, 0), Ok(()));
    assert_eq!(ctx.player_profile.gacha_tickets, 7);
    assert_eq!(add_gacha_tickets(&mut ctx, u64::MAX - 7), Ok(()));
    assert_eq!(ctx.player_profile.gacha_tickets, u64::MAX);
    let before = ctx.clone();
    assert_eq!(add_gacha_tickets(&mut ctx, 1), Err(GameError::NumericalOverflow));
    assert_eq!(ctx, before);
    ctx.authority = key(1);
    let before = ctx.clone();
    assert_eq!(add_gacha_tickets(&mut ctx, 0), Err(GameError::Unauthorized));
    assert_eq!(ctx, before);
}

fn buying(balance: u64, rate: u64) -> BuyBugTokens {
    let mut profile = registered(1, "alice");
    profile.bug_balance = balance;
    let mut game_config = config();
    game_config.sol_to_bug_rate = rate;
    BuyBugTokens { game_config, player_profile: profile, treasury: key(200), player: key(1) }
}

#[test]
fn currency_is_converted_at_the_rate_and_rounded_down() {
    for (amount, rate, bought) in [
        (1_000_000_000u64, 1000u64, 1000u64),
        (1_500_000_000, 1000, 1500),
        (1_999_999, 1000, 1),
        (1_000_000, 1000, 1),
        (2_999_999_999, 1, 2),
        (u64::MAX, 1_000_000_000, u64::MAX),
        (u64::MAX, 1, 18446744073),
        (3, u64::MAX, 55340232221),
    ] {
        let mut ctx = buying(0, rate);
        assert_eq!(
            buy_bug_tokens(&mut ctx, amount),
            Ok(Payment { from: key(1), to: key(200), amount })
        );
        assert_eq!(ctx.player_profile.bug_balance, bought, "{} at {}", amount, rate);
    }
}

#[test]
fn currency_purchases_that_are_refused() {
    let mut ctx = buying(5, 1000);
    let before = ctx.clone();
    assert_eq!(buy_bug_tokens(&mut ctx, 0), Err(GameError::InvalidAmount));
    assert_eq!(buy_bug_tokens(&mut ctx, 999_999), Err(GameError::InvalidAmount));
    assert_eq!(ctx, before);

    let mut ctx = buying(5, 0);
    assert_eq!(buy_bug_tokens(&mut ctx, 1_000_000_000), Err(GameError::InvalidAmount));

    let mut ctx = buying(0, 1_000_000_001);
    let before = ctx.clone();
    assert_eq!(buy_bug_tokens(&mut ctx, u64::MAX), Err(GameError::NumericalOverflow));
    assert_eq!(ctx, before);

    let mut ctx = buying(u64::MAX - 999, 1000);
    let before = ctx.clone();
    assert_eq!(buy_bug_tokens(&mut ctx, 1_000_000_000), Err(GameError::NumericalOverflow));
    assert_eq!(ctx, before);
    assert!(buy_bug_tokens(&mut ctx, 999_000_000).is_ok());
    assert_eq!(ctx.player_profile.bug_balance, u64::MAX);

    let mut ctx = buying(5, 1000);
    ctx.player = key(2);
    let before = ctx.clone();
    assert_eq!(buy_bug_tokens(&mut ctx, 1_000_000_000), Err(GameError::Unauthorized));
    assert_eq!(ctx, before);
}

fn ticket_desk(balance: u64, tickets: u64, price: u64) -> BuyGachaTickets {
    let mut profile = registered(1, "alice");
    profile.bug_balance = balance;
    profile.gacha_tickets = tickets;
    let mut game_config = config();
    game_config.ticket_price = price;
    BuyGachaTickets { game_config, player_profile: profile, player: key(1) }
}

#[test]
fn tickets_cost_price_times_count() {
    let mut ctx = ticket_desk(1000, 2, 50);
    assert_eq!(buy_gacha_tickets(&mut ctx, 3), Ok(()));
    assert_eq!(ctx.player_profile.bug_balance, 850);
    assert_eq!(ctx.player_profile.gacha_tickets, 5);
    assert_eq!(buy_gacha_tickets(&mut ctx, 17), Ok(()));
    assert_eq!(ctx.player_profile.bug_balance, 0);
    assert_eq!(ctx.player_profile.gacha_tickets, 22);

    let mut ctx = ticket_desk(0, 0, 0);
    assert_eq!(buy_gacha_tickets(&mut ctx, 9), Ok(()));
    assert_eq!(ctx.player_profile.gacha_tickets, 9);
}

#[test]
fn ticket_purchases_that_are_refused() {
    let mut ctx = ticket_desk(1000, 2, 50);
    let before = ctx.clone();
    assert_eq!(buy_gacha_tickets(&mut ctx, 0), Err(GameError::InvalidAmount));
    assert_eq!(buy_gacha_tickets(&mut ctx, 21), Err(GameError::InsufficientBalance));
    assert_eq!(buy_gacha_tickets(&mut ctx, u64::MAX), Err(GameError::NumericalOverflow));
    assert_eq!(buy_gacha_tickets(&mut ctx, u64::MAX / 50 + 1), Err(GameError::NumericalOverflow));
    assert_eq!(buy_gacha_tickets(&mut ctx, u64::MAX / 50), Err(GameError::InsufficientBalance));
    assert_eq!(ctx, before);

    let mut ctx = ticket_desk(1000, u64::MAX, 0);
    let before = ctx.clone();
    assert_eq!(buy_gacha_tickets(&mut ctx, 1), Err(GameError::NumericalOverflow));
    assert_eq!(ctx, before);

    let mut ctx = ticket_desk(1000, 2, 50);
    ctx.player = key(2);
    let before = ctx.clone();
    assert_eq!(buy_gacha_tickets(&mut ctx, 1), Err(GameError::Unauthorized));
    assert_eq!(ctx, before);
}

#[test]
fn test_player_onboarding_flow() {
    let profile = registered(1, "alice");
    let mut claim = ClaimStarterTickets { player_profile: profile, player: key(1) };
    assert_eq!(claim_starter_tickets(&mut claim), Ok(()));
    let mut buy = buying(0, 1000);
    buy.player_profile = claim.player_profile;
    assert!(buy_bug_tokens(&mut buy, 2_000_000_000).is_ok());
    let mut desk = BuyGachaTickets {
        game_config: config(),
        player_profile: buy.player_profile,
        player: key(1),
    };
    assert_eq!(buy_gacha_tickets(&mut desk, 4), Ok(()));
    assert_eq!(desk.player_profile.gacha_tickets, 14);
    assert_eq!(desk.player_profile.bug_balance, 1800);
    assert!(desk.player_profile.has_claimed_starter_pack);
}
