use pokemon_engine::calculator::RewardCalculator;
use pokemon_engine::config::Config;
use pokemon_engine::models::GameType;

fn calc() -> RewardCalculator {
    RewardCalculator::new(Config::default())
}

#[test]
fn flypoke_tier_boundaries() {
    let c = calc();
    assert_eq!(c.calculate_flypoke_reward(0, false), 10_000_000_000);
    assert_eq!(c.calculate_flypoke_reward(500, false), 10_000_000_000);
    assert_eq!(c.calculate_flypoke_reward(501, false), 25_000_000_000);
    assert_eq!(c.calculate_flypoke_reward(1000, false), 25_000_000_000);
    assert_eq!(c.calculate_flypoke_reward(1001, false), 50_000_000_000);
    assert_eq!(c.calculate_flypoke_reward(1999, false), 50_000_000_000);
    assert_eq!(c.calculate_flypoke_reward(2000, false), 100_000_000_000);
}

#[test]
fn flypoke_mid_tier_score() {
    // score 1500 without a new high score lands in the [1001, 2000) tier
    let c = calc();
    assert_eq!(c.calculate_flypoke_reward(1500, false), 50_000_000_000);
}

#[test]
fn flypoke_top_tier_with_high_score_bonus() {
    // score 2500 with a new high score: top tier plus the fixed bonus
    let c = calc();
    assert_eq!(
        c.calculate_flypoke_reward(2500, true),
        100_000_000_000 + 20_000_000_000
    );
}

#[test]
fn battle_level_and_low_streak_bonus() {
    // level 3, streak 2: base + 3 x per-level bonus + low streak bonus
    let c = calc();
    assert_eq!(
        c.calculate_battle_reward(3, 2),
        50_000_000_000 + 3 * 20_000_000_000 + 10_000_000_000
    );
}

#[test]
fn battle_streak_tiers_not_additive() {
    let c = calc();
    // streak >= 3 takes the high bonus, not high + low
    assert_eq!(
        c.calculate_battle_reward(0, 3),
        50_000_000_000 + 20_000_000_000
    );
    assert_eq!(
        c.calculate_battle_reward(0, 7),
        50_000_000_000 + 20_000_000_000
    );
    // streak below 2 gets nothing
    assert_eq!(c.calculate_battle_reward(0, 1), 50_000_000_000);
    assert_eq!(c.calculate_battle_reward(0, 0), 50_000_000_000);
}

#[test]
fn pokematch_perfect_bonus() {
    let c = calc();
    assert_eq!(c.calculate_pokematch_reward(false), 20_000_000_000);
    assert_eq!(
        c.calculate_pokematch_reward(true),
        20_000_000_000 + 100_000_000_000
    );
}

#[test]
fn pokedex_rare_bonus() {
    let c = calc();
    assert_eq!(c.calculate_pokedex_reward(false), 10_000_000_000);
    assert_eq!(
        c.calculate_pokedex_reward(true),
        10_000_000_000 + 100_000_000_000
    );
}

#[test]
fn login_reward_highest_threshold_wins() {
    let c = calc();
    // below every threshold: flat daily reward
    assert_eq!(c.calculate_login_reward(1), 20_000_000_000);
    assert_eq!(c.calculate_login_reward(2), 20_000_000_000);
    // at the 3-day threshold
    assert_eq!(c.calculate_login_reward(3), 30_000_000_000);
    assert_eq!(c.calculate_login_reward(6), 30_000_000_000);
    // exactly 7 must take the 7-day bonus, not the 3-day one
    assert_eq!(c.calculate_login_reward(7), 50_000_000_000);
    assert_eq!(c.calculate_login_reward(30), 50_000_000_000);
}

#[test]
fn welcome_reward_is_fixed() {
    let c = calc();
    assert_eq!(c.get_welcome_reward(), 100_000_000_000);
}

#[test]
fn daily_limits_per_game() {
    let c = calc();
    assert_eq!(c.get_daily_limit(GameType::FlyPoke), Some(500_000_000_000));
    assert_eq!(c.get_daily_limit(GameType::Battle), Some(300_000_000_000));
    assert_eq!(c.get_daily_limit(GameType::PokeMatch), Some(200_000_000_000));
    assert_eq!(c.get_daily_limit(GameType::Pokedex), None);
    assert_eq!(c.get_daily_limit(GameType::Login), None);
    assert_eq!(c.get_daily_limit(GameType::Welcome), None);
}

#[test]
fn default_config_values() {
    let c = Config::default();
    assert_eq!(c.token_decimals, 9);
    assert_eq!(c.rewards.flypoke.daily_limit, 500_000_000_000);
    assert_eq!(c.rewards.battle.daily_limit, 300_000_000_000);
    assert_eq!(c.rewards.battle.base_reward, 50_000_000_000);
    assert_eq!(c.rewards.welcome.reward, 100_000_000_000);
    assert_eq!(c.rewards.login.daily_reward, 20_000_000_000);
    assert_eq!(
        c.rewards.login.streak_rewards,
        vec![(7, 50_000_000_000), (3, 30_000_000_000)]
    );
    assert_eq!(c.solana.rpc_url, "https://api.mainnet-beta.solana.com");
    assert_eq!(c.solana.commitment, "confirmed");
    assert!(c.solana.token_mint.is_none());
    assert!(c.solana.reward_vault.is_none());
}
