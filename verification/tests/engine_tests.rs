use pokemon_engine::create_reward_engine;
use pokemon_engine::create_reward_engine_with_config;
use pokemon_engine::config::Config;
use pokemon_engine::models::{
    BattleEventData, EventPayload, FlyPokeEventData, GameData, GameEvent, GameType,
};
use pokemon_engine::PokemonEngineError;

const DAY: u64 = 86400;

fn flypoke_data(score: u32, high: bool) -> FlyPokeEventData {
    FlyPokeEventData { score, is_new_high_score: high, level: None }
}

#[test]
fn flypoke_success_records_reward_and_stats() {
    let mut engine = create_reward_engine().unwrap();
    let ts = 100 * DAY + 5;
    let resp = engine
        .process_flypoke_event("alice", &flypoke_data(1500, false), ts)
        .unwrap();
    assert!(resp.success);
    assert!(!resp.daily_limit_reached);
    assert_eq!(resp.message, "Reward processed successfully");
    let reward = resp.reward.expect("reward expected");
    assert_eq!(reward.player_id, "alice");
    assert_eq!(reward.game, GameType::FlyPoke);
    assert_eq!(reward.amount, 50_000_000_000);
    assert_eq!(reward.timestamp, ts);
    assert!(!reward.claimed);
    assert!(reward.transaction_signature.is_none());

    let stats = engine.get_daily_stats("alice", 100).unwrap().expect("stats expected");
    assert_eq!(stats.flypoke, 50_000_000_000);
    assert_eq!(stats.battle, 0);
    assert_eq!(stats.login, 0);
    assert_eq!(stats.total, 50_000_000_000);
}

#[test]
fn flypoke_daily_limit_enforced() {
    // each event is worth 120 POKE (in lamports); the limit is 500, so the
    // fifth same-day event must be rejected and the aggregate stays <= 500
    let mut engine = create_reward_engine().unwrap();
    let data = flypoke_data(2500, true);
    for i in 0..4 {
        let resp = engine
            .process_flypoke_event("bob", &data, 42 * DAY + i)
            .unwrap();
        assert!(resp.success, "event {} should pass", i);
    }
    let rejected = engine.process_flypoke_event("bob", &data, 42 * DAY + 10).unwrap();
    assert!(!rejected.success);
    assert!(rejected.daily_limit_reached);
    assert!(rejected.reward.is_none());
    assert_eq!(rejected.message, "Daily limit reached for FlyPoke");

    let stats = engine.get_daily_stats("bob", 42).unwrap().unwrap();
    assert_eq!(stats.flypoke, 480_000_000_000);
    assert!(stats.flypoke <= 500_000_000_000);
    assert_eq!(engine.get_rewards("bob").unwrap().len(), 4);

    // the next day starts a fresh aggregate
    let next_day = engine.process_flypoke_event("bob", &data, 43 * DAY).unwrap();
    assert!(next_day.success);
}

#[test]
fn battle_daily_limit_enforced() {
    // level 3, streak 2 is worth 120 POKE; the Battle limit is 300, so the
    // third same-day event must be rejected
    let mut engine = create_reward_engine().unwrap();
    let data = BattleEventData { level: 3, streak: 2, perfect_victory: None };
    for _ in 0..2 {
        let resp = engine.process_battle_event("bob", &data, 7 * DAY).unwrap();
        assert!(resp.success);
        assert_eq!(resp.reward.unwrap().amount, 120_000_000_000);
    }
    let rejected = engine.process_battle_event("bob", &data, 7 * DAY).unwrap();
    assert!(!rejected.success);
    assert!(rejected.daily_limit_reached);
    assert_eq!(rejected.message, "Daily limit reached for Battle");
    let stats = engine.get_daily_stats("bob", 7).unwrap().unwrap();
    assert_eq!(stats.battle, 240_000_000_000);
    assert_eq!(stats.total, 240_000_000_000);
}

#[test]
fn login_streak_consecutive_days() {
    let mut engine = create_reward_engine().unwrap();
    for day in 1..=3u64 {
        let resp = engine.process_login_event("carol", day * DAY + 60).unwrap();
        assert!(resp.success);
        let reward = resp.reward.unwrap();
        assert_eq!(reward.game, GameType::Login);
        match reward.game_data {
            GameData::Login { streak } => assert_eq!(streak as u64, day),
            ref other => panic!("unexpected game data {:?}", other),
        }
    }
    // day 3 reaches the 3-day streak bonus
    let rewards = engine.get_rewards("carol").unwrap();
    assert_eq!(rewards.len(), 3);
    assert_eq!(rewards[0].amount, 20_000_000_000);
    assert_eq!(rewards[1].amount, 20_000_000_000);
    assert_eq!(rewards[2].amount, 30_000_000_000);
}

#[test]
fn login_same_day_rejected_once() {
    let mut engine = create_reward_engine().unwrap();
    let first = engine.process_login_event("dave", 9 * DAY).unwrap();
    assert!(first.success);
    let second = engine.process_login_event("dave", 9 * DAY + 3600).unwrap();
    assert!(!second.success);
    assert!(second.reward.is_none());
    assert!(!second.daily_limit_reached);
    assert_eq!(second.message, "Already logged in today");
    assert_eq!(engine.get_rewards("dave").unwrap().len(), 1);
}

#[test]
fn login_gap_resets_streak() {
    let mut engine = create_reward_engine().unwrap();
    engine.process_login_event("erin", 10 * DAY).unwrap();
    engine.process_login_event("erin", 11 * DAY).unwrap();
    // skip day 12 entirely
    let resp = engine.process_login_event("erin", 13 * DAY).unwrap();
    assert!(resp.success);
    match resp.reward.unwrap().game_data {
        GameData::Login { streak } => assert_eq!(streak, 1),
        ref other => panic!("unexpected game data {:?}", other),
    }
}

#[test]
fn welcome_bonus_only_once() {
    let mut engine = create_reward_engine().unwrap();
    let first = engine.process_welcome_event("frank", 5 * DAY).unwrap();
    assert!(first.success);
    assert_eq!(first.message, "Welcome bonus processed successfully");
    let reward = first.reward.unwrap();
    assert_eq!(reward.amount, 100_000_000_000);
    assert_eq!(reward.game, GameType::Welcome);

    let second = engine.process_welcome_event("frank", 6 * DAY).unwrap();
    assert!(!second.success);
    assert!(second.reward.is_none());
    assert_eq!(second.message, "Welcome bonus already claimed");
    assert_eq!(engine.get_rewards("frank").unwrap().len(), 1);

    // the welcome bonus never touches the daily aggregate
    assert!(engine.get_daily_stats("frank", 5).unwrap().is_none());
}

#[test]
fn aggregate_total_equals_sum_of_fields() {
    let mut engine = create_reward_engine().unwrap();
    let ts = 20 * DAY;
    engine.process_flypoke_event("gina", &flypoke_data(600, false), ts).unwrap();
    engine
        .process_battle_event(
            "gina",
            &BattleEventData { level: 1, streak: 0, perfect_victory: None },
            ts,
        )
        .unwrap();
    engine.process_login_event("gina", ts).unwrap();
    let stats = engine.get_daily_stats("gina", 20).unwrap().unwrap();
    assert_eq!(stats.flypoke, 25_000_000_000);
    assert_eq!(stats.battle, 70_000_000_000);
    assert_eq!(stats.login, 20_000_000_000);
    assert_eq!(stats.total, stats.flypoke + stats.battle + stats.login);
}

#[test]
fn read_queries_have_no_side_effects() {
    let mut engine = create_reward_engine().unwrap();
    let ts = 30 * DAY;
    engine.process_flypoke_event("hana", &flypoke_data(100, false), ts).unwrap();

    let first = engine.get_rewards("hana").unwrap();
    let second = engine.get_rewards("hana").unwrap();
    assert_eq!(first.len(), second.len());
    assert_eq!(first[0].id, second[0].id);
    assert_eq!(first[0].amount, second[0].amount);

    let s1 = engine.get_daily_stats("hana", 30).unwrap().unwrap();
    let s2 = engine.get_daily_stats("hana", 30).unwrap().unwrap();
    assert_eq!(s1.total, s2.total);
    // reads did not create records or change the aggregate
    assert_eq!(engine.get_rewards("hana").unwrap().len(), 1);
    assert_eq!(engine.get_daily_stats("hana", 30).unwrap().unwrap().total, s1.total);
}

#[test]
fn claim_all_claims_everything_and_is_idempotent() {
    let mut engine = create_reward_engine().unwrap();
    let ts = 50 * DAY;
    // two rewards, claimed early
    engine.process_flypoke_event("ivy", &flypoke_data(100, false), ts).unwrap();
    engine.process_login_event("ivy", ts).unwrap();
    engine.claim_rewards("ivy").unwrap();
    assert_eq!(engine.get_pending_rewards("ivy").unwrap().len(), 0);
    // three more, still unclaimed
    engine.process_flypoke_event("ivy", &flypoke_data(100, false), ts + 1).unwrap();
    engine.process_battle_event(
        "ivy",
        &BattleEventData { level: 0, streak: 0, perfect_victory: None },
        ts + 2,
    )
    .unwrap();
    engine.process_welcome_event("ivy", ts + 3).unwrap();
    assert_eq!(engine.get_pending_rewards("ivy").unwrap().len(), 3);
    assert_eq!(engine.get_rewards("ivy").unwrap().len(), 5);

    engine.claim_rewards("ivy").unwrap();
    let all = engine.get_rewards("ivy").unwrap();
    assert_eq!(all.len(), 5);
    assert!(all.iter().all(|r| r.claimed));
    assert_eq!(engine.get_pending_rewards("ivy").unwrap().len(), 0);

    // claiming again is a no-op
    engine.claim_rewards("ivy").unwrap();
    let again = engine.get_rewards("ivy").unwrap();
    assert_eq!(again.len(), 5);
    assert!(again.iter().all(|r| r.claimed));
}

#[test]
fn claim_all_only_touches_that_player() {
    let mut engine = create_reward_engine().unwrap();
    let ts = 60 * DAY;
    engine.process_flypoke_event("jack", &flypoke_data(100, false), ts).unwrap();
    engine.process_flypoke_event("kate", &flypoke_data(100, false), ts).unwrap();
    engine.claim_rewards("jack").unwrap();
    assert_eq!(engine.get_pending_rewards("jack").unwrap().len(), 0);
    assert_eq!(engine.get_pending_rewards("kate").unwrap().len(), 1);
}

#[test]
fn dispatch_routes_by_game_kind() {
    let mut engine = create_reward_engine().unwrap();
    let event = GameEvent {
        player_id: "lena".to_string(),
        game: GameType::FlyPoke,
        event_data: EventPayload::FlyPoke(flypoke_data(1500, false)),
    };
    let resp = engine.process_game_event(&event, 70 * DAY).unwrap();
    assert!(resp.success);
    assert_eq!(resp.reward.unwrap().amount, 50_000_000_000);

    let login_event = GameEvent {
        player_id: "lena".to_string(),
        game: GameType::Login,
        event_data: EventPayload::Empty,
    };
    let resp = engine.process_game_event(&login_event, 70 * DAY).unwrap();
    assert!(resp.success);
    assert_eq!(resp.reward.unwrap().game, GameType::Login);
}

#[test]
fn dispatch_rejects_mismatched_payload() {
    let mut engine = create_reward_engine().unwrap();
    let event = GameEvent {
        player_id: "mia".to_string(),
        game: GameType::FlyPoke,
        event_data: EventPayload::Battle(BattleEventData {
            level: 1,
            streak: 0,
            perfect_victory: None,
        }),
    };
    match engine.process_game_event(&event, 80 * DAY) {
        Err(PokemonEngineError::Serialization(m)) => assert_eq!(m, "Invalid event data"),
        other => panic!("expected serialization error, got {:?}", other),
    }
    assert_eq!(engine.get_rewards("mia").unwrap().len(), 0);
}

#[test]
fn dispatch_rejects_unwired_game_kinds() {
    let mut engine = create_reward_engine().unwrap();
    let event = GameEvent {
        player_id: "nick".to_string(),
        game: GameType::PokeMatch,
        event_data: EventPayload::Empty,
    };
    match engine.process_game_event(&event, 90 * DAY) {
        Err(PokemonEngineError::InvalidGameType(m)) => assert_eq!(m, "pokematch"),
        other => panic!("expected invalid game type, got {:?}", other),
    }
    let event = GameEvent {
        player_id: "nick".to_string(),
        game: GameType::Pokedex,
        event_data: EventPayload::Empty,
    };
    match engine.process_game_event(&event, 90 * DAY) {
        Err(PokemonEngineError::InvalidGameType(m)) => assert_eq!(m, "pokedex"),
        other => panic!("expected invalid game type, got {:?}", other),
    }
}

#[test]
fn custom_config_must_be_well_formed() {
    let mut config = Config::default();
    // an ascending streak table breaks the highest-first lookup order
    config.rewards.login.streak_rewards = vec![(3, 30_000_000_000), (7, 50_000_000_000)];
    match create_reward_engine_with_config(config) {
        Err(PokemonEngineError::Config(m)) => assert_eq!(m, "invalid reward configuration"),
        Err(other) => panic!("unexpected error {:?}", other),
        Ok(_) => panic!("expected configuration error"),
    }

    let ok = create_reward_engine_with_config(Config::default());
    assert!(ok.is_ok());
}
