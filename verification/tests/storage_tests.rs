use pokemon_engine::models::{DailyStats, GameData, GameType, LoginStreak, Reward};
use pokemon_engine::storage::MemoryStorage;
use pokemon_engine::PokemonEngineError;

fn reward(id: u128, player: &str, game: GameType, amount: u64, claimed: bool) -> Reward {
    Reward {
        id,
        player_id: player.to_string(),
        game,
        amount,
        timestamp: 0,
        claimed,
        game_data: GameData::Welcome,
        transaction_signature: None,
    }
}

#[test]
fn rewards_filtered_per_player() {
    let mut st = MemoryStorage::new();
    st.create_reward(&reward(1, "a", GameType::FlyPoke, 10, false)).unwrap();
    st.create_reward(&reward(2, "b", GameType::FlyPoke, 20, false)).unwrap();
    st.create_reward(&reward(3, "a", GameType::Battle, 30, true)).unwrap();
    let for_a = st.get_rewards("a").unwrap();
    assert_eq!(for_a.len(), 2);
    assert_eq!(for_a[0].id, 1);
    assert_eq!(for_a[1].id, 3);
    let pending_a = st.get_pending_rewards("a").unwrap();
    assert_eq!(pending_a.len(), 1);
    assert_eq!(pending_a[0].id, 1);
    assert_eq!(st.get_rewards("c").unwrap().len(), 0);
}

#[test]
fn mark_reward_claimed_by_id() {
    let mut st = MemoryStorage::new();
    st.create_reward(&reward(7, "a", GameType::FlyPoke, 10, false)).unwrap();
    st.mark_reward_claimed(7).unwrap();
    assert!(st.get_rewards("a").unwrap()[0].claimed);
}

#[test]
fn mark_unknown_reward_is_storage_error() {
    let mut st = MemoryStorage::new();
    match st.mark_reward_claimed(99) {
        Err(PokemonEngineError::Storage(m)) => assert_eq!(m, "Reward not found: 99"),
        Err(other) => panic!("unexpected error {:?}", other),
        Ok(()) => panic!("expected an error"),
    }
}

#[test]
fn daily_stats_upsert_and_lookup() {
    let mut st = MemoryStorage::new();
    assert!(st.get_daily_stats("a", 12).unwrap().is_none());
    let entry = DailyStats {
        player_id: "a".to_string(),
        date: 12,
        flypoke: 5,
        battle: 6,
        login: 7,
        total: 18,
    };
    st.update_daily_stats(&entry).unwrap();
    let got = st.get_daily_stats("a", 12).unwrap().unwrap();
    assert_eq!(got.total, 18);
    // replaced under the same key, absent for other keys
    let entry2 = DailyStats { flypoke: 50, total: 63, ..entry };
    st.update_daily_stats(&entry2).unwrap();
    assert_eq!(st.get_daily_stats("a", 12).unwrap().unwrap().flypoke, 50);
    assert!(st.get_daily_stats("a", 13).unwrap().is_none());
    assert!(st.get_daily_stats("b", 12).unwrap().is_none());
}

#[test]
fn login_streak_upsert_and_lookup() {
    let mut st = MemoryStorage::new();
    assert!(st.get_login_streak("a").unwrap().is_none());
    st.update_login_streak(&LoginStreak {
        player_id: "a".to_string(),
        current_streak: 1,
        last_login_date: 40,
    })
    .unwrap();
    st.update_login_streak(&LoginStreak {
        player_id: "a".to_string(),
        current_streak: 2,
        last_login_date: 41,
    })
    .unwrap();
    let got = st.get_login_streak("a").unwrap().unwrap();
    assert_eq!(got.current_streak, 2);
    assert_eq!(got.last_login_date, 41);
    assert!(st.get_login_streak("b").unwrap().is_none());
}

#[test]
fn welcome_bonus_visibility_follows_claiming() {
    let mut st = MemoryStorage::new();
    assert!(!st.has_welcome_bonus("a").unwrap());
    st.create_reward(&reward(1, "a", GameType::Welcome, 10, false)).unwrap();
    assert!(st.has_welcome_bonus("a").unwrap());
    assert!(!st.has_welcome_bonus("b").unwrap());
    st.mark_all_rewards_claimed("a").unwrap();
    // only an unclaimed welcome reward counts
    assert!(!st.has_welcome_bonus("a").unwrap());
}
