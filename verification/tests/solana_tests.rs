use pokemon_engine::models::{GameData, GameType, Reward};
use pokemon_engine::solana::SolanaClient;
use pokemon_engine::PokemonEngineError;

// the system program address: a valid base58-encoded 32-byte key
const VALID_KEY: &str = "11111111111111111111111111111111";

fn sample_reward(id: u128) -> Reward {
    Reward {
        id,
        player_id: "a".to_string(),
        game: GameType::FlyPoke,
        amount: 10,
        timestamp: 0,
        claimed: false,
        game_data: GameData::Welcome,
        transaction_signature: None,
    }
}

#[test]
fn client_accepts_valid_addresses() {
    let client = SolanaClient::new(
        "http://localhost:8899".to_string(),
        "confirmed",
        Some(VALID_KEY.to_string()),
        Some(VALID_KEY.to_string()),
    );
    assert!(client.is_ok());
}

#[test]
fn client_rejects_invalid_mint() {
    match SolanaClient::new(
        "http://localhost:8899".to_string(),
        "finalized",
        Some("not-a-key".to_string()),
        None,
    ) {
        Err(PokemonEngineError::Solana(m)) => assert_eq!(m, "Invalid token mint"),
        Err(other) => panic!("unexpected error {:?}", other),
        Ok(_) => panic!("expected an error"),
    }
}

#[test]
fn client_rejects_invalid_vault() {
    match SolanaClient::new(
        "http://localhost:8899".to_string(),
        "processed",
        Some(VALID_KEY.to_string()),
        Some("###".to_string()),
    ) {
        Err(PokemonEngineError::Solana(m)) => assert_eq!(m, "Invalid reward vault"),
        Err(other) => panic!("unexpected error {:?}", other),
        Ok(_) => panic!("expected an error"),
    }
}

#[test]
fn distribute_reward_returns_placeholder_signature() {
    let client = SolanaClient::new(
        "http://localhost:8899".to_string(),
        "confirmed",
        Some(VALID_KEY.to_string()),
        Some(VALID_KEY.to_string()),
    )
    .unwrap();
    let keypair = solana_sdk::signature::Keypair::new();
    let reward = sample_reward(12345678901234567890);
    let sig = client.distribute_reward(&reward, VALID_KEY, &keypair).unwrap();
    assert_eq!(sig, format!("placeholder_signature_{}", reward.id));
}

#[test]
fn distribute_reward_needs_configured_mint() {
    let client = SolanaClient::new(
        "http://localhost:8899".to_string(),
        "confirmed",
        None,
        None,
    )
    .unwrap();
    let keypair = solana_sdk::signature::Keypair::new();
    match client.distribute_reward(&sample_reward(1), VALID_KEY, &keypair) {
        Err(PokemonEngineError::Solana(m)) => assert_eq!(m, "Token mint not configured"),
        Err(other) => panic!("unexpected error {:?}", other),
        Ok(_) => panic!("expected an error"),
    }
}

#[test]
fn distribute_reward_rejects_invalid_wallet() {
    let client = SolanaClient::new(
        "http://localhost:8899".to_string(),
        "confirmed",
        Some(VALID_KEY.to_string()),
        Some(VALID_KEY.to_string()),
    )
    .unwrap();
    let keypair = solana_sdk::signature::Keypair::new();
    match client.distribute_reward(&sample_reward(1), "bogus wallet", &keypair) {
        Err(PokemonEngineError::Solana(m)) => assert_eq!(m, "Invalid player wallet"),
        Err(other) => panic!("unexpected error {:?}", other),
        Ok(_) => panic!("expected an error"),
    }
}

#[test]
fn token_balance_placeholder_is_zero() {
    let client = SolanaClient::new(
        "http://localhost:8899".to_string(),
        "confirmed",
        Some(VALID_KEY.to_string()),
        None,
    )
    .unwrap();
    assert_eq!(client.get_token_balance(VALID_KEY).unwrap(), 0);
}

#[test]
fn verify_transaction_placeholder_is_true() {
    let client = SolanaClient::new(
        "http://localhost:8899".to_string(),
        "confirmed",
        None,
        None,
    )
    .unwrap();
    assert!(client.verify_transaction("any-signature").unwrap());
}

#[test]
fn error_descriptions_carry_detail() {
    let e = PokemonEngineError::Storage("boom".to_string());
    assert_eq!(e.describe(), "Storage error: boom");
    let e = PokemonEngineError::InvalidGameType("pokematch".to_string());
    assert_eq!(e.describe(), "Invalid game type: pokematch");
    let e = PokemonEngineError::Serialization("bad".to_string());
    assert_eq!(e.describe(), "Serialization error: bad");
}

#[test]
fn game_type_names_are_lowercase() {
    assert_eq!(GameType::FlyPoke.name(), "flypoke");
    assert_eq!(GameType::Battle.name(), "battle");
    assert_eq!(GameType::PokeMatch.name(), "pokematch");
    assert_eq!(GameType::Pokedex.name(), "pokedex");
    assert_eq!(GameType::Login.name(), "login");
    assert_eq!(GameType::Welcome.name(), "welcome");
}
