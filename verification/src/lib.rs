//! Game reward engine for the PokeWorld POKE token.
//!
//! The library computes and records token rewards for discrete player
//! actions in a multi-game platform: event intake, reward-amount
//! computation, per-player daily caps, login-streak tracking, an at-most-once
//! welcome bonus, and the in-memory storage these depend on.

pub mod calculator;
pub mod config;
pub mod error;
pub mod laws;
pub mod models;
pub mod reward_engine;
pub mod solana;
pub mod storage;
mod strutil;

pub use error::{PokemonEngineError, PokemonResult};
pub use reward_engine::RewardEngine;

use vstd::prelude::*;

use crate::config::{Config, check_config, config_wf, is_default_config};
use crate::storage::MemoryStorage;

verus! {

/// Initialize the reward engine with the default configuration and empty
/// in-memory storage.
pub fn create_reward_engine() -> (r: PokemonResult<RewardEngine>)
    ensures
        r matches Ok(e) && {
            &&& e.wf()
            &&& is_default_config(e.cfg())
            &&& e.rewards().len() == 0
            &&& e.stats().len() == 0
            &&& e.streaks().len() == 0
        },
{
    let config = Config::default();
    let storage = MemoryStorage::new();
    Ok(RewardEngine::new(config, storage))
}

/// Initialize the reward engine with a custom configuration; a
/// configuration whose amounts could overflow the engine's arithmetic, or
/// whose streak table is not sorted highest-first, is refused.
pub fn create_reward_engine_with_config(config: Config) -> (r: PokemonResult<RewardEngine>)
    ensures
        match r {
            Ok(e) => {
                &&& config_wf(config)
                &&& e.wf()
                &&& e.cfg() == config
                &&& e.rewards().len() == 0
                &&& e.stats().len() == 0
                &&& e.streaks().len() == 0
            },
            Err(e) => {
                &&& !config_wf(config)
                &&& e matches PokemonEngineError::Config(m) && m@
                    == "invalid reward configuration"@
            },
        },
{
    if !check_config(&config) {
        return Err(PokemonEngineError::Config("invalid reward configuration".to_string()));
    }
    let storage = MemoryStorage::new();
    Ok(RewardEngine::new(config, storage))
}

} // verus!
