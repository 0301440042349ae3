//! Typed failures of the engine.
//!
//! Faults are distinct from policy rejections: a rejection (daily limit
//! reached, already logged in today, welcome already claimed) is a normal
//! unsuccessful `RewardResponse`, while the variants here signal caller
//! misuse or a failing collaborator.

use vstd::prelude::*;

use crate::strutil::str_concat;

verus! {

/// Result type alias for engine operations.
pub type PokemonResult<T> = Result<T, PokemonEngineError>;

/// Error types for the engine.
#[derive(Debug)]
pub enum PokemonEngineError {
    Storage(String),
    Solana(String),
    InvalidGameType(String),
    DailyLimitReached(String),
    RewardAlreadyClaimed(String),
    InvalidPlayerId(String),
    Config(String),
    Serialization(String),
}

impl Clone for PokemonEngineError {
    fn clone(&self) -> (c: Self)
        ensures
            c == *self,
    {
        match self {
            PokemonEngineError::Storage(s) => PokemonEngineError::Storage(s.clone()),
            PokemonEngineError::Solana(s) => PokemonEngineError::Solana(s.clone()),
            PokemonEngineError::InvalidGameType(s) => PokemonEngineError::InvalidGameType(
                s.clone(),
            ),
            PokemonEngineError::DailyLimitReached(s) => PokemonEngineError::DailyLimitReached(
                s.clone(),
            ),
            PokemonEngineError::RewardAlreadyClaimed(s) => PokemonEngineError::RewardAlreadyClaimed(
                s.clone(),
            ),
            PokemonEngineError::InvalidPlayerId(s) => PokemonEngineError::InvalidPlayerId(
                s.clone(),
            ),
            PokemonEngineError::Config(s) => PokemonEngineError::Config(s.clone()),
            PokemonEngineError::Serialization(s) => PokemonEngineError::Serialization(s.clone()),
        }
    }
}

impl PokemonEngineError {
    /// The human-readable description of the error: a fixed prefix for the
    /// variant, followed by its detail text.
    pub fn describe(&self) -> (r: String)
        ensures
            match *self {
                PokemonEngineError::Storage(ref s) => r@ == "Storage error: "@ + s@,
                PokemonEngineError::Solana(ref s) => r@ == "Solana error: "@ + s@,
                PokemonEngineError::InvalidGameType(ref s) => r@ == "Invalid game type: "@ + s@,
                PokemonEngineError::DailyLimitReached(ref s) => r@
                    == "Daily limit reached for game: "@ + s@,
                PokemonEngineError::RewardAlreadyClaimed(ref s) => r@
                    == "Reward already claimed: "@ + s@,
                PokemonEngineError::InvalidPlayerId(ref s) => r@ == "Invalid player ID: "@ + s@,
                PokemonEngineError::Config(ref s) => r@ == "Configuration error: "@ + s@,
                PokemonEngineError::Serialization(ref s) => r@ == "Serialization error: "@ + s@,
            },
    {
        match self {
            PokemonEngineError::Storage(s) => str_concat("Storage error: ", s.as_str()),
            PokemonEngineError::Solana(s) => str_concat("Solana error: ", s.as_str()),
            PokemonEngineError::InvalidGameType(s) => str_concat(
                "Invalid game type: ",
                s.as_str(),
            ),
            PokemonEngineError::DailyLimitReached(s) => str_concat(
                "Daily limit reached for game: ",
                s.as_str(),
            ),
            PokemonEngineError::RewardAlreadyClaimed(s) => str_concat(
                "Reward already claimed: ",
                s.as_str(),
            ),
            PokemonEngineError::InvalidPlayerId(s) => str_concat(
                "Invalid player ID: ",
                s.as_str(),
            ),
            PokemonEngineError::Config(s) => str_concat("Configuration error: ", s.as_str()),
            PokemonEngineError::Serialization(s) => str_concat(
                "Serialization error: ",
                s.as_str(),
            ),
        }
    }
}

} // verus!
