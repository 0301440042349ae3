//! Shared data model: game kinds, reward records, daily aggregates,
//! login-streak state, and the event / response shapes.
//!
//! Calendar dates are UTC day numbers (days since the Unix epoch) and
//! timestamps are Unix seconds; both derive from the same clock reading.

use vstd::prelude::*;

verus! {

/// Game type enumeration.
#[derive(Debug, Clone, Copy, PartialEq, Eq, Structural)]
pub enum GameType {
    FlyPoke,
    Battle,
    PokeMatch,
    Pokedex,
    Login,
    Welcome,
}

/// FlyPoke game event data.
#[derive(Debug, Clone, Copy, PartialEq, Eq, Structural)]
pub struct FlyPokeEventData {
    pub score: u32,
    pub is_new_high_score: bool,
    pub level: Option<u32>,
}

/// Battle game event data.
#[derive(Debug, Clone, Copy, PartialEq, Eq, Structural)]
pub struct BattleEventData {
    pub level: u32,
    pub streak: u32,
    pub perfect_victory: Option<bool>,
}

/// PokeMatch game event data.
#[derive(Debug, Clone, Copy, PartialEq, Eq, Structural)]
pub struct PokeMatchEventData {
    pub perfect: bool,
    pub score: Option<u32>,
}

/// Pokedex game event data.
#[derive(Debug)]
pub struct PokedexEventData {
    pub pokemon_id: String,
    pub is_rare: bool,
    pub collection_size: Option<u32>,
}

impl Clone for PokedexEventData {
    fn clone(&self) -> (c: Self)
        ensures
            c == *self,
    {
        PokedexEventData {
            pokemon_id: self.pokemon_id.clone(),
            is_rare: self.is_rare,
            collection_size: self.collection_size,
        }
    }
}

/// The per-event payload kept on a reward record for audit and display.
#[derive(Debug)]
pub enum GameData {
    FlyPoke(FlyPokeEventData),
    Battle(BattleEventData),
    PokeMatch(PokeMatchEventData),
    Pokedex(PokedexEventData),
    Login { streak: u32 },
    Welcome,
}

impl Clone for GameData {
    fn clone(&self) -> (c: Self)
        ensures
            c == *self,
    {
        match self {
            GameData::FlyPoke(d) => GameData::FlyPoke(*d),
            GameData::Battle(d) => GameData::Battle(*d),
            GameData::PokeMatch(d) => GameData::PokeMatch(*d),
            GameData::Pokedex(d) => GameData::Pokedex(d.clone()),
            GameData::Login { streak } => GameData::Login { streak: *streak },
            GameData::Welcome => GameData::Welcome,
        }
    }
}

/// A POKE token reward record.
#[derive(Debug)]
pub struct Reward {
    /// Identity, fixed at creation.
    pub id: u128,
    pub player_id: String,
    pub game: GameType,
    /// Amount in lamports (smallest token unit).
    pub amount: u64,
    /// Creation time, Unix seconds (UTC).
    pub timestamp: u64,
    pub claimed: bool,
    pub game_data: GameData,
    /// Settlement reference, set only by the disbursement collaborator.
    pub transaction_signature: Option<String>,
}

impl Clone for Reward {
    fn clone(&self) -> (c: Self)
        ensures
            c == *self,
    {
        Reward {
            id: self.id,
            player_id: self.player_id.clone(),
            game: self.game,
            amount: self.amount,
            timestamp: self.timestamp,
            claimed: self.claimed,
            game_data: self.game_data.clone(),
            transaction_signature: match &self.transaction_signature {
                Some(s) => Some(s.clone()),
                None => None,
            },
        }
    }
}

/// Daily statistics for a player: per-game sums and their total, keyed by
/// (player, UTC day number).
#[derive(Debug)]
pub struct DailyStats {
    pub player_id: String,
    pub date: u64,
    pub flypoke: u64,
    pub battle: u64,
    pub login: u64,
    pub total: u64,
}

impl Clone for DailyStats {
    fn clone(&self) -> (c: Self)
        ensures
            c == *self,
    {
        DailyStats {
            player_id: self.player_id.clone(),
            date: self.date,
            flypoke: self.flypoke,
            battle: self.battle,
            login: self.login,
            total: self.total,
        }
    }
}

/// Login streak information for a player.
#[derive(Debug)]
pub struct LoginStreak {
    pub player_id: String,
    pub current_streak: u32,
    pub last_login_date: u64,
}

impl Clone for LoginStreak {
    fn clone(&self) -> (c: Self)
        ensures
            c == *self,
    {
        LoginStreak {
            player_id: self.player_id.clone(),
            current_streak: self.current_streak,
            last_login_date: self.last_login_date,
        }
    }
}

/// A kind-tagged event payload, decoded and validated by the engine.
#[derive(Debug)]
pub enum EventPayload {
    FlyPoke(FlyPokeEventData),
    Battle(BattleEventData),
    PokeMatch(PokeMatchEventData),
    Pokedex(PokedexEventData),
    Empty,
}

impl Clone for EventPayload {
    fn clone(&self) -> (c: Self)
        ensures
            c == *self,
    {
        match self {
            EventPayload::FlyPoke(d) => EventPayload::FlyPoke(*d),
            EventPayload::Battle(d) => EventPayload::Battle(*d),
            EventPayload::PokeMatch(d) => EventPayload::PokeMatch(*d),
            EventPayload::Pokedex(d) => EventPayload::Pokedex(d.clone()),
            EventPayload::Empty => EventPayload::Empty,
        }
    }
}

/// A game event as submitted by a caller.
#[derive(Debug)]
pub struct GameEvent {
    pub player_id: String,
    pub game: GameType,
    pub event_data: EventPayload,
}

impl Clone for GameEvent {
    fn clone(&self) -> (c: Self)
        ensures
            c == *self,
    {
        GameEvent {
            player_id: self.player_id.clone(),
            game: self.game,
            event_data: self.event_data.clone(),
        }
    }
}

/// Outcome of processing one event.
#[derive(Debug)]
pub struct RewardResponse {
    pub reward: Option<Reward>,
    pub success: bool,
    pub message: String,
    pub daily_limit_reached: bool,
}

impl Clone for RewardResponse {
    fn clone(&self) -> (c: Self)
        ensures
            c == *self,
    {
        RewardResponse {
            reward: match &self.reward {
                Some(r) => Some(r.clone()),
                None => None,
            },
            success: self.success,
            message: self.message.clone(),
            daily_limit_reached: self.daily_limit_reached,
        }
    }
}

impl GameType {
    /// The lowercase name of the game kind, as used in messages and by the
    /// serialization boundary.
    pub fn name(&self) -> (r: String)
        ensures
            *self == GameType::FlyPoke ==> r@ == "flypoke"@,
            *self == GameType::Battle ==> r@ == "battle"@,
            *self == GameType::PokeMatch ==> r@ == "pokematch"@,
            *self == GameType::Pokedex ==> r@ == "pokedex"@,
            *self == GameType::Login ==> r@ == "login"@,
            *self == GameType::Welcome ==> r@ == "welcome"@,
    {
        match self {
            GameType::FlyPoke => "flypoke".to_string(),
            GameType::Battle => "battle".to_string(),
            GameType::PokeMatch => "pokematch".to_string(),
            GameType::Pokedex => "pokedex".to_string(),
            GameType::Login => "login".to_string(),
            GameType::Welcome => "welcome".to_string(),
        }
    }
}

} // verus!
