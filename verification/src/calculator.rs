//! Pure reward computation, one function per game kind.
//!
//! Each function maps the event fields relevant to its game, together with
//! the static configuration, to a reward amount in lamports.  Nothing here
//! touches persisted state.

use vstd::prelude::*;

use crate::config::{Config, LoginConfig, max_login_amount, streak_table_max};
use crate::models::GameType;

verus! {

/// FlyPoke tier for scores below 501.
pub const FLYPOKE_TIER0_REWARD: u64 = 10_000_000_000;

/// FlyPoke tier for scores in 501..=1000.
pub const FLYPOKE_TIER1_REWARD: u64 = 25_000_000_000;

/// FlyPoke tier for scores in 1001..=1999.
pub const FLYPOKE_TIER2_REWARD: u64 = 50_000_000_000;

/// FlyPoke tier for scores of 2000 and above.
pub const FLYPOKE_TIER3_REWARD: u64 = 100_000_000_000;

/// Flat bonus added when a FlyPoke run sets a new high score.
pub const FLYPOKE_HIGH_SCORE_BONUS: u64 = 20_000_000_000;

/// Battle bonus per level.
pub const BATTLE_LEVEL_BONUS: u64 = 20_000_000_000;

/// Battle bonus for a win streak of 3 or more.
pub const BATTLE_STREAK_BONUS_HIGH: u64 = 20_000_000_000;

/// Battle bonus for a win streak of exactly 2.
pub const BATTLE_STREAK_BONUS_LOW: u64 = 10_000_000_000;

/// The FlyPoke amount: a tier by score breakpoint, plus the high-score bonus.
pub open spec fn spec_flypoke_amount(score: u32, is_new_high_score: bool) -> int {
    let tier: int = if score >= 2000 {
        FLYPOKE_TIER3_REWARD as int
    } else if score >= 1001 {
        FLYPOKE_TIER2_REWARD as int
    } else if score >= 501 {
        FLYPOKE_TIER1_REWARD as int
    } else {
        FLYPOKE_TIER0_REWARD as int
    };
    if is_new_high_score {
        tier + FLYPOKE_HIGH_SCORE_BONUS
    } else {
        tier
    }
}

/// The Battle amount: base, plus a per-level bonus, plus the highest
/// applicable streak bonus (3 and above wins over exactly 2; the two tiers
/// are not additive).
pub open spec fn spec_battle_amount(c: Config, level: u32, streak: u32) -> int {
    let streak_bonus: int = if streak >= 3 {
        BATTLE_STREAK_BONUS_HIGH as int
    } else if streak >= 2 {
        BATTLE_STREAK_BONUS_LOW as int
    } else {
        0
    };
    c.rewards.battle.base_reward + level * BATTLE_LEVEL_BONUS + streak_bonus
}

/// The PokeMatch amount: base, plus a flat bonus for a perfect game.
pub open spec fn spec_pokematch_amount(c: Config, is_perfect: bool) -> int {
    if is_perfect {
        c.rewards.pokematch.base_reward + c.rewards.pokematch.perfect_bonus
    } else {
        c.rewards.pokematch.base_reward as int
    }
}

/// The Pokedex amount: base, plus a flat bonus for a rare find.
pub open spec fn spec_pokedex_amount(c: Config, is_rare: bool) -> int {
    if is_rare {
        c.rewards.pokedex.base_reward + c.rewards.pokedex.rare_bonus
    } else {
        c.rewards.pokedex.base_reward as int
    }
}

/// First entry of the streak table whose threshold the streak meets.  With
/// the table sorted by descending threshold this is the highest applicable
/// threshold.
pub open spec fn spec_streak_bonus(table: Seq<(u32, u64)>, streak: u32) -> Option<u64>
    decreases table.len(),
{
    if table.len() == 0 {
        None
    } else if streak >= table[0].0 {
        Some(table[0].1)
    } else {
        spec_streak_bonus(table.drop_first(), streak)
    }
}

/// The Login amount: the highest applicable streak bonus, or the flat daily
/// reward when no threshold matches.
pub open spec fn spec_login_amount(c: LoginConfig, streak: u32) -> int {
    match spec_streak_bonus(c.streak_rewards@, streak) {
        Some(bonus) => bonus as int,
        None => c.daily_reward as int,
    }
}

/// A single login never awards more than `max_login_amount`.
pub proof fn lemma_login_amount_bounded(c: LoginConfig, streak: u32)
    ensures
        0 <= spec_login_amount(c, streak) <= max_login_amount(c),
{
    lemma_streak_bonus_bounded(c.streak_rewards@, streak);
}

proof fn lemma_streak_bonus_bounded(table: Seq<(u32, u64)>, streak: u32)
    ensures
        match spec_streak_bonus(table, streak) {
            Some(bonus) => bonus <= streak_table_max(table),
            None => true,
        },
    decreases table.len(),
{
    if table.len() > 0 {
        lemma_streak_bonus_bounded(table.drop_first(), streak);
    }
}

/// The daily cap for a game kind, if it has one.
pub open spec fn spec_daily_limit(c: Config, game_type: GameType) -> Option<u64> {
    match game_type {
        GameType::FlyPoke => Some(c.rewards.flypoke.daily_limit),
        GameType::Battle => Some(c.rewards.battle.daily_limit),
        GameType::PokeMatch => Some(c.rewards.pokematch.daily_limit),
        _ => None,
    }
}

/// Reward calculator for different game types.
pub struct RewardCalculator {
    config: Config,
}

impl RewardCalculator {
    /// The configuration the calculator was built with.
    pub closed spec fn cfg(self) -> Config {
        self.config
    }

    pub fn new(config: Config) -> (calc: Self)
        ensures
            calc.cfg() == config,
    {
        Self { config }
    }

    /// Calculate FlyPoke reward based on score.
    pub fn calculate_flypoke_reward(&self, score: u32, is_new_high_score: bool) -> (amount: u64)
        ensures
            amount == spec_flypoke_amount(score, is_new_high_score),
    {
        let tier: u64 = if score >= 2000 {
            FLYPOKE_TIER3_REWARD
        } else if score >= 1001 {
            FLYPOKE_TIER2_REWARD
        } else if score >= 501 {
            FLYPOKE_TIER1_REWARD
        } else {
            FLYPOKE_TIER0_REWARD
        };
        if is_new_high_score {
            tier + FLYPOKE_HIGH_SCORE_BONUS
        } else {
            tier
        }
    }

    /// Calculate Battle reward.
    pub fn calculate_battle_reward(&self, level: u32, streak: u32) -> (amount: u64)
        requires
            spec_battle_amount(self.cfg(), level, streak) <= u64::MAX,
        ensures
            amount == spec_battle_amount(self.cfg(), level, streak),
    {
        let base = self.config.rewards.battle.base_reward;
        let level_bonus = (level as u64) * BATTLE_LEVEL_BONUS;
        let streak_bonus: u64 = if streak >= 3 {
            BATTLE_STREAK_BONUS_HIGH
        } else if streak >= 2 {
            BATTLE_STREAK_BONUS_LOW
        } else {
            0
        };
        base + level_bonus + streak_bonus
    }

    /// Calculate PokeMatch reward.
    pub fn calculate_pokematch_reward(&self, is_perfect: bool) -> (amount: u64)
        requires
            spec_pokematch_amount(self.cfg(), is_perfect) <= u64::MAX,
        ensures
            amount == spec_pokematch_amount(self.cfg(), is_perfect),
    {
        let base = self.config.rewards.pokematch.base_reward;
        if is_perfect {
            base + self.config.rewards.pokematch.perfect_bonus
        } else {
            base
        }
    }

    /// Calculate Pokedex reward.
    pub fn calculate_pokedex_reward(&self, is_rare: bool) -> (amount: u64)
        requires
            spec_pokedex_amount(self.cfg(), is_rare) <= u64::MAX,
        ensures
            amount == spec_pokedex_amount(self.cfg(), is_rare),
    {
        let base = self.config.rewards.pokedex.base_reward;
        if is_rare {
            base + self.config.rewards.pokedex.rare_bonus
        } else {
            base
        }
    }

    /// Calculate login reward based on streak.  The streak table is scanned
    /// in order; because it is kept sorted by strictly descending threshold,
    /// the first satisfied entry is the highest applicable one.
    pub fn calculate_login_reward(&self, streak: u32) -> (amount: u64)
        ensures
            amount == spec_login_amount(self.cfg().rewards.login, streak),
    {
        let table = &self.config.rewards.login.streak_rewards;
        let n = table.len();
        let mut i: usize = 0;
        proof {
            assert(table@.skip(0) =~= table@);
        }
        while i < n
            invariant
                i <= n,
                n == table.len(),
                table@ == self.config.rewards.login.streak_rewards@,
                spec_streak_bonus(table@, streak) == spec_streak_bonus(
                    table@.skip(i as int),
                    streak,
                ),
            decreases n - i,
        {
            let (threshold, bonus) = table[i];
            proof {
                assert(table@.skip(i as int).len() > 0);
                assert(table@.skip(i as int)[0] == table@[i as int]);
                assert(table@.skip(i as int).drop_first() =~= table@.skip(i + 1));
            }
            if streak >= threshold {
                proof {
                    assert(spec_streak_bonus(table@.skip(i as int), streak) == Some(bonus));
                }
                return bonus;
            }
            i = i + 1;
        }
        proof {
            assert(table@.skip(n as int).len() == 0);
        }
        self.config.rewards.login.daily_reward
    }

    /// Get welcome reward amount.
    pub fn get_welcome_reward(&self) -> (amount: u64)
        ensures
            amount == self.cfg().rewards.welcome.reward,
    {
        self.config.rewards.welcome.reward
    }

    /// Get daily limit for a game type.
    pub fn get_daily_limit(&self, game_type: GameType) -> (limit: Option<u64>)
        ensures
            limit == spec_daily_limit(self.cfg(), game_type),
    {
        match game_type {
            GameType::FlyPoke => Some(self.config.rewards.flypoke.daily_limit),
            GameType::Battle => Some(self.config.rewards.battle.daily_limit),
            GameType::PokeMatch => Some(self.config.rewards.pokematch.daily_limit),
            _ => None,
        }
    }
}

} // verus!
