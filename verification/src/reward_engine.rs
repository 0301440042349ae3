//! The reward engine: processes one event at a time, computes the amount,
//! enforces per-game daily caps and the login-streak rules, and records the
//! outcome in storage.
//!
//! Policy rejections (daily limit reached, already logged in today, welcome
//! already claimed) are normal unsuccessful responses that mutate nothing;
//! faults (mismatched payload, unknown game kind) are typed errors.

use vstd::prelude::*;

use crate::calculator::{
    RewardCalculator, spec_battle_amount, spec_flypoke_amount, spec_login_amount,
    lemma_login_amount_bounded,
};
use crate::config::{Config, config_wf, max_login_amount};
use crate::error::{PokemonEngineError, PokemonResult};
use crate::models::{
    BattleEventData, DailyStats, EventPayload, FlyPokeEventData, GameData, GameEvent, GameType,
    LoginStreak, Reward, RewardResponse,
};
use crate::storage::{
    MemoryStorage, claim_all_spec, find_stat, find_streak, has_unclaimed_welcome,
};

verus! {

/// Seconds in a UTC calendar day.
pub const SECONDS_PER_DAY: u64 = 86400;

/// The UTC day number of a Unix timestamp.
pub open spec fn day_of(ts: u64) -> u64 {
    ts / SECONDS_PER_DAY
}

/// The recorded sum for one game kind in an optional aggregate entry; an
/// absent entry counts as all-zero.
pub open spec fn spec_stat_field(entry: Option<DailyStats>, g: GameType) -> int {
    match entry {
        Some(s) => match g {
            GameType::FlyPoke => s.flypoke as int,
            GameType::Battle => s.battle as int,
            GameType::Login => s.login as int,
            _ => 0,
        },
        None => 0,
    }
}

/// A policy rejection: unsuccessful, no reward, the given message.
pub open spec fn response_rejected(resp: RewardResponse, msg: Seq<char>, limit: bool) -> bool {
    &&& resp.reward is None
    &&& !resp.success
    &&& resp.message@ == msg
    &&& resp.daily_limit_reached == limit
}

/// The shape of a freshly created reward record: correct owner, kind,
/// amount, timestamp and payload; unclaimed and unsettled.  Its `id` is
/// freshly generated and not pinned down here.
pub open spec fn reward_shape(
    rw: Reward,
    p: Seq<char>,
    g: GameType,
    amount: int,
    ts: u64,
    data: GameData,
) -> bool {
    &&& rw.player_id@ == p
    &&& rw.game == g
    &&& rw.amount == amount
    &&& rw.timestamp == ts
    &&& !rw.claimed
    &&& rw.game_data == data
    &&& rw.transaction_signature is None
}

/// The aggregate entry for (`p`, `d`) grew by `amount` in the bucket of
/// `g`, its total is again the sum of its per-game fields, and every other
/// (player, date) key reads as before.
pub open spec fn stats_updated(
    pre: Seq<DailyStats>,
    post: Seq<DailyStats>,
    p: Seq<char>,
    d: u64,
    g: GameType,
    amount: int,
) -> bool {
    let entry = find_stat(pre, p, d);
    let new_f = spec_stat_field(entry, GameType::FlyPoke) + if g == GameType::FlyPoke {
        amount
    } else {
        0
    };
    let new_b = spec_stat_field(entry, GameType::Battle) + if g == GameType::Battle {
        amount
    } else {
        0
    };
    let new_l = spec_stat_field(entry, GameType::Login) + if g == GameType::Login {
        amount
    } else {
        0
    };
    &&& match find_stat(post, p, d) {
        Some(st) => {
            &&& st.player_id@ == p
            &&& st.date == d
            &&& st.flypoke == new_f
            &&& st.battle == new_b
            &&& st.login == new_l
            &&& st.total == new_f + new_b + new_l
        },
        None => false,
    }
    &&& forall|p2: Seq<char>, d2: u64|
        !(p2 == p && d2 == d) ==> #[trigger] find_stat(post, p2, d2) == find_stat(pre, p2, d2)
}

/// A daily aggregate entry is internally consistent and within the caps:
/// the total is the sum of the per-game fields, the capped games respect
/// their daily limits, and the login bucket holds at most one login reward.
pub open spec fn stats_entry_wf(s: DailyStats, c: Config) -> bool {
    &&& s.total == s.flypoke + s.battle + s.login
    &&& s.flypoke <= c.rewards.flypoke.daily_limit
    &&& s.battle <= c.rewards.battle.daily_limit
    &&& s.login <= max_login_amount(c.rewards.login)
}

/// Invariant of the persisted state.  Beside per-entry consistency, a
/// nonzero login bucket for a day is always backed by a streak record whose
/// last login is on or after that day; this is what keeps the login bucket
/// to a single reward per day.
pub open spec fn state_inv(stats: Seq<DailyStats>, streaks: Seq<LoginStreak>, c: Config) -> bool {
    &&& forall|i: int|
        0 <= i < stats.len() ==> stats_entry_wf(#[trigger] stats[i], c)
    &&& forall|i: int|
        0 <= i < stats.len() && #[trigger] stats[i].login != 0 ==> match find_streak(
            streaks,
            stats[i].player_id@,
        ) {
            Some(st) => st.last_login_date >= stats[i].date,
            None => false,
        }
    &&& forall|i: int| 0 <= i < streaks.len() ==> (#[trigger] streaks[i]).current_streak >= 1
}

/// Nothing observable changed between two engine states.
pub open spec fn unchanged_state(pre: RewardEngine, post: RewardEngine) -> bool {
    &&& post.cfg() == pre.cfg()
    &&& post.rewards() == pre.rewards()
    &&& post.stats() == pre.stats()
    &&& post.streaks() == pre.streaks()
}

/// Full description of processing a FlyPoke event: either the day's FlyPoke
/// sum plus the candidate amount would exceed the daily limit and nothing
/// changes, or a reward of exactly the calculated amount is appended and the
/// aggregate grows by it.
pub open spec fn flypoke_outcome(
    pre: RewardEngine,
    post: RewardEngine,
    p: Seq<char>,
    data: FlyPokeEventData,
    now_ts: u64,
    r: PokemonResult<RewardResponse>,
) -> bool {
    let amount = spec_flypoke_amount(data.score, data.is_new_high_score);
    let d = day_of(now_ts);
    let cur = spec_stat_field(find_stat(pre.stats(), p, d), GameType::FlyPoke);
    let limit = pre.cfg().rewards.flypoke.daily_limit;
    &&& post.cfg() == pre.cfg()
    &&& post.streaks() == pre.streaks()
    &&& match r {
        Ok(resp) => if cur + amount > limit {
            &&& response_rejected(resp, "Daily limit reached for FlyPoke"@, true)
            &&& post.rewards() == pre.rewards()
            &&& post.stats() == pre.stats()
        } else {
            &&& resp.success
            &&& !resp.daily_limit_reached
            &&& resp.message@ == "Reward processed successfully"@
            &&& match resp.reward {
                Some(rw) => {
                    &&& reward_shape(rw, p, GameType::FlyPoke, amount, now_ts, GameData::FlyPoke(data))
                    &&& post.rewards() == pre.rewards().push(rw)
                },
                None => false,
            }
            &&& stats_updated(pre.stats(), post.stats(), p, d, GameType::FlyPoke, amount)
        },
        Err(_) => false,
    }
}

/// Full description of processing a Battle event; the mirror image of
/// `flypoke_outcome` with the Battle amount, bucket and limit.
pub open spec fn battle_outcome(
    pre: RewardEngine,
    post: RewardEngine,
    p: Seq<char>,
    data: BattleEventData,
    now_ts: u64,
    r: PokemonResult<RewardResponse>,
) -> bool {
    let amount = spec_battle_amount(pre.cfg(), data.level, data.streak);
    let d = day_of(now_ts);
    let cur = spec_stat_field(find_stat(pre.stats(), p, d), GameType::Battle);
    let limit = pre.cfg().rewards.battle.daily_limit;
    &&& post.cfg() == pre.cfg()
    &&& post.streaks() == pre.streaks()
    &&& match r {
        Ok(resp) => if cur + amount > limit {
            &&& response_rejected(resp, "Daily limit reached for Battle"@, true)
            &&& post.rewards() == pre.rewards()
            &&& post.stats() == pre.stats()
        } else {
            &&& resp.success
            &&& !resp.daily_limit_reached
            &&& resp.message@ == "Reward processed successfully"@
            &&& match resp.reward {
                Some(rw) => {
                    &&& reward_shape(rw, p, GameType::Battle, amount, now_ts, GameData::Battle(data))
                    &&& post.rewards() == pre.rewards().push(rw)
                },
                None => false,
            }
            &&& stats_updated(pre.stats(), post.stats(), p, d, GameType::Battle, amount)
        },
        Err(_) => false,
    }
}

/// The streak length that a login on day `d` leads to: one more than the
/// current streak after a login exactly yesterday, reset to 1 after a gap or
/// for a first login.
pub open spec fn next_streak(pre_streak: Option<LoginStreak>, d: u64) -> int {
    match pre_streak {
        Some(st) => if st.last_login_date + 1 == d {
            st.current_streak + 1
        } else {
            1
        },
        None => 1,
    }
}

/// A login on day `d` is a repeat (and is rejected) when the recorded last
/// login is on or after `d`.
pub open spec fn login_is_repeat(pre_streak: Option<LoginStreak>, d: u64) -> bool {
    match pre_streak {
        Some(st) => st.last_login_date >= d,
        None => false,
    }
}

/// Full description of processing a login event: a repeated login on the
/// same day is rejected without mutation; otherwise the streak advances (or
/// resets), a reward for the resulting streak length is appended, and the
/// login bucket of the day grows by it.
pub open spec fn login_outcome(
    pre: RewardEngine,
    post: RewardEngine,
    p: Seq<char>,
    now_ts: u64,
    r: PokemonResult<RewardResponse>,
) -> bool {
    let d = day_of(now_ts);
    let pre_streak = find_streak(pre.streaks(), p);
    let ns = next_streak(pre_streak, d);
    let amount = spec_login_amount(pre.cfg().rewards.login, ns as u32);
    &&& post.cfg() == pre.cfg()
    &&& match r {
        Ok(resp) => if login_is_repeat(pre_streak, d) {
            &&& response_rejected(resp, "Already logged in today"@, false)
            &&& unchanged_state(pre, post)
        } else {
            &&& resp.success
            &&& !resp.daily_limit_reached
            &&& resp.message@ == "Login reward processed successfully"@
            &&& match find_streak(post.streaks(), p) {
                Some(st) => st.current_streak == ns && st.last_login_date == d,
                None => false,
            }
            &&& forall|p2: Seq<char>|
                p2 != p ==> #[trigger] find_streak(post.streaks(), p2) == find_streak(
                    pre.streaks(),
                    p2,
                )
            &&& match resp.reward {
                Some(rw) => {
                    &&& reward_shape(
                        rw,
                        p,
                        GameType::Login,
                        amount,
                        now_ts,
                        GameData::Login { streak: ns as u32 },
                    )
                    &&& post.rewards() == pre.rewards().push(rw)
                },
                None => false,
            }
            &&& stats_updated(pre.stats(), post.stats(), p, d, GameType::Login, amount)
        },
        Err(_) => false,
    }
}

/// Full description of processing a welcome event: rejected while an
/// unclaimed welcome bonus is on record, otherwise a single reward of the
/// fixed welcome amount is appended; the welcome bonus never touches the
/// daily aggregate.
pub open spec fn welcome_outcome(
    pre: RewardEngine,
    post: RewardEngine,
    p: Seq<char>,
    now_ts: u64,
    r: PokemonResult<RewardResponse>,
) -> bool {
    &&& post.cfg() == pre.cfg()
    &&& post.stats() == pre.stats()
    &&& post.streaks() == pre.streaks()
    &&& match r {
        Ok(resp) => if has_unclaimed_welcome(pre.rewards(), p) {
            &&& response_rejected(resp, "Welcome bonus already claimed"@, false)
            &&& post.rewards() == pre.rewards()
        } else {
            &&& resp.success
            &&& !resp.daily_limit_reached
            &&& resp.message@ == "Welcome bonus processed successfully"@
            &&& match resp.reward {
                Some(rw) => {
                    &&& reward_shape(
                        rw,
                        p,
                        GameType::Welcome,
                        pre.cfg().rewards.welcome.reward as int,
                        now_ts,
                        GameData::Welcome,
                    )
                    &&& post.rewards() == pre.rewards().push(rw)
                },
                None => false,
            }
        },
        Err(_) => false,
    }
}

/// What the generic entry point needs of an event before it can run: the
/// Battle amount must fit a `u64`, and a login streak must have room to
/// grow.  Both are machine limits, not policy.
pub open spec fn event_admissible(pre: RewardEngine, event: GameEvent) -> bool {
    match event.game {
        GameType::Battle => match event.event_data {
            EventPayload::Battle(d) => spec_battle_amount(pre.cfg(), d.level, d.streak)
                <= u64::MAX,
            _ => true,
        },
        GameType::Login => match find_streak(pre.streaks(), event.player_id@) {
            Some(st) => st.current_streak < u32::MAX,
            None => true,
        },
        _ => true,
    }
}

/// Relies on uuid's version-4 generator for a fresh random identifier;
/// nothing is assumed about the value.
#[verifier::external_body]
fn fresh_id() -> (r: u128) {
    uuid::Uuid::new_v4().as_u128()
}

/// Main reward engine for processing game events and recording rewards.
pub struct RewardEngine {
    calculator: RewardCalculator,
    storage: MemoryStorage,
}

impl RewardEngine {
    /// The engine's configuration.
    pub closed spec fn cfg(self) -> Config {
        self.calculator.cfg()
    }

    /// The reward log, in creation order.
    pub closed spec fn rewards(self) -> Seq<Reward> {
        self.storage.rewards_seq()
    }

    /// The daily aggregate entries.
    pub closed spec fn stats(self) -> Seq<DailyStats> {
        self.storage.stats_seq()
    }

    /// The login streak entries.
    pub closed spec fn streaks(self) -> Seq<LoginStreak> {
        self.storage.streaks_seq()
    }

    /// The engine invariant: a well-formed configuration and a consistent
    /// persisted state.
    pub open spec fn wf(self) -> bool {
        &&& config_wf(self.cfg())
        &&& state_inv(self.stats(), self.streaks(), self.cfg())
    }

    /// Create a new reward engine over the given storage.
    pub fn new(config: Config, storage: MemoryStorage) -> (e: Self)
        requires
            config_wf(config),
            state_inv(storage.stats_seq(), storage.streaks_seq(), config),
        ensures
            e.wf(),
            e.cfg() == config,
            e.rewards() == storage.rewards_seq(),
            e.stats() == storage.stats_seq(),
            e.streaks() == storage.streaks_seq(),
    {
        let calculator = RewardCalculator::new(config);
        Self { calculator, storage }
    }

    /// Process a generic game event: route by game kind to the matching
    /// handler.  A payload that does not fit the kind is a serialization
    /// fault; a kind with no wired handler is an invalid-game-type fault.
    /// Neither fault touches storage.
    pub fn process_game_event(&mut self, event: &GameEvent, now_ts: u64) -> (r: PokemonResult<
        RewardResponse,
    >)
        requires
            old(self).wf(),
            event_admissible(*old(self), *event),
        ensures
            final(self).wf(),
            match event.game {
                GameType::FlyPoke => match event.event_data {
                    EventPayload::FlyPoke(d) => flypoke_outcome(
                        *old(self),
                        *final(self),
                        event.player_id@,
                        d,
                        now_ts,
                        r,
                    ),
                    _ => r matches Err(PokemonEngineError::Serialization(m)) && m@
                        == "Invalid event data"@ && unchanged_state(*old(self), *final(self)),
                },
                GameType::Battle => match event.event_data {
                    EventPayload::Battle(d) => battle_outcome(
                        *old(self),
                        *final(self),
                        event.player_id@,
                        d,
                        now_ts,
                        r,
                    ),
                    _ => r matches Err(PokemonEngineError::Serialization(m)) && m@
                        == "Invalid event data"@ && unchanged_state(*old(self), *final(self)),
                },
                GameType::Login => login_outcome(*old(self), *final(self), event.player_id@, now_ts, r),
                GameType::Welcome => welcome_outcome(
                    *old(self),
                    *final(self),
                    event.player_id@,
                    now_ts,
                    r,
                ),
                GameType::PokeMatch => r matches Err(PokemonEngineError::InvalidGameType(m)) && m@
                    == "pokematch"@ && unchanged_state(*old(self), *final(self)),
                GameType::Pokedex => r matches Err(PokemonEngineError::InvalidGameType(m)) && m@
                    == "pokedex"@ && unchanged_state(*old(self), *final(self)),
            },
    {
        match event.game {
            GameType::FlyPoke => match &event.event_data {
                EventPayload::FlyPoke(d) => self.process_flypoke_event(
                    event.player_id.as_str(),
                    d,
                    now_ts,
                ),
                _ => Err(PokemonEngineError::Serialization("Invalid event data".to_string())),
            },
            GameType::Battle => match &event.event_data {
                EventPayload::Battle(d) => self.process_battle_event(
                    event.player_id.as_str(),
                    d,
                    now_ts,
                ),
                _ => Err(PokemonEngineError::Serialization("Invalid event data".to_string())),
            },
            GameType::Login => self.process_login_event(event.player_id.as_str(), now_ts),
            GameType::Welcome => self.process_welcome_event(event.player_id.as_str(), now_ts),
            GameType::PokeMatch => Err(PokemonEngineError::InvalidGameType(event.game.name())),
            GameType::Pokedex => Err(PokemonEngineError::InvalidGameType(event.game.name())),
        }
    }

    /// Get all rewards for a player.
    pub fn get_rewards(&self, player_id: &str) -> (r: PokemonResult<Vec<Reward>>)
        ensures
            r matches Ok(v) && v@ == self.rewards().filter(
                |rw: Reward| crate::storage::reward_is_for(rw, player_id@),
            ),
    {
        self.storage.get_rewards(player_id)
    }

    /// Get pending (unclaimed) rewards for a player.
    pub fn get_pending_rewards(&self, player_id: &str) -> (r: PokemonResult<Vec<Reward>>)
        ensures
            r matches Ok(v) && v@ == self.rewards().filter(
                |rw: Reward| crate::storage::reward_is_pending_for(rw, player_id@),
            ),
    {
        self.storage.get_pending_rewards(player_id)
    }

    /// Get the daily aggregate for a player and date; absent is reported as
    /// such, distinct from a zero aggregate.
    pub fn get_daily_stats(&self, player_id: &str, date: u64) -> (r: PokemonResult<
        Option<DailyStats>,
    >)
        ensures
            r matches Ok(o) && o == find_stat(self.stats(), player_id@, date),
    {
        self.storage.get_daily_stats(player_id, date)
    }

    /// Claim all pending rewards for a player: flips `claimed` on every
    /// unclaimed record of the player, a no-op when none exist.
    pub fn claim_rewards(&mut self, player_id: &str) -> (r: PokemonResult<()>)
        requires
            old(self).wf(),
        ensures
            final(self).wf(),
            r is Ok,
            final(self).rewards() == claim_all_spec(old(self).rewards(), player_id@),
            final(self).cfg() == old(self).cfg(),
            final(self).stats() == old(self).stats(),
            final(self).streaks() == old(self).streaks(),
    {
        match self.storage.mark_all_rewards_claimed(player_id) {
            Ok(()) => Ok(()),
            Err(e) => Err(e),
        }
    }

    /// Additively fold one reward into the player's aggregate for the day,
    /// recomputing the total as the sum of the per-game sums.
    fn update_daily_stats(
        &mut self,
        player_id: &str,
        game_type: GameType,
        amount: u64,
        today: u64,
    ) -> (r: PokemonResult<()>)
        requires
            old(self).wf(),
            game_type == GameType::FlyPoke || game_type == GameType::Battle || game_type
                == GameType::Login,
            game_type == GameType::FlyPoke ==> spec_stat_field(
                find_stat(old(self).stats(), player_id@, today),
                GameType::FlyPoke,
            ) + amount <= old(self).cfg().rewards.flypoke.daily_limit,
            game_type == GameType::Battle ==> spec_stat_field(
                find_stat(old(self).stats(), player_id@, today),
                GameType::Battle,
            ) + amount <= old(self).cfg().rewards.battle.daily_limit,
            game_type == GameType::Login ==> spec_stat_field(
                find_stat(old(self).stats(), player_id@, today),
                GameType::Login,
            ) + amount <= max_login_amount(old(self).cfg().rewards.login),
            game_type == GameType::Login ==> match find_streak(old(self).streaks(), player_id@) {
                Some(st) => st.last_login_date >= today,
                None => false,
            },
        ensures
            final(self).wf(),
            r is Ok,
            final(self).cfg() == old(self).cfg(),
            final(self).rewards() == old(self).rewards(),
            final(self).streaks() == old(self).streaks(),
            stats_updated(
                old(self).stats(),
                final(self).stats(),
                player_id@,
                today,
                game_type,
                amount as int,
            ),
    {
        let stats_opt = match self.storage.get_daily_stats(player_id, today) {
            Ok(o) => o,
            Err(e) => {
                return Err(e);
            },
        };
        proof {
            if find_stat(self.stats(), player_id@, today) is Some {
                crate::storage::lemma_find_stat_found(self.stats(), player_id@, today);
            }
        }
        let mut stats: DailyStats = match stats_opt {
            Some(s) => s,
            None => DailyStats {
                player_id: player_id.to_string(),
                date: today,
                flypoke: 0,
                battle: 0,
                login: 0,
                total: 0,
            },
        };
        match game_type {
            GameType::FlyPoke => {
                stats.flypoke = stats.flypoke + amount;
            },
            GameType::Battle => {
                stats.battle = stats.battle + amount;
            },
            GameType::Login => {
                stats.login = stats.login + amount;
            },
            _ => {
            },
        }
        stats.total = stats.flypoke + stats.battle + stats.login;
        match self.storage.update_daily_stats(&stats) {
            Ok(()) => (),
            Err(e) => {
                return Err(e);
            },
        }
        proof {
            let c = old(self).cfg();
            let pre = old(self).stats();
            let post = self.stats();
            assert(stats_entry_wf(stats, c));
            assert forall|k: int| 0 <= k < post.len() implies stats_entry_wf(
                #[trigger] post[k],
                c,
            ) by {
                if post[k] != stats {
                    assert(exists|j: int| 0 <= j < pre.len() && pre[j] == post[k]);
                }
            }
            assert forall|k: int|
                0 <= k < post.len() && #[trigger] post[k].login != 0 implies match find_streak(
                self.streaks(),
                post[k].player_id@,
            ) {
                Some(st) => st.last_login_date >= post[k].date,
                None => false,
            } by {
                if post[k] == stats {
                    if game_type != GameType::Login {
                        assert(stats.login == spec_stat_field(
                            find_stat(pre, player_id@, today),
                            GameType::Login,
                        ));
                        assert(exists|j: int| 0 <= j < pre.len() && pre[j] == find_stat(
                            pre,
                            player_id@,
                            today,
                        ).unwrap());
                    }
                } else {
                    assert(exists|j: int| 0 <= j < pre.len() && pre[j] == post[k]);
                }
            }
        }
        Ok(())
    }

    /// Process FlyPoke game event.
    pub fn process_flypoke_event(
        &mut self,
        player_id: &str,
        event_data: &FlyPokeEventData,
        now_ts: u64,
    ) -> (r: PokemonResult<RewardResponse>)
        requires
            old(self).wf(),
        ensures
            final(self).wf(),
            flypoke_outcome(*old(self), *final(self), player_id@, *event_data, now_ts, r),
    {
        let amount = self.calculator.calculate_flypoke_reward(
            event_data.score,
            event_data.is_new_high_score,
        );
        let today = now_ts / SECONDS_PER_DAY;
        if let Some(daily_limit) = self.calculator.get_daily_limit(GameType::FlyPoke) {
            let stats_opt = match self.storage.get_daily_stats(player_id, today) {
                Ok(o) => o,
                Err(e) => {
                    return Err(e);
                },
            };
            let current: u64 = match &stats_opt {
                Some(s) => s.flypoke,
                None => 0,
            };
            if (current as u128) + (amount as u128) > (daily_limit as u128) {
                return Ok(
                    RewardResponse {
                        reward: None,
                        success: false,
                        message: "Daily limit reached for FlyPoke".to_string(),
                        daily_limit_reached: true,
                    },
                );
            }
        }
        let reward = Reward {
            id: fresh_id(),
            player_id: player_id.to_string(),
            game: GameType::FlyPoke,
            amount,
            timestamp: now_ts,
            claimed: false,
            game_data: GameData::FlyPoke(*event_data),
            transaction_signature: None,
        };
        match self.storage.create_reward(&reward) {
            Ok(()) => (),
            Err(e) => {
                return Err(e);
            },
        }
        match self.update_daily_stats(player_id, GameType::FlyPoke, amount, today) {
            Ok(()) => (),
            Err(e) => {
                return Err(e);
            },
        }
        Ok(
            RewardResponse {
                reward: Some(reward),
                success: true,
                message: "Reward processed successfully".to_string(),
                daily_limit_reached: false,
            },
        )
    }

    /// Process Battle game event.
    pub fn process_battle_event(
        &mut self,
        player_id: &str,
        event_data: &BattleEventData,
        now_ts: u64,
    ) -> (r: PokemonResult<RewardResponse>)
        requires
            old(self).wf(),
            spec_battle_amount(old(self).cfg(), event_data.level, event_data.streak) <= u64::MAX,
        ensures
            final(self).wf(),
            battle_outcome(*old(self), *final(self), player_id@, *event_data, now_ts, r),
    {
        let amount = self.calculator.calculate_battle_reward(event_data.level, event_data.streak);
        let today = now_ts / SECONDS_PER_DAY;
        if let Some(daily_limit) = self.calculator.get_daily_limit(GameType::Battle) {
            let stats_opt = match self.storage.get_daily_stats(player_id, today) {
                Ok(o) => o,
                Err(e) => {
                    return Err(e);
                },
            };
            let current: u64 = match &stats_opt {
                Some(s) => s.battle,
                None => 0,
            };
            if (current as u128) + (amount as u128) > (daily_limit as u128) {
                return Ok(
                    RewardResponse {
                        reward: None,
                        success: false,
                        message: "Daily limit reached for Battle".to_string(),
                        daily_limit_reached: true,
                    },
                );
            }
        }
        let reward = Reward {
            id: fresh_id(),
            player_id: player_id.to_string(),
            game: GameType::Battle,
            amount,
            timestamp: now_ts,
            claimed: false,
            game_data: GameData::Battle(*event_data),
            transaction_signature: None,
        };
        match self.storage.create_reward(&reward) {
            Ok(()) => (),
            Err(e) => {
                return Err(e);
            },
        }
        match self.update_daily_stats(player_id, GameType::Battle, amount, today) {
            Ok(()) => (),
            Err(e) => {
                return Err(e);
            },
        }
        Ok(
            RewardResponse {
                reward: Some(reward),
                success: true,
                message: "Reward processed successfully".to_string(),
                daily_limit_reached: false,
            },
        )
    }

    /// Process login event: a small state machine over the player's streak.
    /// A second login on the same day is rejected without mutation; a login
    /// on the next day extends the streak; a gap resets it to 1.
    pub fn process_login_event(&mut self, player_id: &str, now_ts: u64) -> (r: PokemonResult<
        RewardResponse,
    >)
        requires
            old(self).wf(),
            match find_streak(old(self).streaks(), player_id@) {
                Some(st) => st.current_streak < u32::MAX,
                None => true,
            },
        ensures
            final(self).wf(),
            login_outcome(*old(self), *final(self), player_id@, now_ts, r),
    {
        let today = now_ts / SECONDS_PER_DAY;
        let streak_opt = match self.storage.get_login_streak(player_id) {
            Ok(o) => o,
            Err(e) => {
                return Err(e);
            },
        };
        let new_streak: u32;
        match &streak_opt {
            Some(st) => {
                if st.last_login_date >= today {
                    return Ok(
                        RewardResponse {
                            reward: None,
                            success: false,
                            message: "Already logged in today".to_string(),
                            daily_limit_reached: false,
                        },
                    );
                }
                if st.last_login_date + 1 == today {
                    new_streak = st.current_streak + 1;
                } else {
                    new_streak = 1;
                }
            },
            None => {
                new_streak = 1;
            },
        }
        proof {
            assert(!login_is_repeat(find_streak(old(self).streaks(), player_id@), day_of(now_ts)));
            assert(new_streak as int == next_streak(
                find_streak(old(self).streaks(), player_id@),
                day_of(now_ts),
            ));
        }
        let streak_data = LoginStreak {
            player_id: player_id.to_string(),
            current_streak: new_streak,
            last_login_date: today,
        };
        match self.storage.update_login_streak(&streak_data) {
            Ok(()) => (),
            Err(e) => {
                return Err(e);
            },
        }
        proof {
            let c = self.cfg();
            let pres = old(self).streaks();
            let posts = self.streaks();
            if find_streak(pres, player_id@) is Some {
                crate::storage::lemma_find_streak_found(pres, player_id@);
            }
            assert forall|k: int| 0 <= k < posts.len() implies (#[trigger] posts[k]).current_streak
                >= 1 by {
                if posts[k] != streak_data {
                    assert(exists|j: int| 0 <= j < pres.len() && pres[j] == posts[k]);
                }
            }
            assert forall|k: int|
                0 <= k < self.stats().len() && #[trigger] self.stats()[k].login != 0 implies match
                find_streak(posts, self.stats()[k].player_id@) {
                Some(st) => st.last_login_date >= self.stats()[k].date,
                None => false,
            } by {
                let e = self.stats()[k];
                if e.player_id@ != player_id@ {
                    assert(find_streak(posts, e.player_id@) == find_streak(pres, e.player_id@));
                }
            }
            assert(self.wf());
        }
        let amount = self.calculator.calculate_login_reward(new_streak);
        proof {
            lemma_login_amount_bounded(self.cfg().rewards.login, new_streak);
            if find_stat(self.stats(), player_id@, today) is Some {
                crate::storage::lemma_find_stat_found(self.stats(), player_id@, today);
            }
            assert(spec_stat_field(find_stat(self.stats(), player_id@, today), GameType::Login)
                == 0);
        }
        let reward = Reward {
            id: fresh_id(),
            player_id: player_id.to_string(),
            game: GameType::Login,
            amount,
            timestamp: now_ts,
            claimed: false,
            game_data: GameData::Login { streak: new_streak },
            transaction_signature: None,
        };
        match self.storage.create_reward(&reward) {
            Ok(()) => (),
            Err(e) => {
                return Err(e);
            },
        }
        match self.update_daily_stats(player_id, GameType::Login, amount, today) {
            Ok(()) => (),
            Err(e) => {
                return Err(e);
            },
        }
        Ok(
            RewardResponse {
                reward: Some(reward),
                success: true,
                message: "Login reward processed successfully".to_string(),
                daily_limit_reached: false,
            },
        )
    }

    /// Process welcome event: at most one unclaimed welcome bonus per
    /// player.
    pub fn process_welcome_event(&mut self, player_id: &str, now_ts: u64) -> (r: PokemonResult<
        RewardResponse,
    >)
        requires
            old(self).wf(),
        ensures
            final(self).wf(),
            welcome_outcome(*old(self), *final(self), player_id@, now_ts, r),
    {
        let already = match self.storage.has_welcome_bonus(player_id) {
            Ok(b) => b,
            Err(e) => {
                return Err(e);
            },
        };
        if already {
            return Ok(
                RewardResponse {
                    reward: None,
                    success: false,
                    message: "Welcome bonus already claimed".to_string(),
                    daily_limit_reached: false,
                },
            );
        }
        let amount = self.calculator.get_welcome_reward();
        let reward = Reward {
            id: fresh_id(),
            player_id: player_id.to_string(),
            game: GameType::Welcome,
            amount,
            timestamp: now_ts,
            claimed: false,
            game_data: GameData::Welcome,
            transaction_signature: None,
        };
        match self.storage.create_reward(&reward) {
            Ok(()) => (),
            Err(e) => {
                return Err(e);
            },
        }
        Ok(
            RewardResponse {
                reward: Some(reward),
                success: true,
                message: "Welcome bonus processed successfully".to_string(),
                daily_limit_reached: false,
            },
        )
    }
}

} // verus!
