//! In-memory persistence for rewards, daily aggregates and login streaks.
//!
//! `MemoryStorage` is the reference storage implementation.  Rewards form an
//! append-only log; daily aggregates and streaks are keyed collections with
//! at most one entry per key, looked up first-match.

use vstd::prelude::*;
use vstd::pervasive::VecAdditionalExecFns;

use crate::error::{PokemonEngineError, PokemonResult};
use crate::models::{DailyStats, GameType, LoginStreak, Reward};
use crate::strutil::{concat_u128, spec_u128_decimal, str_eq};

verus! {

/// The reward belongs to the player.
pub open spec fn reward_is_for(r: Reward, p: Seq<char>) -> bool {
    r.player_id@ == p
}

/// The reward belongs to the player and is still unclaimed.
pub open spec fn reward_is_pending_for(r: Reward, p: Seq<char>) -> bool {
    r.player_id@ == p && !r.claimed
}

/// The reward is an unclaimed welcome bonus of the player.
pub open spec fn is_unclaimed_welcome(r: Reward, p: Seq<char>) -> bool {
    r.player_id@ == p && r.game == GameType::Welcome && !r.claimed
}

/// Some unclaimed welcome bonus of the player is on record.
pub open spec fn has_unclaimed_welcome(s: Seq<Reward>, p: Seq<char>) -> bool {
    exists|i: int| 0 <= i < s.len() && is_unclaimed_welcome(#[trigger] s[i], p)
}

/// The same reward, marked claimed.
pub open spec fn claimed_reward(r: Reward) -> Reward {
    Reward { claimed: true, ..r }
}

/// Every reward of the player marked claimed; all others untouched.
pub open spec fn claim_all_spec(s: Seq<Reward>, p: Seq<char>) -> Seq<Reward> {
    Seq::new(
        s.len(),
        |i: int|
            if reward_is_for(s[i], p) {
                claimed_reward(s[i])
            } else {
                s[i]
            },
    )
}

/// The aggregate entry is keyed by this player and date.
pub open spec fn stat_key_is(s: DailyStats, p: Seq<char>, d: u64) -> bool {
    s.player_id@ == p && s.date == d
}

/// First aggregate entry keyed by (`p`, `d`), if any.
pub open spec fn find_stat(s: Seq<DailyStats>, p: Seq<char>, d: u64) -> Option<DailyStats>
    decreases s.len(),
{
    if s.len() == 0 {
        None
    } else if stat_key_is(s[0], p, d) {
        Some(s[0])
    } else {
        find_stat(s.drop_first(), p, d)
    }
}

/// A successful lookup returns an entry that carries the key and stands in
/// the collection.
pub proof fn lemma_find_stat_found(s: Seq<DailyStats>, p: Seq<char>, d: u64)
    requires
        find_stat(s, p, d) is Some,
    ensures
        stat_key_is(find_stat(s, p, d).unwrap(), p, d),
        exists|i: int| 0 <= i < s.len() && #[trigger] s[i] == find_stat(s, p, d).unwrap(),
    decreases s.len(),
{
    if stat_key_is(s[0], p, d) {
        assert(s[0] == find_stat(s, p, d).unwrap());
    } else {
        lemma_find_stat_found(s.drop_first(), p, d);
        let st = find_stat(s, p, d).unwrap();
        let i = choose|i: int| 0 <= i < s.drop_first().len() && #[trigger] s.drop_first()[i] == st;
        assert(s[i + 1] == st);
    }
}

/// The streak entry is keyed by this player.
pub open spec fn streak_key_is(s: LoginStreak, p: Seq<char>) -> bool {
    s.player_id@ == p
}

/// First streak entry keyed by `p`, if any.
pub open spec fn find_streak(s: Seq<LoginStreak>, p: Seq<char>) -> Option<LoginStreak>
    decreases s.len(),
{
    if s.len() == 0 {
        None
    } else if streak_key_is(s[0], p) {
        Some(s[0])
    } else {
        find_streak(s.drop_first(), p)
    }
}

/// If position `i` holds the first entry keyed by (`p`, `d`), the lookup
/// returns it.
pub proof fn lemma_find_stat_at(s: Seq<DailyStats>, p: Seq<char>, d: u64, i: int)
    requires
        0 <= i < s.len(),
        stat_key_is(s[i], p, d),
        forall|j: int| 0 <= j < i ==> !stat_key_is(#[trigger] s[j], p, d),
    ensures
        find_stat(s, p, d) == Some(s[i]),
    decreases i,
{
    if i > 0 {
        assert(forall|j: int|
            0 <= j < i - 1 ==> !stat_key_is(#[trigger] s.drop_first()[j], p, d));
        lemma_find_stat_at(s.drop_first(), p, d, i - 1);
    }
}

/// If no entry is keyed by (`p`, `d`), the lookup returns nothing.
pub proof fn lemma_find_stat_none(s: Seq<DailyStats>, p: Seq<char>, d: u64)
    requires
        forall|j: int| 0 <= j < s.len() ==> !stat_key_is(#[trigger] s[j], p, d),
    ensures
        find_stat(s, p, d) is None,
    decreases s.len(),
{
    if s.len() > 0 {
        lemma_find_stat_none(s.drop_first(), p, d);
    }
}

/// Replacing an entry leaves lookups under every other key unchanged,
/// provided the replacement keeps clear of that key as well.
pub proof fn lemma_find_stat_update_frame(
    s: Seq<DailyStats>,
    i: int,
    v: DailyStats,
    p: Seq<char>,
    d: u64,
)
    requires
        0 <= i < s.len(),
        !stat_key_is(s[i], p, d),
        !stat_key_is(v, p, d),
    ensures
        find_stat(s.update(i, v), p, d) == find_stat(s, p, d),
    decreases i,
{
    let s2 = s.update(i, v);
    if i == 0 {
        assert(s2.drop_first() =~= s.drop_first());
    } else {
        assert(s2[0] == s[0]);
        if !stat_key_is(s[0], p, d) {
            assert(s2.drop_first() =~= s.drop_first().update(i - 1, v));
            lemma_find_stat_update_frame(s.drop_first(), i - 1, v, p, d);
        }
    }
}

/// Appending an entry leaves lookups under every other key unchanged.
pub proof fn lemma_find_stat_push_frame(s: Seq<DailyStats>, v: DailyStats, p: Seq<char>, d: u64)
    requires
        !stat_key_is(v, p, d),
    ensures
        find_stat(s.push(v), p, d) == find_stat(s, p, d),
    decreases s.len(),
{
    if s.len() == 0 {
        assert(find_stat(Seq::<DailyStats>::empty(), p, d) is None);
        assert(s.push(v)[0] == v);
        assert(s.push(v).drop_first() =~= Seq::<DailyStats>::empty());
        assert(find_stat(s.push(v), p, d) is None);
    } else {
        assert(s.push(v)[0] == s[0]);
        assert(s.push(v).drop_first() =~= s.drop_first().push(v));
        lemma_find_stat_push_frame(s.drop_first(), v, p, d);
        if stat_key_is(s[0], p, d) {
            assert(find_stat(s.push(v), p, d) == Some(s[0]));
            assert(find_stat(s, p, d) == Some(s[0]));
        } else {
            assert(find_stat(s.push(v), p, d) == find_stat(s.drop_first().push(v), p, d));
            assert(find_stat(s, p, d) == find_stat(s.drop_first(), p, d));
        }
    }
}

/// If position `i` holds the first entry keyed by `p`, the lookup returns
/// it.
pub proof fn lemma_find_streak_at(s: Seq<LoginStreak>, p: Seq<char>, i: int)
    requires
        0 <= i < s.len(),
        streak_key_is(s[i], p),
        forall|j: int| 0 <= j < i ==> !streak_key_is(#[trigger] s[j], p),
    ensures
        find_streak(s, p) == Some(s[i]),
    decreases i,
{
    if i > 0 {
        assert(forall|j: int| 0 <= j < i - 1 ==> !streak_key_is(#[trigger] s.drop_first()[j], p));
        lemma_find_streak_at(s.drop_first(), p, i - 1);
    }
}

/// If no entry is keyed by `p`, the lookup returns nothing.
pub proof fn lemma_find_streak_none(s: Seq<LoginStreak>, p: Seq<char>)
    requires
        forall|j: int| 0 <= j < s.len() ==> !streak_key_is(#[trigger] s[j], p),
    ensures
        find_streak(s, p) is None,
    decreases s.len(),
{
    if s.len() > 0 {
        lemma_find_streak_none(s.drop_first(), p);
    }
}

/// A successful lookup returns an entry that carries the key and stands in
/// the collection.
pub proof fn lemma_find_streak_found(s: Seq<LoginStreak>, p: Seq<char>)
    requires
        find_streak(s, p) is Some,
    ensures
        streak_key_is(find_streak(s, p).unwrap(), p),
        exists|i: int| 0 <= i < s.len() && #[trigger] s[i] == find_streak(s, p).unwrap(),
    decreases s.len(),
{
    if streak_key_is(s[0], p) {
        assert(s[0] == find_streak(s, p).unwrap());
    } else {
        lemma_find_streak_found(s.drop_first(), p);
        let st = find_streak(s, p).unwrap();
        let i = choose|i: int| 0 <= i < s.drop_first().len() && #[trigger] s.drop_first()[i] == st;
        assert(s[i + 1] == st);
    }
}

/// Replacing a streak entry leaves lookups under every other player
/// unchanged, provided the replacement keeps clear of that player as well.
pub proof fn lemma_find_streak_update_frame(s: Seq<LoginStreak>, i: int, v: LoginStreak, p: Seq<char>)
    requires
        0 <= i < s.len(),
        !streak_key_is(s[i], p),
        !streak_key_is(v, p),
    ensures
        find_streak(s.update(i, v), p) == find_streak(s, p),
    decreases i,
{
    let s2 = s.update(i, v);
    if i == 0 {
        assert(s2.drop_first() =~= s.drop_first());
    } else {
        assert(s2[0] == s[0]);
        if !streak_key_is(s[0], p) {
            assert(s2.drop_first() =~= s.drop_first().update(i - 1, v));
            lemma_find_streak_update_frame(s.drop_first(), i - 1, v, p);
        }
    }
}

/// Appending a streak entry leaves lookups under every other player
/// unchanged.
pub proof fn lemma_find_streak_push_frame(s: Seq<LoginStreak>, v: LoginStreak, p: Seq<char>)
    requires
        !streak_key_is(v, p),
    ensures
        find_streak(s.push(v), p) == find_streak(s, p),
    decreases s.len(),
{
    if s.len() == 0 {
        assert(find_streak(Seq::<LoginStreak>::empty(), p) is None);
        assert(s.push(v)[0] == v);
        assert(s.push(v).drop_first() =~= Seq::<LoginStreak>::empty());
        assert(find_streak(s.push(v), p) is None);
    } else {
        assert(s.push(v)[0] == s[0]);
        assert(s.push(v).drop_first() =~= s.drop_first().push(v));
        lemma_find_streak_push_frame(s.drop_first(), v, p);
        if streak_key_is(s[0], p) {
            assert(find_streak(s.push(v), p) == Some(s[0]));
            assert(find_streak(s, p) == Some(s[0]));
        } else {
            assert(find_streak(s.push(v), p) == find_streak(s.drop_first().push(v), p));
            assert(find_streak(s, p) == find_streak(s.drop_first(), p));
        }
    }
}

/// In-memory storage implementation.
pub struct MemoryStorage {
    rewards: Vec<Reward>,
    daily_stats: Vec<DailyStats>,
    login_streaks: Vec<LoginStreak>,
}

impl MemoryStorage {
    /// The reward log, in creation order.
    pub closed spec fn rewards_seq(self) -> Seq<Reward> {
        self.rewards@
    }

    /// The daily aggregate entries.
    pub closed spec fn stats_seq(self) -> Seq<DailyStats> {
        self.daily_stats@
    }

    /// The login streak entries.
    pub closed spec fn streaks_seq(self) -> Seq<LoginStreak> {
        self.login_streaks@
    }

    pub fn new() -> (s: Self)
        ensures
            s.rewards_seq() == Seq::<Reward>::empty(),
            s.stats_seq() == Seq::<DailyStats>::empty(),
            s.streaks_seq() == Seq::<LoginStreak>::empty(),
    {
        Self { rewards: Vec::new(), daily_stats: Vec::new(), login_streaks: Vec::new() }
    }

    /// Create a new reward: append it to the log.
    pub fn create_reward(&mut self, reward: &Reward) -> (r: PokemonResult<()>)
        ensures
            r is Ok,
            final(self).rewards_seq() == old(self).rewards_seq().push(*reward),
            final(self).stats_seq() == old(self).stats_seq(),
            final(self).streaks_seq() == old(self).streaks_seq(),
    {
        self.rewards.push(reward.clone());
        Ok(())
    }

    /// Get all rewards for a player, in creation order.
    pub fn get_rewards(&self, player_id: &str) -> (r: PokemonResult<Vec<Reward>>)
        ensures
            r matches Ok(v) && v@ == self.rewards_seq().filter(
                |rw: Reward| reward_is_for(rw, player_id@),
            ),
    {
        let n = self.rewards.len();
        let mut out: Vec<Reward> = Vec::new();
        let mut i: usize = 0;
        proof {
            assert(self.rewards@.take(0) =~= Seq::<Reward>::empty());
            reveal(Seq::filter);
        }
        while i < n
            invariant
                i <= n,
                n == self.rewards.len(),
                out@ == self.rewards@.take(i as int).filter(
                    |rw: Reward| reward_is_for(rw, player_id@),
                ),
            decreases n - i,
        {
            let rw = &self.rewards[i];
            proof {
                let pred = |rw: Reward| reward_is_for(rw, player_id@);
                let cur = self.rewards@.take(i + 1);
                assert(cur.drop_last() =~= self.rewards@.take(i as int));
                assert(cur.last() == self.rewards@[i as int]);
                reveal(Seq::filter);
            }
            if str_eq(rw.player_id.as_str(), player_id) {
                out.push(rw.clone());
            }
            i = i + 1;
        }
        proof {
            assert(self.rewards@.take(n as int) =~= self.rewards@);
        }
        Ok(out)
    }

    /// Get pending (unclaimed) rewards for a player, in creation order.
    pub fn get_pending_rewards(&self, player_id: &str) -> (r: PokemonResult<Vec<Reward>>)
        ensures
            r matches Ok(v) && v@ == self.rewards_seq().filter(
                |rw: Reward| reward_is_pending_for(rw, player_id@),
            ),
    {
        let n = self.rewards.len();
        let mut out: Vec<Reward> = Vec::new();
        let mut i: usize = 0;
        proof {
            assert(self.rewards@.take(0) =~= Seq::<Reward>::empty());
            reveal(Seq::filter);
        }
        while i < n
            invariant
                i <= n,
                n == self.rewards.len(),
                out@ == self.rewards@.take(i as int).filter(
                    |rw: Reward| reward_is_pending_for(rw, player_id@),
                ),
            decreases n - i,
        {
            let rw = &self.rewards[i];
            proof {
                let cur = self.rewards@.take(i + 1);
                assert(cur.drop_last() =~= self.rewards@.take(i as int));
                assert(cur.last() == self.rewards@[i as int]);
                reveal(Seq::filter);
            }
            if !rw.claimed && str_eq(rw.player_id.as_str(), player_id) {
                out.push(rw.clone());
            }
            i = i + 1;
        }
        proof {
            assert(self.rewards@.take(n as int) =~= self.rewards@);
        }
        Ok(out)
    }

    /// Mark one reward claimed by id; "not found" if no reward carries it.
    pub fn mark_reward_claimed(&mut self, reward_id: u128) -> (r: PokemonResult<()>)
        ensures
            final(self).stats_seq() == old(self).stats_seq(),
            final(self).streaks_seq() == old(self).streaks_seq(),
            match r {
                Ok(()) => exists|i: int|
                    {
                        &&& 0 <= i < old(self).rewards_seq().len()
                        &&& #[trigger] old(self).rewards_seq()[i].id == reward_id
                        &&& (forall|j: int|
                            0 <= j < i ==> #[trigger] old(self).rewards_seq()[j].id != reward_id)
                        &&& final(self).rewards_seq() == old(self).rewards_seq().update(
                            i,
                            claimed_reward(old(self).rewards_seq()[i]),
                        )
                    },
                Err(e) => {
                    &&& final(self).rewards_seq() == old(self).rewards_seq()
                    &&& (forall|i: int|
                        0 <= i < old(self).rewards_seq().len()
                            ==> #[trigger] old(self).rewards_seq()[i].id != reward_id)
                    &&& e matches PokemonEngineError::Storage(m) && m@ == "Reward not found: "@
                        + spec_u128_decimal(reward_id)
                },
            },
    {
        let n = self.rewards.len();
        let mut i: usize = 0;
        while i < n
            invariant
                i <= n,
                n == self.rewards.len(),
                forall|j: int| 0 <= j < i ==> #[trigger] self.rewards@[j].id != reward_id,
                *self == *old(self),
            decreases n - i,
        {
            if self.rewards[i].id == reward_id {
                let mut rw = self.rewards[i].clone();
                rw.claimed = true;
                proof {
                    assert(rw == claimed_reward(self.rewards@[i as int]));
                }
                self.rewards.set(i, rw);
                return Ok(());
            }
            i = i + 1;
        }
        Err(PokemonEngineError::Storage(concat_u128("Reward not found: ", reward_id)))
    }

    /// Mark all pending rewards claimed for a player.
    pub fn mark_all_rewards_claimed(&mut self, player_id: &str) -> (r: PokemonResult<()>)
        ensures
            r is Ok,
            final(self).rewards_seq() == claim_all_spec(old(self).rewards_seq(), player_id@),
            final(self).stats_seq() == old(self).stats_seq(),
            final(self).streaks_seq() == old(self).streaks_seq(),
    {
        let n = self.rewards.len();
        let mut i: usize = 0;
        while i < n
            invariant
                i <= n,
                n == self.rewards.len(),
                n == old(self).rewards.len(),
                self.daily_stats@ == old(self).daily_stats@,
                self.login_streaks@ == old(self).login_streaks@,
                forall|j: int|
                    i <= j < n ==> #[trigger] self.rewards@[j] == old(self).rewards@[j],
                forall|j: int|
                    0 <= j < i ==> #[trigger] self.rewards@[j] == claim_all_spec(
                        old(self).rewards@,
                        player_id@,
                    )[j],
            decreases n - i,
        {
            let claimed = self.rewards[i].claimed;
            if !claimed && str_eq(self.rewards[i].player_id.as_str(), player_id) {
                let mut rw = self.rewards[i].clone();
                rw.claimed = true;
                self.rewards.set(i, rw);
            }
            i = i + 1;
        }
        proof {
            assert(self.rewards_seq() =~= claim_all_spec(
                old(self).rewards_seq(),
                player_id@,
            ));
        }
        Ok(())
    }

    /// Get the daily aggregate for a player and date, if one exists.
    pub fn get_daily_stats(&self, player_id: &str, date: u64) -> (r: PokemonResult<
        Option<DailyStats>,
    >)
        ensures
            r matches Ok(o) && o == find_stat(self.stats_seq(), player_id@, date),
    {
        let n = self.daily_stats.len();
        let mut i: usize = 0;
        while i < n
            invariant
                i <= n,
                n == self.daily_stats.len(),
                forall|j: int|
                    0 <= j < i ==> !stat_key_is(#[trigger] self.daily_stats@[j], player_id@, date),
            decreases n - i,
        {
            let entry = &self.daily_stats[i];
            if entry.date == date && str_eq(entry.player_id.as_str(), player_id) {
                proof {
                    lemma_find_stat_at(self.daily_stats@, player_id@, date, i as int);
                }
                return Ok(Some(entry.clone()));
            }
            i = i + 1;
        }
        proof {
            lemma_find_stat_none(self.daily_stats@, player_id@, date);
        }
        Ok(None)
    }

    /// Create or replace the daily aggregate under its (player, date) key.
    pub fn update_daily_stats(&mut self, stats: &DailyStats) -> (r: PokemonResult<()>)
        ensures
            r is Ok,
            final(self).rewards_seq() == old(self).rewards_seq(),
            final(self).streaks_seq() == old(self).streaks_seq(),
            find_stat(final(self).stats_seq(), stats.player_id@, stats.date) == Some(*stats),
            forall|p: Seq<char>, d: u64|
                !(p == stats.player_id@ && d == stats.date) ==> #[trigger] find_stat(
                    final(self).stats_seq(),
                    p,
                    d,
                ) == find_stat(old(self).stats_seq(), p, d),
            (exists|i: int|
                {
                    &&& 0 <= i < old(self).stats_seq().len()
                    &&& stat_key_is(#[trigger] old(self).stats_seq()[i], stats.player_id@,
                    stats.date)
                    &&& final(self).stats_seq() == old(self).stats_seq().update(i, *stats)
                }) || (find_stat(old(self).stats_seq(), stats.player_id@, stats.date) is None
                && final(self).stats_seq() == old(self).stats_seq().push(*stats)),
    {
        let n = self.daily_stats.len();
        let mut i: usize = 0;
        while i < n
            invariant
                i <= n,
                n == self.daily_stats.len(),
                *self == *old(self),
                forall|j: int|
                    0 <= j < i ==> !stat_key_is(
                        #[trigger] self.daily_stats@[j],
                        stats.player_id@,
                        stats.date,
                    ),
            decreases n - i,
        {
            let entry = &self.daily_stats[i];
            if entry.date == stats.date && str_eq(entry.player_id.as_str(), stats.player_id.as_str()) {
                self.daily_stats.set(i, stats.clone());
                proof {
                    let s2 = self.stats_seq();
                    lemma_find_stat_at(s2, stats.player_id@, stats.date, i as int);
                    assert forall|p: Seq<char>, d: u64|
                        !(p == stats.player_id@ && d == stats.date) implies #[trigger] find_stat(
                        s2,
                        p,
                        d,
                    ) == find_stat(old(self).stats_seq(), p, d) by {
                        lemma_find_stat_update_frame(
                            old(self).stats_seq(),
                            i as int,
                            *stats,
                            p,
                            d,
                        );
                    }
                }
                return Ok(());
            }
            i = i + 1;
        }
        proof {
            lemma_find_stat_none(self.daily_stats@, stats.player_id@, stats.date);
        }
        self.daily_stats.push(stats.clone());
        proof {
            let s2 = self.stats_seq();
            let olds = old(self).stats_seq();
            assert(s2 == olds.push(*stats));
            assert(s2[olds.len() as int] == *stats);
            assert(forall|j: int| 0 <= j < olds.len() ==> #[trigger] s2[j] == olds[j]);
            lemma_find_stat_at(s2, stats.player_id@, stats.date, olds.len() as int);
            assert forall|p: Seq<char>, d: u64|
                !(p == stats.player_id@ && d == stats.date) implies #[trigger] find_stat(s2, p, d)
                == find_stat(olds, p, d) by {
                lemma_find_stat_push_frame(olds, *stats, p, d);
            }
        }
        Ok(())
    }

    /// Get the login streak for a player, if one exists.
    pub fn get_login_streak(&self, player_id: &str) -> (r: PokemonResult<Option<LoginStreak>>)
        ensures
            r matches Ok(o) && o == find_streak(self.streaks_seq(), player_id@),
    {
        let n = self.login_streaks.len();
        let mut i: usize = 0;
        while i < n
            invariant
                i <= n,
                n == self.login_streaks.len(),
                forall|j: int|
                    0 <= j < i ==> !streak_key_is(#[trigger] self.login_streaks@[j], player_id@),
            decreases n - i,
        {
            let entry = &self.login_streaks[i];
            if str_eq(entry.player_id.as_str(), player_id) {
                proof {
                    lemma_find_streak_at(self.login_streaks@, player_id@, i as int);
                }
                return Ok(Some(entry.clone()));
            }
            i = i + 1;
        }
        proof {
            lemma_find_streak_none(self.login_streaks@, player_id@);
        }
        Ok(None)
    }

    /// Create or replace the login streak under its player key.
    pub fn update_login_streak(&mut self, streak: &LoginStreak) -> (r: PokemonResult<()>)
        ensures
            r is Ok,
            final(self).rewards_seq() == old(self).rewards_seq(),
            final(self).stats_seq() == old(self).stats_seq(),
            find_streak(final(self).streaks_seq(), streak.player_id@) == Some(*streak),
            forall|p: Seq<char>|
                p != streak.player_id@ ==> #[trigger] find_streak(final(self).streaks_seq(), p)
                    == find_streak(old(self).streaks_seq(), p),
            (exists|i: int|
                {
                    &&& 0 <= i < old(self).streaks_seq().len()
                    &&& streak_key_is(#[trigger] old(self).streaks_seq()[i], streak.player_id@)
                    &&& final(self).streaks_seq() == old(self).streaks_seq().update(i, *streak)
                }) || (find_streak(old(self).streaks_seq(), streak.player_id@) is None
                && final(self).streaks_seq() == old(self).streaks_seq().push(*streak)),
    {
        let n = self.login_streaks.len();
        let mut i: usize = 0;
        while i < n
            invariant
                i <= n,
                n == self.login_streaks.len(),
                *self == *old(self),
                forall|j: int|
                    0 <= j < i ==> !streak_key_is(
                        #[trigger] self.login_streaks@[j],
                        streak.player_id@,
                    ),
            decreases n - i,
        {
            let entry = &self.login_streaks[i];
            if str_eq(entry.player_id.as_str(), streak.player_id.as_str()) {
                self.login_streaks.set(i, streak.clone());
                proof {
                    let s2 = self.streaks_seq();
                    lemma_find_streak_at(s2, streak.player_id@, i as int);
                    assert forall|p: Seq<char>|
                        p != streak.player_id@ implies #[trigger] find_streak(s2, p)
                        == find_streak(old(self).streaks_seq(), p) by {
                        lemma_find_streak_update_frame(
                            old(self).streaks_seq(),
                            i as int,
                            *streak,
                            p,
                        );
                    }
                }
                return Ok(());
            }
            i = i + 1;
        }
        proof {
            lemma_find_streak_none(self.login_streaks@, streak.player_id@);
        }
        self.login_streaks.push(streak.clone());
        proof {
            let s2 = self.streaks_seq();
            let olds = old(self).streaks_seq();
            assert(s2[olds.len() as int] == *streak);
            assert(forall|j: int| 0 <= j < olds.len() ==> #[trigger] s2[j] == olds[j]);
            lemma_find_streak_at(s2, streak.player_id@, olds.len() as int);
            assert forall|p: Seq<char>|
                p != streak.player_id@ implies #[trigger] find_streak(s2, p) == find_streak(
                olds,
                p,
            ) by {
                lemma_find_streak_push_frame(olds, *streak, p);
            }
        }
        Ok(())
    }

    /// Check whether the player has an unclaimed welcome bonus on record.
    pub fn has_welcome_bonus(&self, player_id: &str) -> (r: PokemonResult<bool>)
        ensures
            r matches Ok(b) && b == has_unclaimed_welcome(self.rewards_seq(), player_id@),
    {
        let n = self.rewards.len();
        let mut i: usize = 0;
        while i < n
            invariant
                i <= n,
                n == self.rewards.len(),
                forall|j: int|
                    0 <= j < i ==> !is_unclaimed_welcome(#[trigger] self.rewards@[j], player_id@),
            decreases n - i,
        {
            let rw = &self.rewards[i];
            if !rw.claimed && matches!(rw.game, GameType::Welcome) && str_eq(
                rw.player_id.as_str(),
                player_id,
            ) {
                return Ok(true);
            }
            i = i + 1;
        }
        Ok(false)
    }
}

} // verus!
