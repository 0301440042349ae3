//! The library's stated laws: properties that hold of every run of the
//! engine, proved from the contracts in the other modules.

use vstd::prelude::*;

use crate::calculator::{spec_battle_amount, spec_flypoke_amount, spec_streak_bonus};
use crate::config::streak_table_sorted;
use crate::models::{BattleEventData, FlyPokeEventData, GameType, Reward};
use crate::reward_engine::{
    RewardEngine, battle_outcome, day_of, flypoke_outcome, login_is_repeat, login_outcome,
    response_rejected, spec_stat_field, unchanged_state, welcome_outcome,
};
use crate::storage::{
    claim_all_spec, find_stat, find_streak, has_unclaimed_welcome, is_unclaimed_welcome,
    reward_is_pending_for,
};
use crate::error::PokemonResult;
use crate::models::RewardResponse;

verus! {

/// In a well-formed engine no day's FlyPoke or Battle sum exceeds its
/// configured daily limit, whatever sequence of events produced the state.
pub proof fn lemma_daily_caps_respected(e: RewardEngine)
    requires
        e.wf(),
    ensures
        forall|i: int|
            0 <= i < e.stats().len() ==> (#[trigger] e.stats()[i]).flypoke
                <= e.cfg().rewards.flypoke.daily_limit,
        forall|i: int|
            0 <= i < e.stats().len() ==> (#[trigger] e.stats()[i]).battle
                <= e.cfg().rewards.battle.daily_limit,
{
}

/// A FlyPoke event whose amount would push the day's FlyPoke sum past the
/// daily limit is rejected with the limit flag set and changes nothing.
pub proof fn lemma_flypoke_limit_rejects(
    pre: RewardEngine,
    post: RewardEngine,
    p: Seq<char>,
    data: FlyPokeEventData,
    now_ts: u64,
    r: PokemonResult<RewardResponse>,
)
    requires
        flypoke_outcome(pre, post, p, data, now_ts, r),
        spec_stat_field(find_stat(pre.stats(), p, day_of(now_ts)), GameType::FlyPoke)
            + spec_flypoke_amount(data.score, data.is_new_high_score)
            > pre.cfg().rewards.flypoke.daily_limit,
    ensures
        r matches Ok(resp) && response_rejected(resp, "Daily limit reached for FlyPoke"@, true),
        unchanged_state(pre, post),
{
}

/// A Battle event whose amount would push the day's Battle sum past the
/// daily limit is rejected with the limit flag set and changes nothing.
pub proof fn lemma_battle_limit_rejects(
    pre: RewardEngine,
    post: RewardEngine,
    p: Seq<char>,
    data: BattleEventData,
    now_ts: u64,
    r: PokemonResult<RewardResponse>,
)
    requires
        battle_outcome(pre, post, p, data, now_ts, r),
        spec_stat_field(find_stat(pre.stats(), p, day_of(now_ts)), GameType::Battle)
            + spec_battle_amount(pre.cfg(), data.level, data.streak)
            > pre.cfg().rewards.battle.daily_limit,
    ensures
        r matches Ok(resp) && response_rejected(resp, "Daily limit reached for Battle"@, true),
        unchanged_state(pre, post),
{
}

/// Logins on consecutive UTC days strictly increase the streak: after an
/// accepted login, a login on the very next day is accepted and records a
/// streak exactly one longer.
pub proof fn lemma_login_streak_increases(
    pre: RewardEngine,
    mid: RewardEngine,
    post: RewardEngine,
    p: Seq<char>,
    ts1: u64,
    ts2: u64,
    r1: PokemonResult<RewardResponse>,
    r2: PokemonResult<RewardResponse>,
)
    requires
        login_outcome(pre, mid, p, ts1, r1),
        !login_is_repeat(find_streak(pre.streaks(), p), day_of(ts1)),
        login_outcome(mid, post, p, ts2, r2),
        day_of(ts2) == day_of(ts1) + 1,
    ensures
        r1 matches Ok(resp1) && resp1.success,
        r2 matches Ok(resp2) && resp2.success,
        match (find_streak(mid.streaks(), p), find_streak(post.streaks(), p)) {
            (Some(st1), Some(st2)) => st2.current_streak == st1.current_streak + 1,
            _ => false,
        },
{
}

/// A second login submission on the same UTC day is rejected and mutates
/// nothing.
pub proof fn lemma_login_same_day_rejected(
    pre: RewardEngine,
    mid: RewardEngine,
    post: RewardEngine,
    p: Seq<char>,
    ts1: u64,
    ts2: u64,
    r1: PokemonResult<RewardResponse>,
    r2: PokemonResult<RewardResponse>,
)
    requires
        login_outcome(pre, mid, p, ts1, r1),
        !login_is_repeat(find_streak(pre.streaks(), p), day_of(ts1)),
        login_outcome(mid, post, p, ts2, r2),
        day_of(ts2) == day_of(ts1),
    ensures
        r1 matches Ok(resp1) && resp1.success,
        r2 matches Ok(resp2) && response_rejected(resp2, "Already logged in today"@, false),
        unchanged_state(mid, post),
{
}

/// Skipping a day (or more) resets the streak to 1 on the next accepted
/// login.
pub proof fn lemma_login_gap_resets(
    pre: RewardEngine,
    post: RewardEngine,
    p: Seq<char>,
    ts: u64,
    r: PokemonResult<RewardResponse>,
)
    requires
        login_outcome(pre, post, p, ts, r),
        match find_streak(pre.streaks(), p) {
            Some(st) => st.last_login_date + 1 < day_of(ts),
            None => true,
        },
    ensures
        r matches Ok(resp) && resp.success,
        match find_streak(post.streaks(), p) {
            Some(st) => st.current_streak == 1 && st.last_login_date == day_of(ts),
            None => false,
        },
{
}

/// With a streak table sorted by strictly descending threshold, the login
/// lookup resolves to the highest satisfied threshold: for every satisfied
/// entry `j`, the bonus returned belongs to a satisfied entry whose
/// threshold is at least as high.  In particular a streak that meets a high
/// threshold never takes a lower threshold's bonus.
pub proof fn lemma_streak_bonus_highest_first(t: Seq<(u32, u64)>, streak: u32, j: int)
    requires
        streak_table_sorted(t),
        0 <= j < t.len(),
        streak >= t[j].0,
    ensures
        exists|i: int|
            {
                &&& 0 <= i < t.len()
                &&& streak >= (#[trigger] t[i]).0
                &&& t[i].0 >= t[j].0
                &&& spec_streak_bonus(t, streak) == Some(t[i].1)
            },
    decreases t.len(),
{
    if streak >= t[0].0 {
        if j > 0 {
            lemma_sorted_front_largest(t, j);
        }
        assert(0 <= 0 < t.len() && streak >= t[0].0 && t[0].0 >= t[j].0 && spec_streak_bonus(
            t,
            streak,
        ) == Some(t[0].1));
    } else {
        let rest = t.drop_first();
        assert(streak_table_sorted(rest)) by {
            assert forall|i: int| 1 <= i < rest.len() implies (#[trigger] rest[i]).0 < rest[i
                - 1].0 by {
                assert(rest[i] == t[i + 1]);
                assert(rest[i - 1] == t[i]);
            }
        }
        lemma_streak_bonus_highest_first(rest, streak, j - 1);
        let i = choose|i: int|
            {
                &&& 0 <= i < rest.len()
                &&& streak >= (#[trigger] rest[i]).0
                &&& rest[i].0 >= rest[j - 1].0
                &&& spec_streak_bonus(rest, streak) == Some(rest[i].1)
            };
        assert(t[i + 1] == rest[i]);
        assert(0 <= i + 1 < t.len() && streak >= t[i + 1].0 && t[i + 1].0 >= t[j].0
            && spec_streak_bonus(t, streak) == Some(t[i + 1].1));
    }
}

/// In a strictly descending table the first threshold is the largest.
proof fn lemma_sorted_front_largest(t: Seq<(u32, u64)>, j: int)
    requires
        streak_table_sorted(t),
        0 < j < t.len(),
    ensures
        t[0].0 > t[j].0,
    decreases j,
{
    if j > 1 {
        lemma_sorted_front_largest(t, j - 1);
    }
}

/// The welcome bonus is granted at most once: after a first successful
/// welcome submission, a second one is rejected and creates no record.
pub proof fn lemma_welcome_at_most_once(
    pre: RewardEngine,
    mid: RewardEngine,
    post: RewardEngine,
    p: Seq<char>,
    ts1: u64,
    ts2: u64,
    r1: PokemonResult<RewardResponse>,
    r2: PokemonResult<RewardResponse>,
)
    requires
        welcome_outcome(pre, mid, p, ts1, r1),
        !has_unclaimed_welcome(pre.rewards(), p),
        welcome_outcome(mid, post, p, ts2, r2),
    ensures
        r1 matches Ok(resp1) && resp1.success,
        r2 matches Ok(resp2) && response_rejected(resp2, "Welcome bonus already claimed"@, false),
        post.rewards() == mid.rewards(),
{
    let rw = match r1 {
        Ok(resp1) => resp1.reward.unwrap(),
        Err(_) => arbitrary(),
    };
    assert(mid.rewards()[mid.rewards().len() - 1] == rw);
    assert(is_unclaimed_welcome(rw, p));
    assert(has_unclaimed_welcome(mid.rewards(), p));
}

/// A daily aggregate's total always equals the sum of its per-game fields,
/// for any reachable engine state.
pub proof fn lemma_aggregate_total_consistent(e: RewardEngine)
    requires
        e.wf(),
    ensures
        forall|i: int|
            0 <= i < e.stats().len() ==> (#[trigger] e.stats()[i]).total == e.stats()[i].flypoke
                + e.stats()[i].battle + e.stats()[i].login,
{
}

/// Nothing passes a filter whose predicate rejects every element.
proof fn lemma_filter_all_false<A>(s: Seq<A>, pred: spec_fn(A) -> bool)
    requires
        forall|i: int| 0 <= i < s.len() ==> !pred(#[trigger] s[i]),
    ensures
        s.filter(pred) =~= Seq::<A>::empty(),
    decreases s.len(),
{
    reveal(Seq::filter);
    if s.len() > 0 {
        lemma_filter_all_false(s.drop_last(), pred);
    }
}

/// Claiming all of a player's rewards is idempotent: claiming again changes
/// nothing.
pub proof fn lemma_claim_all_idempotent(s: Seq<Reward>, p: Seq<char>)
    ensures
        claim_all_spec(claim_all_spec(s, p), p) == claim_all_spec(s, p),
{
    assert(claim_all_spec(claim_all_spec(s, p), p) =~= claim_all_spec(s, p));
}

/// After claim-all, the player has no pending rewards.
pub proof fn lemma_claim_all_clears_pending(s: Seq<Reward>, p: Seq<char>)
    ensures
        claim_all_spec(s, p).filter(|rw: Reward| reward_is_pending_for(rw, p)) =~= Seq::<
            Reward,
        >::empty(),
{
    let claimed = claim_all_spec(s, p);
    assert forall|i: int| 0 <= i < claimed.len() implies !reward_is_pending_for(
        #[trigger] claimed[i],
        p,
    ) by {}
    lemma_filter_all_false(claimed, |rw: Reward| reward_is_pending_for(rw, p));
}

} // verus!
