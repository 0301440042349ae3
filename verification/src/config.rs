//! Static configuration of the reward engine: per-game amounts, daily
//! limits, and the login streak bonus table.

use vstd::prelude::*;

verus! {

/// Configuration for the reward engine.
pub struct Config {
    pub token_decimals: u8,
    pub rewards: RewardConfig,
    pub solana: SolanaConfig,
}

/// Reward configuration per game type.
pub struct RewardConfig {
    pub flypoke: FlyPokeConfig,
    pub battle: BattleConfig,
    pub pokematch: PokeMatchConfig,
    pub pokedex: PokedexConfig,
    pub login: LoginConfig,
    pub welcome: WelcomeConfig,
}

/// Solana connection configuration.
pub struct SolanaConfig {
    pub rpc_url: String,
    pub token_mint: Option<String>,
    pub reward_vault: Option<String>,
    pub commitment: String,
}

/// FlyPoke game configuration.
pub struct FlyPokeConfig {
    /// Daily cap in lamports (smallest token unit).
    pub daily_limit: u64,
}

/// Battle game configuration.
pub struct BattleConfig {
    pub daily_limit: u64,
    pub base_reward: u64,
}

/// PokeMatch game configuration.
pub struct PokeMatchConfig {
    pub daily_limit: u64,
    pub base_reward: u64,
    pub perfect_bonus: u64,
}

/// Pokedex game configuration.
pub struct PokedexConfig {
    pub base_reward: u64,
    pub rare_bonus: u64,
}

/// Login configuration.
///
/// `streak_rewards` maps a streak-length threshold to a bonus amount.  The
/// entries are kept sorted by strictly descending threshold so that a lookup
/// always finds the highest applicable threshold first.
pub struct LoginConfig {
    pub daily_reward: u64,
    pub streak_rewards: Vec<(u32, u64)>,
}

/// Welcome bonus configuration.
pub struct WelcomeConfig {
    pub reward: u64,
}

/// The largest bonus in a streak table.
pub open spec fn streak_table_max(t: Seq<(u32, u64)>) -> int
    decreases t.len(),
{
    if t.len() == 0 {
        0
    } else {
        let rest = streak_table_max(t.drop_first());
        if t[0].1 >= rest {
            t[0].1 as int
        } else {
            rest
        }
    }
}

/// The largest amount a single login event can award under `c`.
pub open spec fn max_login_amount(c: LoginConfig) -> int {
    if c.daily_reward >= streak_table_max(c.streak_rewards@) {
        c.daily_reward as int
    } else {
        streak_table_max(c.streak_rewards@)
    }
}

/// Thresholds of the streak table are strictly descending, so a first-match
/// scan always picks the highest applicable threshold.
pub open spec fn streak_table_sorted(t: Seq<(u32, u64)>) -> bool {
    forall|i: int| 1 <= i < t.len() ==> (#[trigger] t[i]).0 < t[i - 1].0
}

/// Well-formedness of a configuration: the streak table is ordered for
/// highest-first lookup, and the configured amounts are small enough that
/// the engine's additions cannot overflow a `u64`.
pub open spec fn config_wf(c: Config) -> bool {
    &&& streak_table_sorted(c.rewards.login.streak_rewards@)
    &&& c.rewards.pokematch.base_reward + c.rewards.pokematch.perfect_bonus <= u64::MAX
    &&& c.rewards.pokedex.base_reward + c.rewards.pokedex.rare_bonus <= u64::MAX
    &&& c.rewards.flypoke.daily_limit + c.rewards.battle.daily_limit + max_login_amount(
        c.rewards.login,
    ) <= u64::MAX
}

/// Field-by-field description of the default configuration.
pub open spec fn is_default_config(c: Config) -> bool {
    &&& c.token_decimals == 9u8
    &&& c.rewards.flypoke.daily_limit == 500_000_000_000u64
    &&& c.rewards.battle.daily_limit == 300_000_000_000u64
    &&& c.rewards.battle.base_reward == 50_000_000_000u64
    &&& c.rewards.pokematch.daily_limit == 200_000_000_000u64
    &&& c.rewards.pokematch.base_reward == 20_000_000_000u64
    &&& c.rewards.pokematch.perfect_bonus == 100_000_000_000u64
    &&& c.rewards.pokedex.base_reward == 10_000_000_000u64
    &&& c.rewards.pokedex.rare_bonus == 100_000_000_000u64
    &&& c.rewards.login.daily_reward == 20_000_000_000u64
    &&& c.rewards.login.streak_rewards@ == seq![
        (7u32, 50_000_000_000u64),
        (3u32, 30_000_000_000u64),
    ]
    &&& c.rewards.welcome.reward == 100_000_000_000u64
    &&& c.solana.rpc_url@ == "https://api.mainnet-beta.solana.com"@
    &&& c.solana.token_mint is None
    &&& c.solana.reward_vault is None
    &&& c.solana.commitment@ == "confirmed"@
}

impl Clone for FlyPokeConfig {
    fn clone(&self) -> (c: Self)
        ensures
            c == *self,
    {
        FlyPokeConfig { daily_limit: self.daily_limit }
    }
}

impl Clone for BattleConfig {
    fn clone(&self) -> (c: Self)
        ensures
            c == *self,
    {
        BattleConfig { daily_limit: self.daily_limit, base_reward: self.base_reward }
    }
}

impl Clone for PokeMatchConfig {
    fn clone(&self) -> (c: Self)
        ensures
            c == *self,
    {
        PokeMatchConfig {
            daily_limit: self.daily_limit,
            base_reward: self.base_reward,
            perfect_bonus: self.perfect_bonus,
        }
    }
}

impl Clone for PokedexConfig {
    fn clone(&self) -> (c: Self)
        ensures
            c == *self,
    {
        PokedexConfig { base_reward: self.base_reward, rare_bonus: self.rare_bonus }
    }
}

/// The table maximum is never negative.
pub proof fn lemma_streak_table_max_nonneg(t: Seq<(u32, u64)>)
    ensures
        streak_table_max(t) >= 0,
    decreases t.len(),
{
    if t.len() > 0 {
        lemma_streak_table_max_nonneg(t.drop_first());
    }
}

/// Check that the streak table's thresholds strictly descend.
fn table_sorted(t: &Vec<(u32, u64)>) -> (b: bool)
    ensures
        b == streak_table_sorted(t@),
{
    let n = t.len();
    let mut i: usize = 1;
    while i < n
        invariant
            1 <= i,
            i <= n || i == 1,
            n == t.len(),
            forall|j: int| 1 <= j < i ==> (#[trigger] t@[j]).0 < t@[j - 1].0,
        decreases n - i,
    {
        if t[i - 1].0 <= t[i].0 {
            return false;
        }
        i = i + 1;
    }
    true
}

/// Compute the largest bonus in the streak table.
fn streak_table_max_exec(t: &Vec<(u32, u64)>) -> (m: u64)
    ensures
        m as int == streak_table_max(t@),
{
    let n = t.len();
    let mut m: u64 = 0;
    let mut i: usize = 0;
    proof {
        assert(t@.skip(0) =~= t@);
        lemma_streak_table_max_nonneg(t@);
    }
    while i < n
        invariant
            i <= n,
            n == t.len(),
            streak_table_max(t@) == if m as int >= streak_table_max(t@.skip(i as int)) {
                m as int
            } else {
                streak_table_max(t@.skip(i as int))
            },
        decreases n - i,
    {
        proof {
            assert(t@.skip(i as int)[0] == t@[i as int]);
            assert(t@.skip(i as int).drop_first() =~= t@.skip(i + 1));
        }
        let (_threshold, bonus) = t[i];
        if bonus > m {
            m = bonus;
        }
        i = i + 1;
    }
    proof {
        assert(t@.skip(n as int).len() == 0);
    }
    m
}

/// Decide well-formedness of a configuration; mirrors `config_wf` exactly.
pub fn check_config(c: &Config) -> (b: bool)
    ensures
        b == config_wf(*c),
{
    if !table_sorted(&c.rewards.login.streak_rewards) {
        return false;
    }
    let pm = &c.rewards.pokematch;
    if (pm.base_reward as u128) + (pm.perfect_bonus as u128) > (u64::MAX as u128) {
        return false;
    }
    let pd = &c.rewards.pokedex;
    if (pd.base_reward as u128) + (pd.rare_bonus as u128) > (u64::MAX as u128) {
        return false;
    }
    let table_top = streak_table_max_exec(&c.rewards.login.streak_rewards);
    let login_top: u64 = if c.rewards.login.daily_reward > table_top {
        c.rewards.login.daily_reward
    } else {
        table_top
    };
    if (c.rewards.flypoke.daily_limit as u128) + (c.rewards.battle.daily_limit as u128) + (
    login_top as u128) > (u64::MAX as u128) {
        return false;
    }
    true
}

/// Two login configurations that agree on every amount and on the streak
/// table's contents.
pub open spec fn login_config_eqv(a: LoginConfig, b: LoginConfig) -> bool {
    a.daily_reward == b.daily_reward && a.streak_rewards@ == b.streak_rewards@
}

/// Two configurations that agree on every amount, limit and address.
pub open spec fn config_eqv(a: Config, b: Config) -> bool {
    &&& a.token_decimals == b.token_decimals
    &&& a.rewards.flypoke == b.rewards.flypoke
    &&& a.rewards.battle == b.rewards.battle
    &&& a.rewards.pokematch == b.rewards.pokematch
    &&& a.rewards.pokedex == b.rewards.pokedex
    &&& login_config_eqv(a.rewards.login, b.rewards.login)
    &&& a.rewards.welcome == b.rewards.welcome
    &&& a.solana == b.solana
}

impl Clone for LoginConfig {
    fn clone(&self) -> (c: Self)
        ensures
            login_config_eqv(c, *self),
    {
        let n = self.streak_rewards.len();
        let mut table: Vec<(u32, u64)> = Vec::new();
        let mut i: usize = 0;
        while i < n
            invariant
                i <= n,
                n == self.streak_rewards.len(),
                table@ == self.streak_rewards@.take(i as int),
            decreases n - i,
        {
            table.push(self.streak_rewards[i]);
            proof {
                assert(table@ == self.streak_rewards@.take(i + 1 as int));
            }
            i = i + 1;
        }
        proof {
            assert(table@ == self.streak_rewards@);
        }
        LoginConfig { daily_reward: self.daily_reward, streak_rewards: table }
    }
}

impl Clone for WelcomeConfig {
    fn clone(&self) -> (c: Self)
        ensures
            c == *self,
    {
        WelcomeConfig { reward: self.reward }
    }
}

impl Clone for SolanaConfig {
    fn clone(&self) -> (c: Self)
        ensures
            c == *self,
    {
        SolanaConfig {
            rpc_url: self.rpc_url.clone(),
            token_mint: match &self.token_mint {
                Some(m) => Some(m.clone()),
                None => None,
            },
            reward_vault: match &self.reward_vault {
                Some(v) => Some(v.clone()),
                None => None,
            },
            commitment: self.commitment.clone(),
        }
    }
}

impl Clone for RewardConfig {
    fn clone(&self) -> (c: Self)
        ensures
            c.flypoke == self.flypoke,
            c.battle == self.battle,
            c.pokematch == self.pokematch,
            c.pokedex == self.pokedex,
            login_config_eqv(c.login, self.login),
            c.welcome == self.welcome,
    {
        RewardConfig {
            flypoke: self.flypoke.clone(),
            battle: self.battle.clone(),
            pokematch: self.pokematch.clone(),
            pokedex: self.pokedex.clone(),
            login: self.login.clone(),
            welcome: self.welcome.clone(),
        }
    }
}

impl Clone for Config {
    fn clone(&self) -> (c: Self)
        ensures
            config_eqv(c, *self),
    {
        Config {
            token_decimals: self.token_decimals,
            rewards: self.rewards.clone(),
            solana: self.solana.clone(),
        }
    }
}

impl Default for Config {
    /// The stock configuration; it is well formed.
    fn default() -> (c: Config)
        ensures
            is_default_config(c),
            config_wf(c),
    {
        let mut streak_rewards: Vec<(u32, u64)> = Vec::new();
        streak_rewards.push((7, 50_000_000_000));
        streak_rewards.push((3, 30_000_000_000));
        proof {
            let t = streak_rewards@;
            assert(t == seq![(7u32, 50_000_000_000u64), (3u32, 30_000_000_000u64)]);
            assert(t.drop_first() =~= seq![(3u32, 30_000_000_000u64)]);
            assert(t.drop_first().drop_first() =~= Seq::<(u32, u64)>::empty());
            reveal_with_fuel(streak_table_max, 4);
            assert(streak_table_max(t) == 50_000_000_000int);
        }
        Config {
            token_decimals: 9,
            rewards: RewardConfig {
                flypoke: FlyPokeConfig { daily_limit: 500_000_000_000 },
                battle: BattleConfig {
                    daily_limit: 300_000_000_000,
                    base_reward: 50_000_000_000,
                },
                pokematch: PokeMatchConfig {
                    daily_limit: 200_000_000_000,
                    base_reward: 20_000_000_000,
                    perfect_bonus: 100_000_000_000,
                },
                pokedex: PokedexConfig {
                    base_reward: 10_000_000_000,
                    rare_bonus: 100_000_000_000,
                },
                login: LoginConfig { daily_reward: 20_000_000_000, streak_rewards },
                welcome: WelcomeConfig { reward: 100_000_000_000 },
            },
            solana: SolanaConfig {
                rpc_url: "https://api.mainnet-beta.solana.com".to_string(),
                token_mint: None,
                reward_vault: None,
                commitment: "confirmed".to_string(),
            },
        }
    }
}

} // verus!
