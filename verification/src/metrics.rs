use vstd::prelude::*;
use vstd::hash_map::HashMapWithView;
use crate::types::{Address, sat_add_i128, saturating_add_i128};

verus! {

broadcast use vstd::std_specs::hash::group_hash_axioms;

/// Length of an hourly bucket, in seconds.
pub const HOUR_SECONDS: u64 = 3600;
/// Length of a daily bucket, in seconds.
pub const DAY_SECONDS: u64 = 86400;
/// Length of a monthly (30-day) bucket, in seconds.
pub const MONTH_SECONDS: u64 = 2592000;
/// Age beyond which hourly buckets are pruned (one year).
pub const RETENTION_HOURLY_SECONDS: u64 = 31536000;
/// Age beyond which daily buckets are pruned (two years).
pub const RETENTION_DAILY_SECONDS: u64 = 63072000;
/// Most buckets or rankings a query returns.
pub const MAX_QUERY_LIMIT: u32 = 100;
/// Offset separating the parts of a composite storage key.
pub const KEY_SHIFT: u128 = 0x1_0000_0000_0000_0000;

/// Categories of metrics tracked across the platform.
#[derive(Clone, Copy, Debug, PartialEq, Eq, Structural)]
pub enum MetricType {
    AgentsMinted,
    AgentsActive,
    AgentsInactive,
    MarketplaceListings,
    MarketplaceSales,
    MarketplaceVolume,
    MarketplaceAvgPrice,
    ExecutionActions,
    ExecutionRateLimitHits,
    ExecutionAnomalies,
    EvolutionRequests,
    EvolutionCompleted,
    EvolutionAvgTime,
    GovernanceProposals,
    GovernanceExecuted,
    GovernanceParticipation,
}

/// Time granularity of an aggregation bucket.
#[derive(Clone, Copy, Debug, PartialEq, Eq, Structural)]
pub enum BucketDuration {
    Hourly,
    Daily,
    Monthly,
}

/// Ranking criteria of top-N agent queries.
#[derive(Clone, Copy, Debug, PartialEq, Eq, Structural)]
pub enum OrderBy {
    Volume,
    Sales,
    EvolutionLevel,
}

/// Kinds of user activity that can be recorded.
#[derive(Clone, Copy, Debug, PartialEq, Eq, Structural)]
pub enum UserActivityType {
    AgentOwned,
    AgentTraded,
    AgentLeased,
    VolumeAdded,
    AmountSpent,
    ParticipationScored,
}

/// Aggregate of one metric over one time bucket.
#[derive(Clone, Copy, Debug, PartialEq, Eq, Structural)]
pub struct MetricsBucket {
    pub bucket_id: u64,
    pub timestamp: u64,
    pub duration: BucketDuration,
    pub metric_type: MetricType,
    pub value: i128,
    pub count: u32,
    pub min: i128,
    pub max: i128,
}

/// Per-user analytics summary.
#[derive(Clone, Copy, Debug, PartialEq, Eq, Structural)]
pub struct UserStats {
    pub user: Address,
    pub agents_owned: u32,
    pub agents_traded: u32,
    pub agents_leased: u32,
    pub total_volume: i128,
    pub total_spent: i128,
    pub participation_score: u32,
    pub last_active: u64,
}

/// Point-in-time platform snapshot.
#[derive(Clone, Copy, Debug, PartialEq, Eq, Structural)]
pub struct MetricSnapshot {
    pub snapshot_id: u64,
    pub timestamp: u64,
    pub total_agents: u64,
    pub active_listings: u64,
    pub total_volume: i128,
    pub total_sales: u64,
    pub total_evolutions: u64,
    pub active_proposals: u32,
}

/// Result of a metrics query.
#[derive(Debug)]
pub struct MetricsQueryResult {
    pub buckets: Vec<MetricsBucket>,
    pub total_count: u32,
    pub has_more: bool,
}

/// An agent's place in a ranking.
#[derive(Clone, Copy, Debug, PartialEq, Eq, Structural)]
pub struct AgentRanking {
    pub agent_id: u64,
    pub score: i128,
}

/// Platform-wide totals of the cumulative counters.
#[derive(Clone, Copy, Debug, PartialEq, Eq, Structural)]
pub struct PlatformSummary {
    pub timestamp: u64,
    pub total_agents_minted: i128,
    pub total_marketplace_sales: i128,
    pub total_marketplace_volume: i128,
    pub total_execution_actions: i128,
    pub total_evolution_requests: i128,
    pub total_evolution_completed: i128,
    pub total_governance_proposals: i128,
}

/// Length of a bucket, in seconds.
pub open spec fn period_of(d: BucketDuration) -> u64 {
    match d {
        BucketDuration::Hourly => HOUR_SECONDS,
        BucketDuration::Daily => DAY_SECONDS,
        BucketDuration::Monthly => MONTH_SECONDS,
    }
}

/// Start of the bucket that holds `ts`.
pub open spec fn aligned(ts: u64, d: BucketDuration) -> u64 {
    ((ts / period_of(d)) * period_of(d)) as u64
}

/// Position of a metric type in the list of metric types.
pub open spec fn metric_index(m: MetricType) -> u32 {
    match m {
        MetricType::AgentsMinted => 0,
        MetricType::AgentsActive => 1,
        MetricType::AgentsInactive => 2,
        MetricType::MarketplaceListings => 3,
        MetricType::MarketplaceSales => 4,
        MetricType::MarketplaceVolume => 5,
        MetricType::MarketplaceAvgPrice => 6,
        MetricType::ExecutionActions => 7,
        MetricType::ExecutionRateLimitHits => 8,
        MetricType::ExecutionAnomalies => 9,
        MetricType::EvolutionRequests => 10,
        MetricType::EvolutionCompleted => 11,
        MetricType::EvolutionAvgTime => 12,
        MetricType::GovernanceProposals => 13,
        MetricType::GovernanceExecuted => 14,
        MetricType::GovernanceParticipation => 15,
    }
}

/// Position of a bucket duration.
pub open spec fn duration_index(d: BucketDuration) -> u32 {
    match d {
        BucketDuration::Hourly => 0,
        BucketDuration::Daily => 1,
        BucketDuration::Monthly => 2,
    }
}

/// Position of a ranking criterion.
pub open spec fn order_index(o: OrderBy) -> u32 {
    match o {
        OrderBy::Volume => 0,
        OrderBy::Sales => 1,
        OrderBy::EvolutionLevel => 2,
    }
}

/// Storage key of the bucket of metric `m` of duration `d` starting at `ts`.
pub open spec fn series_key(m: MetricType, d: BucketDuration, ts: u64) -> u128 {
    ((metric_index(m) * 3 + duration_index(d)) * KEY_SHIFT + ts) as u128
}

/// Storage key of agent `agent_id`'s score by criterion `o`.
pub open spec fn score_key(agent_id: u64, o: OrderBy) -> u128 {
    (order_index(o) * KEY_SHIFT + agent_id) as u128
}

proof fn lemma_split_key(c1: int, t1: int, c2: int, t2: int)
    requires
        0 <= t1 < KEY_SHIFT,
        0 <= t2 < KEY_SHIFT,
        c1 * KEY_SHIFT + t1 == c2 * KEY_SHIFT + t2,
    ensures
        c1 == c2,
        t1 == t2,
{
    if c1 < c2 {
        assert(c1 * KEY_SHIFT + KEY_SHIFT <= c2 * KEY_SHIFT);
    } else if c2 < c1 {
        assert(c2 * KEY_SHIFT + KEY_SHIFT <= c1 * KEY_SHIFT);
    }
}

/// Distinct series and bucket starts have distinct keys.
pub proof fn lemma_series_key_injective(m1: MetricType, d1: BucketDuration, t1: u64, m2: MetricType, d2: BucketDuration, t2: u64)
    ensures
        series_key(m1, d1, t1) == series_key(m2, d2, t2) ==> m1 == m2 && d1 == d2 && t1 == t2,
{
    if series_key(m1, d1, t1) == series_key(m2, d2, t2) {
        lemma_split_key(metric_index(m1) * 3 + duration_index(d1), t1 as int, metric_index(m2) * 3 + duration_index(d2), t2 as int);
    }
}

/// Distinct agents or criteria have distinct score keys.
pub proof fn lemma_score_key_injective(a1: u64, o1: OrderBy, a2: u64, o2: OrderBy)
    ensures
        score_key(a1, o1) == score_key(a2, o2) ==> a1 == a2 && o1 == o2,
{
    if score_key(a1, o1) == score_key(a2, o2) {
        lemma_split_key(order_index(o1) as int, a1 as int, order_index(o2) as int, a2 as int);
    }
}

/// Length of a bucket of duration `d`, in seconds.
pub fn duration_seconds(d: BucketDuration) -> (p: u64)
    ensures
        p == period_of(d),
{
    match d {
        BucketDuration::Hourly => HOUR_SECONDS,
        BucketDuration::Daily => DAY_SECONDS,
        BucketDuration::Monthly => MONTH_SECONDS,
    }
}

/// Start of the bucket of duration `d` that holds `ts`; never the largest timestamp.
pub fn align_timestamp(ts: u64, d: BucketDuration) -> (a: u64)
    ensures
        a == aligned(ts, d),
        a <= ts,
        a < u64::MAX,
        a % period_of(d) == 0,
{
    let p = duration_seconds(d);
    let q = ts / p;
    assert(q * p <= ts) by (nonlinear_arith)
        requires q == ts / p, p > 0;
    let a = q * p;
    assert(a <= ts) by (nonlinear_arith)
        requires a == (ts / p) * p, p > 0;
    assert(a % p == 0) by {
        vstd::arithmetic::div_mod::lemma_mod_multiples_basic((ts / p) as int, p as int);
    }
    if ts == u64::MAX {
        assert((18446744073709551615u64 / 3600) * 3600 < 18446744073709551615u64);
        assert((18446744073709551615u64 / 86400) * 86400 < 18446744073709551615u64);
        assert((18446744073709551615u64 / 2592000) * 2592000 < 18446744073709551615u64);
    }
    a
}

fn metric_code(m: MetricType) -> (c: u32)
    ensures
        c == metric_index(m),
{
    match m {
        MetricType::AgentsMinted => 0,
        MetricType::AgentsActive => 1,
        MetricType::AgentsInactive => 2,
        MetricType::MarketplaceListings => 3,
        MetricType::MarketplaceSales => 4,
        MetricType::MarketplaceVolume => 5,
        MetricType::MarketplaceAvgPrice => 6,
        MetricType::ExecutionActions => 7,
        MetricType::ExecutionRateLimitHits => 8,
        MetricType::ExecutionAnomalies => 9,
        MetricType::EvolutionRequests => 10,
        MetricType::EvolutionCompleted => 11,
        MetricType::EvolutionAvgTime => 12,
        MetricType::GovernanceProposals => 13,
        MetricType::GovernanceExecuted => 14,
        MetricType::GovernanceParticipation => 15,
    }
}

fn bucket_key(m: MetricType, d: BucketDuration, ts: u64) -> (k: u128)
    ensures
        k == series_key(m, d, ts),
{
    let dc: u32 = match d {
        BucketDuration::Hourly => 0,
        BucketDuration::Daily => 1,
        BucketDuration::Monthly => 2,
    };
    let c: u128 = (metric_code(m) as u128) * 3 + dc as u128;
    c * KEY_SHIFT + ts as u128
}

fn agent_score_key(agent_id: u64, o: OrderBy) -> (k: u128)
    ensures
        k == score_key(agent_id, o),
{
    let c: u128 = match o {
        OrderBy::Volume => 0,
        OrderBy::Sales => 1,
        OrderBy::EvolutionLevel => 2,
    };
    c * KEY_SHIFT + agent_id as u128
}

fn order_code(o: OrderBy) -> (c: u32)
    ensures
        c == order_index(o),
{
    match o {
        OrderBy::Volume => 0,
        OrderBy::Sales => 1,
        OrderBy::EvolutionLevel => 2,
    }
}

/// `a + 1` clamped to the range of `u32`.
pub open spec fn sat_inc_u32(a: u32) -> u32 {
    if a + 1 > u32::MAX { u32::MAX } else { (a + 1) as u32 }
}

/// `a + b` clamped to the range of `u32`.
pub open spec fn sat_add_u32(a: u32, b: u32) -> u32 {
    if a + b > u32::MAX { u32::MAX } else { (a + b) as u32 }
}

/// Buckets, bucket index and bucket counter after `value` of metric `m` at
/// `ts` is folded into the bucket of duration `d` that holds `ts`: an
/// existing bucket grows (sum and count clamped, minimum and maximum kept),
/// otherwise a bucket numbered by the next counter value is opened.
pub open spec fn upsert_spec(buckets: Map<u64, MetricsBucket>, index: Map<u128, u64>, counter: u64, m: MetricType,
    d: BucketDuration, value: i128, ts: u64) -> (Map<u64, MetricsBucket>, Map<u128, u64>, u64) {
    let at = aligned(ts, d);
    let k = series_key(m, d, at);
    if index.contains_key(k) {
        let id = index[k];
        if buckets.contains_key(id) {
            let b = buckets[id];
            (buckets.insert(id, MetricsBucket {
                value: sat_add_i128(b.value, value),
                count: sat_inc_u32(b.count),
                min: if value < b.min { value } else { b.min },
                max: if value > b.max { value } else { b.max },
                ..b
            }), index, counter)
        } else {
            (buckets, index, counter)
        }
    } else {
        let id = (counter + 1) as u64;
        (buckets.insert(id, MetricsBucket {
            bucket_id: id,
            timestamp: at,
            duration: d,
            metric_type: m,
            value,
            count: 1,
            min: value,
            max: value,
        }), index.insert(k, id), id)
    }
}

/// A user's statistics after recording one activity at `now`.
pub open spec fn activity_spec(s: UserStats, activity: UserActivityType, value: i128, now: u64) -> UserStats {
    let s = UserStats { last_active: now, ..s };
    match activity {
        UserActivityType::AgentOwned => UserStats { agents_owned: sat_add_u32(s.agents_owned, value as u32), ..s },
        UserActivityType::AgentTraded => UserStats { agents_traded: sat_add_u32(s.agents_traded, value as u32), ..s },
        UserActivityType::AgentLeased => UserStats { agents_leased: sat_add_u32(s.agents_leased, value as u32), ..s },
        UserActivityType::VolumeAdded => UserStats { total_volume: sat_add_i128(s.total_volume, value), ..s },
        UserActivityType::AmountSpent => UserStats { total_spent: sat_add_i128(s.total_spent, value), ..s },
        UserActivityType::ParticipationScored => UserStats {
            participation_score: sat_add_u32(s.participation_score, value as u32),
            ..s
        },
    }
}

/// Statistics of a user with no recorded activity.
pub open spec fn fresh_stats(user: Address) -> UserStats {
    UserStats {
        user,
        agents_owned: 0,
        agents_traded: 0,
        agents_leased: 0,
        total_volume: 0,
        total_spent: 0,
        participation_score: 0,
        last_active: 0,
    }
}

/// Storage of the metrics aggregator.
pub struct MetricsAggregator {
    pub admin: Option<Address>,
    pub bucket_counter: u64,
    pub snapshot_counter: u64,
    pub buckets: HashMapWithView<u64, MetricsBucket>,
    pub bucket_index: HashMapWithView<u128, u64>,
    pub cumulative: HashMapWithView<u32, i128>,
    pub user_stats: HashMapWithView<u64, UserStats>,
    pub agent_scores: HashMapWithView<u128, i128>,
    pub scoreboards: HashMapWithView<u32, Vec<u64>>,
    pub snapshots: HashMapWithView<u64, MetricSnapshot>,
}

impl MetricsAggregator {
    /// Running total of metric `m`.
    pub open spec fn cumulative_of(self, m: MetricType) -> i128 {
        if self.cumulative@.contains_key(metric_index(m)) { self.cumulative@[metric_index(m)] } else { 0 }
    }

    /// Agents ranked by criterion `o`, in the order they were first scored.
    pub open spec fn scoreboard_of(self, o: OrderBy) -> Seq<u64> {
        if self.scoreboards@.contains_key(order_index(o)) { self.scoreboards@[order_index(o)]@ } else { Seq::empty() }
    }

    /// Agent `agent_id`'s score by criterion `o` (zero when unscored).
    pub open spec fn score_of(self, agent_id: u64, o: OrderBy) -> i128 {
        let k = score_key(agent_id, o);
        if self.agent_scores@.contains_key(k) { self.agent_scores@[k] } else { 0 }
    }

    /// The bucket of metric `m` of duration `d` starting at `ts`, if any.
    pub open spec fn bucket_at(self, m: MetricType, d: BucketDuration, ts: u64) -> Option<MetricsBucket> {
        let k = series_key(m, d, ts);
        if self.bucket_index@.contains_key(k) && self.buckets@.contains_key(self.bucket_index@[k]) {
            Some(self.buckets@[self.bucket_index@[k]])
        } else {
            None
        }
    }

    /// The fields other than the buckets and their counter are unchanged.
    pub open spec fn same_except_buckets(self, other: Self) -> bool {
        &&& self.admin == other.admin
        &&& self.snapshot_counter == other.snapshot_counter
        &&& self.cumulative@ == other.cumulative@
        &&& self.user_stats@ == other.user_stats@
        &&& self.agent_scores@ == other.agent_scores@
        &&& self.scoreboards@ == other.scoreboards@
        &&& self.snapshots@ == other.snapshots@
    }

    /// Empty storage of an aggregator that has not been initialised.
    pub fn new() -> (s: Self)
        ensures
            s.admin is None,
            s.bucket_counter == 0 && s.snapshot_counter == 0,
            s.buckets@ == Map::<u64, MetricsBucket>::empty(),
            s.bucket_index@ == Map::<u128, u64>::empty(),
            s.cumulative@ == Map::<u32, i128>::empty(),
            s.user_stats@ == Map::<u64, UserStats>::empty(),
            s.agent_scores@ == Map::<u128, i128>::empty(),
            s.scoreboards@ == Map::<u32, Vec<u64>>::empty(),
            s.snapshots@ == Map::<u64, MetricSnapshot>::empty(),
    {
        MetricsAggregator {
            admin: None,
            bucket_counter: 0,
            snapshot_counter: 0,
            buckets: HashMapWithView::new(),
            bucket_index: HashMapWithView::new(),
            cumulative: HashMapWithView::new(),
            user_stats: HashMapWithView::new(),
            agent_scores: HashMapWithView::new(),
            scoreboards: HashMapWithView::new(),
            snapshots: HashMapWithView::new(),
        }
    }

    /// One-time set-up: records the administrator and zeroes the counters.
    pub fn init_contract(&mut self, admin_addr: Address)
        requires
            old(self).admin is None,
        ensures
            final(self).admin == Some(admin_addr),
            final(self).bucket_counter == 0 && final(self).snapshot_counter == 0,
            final(self).buckets@ == old(self).buckets@,
            final(self).bucket_index@ == old(self).bucket_index@,
            final(self).cumulative@ == old(self).cumulative@,
            final(self).user_stats@ == old(self).user_stats@,
            final(self).agent_scores@ == old(self).agent_scores@,
            final(self).scoreboards@ == old(self).scoreboards@,
            final(self).snapshots@ == old(self).snapshots@,
    {
        self.admin = Some(admin_addr);
        self.bucket_counter = 0;
        self.snapshot_counter = 0;
    }

    /// Whether `caller` is the administrator.
    pub fn verify_admin(&self, caller: &Address) -> (b: bool)
        ensures
            b == (self.admin == Some(*caller)),
    {
        match &self.admin {
            Some(a) => *a == *caller,
            None => false,
        }
    }

    fn upsert_bucket(&mut self, m: MetricType, d: BucketDuration, value: i128, ts: u64)
        requires
            old(self).bucket_counter < u64::MAX,
        ensures
            (final(self).buckets@, final(self).bucket_index@, final(self).bucket_counter) == upsert_spec(
                old(self).buckets@, old(self).bucket_index@, old(self).bucket_counter, m, d, value, ts),
            final(self).same_except_buckets(*old(self)),
    {
        let at = align_timestamp(ts, d);
        let k = bucket_key(m, d, at);
        match self.bucket_index.get(&k) {
            Some(id_ref) => {
                let id = *id_ref;
                match self.buckets.get(&id) {
                    Some(b_ref) => {
                        let b = *b_ref;
                        let updated = MetricsBucket {
                            value: saturating_add_i128(b.value, value),
                            count: b.count.saturating_add(1),
                            min: if value < b.min { value } else { b.min },
                            max: if value > b.max { value } else { b.max },
                            ..b
                        };
                        self.buckets.insert(id, updated);
                    },
                    None => {},
                }
            },
            None => {
                let id = self.bucket_counter + 1;
                self.bucket_counter = id;
                let bucket = MetricsBucket {
                    bucket_id: id,
                    timestamp: at,
                    duration: d,
                    metric_type: m,
                    value,
                    count: 1,
                    min: value,
                    max: value,
                };
                self.buckets.insert(id, bucket);
                self.bucket_index.insert(k, id);
            },
        }
    }

    /// Administrator only: records a data point of metric `m` at `timestamp`,
    /// adding it to the metric's running total and folding it into its
    /// hourly, daily and monthly buckets, in that order.
    pub fn record_metric(&mut self, caller: Address, metric_type: MetricType, value: i128, timestamp: u64)
        requires
            old(self).admin == Some(caller),
            old(self).bucket_counter <= u64::MAX - 3,
        ensures
            ({
                let s1 = upsert_spec(old(self).buckets@, old(self).bucket_index@, old(self).bucket_counter, metric_type,
                    BucketDuration::Hourly, value, timestamp);
                let s2 = upsert_spec(s1.0, s1.1, s1.2, metric_type, BucketDuration::Daily, value, timestamp);
                let s3 = upsert_spec(s2.0, s2.1, s2.2, metric_type, BucketDuration::Monthly, value, timestamp);
                (final(self).buckets@, final(self).bucket_index@, final(self).bucket_counter) == s3
            }),
            final(self).cumulative@ == old(self).cumulative@.insert(metric_index(metric_type),
                sat_add_i128(old(self).cumulative_of(metric_type), value)),
            final(self).admin == old(self).admin,
            final(self).snapshot_counter == old(self).snapshot_counter,
            final(self).user_stats@ == old(self).user_stats@,
            final(self).agent_scores@ == old(self).agent_scores@,
            final(self).scoreboards@ == old(self).scoreboards@,
            final(self).snapshots@ == old(self).snapshots@,
    {
        let code = metric_code(metric_type);
        let current: i128 = match self.cumulative.get(&code) {
            Some(v) => *v,
            None => 0,
        };
        let total = saturating_add_i128(current, value);
        self.cumulative.insert(code, total);
        self.upsert_bucket(metric_type, BucketDuration::Hourly, value, timestamp);
        self.upsert_bucket(metric_type, BucketDuration::Daily, value, timestamp);
        self.upsert_bucket(metric_type, BucketDuration::Monthly, value, timestamp);
    }

    /// Administrator only: records one activity of `user` at `now`, adding
    /// `value` (clamped) to the matching statistic.
    pub fn record_user_activity(&mut self, caller: Address, user: Address, activity_type: UserActivityType,
        value: i128, now: u64)
        requires
            old(self).admin == Some(caller),
        ensures
            final(self).user_stats@ == old(self).user_stats@.insert(user.0, activity_spec(
                if old(self).user_stats@.contains_key(user.0) { old(self).user_stats@[user.0] } else { fresh_stats(user) },
                activity_type, value, now)),
            final(self).same_except_stats(*old(self)),
    {
        let mut stats = match self.user_stats.get(&user.0) {
            Some(s) => *s,
            None => UserStats {
                user,
                agents_owned: 0,
                agents_traded: 0,
                agents_leased: 0,
                total_volume: 0,
                total_spent: 0,
                participation_score: 0,
                last_active: 0,
            },
        };
        stats.last_active = now;
        match activity_type {
            UserActivityType::AgentOwned => {
                stats.agents_owned = stats.agents_owned.saturating_add(value as u32);
            },
            UserActivityType::AgentTraded => {
                stats.agents_traded = stats.agents_traded.saturating_add(value as u32);
            },
            UserActivityType::AgentLeased => {
                stats.agents_leased = stats.agents_leased.saturating_add(value as u32);
            },
            UserActivityType::VolumeAdded => {
                stats.total_volume = saturating_add_i128(stats.total_volume, value);
            },
            UserActivityType::AmountSpent => {
                stats.total_spent = saturating_add_i128(stats.total_spent, value);
            },
            UserActivityType::ParticipationScored => {
                stats.participation_score = stats.participation_score.saturating_add(value as u32);
            },
        }
        self.user_stats.insert(user.0, stats);
    }

    /// The fields other than the user statistics are unchanged.
    pub open spec fn same_except_stats(self, other: Self) -> bool {
        &&& self.admin == other.admin
        &&& self.bucket_counter == other.bucket_counter
        &&& self.snapshot_counter == other.snapshot_counter
        &&& self.buckets@ == other.buckets@
        &&& self.bucket_index@ == other.bucket_index@
        &&& self.cumulative@ == other.cumulative@
        &&& self.agent_scores@ == other.agent_scores@
        &&& self.scoreboards@ == other.scoreboards@
        &&& self.snapshots@ == other.snapshots@
    }

    /// The statistics of a user, if any activity was recorded.
    pub fn get_user_stats(&self, user: Address) -> (r: Option<UserStats>)
        ensures
            r == (if self.user_stats@.contains_key(user.0) { Some(self.user_stats@[user.0]) } else { None::<UserStats> }),
    {
        match self.user_stats.get(&user.0) {
            Some(s) => Some(*s),
            None => None,
        }
    }

    /// Administrator only: sets agent `agent_id`'s score by criterion
    /// `order_by` and adds the agent to that scoreboard once.
    pub fn update_agent_score(&mut self, caller: Address, agent_id: u64, order_by: OrderBy, score: i128)
        requires
            old(self).admin == Some(caller),
        ensures
            final(self).agent_scores@ == old(self).agent_scores@.insert(score_key(agent_id, order_by), score),
            final(self).scoreboard_of(order_by) == (if old(self).scoreboard_of(order_by).contains(agent_id) {
                old(self).scoreboard_of(order_by)
            } else {
                old(self).scoreboard_of(order_by).push(agent_id)
            }),
            forall|o: OrderBy| o != order_by ==> #[trigger] final(self).scoreboard_of(o) == old(self).scoreboard_of(o),
            final(self).admin == old(self).admin,
            final(self).bucket_counter == old(self).bucket_counter,
            final(self).snapshot_counter == old(self).snapshot_counter,
            final(self).buckets@ == old(self).buckets@,
            final(self).bucket_index@ == old(self).bucket_index@,
            final(self).cumulative@ == old(self).cumulative@,
            final(self).user_stats@ == old(self).user_stats@,
            final(self).snapshots@ == old(self).snapshots@,
    {
        let k = agent_score_key(agent_id, order_by);
        self.agent_scores.insert(k, score);
        let code = order_code(order_by);
        let mut board = match self.scoreboards.remove(&code) {
            Some(v) => v,
            None => Vec::new(),
        };
        let mut found = false;
        let mut i: usize = 0;
        while i < board.len()
            invariant
                i <= board.len(),
                found <==> exists|j: int| 0 <= j < i && board@[j] == agent_id,
            decreases board.len() - i,
        {
            if board[i] == agent_id {
                found = true;
            }
            i = i + 1;
        }
        assert(found <==> board@.contains(agent_id));
        if !found {
            board.push(agent_id);
        }
        self.scoreboards.insert(code, board);
        assert forall|o: OrderBy| o != order_by implies #[trigger] self.scoreboard_of(o) == old(self).scoreboard_of(o) by {
            assert(order_index(o) != order_index(order_by));
        }
    }

    /// Administrator only: stores a snapshot of platform totals taken at
    /// `now` under the next snapshot number and returns that number.
    pub fn take_snapshot(&mut self, caller: Address, total_agents: u64, active_listings: u64, total_volume: i128,
        total_sales: u64, total_evolutions: u64, active_proposals: u32, now: u64) -> (id: u64)
        requires
            old(self).admin == Some(caller),
            old(self).snapshot_counter < u64::MAX,
        ensures
            id == old(self).snapshot_counter + 1,
            final(self).snapshot_counter == id,
            final(self).snapshots@ == old(self).snapshots@.insert(id, MetricSnapshot {
                snapshot_id: id,
                timestamp: now,
                total_agents,
                active_listings,
                total_volume,
                total_sales,
                total_evolutions,
                active_proposals,
            }),
            final(self).admin == old(self).admin,
            final(self).bucket_counter == old(self).bucket_counter,
            final(self).buckets@ == old(self).buckets@,
            final(self).bucket_index@ == old(self).bucket_index@,
            final(self).cumulative@ == old(self).cumulative@,
            final(self).user_stats@ == old(self).user_stats@,
            final(self).agent_scores@ == old(self).agent_scores@,
            final(self).scoreboards@ == old(self).scoreboards@,
    {
        let id = self.snapshot_counter + 1;
        self.snapshot_counter = id;
        let snapshot = MetricSnapshot {
            snapshot_id: id,
            timestamp: now,
            total_agents,
            active_listings,
            total_volume,
            total_sales,
            total_evolutions,
            active_proposals,
        };
        self.snapshots.insert(id, snapshot);
        id
    }

    /// A snapshot, if one was taken under that number.
    pub fn get_snapshot(&self, snapshot_id: u64) -> (r: Option<MetricSnapshot>)
        ensures
            r == (if self.snapshots@.contains_key(snapshot_id) { Some(self.snapshots@[snapshot_id]) } else { None::<MetricSnapshot> }),
    {
        match self.snapshots.get(&snapshot_id) {
            Some(s) => Some(*s),
            None => None,
        }
    }

    fn cumulative_value(&self, m: MetricType) -> (v: i128)
        ensures
            v == self.cumulative_of(m),
    {
        match self.cumulative.get(&metric_code(m)) {
            Some(v) => *v,
            None => 0,
        }
    }

    /// Running totals of the main platform metrics, stamped with `now`.
    pub fn get_platform_summary(&self, now: u64) -> (s: PlatformSummary)
        ensures
            s == (PlatformSummary {
                timestamp: now,
                total_agents_minted: self.cumulative_of(MetricType::AgentsMinted),
                total_marketplace_sales: self.cumulative_of(MetricType::MarketplaceSales),
                total_marketplace_volume: self.cumulative_of(MetricType::MarketplaceVolume),
                total_execution_actions: self.cumulative_of(MetricType::ExecutionActions),
                total_evolution_requests: self.cumulative_of(MetricType::EvolutionRequests),
                total_evolution_completed: self.cumulative_of(MetricType::EvolutionCompleted),
                total_governance_proposals: self.cumulative_of(MetricType::GovernanceProposals),
            }),
    {
        PlatformSummary {
            timestamp: now,
            total_agents_minted: self.cumulative_value(MetricType::AgentsMinted),
            total_marketplace_sales: self.cumulative_value(MetricType::MarketplaceSales),
            total_marketplace_volume: self.cumulative_value(MetricType::MarketplaceVolume),
            total_execution_actions: self.cumulative_value(MetricType::ExecutionActions),
            total_evolution_requests: self.cumulative_value(MetricType::EvolutionRequests),
            total_evolution_completed: self.cumulative_value(MetricType::EvolutionCompleted),
            total_governance_proposals: self.cumulative_value(MetricType::GovernanceProposals),
        }
    }
}

/// The limit a query applies: `limit`, or `MAX_QUERY_LIMIT` when it is zero or larger.
pub open spec fn effective_limit(limit: u32) -> u32 {
    if limit == 0 || limit > MAX_QUERY_LIMIT { MAX_QUERY_LIMIT } else { limit }
}

/// Number of leading entries of a ranking that score at least `score`.
pub open spec fn rank_position(sorted: Seq<AgentRanking>, score: i128) -> int
    decreases sorted.len(),
{
    if sorted.len() == 0 {
        0
    } else if sorted[0].score >= score {
        1 + rank_position(sorted.drop_first(), score)
    } else {
        0
    }
}

/// The entries ranked by descending score; entries with equal scores keep
/// their order.
pub open spec fn stable_rank(s: Seq<AgentRanking>) -> Seq<AgentRanking>
    decreases s.len(),
{
    if s.len() == 0 {
        Seq::empty()
    } else {
        let r = stable_rank(s.drop_last());
        r.insert(rank_position(r, s.last().score), s.last())
    }
}

/// Scores do not increase along the ranking.
pub open spec fn descending(s: Seq<AgentRanking>) -> bool {
    forall|i: int, j: int| 0 <= i < j < s.len() ==> (#[trigger] s[i]).score >= (#[trigger] s[j]).score
}

proof fn lemma_rank_position_bounds(sorted: Seq<AgentRanking>, score: i128)
    ensures
        0 <= rank_position(sorted, score) <= sorted.len(),
        forall|i: int| 0 <= i < rank_position(sorted, score) ==> (#[trigger] sorted[i]).score >= score,
        rank_position(sorted, score) < sorted.len() ==> sorted[rank_position(sorted, score)].score < score,
    decreases sorted.len(),
{
    if sorted.len() > 0 && sorted[0].score >= score {
        lemma_rank_position_bounds(sorted.drop_first(), score);
        assert forall|i: int| 0 <= i < rank_position(sorted, score) implies (#[trigger] sorted[i]).score >= score by {
            if i > 0 {
                assert(sorted[i] == sorted.drop_first()[i - 1]);
            }
        }
    }
}

/// Ranking keeps every entry and orders them by descending score.
pub proof fn stable_rank_sorts(s: Seq<AgentRanking>)
    ensures
        stable_rank(s).len() == s.len(),
        descending(stable_rank(s)),
        stable_rank(s).to_multiset() == s.to_multiset(),
    decreases s.len(),
{
    if s.len() > 0 {
        let r = stable_rank(s.drop_last());
        let x = s.last();
        stable_rank_sorts(s.drop_last());
        lemma_rank_position_bounds(r, x.score);
        let p = rank_position(r, x.score);
        let t = r.insert(p, x);
        assert forall|i: int, j: int| 0 <= i < j < t.len() implies (#[trigger] t[i]).score >= (#[trigger] t[j]).score by {
            if j < p {
                assert(t[i] == r[i] && t[j] == r[j]);
            } else if j == p {
                assert(t[i] == r[i]);
            } else if i < p {
                assert(t[i] == r[i] && t[j] == r[j - 1]);
                if i < j - 1 {
                    assert(r[i].score >= r[j - 1].score);
                }
            } else if i == p {
                assert(t[j] == r[j - 1]);
                assert(r[p].score < x.score);
                if p < j - 1 {
                    assert(r[p].score >= r[j - 1].score);
                }
            } else {
                assert(t[i] == r[i - 1] && t[j] == r[j - 1]);
            }
        }
        vstd::seq_lib::to_multiset_insert(r, p, x);
        vstd::seq_lib::to_multiset_build(s.drop_last(), x);
        assert(s =~= s.drop_last().push(x));
        assert(stable_rank(s) == t);
        assert(t.to_multiset() == r.to_multiset().insert(x));
        assert(s.to_multiset() == s.drop_last().to_multiset().insert(x));
    } else {
        assert(s =~= Seq::<AgentRanking>::empty());
        assert(stable_rank(s) =~= Seq::<AgentRanking>::empty());
    }
}

/// The buckets of metric `m` of duration `d` at the bucket starts `ts`,
/// `ts + period`, ... up to `end`, at most `left` of them, and whether bucket
/// starts remained when the limit was reached.
pub open spec fn scan_buckets(agg: MetricsAggregator, m: MetricType, d: BucketDuration, ts: int, end: int, left: int)
    -> (Seq<MetricsBucket>, bool)
    decreases end + period_of(d) - ts,
{
    if ts > end || ts > u64::MAX {
        (Seq::empty(), false)
    } else if left <= 0 {
        (Seq::empty(), true)
    } else {
        match agg.bucket_at(m, d, ts as u64) {
            Some(b) => {
                let rest = scan_buckets(agg, m, d, ts + period_of(d), end, left - 1);
                (seq![b] + rest.0, rest.1)
            },
            None => scan_buckets(agg, m, d, ts + period_of(d), end, left),
        }
    }
}

impl MetricsAggregator {
    /// The buckets of metric `metric_type` of duration `bucket_duration`
    /// whose starts lie between the bucket starts of `start_time` and
    /// `end_time`, oldest first, at most the effective limit of them, and
    /// whether bucket starts remained unexamined when the limit was reached.
    pub fn query_metrics(&self, metric_type: MetricType, bucket_duration: BucketDuration, start_time: u64,
        end_time: u64, limit: u32) -> (r: MetricsQueryResult)
        ensures
            ({
                let out = scan_buckets(*self, metric_type, bucket_duration, aligned(start_time, bucket_duration) as int,
                    aligned(end_time, bucket_duration) as int, effective_limit(limit) as int);
                &&& r.buckets@ == out.0
                &&& r.total_count == out.0.len()
                &&& r.has_more == out.1
            }),
    {
        let effective: u32 = if limit == 0 || limit > MAX_QUERY_LIMIT { MAX_QUERY_LIMIT } else { limit };
        let period = duration_seconds(bucket_duration);
        let aligned_start = align_timestamp(start_time, bucket_duration);
        let aligned_end = align_timestamp(end_time, bucket_duration);
        let ghost target = scan_buckets(*self, metric_type, bucket_duration, aligned_start as int, aligned_end as int,
            effective as int);
        let mut buckets: Vec<MetricsBucket> = Vec::new();
        let mut count: u32 = 0;
        let mut ts = aligned_start;
        while ts <= aligned_end && count < effective
            invariant
                period == period_of(bucket_duration),
                aligned_end < u64::MAX,
                count <= effective,
                buckets@.len() == count,
                ({
                    let rest = scan_buckets(*self, metric_type, bucket_duration, ts as int, aligned_end as int,
                        (effective - count) as int);
                    target == (buckets@ + rest.0, rest.1)
                }),
            decreases aligned_end + period - ts,
        {
            let ghost before = buckets@;
            let k = bucket_key(metric_type, bucket_duration, ts);
            let mut found = false;
            match self.bucket_index.get(&k) {
                Some(id) => {
                    match self.buckets.get(id) {
                        Some(b) => {
                            buckets.push(*b);
                            count = count + 1;
                            found = true;
                        },
                        None => {},
                    }
                },
                None => {},
            }
            let next = ts.saturating_add(period);
            proof {
                let rest_now = scan_buckets(*self, metric_type, bucket_duration, ts as int, aligned_end as int,
                    (effective - count) as int + (if found { 1int } else { 0int }));
                let rest_next = scan_buckets(*self, metric_type, bucket_duration, ts + period, aligned_end as int,
                    (effective - count) as int);
                if found {
                    assert(buckets@ =~= before.push(self.bucket_at(metric_type, bucket_duration, ts).unwrap()));
                    assert(buckets@ + rest_next.0 =~= before + rest_now.0);
                }
                if ts as int + period > u64::MAX {
                    assert(next == u64::MAX);
                }
            }
            ts = next;
        }
        let has_more = ts <= aligned_end && count == effective;
        assert(buckets@ =~= buckets@ + Seq::<MetricsBucket>::empty());
        MetricsQueryResult { buckets, total_count: count, has_more }
    }
}

/// Age of a bucket start at `before`, or zero for a start after it.
pub open spec fn age_at(before: u64, ts: u64) -> u64 {
    if before >= ts { (before - ts) as u64 } else { 0 }
}

/// A bucket is old enough at `before` to be pruned: hourly buckets after a
/// year, daily buckets after two; monthly buckets are kept.
pub open spec fn prunable(b: MetricsBucket, before: u64) -> bool {
    match b.duration {
        BucketDuration::Hourly => age_at(before, b.timestamp) > RETENTION_HOURLY_SECONDS,
        BucketDuration::Daily => age_at(before, b.timestamp) > RETENTION_DAILY_SECONDS,
        BucketDuration::Monthly => false,
    }
}

/// Storage key of a bucket's series and start.
pub open spec fn key_of(b: MetricsBucket) -> u128 {
    series_key(b.metric_type, b.duration, b.timestamp)
}

impl MetricsAggregator {
    /// Every agent of scoreboard `o` with its score, in scoreboard order.
    pub open spec fn collected_rankings(self, o: OrderBy) -> Seq<AgentRanking> {
        self.scoreboard_of(o).map_values(|id: u64| AgentRanking { agent_id: id, score: self.score_of(id, o) })
    }

    /// Identifiers of the buckets a pruning at `before` removes.
    pub open spec fn pruned_ids(self, before: u64) -> Set<u64> {
        Set::new(|id: u64| 1 <= id <= self.bucket_counter && self.buckets@.contains_key(id)
            && prunable(self.buckets@[id], before))
    }

    /// How many of the buckets numbered 1 to `upto` a pruning at `before` removes.
    pub open spec fn count_prunable(self, before: u64, upto: int) -> nat
        decreases upto,
    {
        if upto <= 0 {
            0
        } else {
            self.count_prunable(before, upto - 1) + (if self.buckets@.contains_key(upto as u64)
                && prunable(self.buckets@[upto as u64], before) { 1nat } else { 0nat })
        }
    }

    /// Storage keys of the buckets a pruning at `before` removes.
    pub open spec fn pruned_keys(self, before: u64) -> Set<u128> {
        self.pruned_ids(before).map(|id: u64| key_of(self.buckets@[id]))
    }

    proof fn lemma_count_prunable_monotone(self, before: u64, i: int, j: int)
        requires
            i <= j,
        ensures
            self.count_prunable(before, i) <= self.count_prunable(before, j),
        decreases j - i,
    {
        if i < j {
            self.lemma_count_prunable_monotone(before, i, j - 1);
        }
    }

    /// How many buckets a pruning at `before` removes.
    pub fn prunable_count(&self, before_timestamp: u64) -> (n: u64)
        ensures
            n == self.count_prunable(before_timestamp, self.bucket_counter as int),
    {
        let total = self.bucket_counter;
        let mut n: u64 = 0;
        let mut bid: u64 = 0;
        while bid < total
            invariant
                bid <= total,
                total == self.bucket_counter,
                n == self.count_prunable(before_timestamp, bid as int),
                n <= bid,
            decreases total - bid,
        {
            bid = bid + 1;
            let maybe = match self.buckets.get(&bid) {
                Some(b) => Some(*b),
                None => None,
            };
            match maybe {
                Some(bucket) => {
                    let should_prune = match bucket.duration {
                        BucketDuration::Hourly => before_timestamp.saturating_sub(bucket.timestamp) > RETENTION_HOURLY_SECONDS,
                        BucketDuration::Daily => before_timestamp.saturating_sub(bucket.timestamp) > RETENTION_DAILY_SECONDS,
                        BucketDuration::Monthly => false,
                    };
                    if should_prune {
                        n = n + 1;
                    }
                },
                None => {},
            }
        }
        n
    }

    /// The agents of scoreboard `order_by` ranked by descending score (equal
    /// scores in scoreboard order), at most the effective limit of them.
    pub fn get_top_agents(&self, order_by: OrderBy, limit: u32) -> (r: Vec<AgentRanking>)
        ensures
            ({
                let ranked = stable_rank(self.collected_rankings(order_by));
                let lim = effective_limit(limit) as int;
                r@ == ranked.take(if ranked.len() < lim { ranked.len() as int } else { lim })
            }),
    {
        let effective: u32 = if limit == 0 || limit > MAX_QUERY_LIMIT { MAX_QUERY_LIMIT } else { limit };
        let code = order_code(order_by);
        let mut collected: Vec<AgentRanking> = Vec::new();
        match self.scoreboards.get(&code) {
            Some(ids) => {
                let mut i: usize = 0;
                while i < ids.len()
                    invariant
                        i <= ids.len(),
                        ids@ == self.scoreboard_of(order_by),
                        collected@ == self.collected_rankings(order_by).take(i as int),
                    decreases ids.len() - i,
                {
                    let aid = ids[i];
                    let score = match self.agent_scores.get(&agent_score_key(aid, order_by)) {
                        Some(v) => *v,
                        None => 0,
                    };
                    collected.push(AgentRanking { agent_id: aid, score });
                    i = i + 1;
                    assert(collected@ =~= self.collected_rankings(order_by).take(i as int));
                }
                assert(collected@ =~= self.collected_rankings(order_by));
            },
            None => {
                assert(collected@ =~= self.collected_rankings(order_by));
            },
        }
        let mut sorted: Vec<AgentRanking> = Vec::new();
        let mut i: usize = 0;
        assert(collected@.take(0) =~= Seq::<AgentRanking>::empty());
        while i < collected.len()
            invariant
                i <= collected.len(),
                sorted@ == stable_rank(collected@.take(i as int)),
                sorted@.len() == i,
            decreases collected.len() - i,
        {
            let x = collected[i];
            let mut p: usize = 0;
            assert(sorted@.skip(0) =~= sorted@);
            while p < sorted.len() && sorted[p].score >= x.score
                invariant
                    p <= sorted.len(),
                    rank_position(sorted@, x.score) == p + rank_position(sorted@.skip(p as int), x.score),
                decreases sorted.len() - p,
            {
                assert(sorted@.skip(p as int)[0] == sorted@[p as int]);
                assert(sorted@.skip(p as int).drop_first() =~= sorted@.skip(p as int + 1));
                p = p + 1;
            }
            proof {
                if p < sorted.len() {
                    assert(sorted@.skip(p as int)[0] == sorted@[p as int]);
                }
                assert(collected@.take(i as int + 1).drop_last() =~= collected@.take(i as int));
                assert(collected@.take(i as int + 1).last() == x);
                stable_rank_sorts(collected@.take(i as int));
            }
            sorted.insert(p, x);
            i = i + 1;
        }
        assert(collected@.take(collected.len() as int) =~= collected@);
        let len = sorted.len();
        let take: usize = if len < effective as usize { len } else { effective as usize };
        let mut result: Vec<AgentRanking> = Vec::new();
        let mut j: usize = 0;
        while j < take
            invariant
                j <= take <= sorted@.len(),
                result@ == sorted@.take(j as int),
            decreases take - j,
        {
            result.push(sorted[j]);
            j = j + 1;
            assert(result@ =~= sorted@.take(j as int));
        }
        result
    }

    /// Administrator only: removes every bucket old enough at
    /// `before_timestamp` (hourly ones after a year, daily ones after two
    /// years, monthly ones never) together with its index entry, and returns
    /// how many were removed.
    pub fn prune_metrics(&mut self, caller: Address, before_timestamp: u64) -> (n: u32)
        requires
            old(self).admin == Some(caller),
            old(self).count_prunable(before_timestamp, old(self).bucket_counter as int) <= u32::MAX,
        ensures
            n == old(self).pruned_ids(before_timestamp).len(),
            n == old(self).count_prunable(before_timestamp, old(self).bucket_counter as int),
            final(self).buckets@ == old(self).buckets@.remove_keys(old(self).pruned_ids(before_timestamp)),
            final(self).bucket_index@ == old(self).bucket_index@.remove_keys(old(self).pruned_keys(before_timestamp)),
            final(self).bucket_counter == old(self).bucket_counter,
            final(self).same_except_buckets(*old(self)),
    {
        let total = self.bucket_counter;
        let ghost old_buckets = self.buckets@;
        let ghost f = |id: u64| key_of(old_buckets[id]);
        let ghost mut done: Set<u64> = Set::empty();
        let mut pruned: u32 = 0;
        let mut bid: u64 = 0;
        assert(self.buckets@ =~= old_buckets.remove_keys(done));
        assert(self.bucket_index@ =~= old(self).bucket_index@.remove_keys(done.map(f)));
        while bid < total
            invariant
                bid <= total,
                total == old(self).bucket_counter,
                old(self).count_prunable(before_timestamp, total as int) <= u32::MAX,
                pruned == old(self).count_prunable(before_timestamp, bid as int),
                old_buckets == old(self).buckets@,
                f == (|id: u64| key_of(old_buckets[id])),
                done.finite(),
                pruned == done.len(),
                done.len() <= bid,
                forall|id: u64| #[trigger] done.contains(id) <==> (1 <= id <= bid && old_buckets.contains_key(id)
                    && prunable(old_buckets[id], before_timestamp)),
                self.buckets@ == old_buckets.remove_keys(done),
                self.bucket_index@ == old(self).bucket_index@.remove_keys(done.map(f)),
                self.bucket_counter == total,
                self.same_except_buckets(*old(self)),
            decreases total - bid,
        {
            bid = bid + 1;
            let maybe = match self.buckets.get(&bid) {
                Some(b) => Some(*b),
                None => None,
            };
            match maybe {
                Some(bucket) => {
                    assert(!done.contains(bid));
                    assert(old_buckets.contains_key(bid) && old_buckets[bid] == bucket);
                    let should_prune = match bucket.duration {
                        BucketDuration::Hourly => before_timestamp.saturating_sub(bucket.timestamp) > RETENTION_HOURLY_SECONDS,
                        BucketDuration::Daily => before_timestamp.saturating_sub(bucket.timestamp) > RETENTION_DAILY_SECONDS,
                        BucketDuration::Monthly => false,
                    };
                    if should_prune {
                        let k = bucket_key(bucket.metric_type, bucket.duration, bucket.timestamp);
                        self.bucket_index.remove(&k);
                        self.buckets.remove(&bid);
                        proof {
                            let s1 = done.insert(bid);
                            assert forall|k: u128| #[trigger] s1.map(f).contains(k) <==> done.map(f).insert(f(bid)).contains(k) by {
                                if s1.map(f).contains(k) {
                                    let y = choose|y: u64| s1.contains(y) && k == f(y);
                                    if y != bid {
                                        assert(done.contains(y) && k == f(y));
                                    }
                                }
                                if done.map(f).insert(f(bid)).contains(k) {
                                    if k == f(bid) {
                                        assert(s1.contains(bid) && k == f(bid));
                                    } else {
                                        let y = choose|y: u64| done.contains(y) && k == f(y);
                                        assert(s1.contains(y) && k == f(y));
                                    }
                                }
                            }
                            assert(done.insert(bid).map(f) =~= done.map(f).insert(f(bid)));
                            assert(self.bucket_index@ =~= old(self).bucket_index@.remove_keys(done.insert(bid).map(f)));
                            assert(self.buckets@ =~= old_buckets.remove_keys(done.insert(bid)));
                            done = done.insert(bid);
                            old(self).lemma_count_prunable_monotone(before_timestamp, bid as int, total as int);
                        }
                        pruned = pruned + 1;
                    }
                },
                None => {
                    assert(!old_buckets.contains_key(bid) || done.contains(bid));
                },
            }
        }
        proof {
            assert(done =~= old(self).pruned_ids(before_timestamp));
            assert(done.map(f) =~= old(self).pruned_keys(before_timestamp));
        }
        pruned
    }
}

} // verus!
