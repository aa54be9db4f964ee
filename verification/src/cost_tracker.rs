//! Cost tracking for Composio API usage: calls recorded per user, estimated
//! by pricing tier, summed per user and UTC day, and checked against daily
//! and per-toolkit budgets.
//!
//! Amounts are integer micro-dollars (one millionth of a US dollar), in which
//! every tier's price is exact; sums saturate at `u64::MAX`.

use vstd::prelude::*;
use crate::clock::{now_millis, MILLIS_PER_DAY};
use crate::store::{KeyedStore, unique_keys};

verus! {

/// Micro-dollars in one US dollar.
pub const MICRO_USD_PER_USD: u64 = 1_000_000;

/// Composio pricing tier for cost estimation
#[derive(Debug, Clone, Copy, PartialEq, Eq, Structural)]
pub enum PricingTier {
    /// Free tier: limited calls, no cost
    Free,
    /// Starter tier: $0.001 per call
    Starter,
    /// Professional tier: $0.0005 per call
    Professional,
    /// Enterprise tier: custom pricing (estimated at $0.0003 per call)
    Enterprise,
}

/// The price of one call in a tier, in micro-dollars.
pub open spec fn tier_price(t: PricingTier) -> u64 {
    match t {
        PricingTier::Free => 0,
        PricingTier::Starter => 1000,
        PricingTier::Professional => 500,
        PricingTier::Enterprise => 300,
    }
}

impl PricingTier {
    /// Get the cost per API call, in micro-dollars
    pub fn cost_per_call(&self) -> (r: u64)
        ensures
            r == tier_price(*self),
    {
        match self {
            PricingTier::Free => 0,
            PricingTier::Starter => 1000,
            PricingTier::Professional => 500,
            PricingTier::Enterprise => 300,
        }
    }
}

impl Default for PricingTier {
    fn default() -> (r: Self)
        ensures
            r == PricingTier::Starter,
    {
        PricingTier::Starter
    }
}

/// The UTC date (`YYYY-MM-DD`) of a time in milliseconds since the Unix epoch.
pub uninterp spec fn spec_utc_date(ms: i64) -> Seq<char>;

/// Formats the UTC date of a time with chrono (`%Y-%m-%d`). The result is
/// named: the same time always gives the same date.
#[verifier::external_body]
pub(crate) fn utc_date(ms: i64) -> (r: String)
    ensures
        r@ == spec_utc_date(ms),
{
    match chrono::DateTime::from_timestamp_millis(ms) {
        Some(d) => d.format("%Y-%m-%d").to_string(),
        None => String::new(),
    }
}

/// The start (UTC midnight) of the day holding `ms`: the greatest multiple
/// of a day's milliseconds not above `ms` (`i64::MIN` in the one day below
/// which no multiple fits).
pub open spec fn day_start(ms: i64) -> int {
    if ms >= 0 {
        ms - ms % MILLIS_PER_DAY
    } else {
        let v = -((((-(ms + 1)) / 86_400_000int) + 1) * 86_400_000int);
        if v < i64::MIN {
            i64::MIN as int
        } else {
            v
        }
    }
}

/// The start of the day holding `ms`.
pub fn day_start_of(ms: i64) -> (r: i64)
    ensures
        r == day_start(ms),
{
    if ms >= 0 {
        ms - ms % MILLIS_PER_DAY
    } else {
        let m: i128 = -((ms as i128) + 1);
        let q: i128 = m / 86_400_000;
        assert(0 <= q <= 106751991167) by (nonlinear_arith)
            requires
                q == m / 86_400_000,
                0 <= m < 0x8000_0000_0000_0000,
        ;
        let r: i128 = -((q + 1) * 86_400_000);
        assert(r <= 0) by (nonlinear_arith)
            requires
                r == -((q + 1) * 86_400_000),
                0 <= q,
        ;
        if r < i64::MIN as i128 {
            return i64::MIN;
        }
        r as i64
    }
}

/// Sum that saturates at `u64::MAX`.
pub open spec fn sat_add(a: u64, b: u64) -> u64 {
    if a + b > u64::MAX {
        u64::MAX
    } else {
        (a + b) as u64
    }
}

/// Cost record for a single API call
#[derive(Debug)]
pub struct CostRecord {
    pub user_id: String,
    pub toolkit: String,
    /// Milliseconds since the Unix epoch.
    pub timestamp: i64,
    /// Estimated cost in micro-dollars.
    pub estimated_cost_micro_usd: u64,
    pub pricing_tier: PricingTier,
}

impl Clone for CostRecord {
    fn clone(&self) -> (r: Self)
        ensures
            r == *self,
    {
        CostRecord {
            user_id: self.user_id.clone(),
            toolkit: self.toolkit.clone(),
            timestamp: self.timestamp,
            estimated_cost_micro_usd: self.estimated_cost_micro_usd,
            pricing_tier: self.pricing_tier,
        }
    }
}

/// A record holds this call.
pub open spec fn record_is(r: CostRecord, user_id: Seq<char>, toolkit: Seq<char>, now: i64, cost: u64, tier: PricingTier) -> bool {
    &&& r.user_id@ == user_id
    &&& r.toolkit@ == toolkit
    &&& r.timestamp == now
    &&& r.estimated_cost_micro_usd == cost
    &&& r.pricing_tier == tier
}

/// Daily cost summary per user
#[derive(Debug)]
pub struct DailyCostSummary {
    pub user_id: String,
    /// Date (YYYY-MM-DD)
    pub date: String,
    /// UTC midnight of that date, in milliseconds since the Unix epoch.
    pub day_start_ms: i64,
    /// Total calls made that day
    pub total_calls: u64,
    /// Total estimated cost in micro-dollars
    pub total_cost_micro_usd: u64,
    /// Cost breakdown by toolkit, in micro-dollars
    pub cost_by_toolkit: KeyedStore<u64>,
    /// Daily budget limit in micro-dollars (if configured)
    pub daily_budget_micro_usd: Option<u64>,
}

/// What a summary holds, as values.
pub struct SummaryView {
    pub user_id: Seq<char>,
    pub date: Seq<char>,
    pub day_start_ms: i64,
    pub total_calls: u64,
    pub total_cost: u64,
    pub cost_by_toolkit: Map<Seq<char>, u64>,
    pub budget: Option<u64>,
}

impl View for DailyCostSummary {
    type V = SummaryView;

    open spec fn view(&self) -> SummaryView {
        SummaryView {
            user_id: self.user_id@,
            date: self.date@,
            day_start_ms: self.day_start_ms,
            total_calls: self.total_calls,
            total_cost: self.total_cost_micro_usd,
            cost_by_toolkit: self.cost_by_toolkit.model(),
            budget: self.daily_budget_micro_usd,
        }
    }
}

/// At least 80% of the budget is consumed (`consumed / budget >= 0.8`,
/// capped at 1; a zero budget counts as fully consumed).
pub open spec fn warn_level(s: SummaryView) -> bool {
    match s.budget {
        Some(b) => 5 * s.total_cost >= 4 * b,
        None => false,
    }
}

/// The whole budget is consumed.
pub open spec fn exceeded_level(s: SummaryView) -> bool {
    match s.budget {
        Some(b) => s.total_cost >= b,
        None => false,
    }
}

impl DailyCostSummary {
    /// Check if budget warning threshold (80%) is exceeded
    pub fn should_warn(&self) -> (r: bool)
        ensures
            r == warn_level(self@),
    {
        match self.daily_budget_micro_usd {
            Some(b) => 5 * (self.total_cost_micro_usd as u128) >= 4 * (b as u128),
            None => false,
        }
    }

    /// Check if budget is fully exceeded
    pub fn is_budget_exceeded(&self) -> (r: bool)
        ensures
            r == exceeded_level(self@),
    {
        match self.daily_budget_micro_usd {
            Some(b) => self.total_cost_micro_usd >= b,
            None => false,
        }
    }

    /// Get remaining budget, in micro-dollars (never below zero)
    pub fn remaining_budget_micro_usd(&self) -> (r: Option<u64>)
        ensures
            r == match self.daily_budget_micro_usd {
                Some(b) => Some(if b >= self.total_cost_micro_usd {
                    (b - self.total_cost_micro_usd) as u64
                } else {
                    0u64
                }),
                None => None,
            },
    {
        match self.daily_budget_micro_usd {
            Some(b) => Some(if b >= self.total_cost_micro_usd {
                b - self.total_cost_micro_usd
            } else {
                0
            }),
            None => None,
        }
    }

    /// A copy of the summary.
    pub fn copy(&self) -> (r: Self)
        ensures
            r@ == self@,
    {
        DailyCostSummary {
            user_id: self.user_id.clone(),
            date: self.date.clone(),
            day_start_ms: self.day_start_ms,
            total_calls: self.total_calls,
            total_cost_micro_usd: self.total_cost_micro_usd,
            cost_by_toolkit: self.cost_by_toolkit.copy(),
            daily_budget_micro_usd: self.daily_budget_micro_usd,
        }
    }
}

/// A user over budget is also past the warning threshold, and with no budget
/// neither holds.
pub proof fn law_exceeded_implies_warning(s: SummaryView)
    ensures
        exceeded_level(s) ==> warn_level(s),
        s.budget is None ==> !exceeded_level(s) && !warn_level(s),
{
}

/// A recorded call adds one call and its cost to the day's summary and to its
/// toolkit's share (below saturation), and leaves the budget as it was.
pub proof fn law_call_adds_cost(
    before: Option<SummaryView>,
    user_id: Seq<char>,
    toolkit: Seq<char>,
    date: Seq<char>,
    now: i64,
    budget: Option<u64>,
    cost: u64,
)
    requires
        before matches Some(b) ==> b.total_calls < u64::MAX && b.total_cost + cost <= u64::MAX && (
        b.cost_by_toolkit.contains_key(toolkit) ==> b.cost_by_toolkit[toolkit] + cost <= u64::MAX),
    ensures
        ({
            let a = after_call(before, user_id, toolkit, date, now, budget, cost);
            let (calls, total, share, bud) = match before {
                Some(b) => (
                    b.total_calls as int,
                    b.total_cost as int,
                    if b.cost_by_toolkit.contains_key(toolkit) { b.cost_by_toolkit[toolkit] as int } else { 0 },
                    b.budget,
                ),
                None => (0, 0, 0, budget),
            };
            &&& a.total_calls == calls + 1
            &&& a.total_cost == total + cost
            &&& a.cost_by_toolkit[toolkit] == share + cost
            &&& a.budget == bud
        }),
{
}

/// Cost tracker configuration
#[derive(Debug)]
pub struct CostTrackerConfig {
    /// Enable cost tracking
    pub enabled: bool,
    /// Default pricing tier for cost estimation
    pub default_pricing_tier: PricingTier,
    /// Daily budget per user in micro-dollars (None = unlimited)
    pub daily_budget_per_user_micro_usd: Option<u64>,
    /// Per-toolkit cost limits in micro-dollars (absent = unlimited)
    pub toolkit_cost_limits_micro_usd: KeyedStore<u64>,
    /// Budget warning threshold in thousandths (800 = 80%)
    pub budget_warning_threshold_per_mille: u64,
}

impl CostTrackerConfig {
    /// The default configuration: disabled, Starter tier, no budgets, 80%
    /// warning threshold.
    pub fn default_config() -> (c: Self)
        ensures
            !c.enabled,
            c.default_pricing_tier == PricingTier::Starter,
            c.daily_budget_per_user_micro_usd is None,
            c.toolkit_cost_limits_micro_usd.model() == Map::<Seq<char>, u64>::empty(),
            c.budget_warning_threshold_per_mille == 800,
    {
        CostTrackerConfig {
            enabled: false,
            default_pricing_tier: PricingTier::Starter,
            daily_budget_per_user_micro_usd: None,
            toolkit_cost_limits_micro_usd: KeyedStore::new(),
            budget_warning_threshold_per_mille: 800,
        }
    }
}

impl Default for CostTrackerConfig {
    fn default() -> (c: Self)
        ensures
            !c.enabled,
            c.default_pricing_tier == PricingTier::Starter,
            c.daily_budget_per_user_micro_usd is None,
            c.toolkit_cost_limits_micro_usd.model() == Map::<Seq<char>, u64>::empty(),
            c.budget_warning_threshold_per_mille == 800,
    {
        Self::default_config()
    }
}

/// Cost metrics for observability
#[derive(Debug, Clone, Copy, PartialEq, Eq, Structural)]
pub struct CostMetrics {
    /// Total API calls today across all users
    pub total_calls_today: u64,
    /// Total estimated cost today, in micro-dollars
    pub total_cost_today_micro_usd: u64,
    /// Number of users who exceeded their daily budget
    pub users_over_budget: u64,
    /// Number of users near budget warning threshold (>80%)
    pub users_near_budget: u64,
    /// Cost per API call, in micro-dollars
    pub cost_per_call_micro_usd: u64,
}

/// The metrics of a sequence of today's summaries.
pub open spec fn metrics_of(s: Seq<SummaryView>) -> (u64, u64, u64, u64)
    decreases s.len(),
{
    if s.len() == 0 {
        (0, 0, 0, 0)
    } else {
        let (c, t, o, n) = metrics_of(s.drop_last());
        let x = s.last();
        (
            sat_add(c, x.total_calls),
            sat_add(t, x.total_cost),
            if exceeded_level(x) { sat_add(o, 1) } else { o },
            if !exceeded_level(x) && warn_level(x) { sat_add(n, 1) } else { n },
        )
    }
}

/// The summary a call at `now` makes: the user's summary for the day with one
/// more call and its cost added in total and under the toolkit.
pub open spec fn after_call(
    before: Option<SummaryView>,
    user_id: Seq<char>,
    toolkit: Seq<char>,
    date: Seq<char>,
    now: i64,
    budget: Option<u64>,
    cost: u64,
) -> SummaryView {
    let s = match before {
        Some(b) => b,
        None => SummaryView {
            user_id,
            date,
            day_start_ms: day_start(now) as i64,
            total_calls: 0,
            total_cost: 0,
            cost_by_toolkit: Map::empty(),
            budget,
        },
    };
    SummaryView {
        total_calls: sat_add(s.total_calls, 1),
        total_cost: sat_add(s.total_cost, cost),
        cost_by_toolkit: s.cost_by_toolkit.insert(
            toolkit,
            sat_add(
                if s.cost_by_toolkit.contains_key(toolkit) {
                    s.cost_by_toolkit[toolkit]
                } else {
                    0
                },
                cost,
            ),
        ),
        ..s
    }
}

/// Cost tracker for Composio API usage
pub struct CostTracker {
    config: CostTrackerConfig,
    /// Cost records by user
    records: KeyedStore<Vec<CostRecord>>,
    /// Daily summaries by user, then by date
    daily_summaries: KeyedStore<KeyedStore<DailyCostSummary>>,
}

impl CostTracker {
    /// Whether tracking is on.
    pub closed spec fn enabled(self) -> bool {
        self.config.enabled
    }

    /// The pricing tier in use.
    pub closed spec fn tier(self) -> PricingTier {
        self.config.default_pricing_tier
    }

    /// The daily budget per user.
    pub closed spec fn budget(self) -> Option<u64> {
        self.config.daily_budget_per_user_micro_usd
    }

    /// The per-toolkit limits.
    pub closed spec fn limits(self) -> Map<Seq<char>, u64> {
        self.config.toolkit_cost_limits_micro_usd.model()
    }

    /// The cost records of each user, oldest first.
    pub closed spec fn records(self) -> Map<Seq<char>, Seq<CostRecord>> {
        self.records.model().map_values(|v: Vec<CostRecord>| v@)
    }

    /// The summary of a user on a date, if any.
    pub closed spec fn summary(self, user_id: Seq<char>, date: Seq<char>) -> Option<SummaryView> {
        if self.daily_summaries.model().contains_key(user_id) && self.daily_summaries.model()[user_id].model().contains_key(date) {
            Some(self.daily_summaries.model()[user_id].model()[date]@)
        } else {
            None
        }
    }

    /// The summaries for a date, one per user, in storage order.
    pub closed spec fn summaries_on(self, date: Seq<char>) -> Seq<SummaryView> {
        let users = self.daily_summaries.entry_seq().filter(
            |e: (Seq<char>, KeyedStore<DailyCostSummary>)| e.1.model().contains_key(date),
        );
        users.map_values(|e: (Seq<char>, KeyedStore<DailyCostSummary>)| e.1.model()[date]@)
    }

    /// Create a new cost tracker with the given configuration
    pub fn new(config: CostTrackerConfig) -> (t: Self)
        ensures
            t.enabled() == config.enabled,
            t.tier() == config.default_pricing_tier,
            t.budget() == config.daily_budget_per_user_micro_usd,
            t.limits() == config.toolkit_cost_limits_micro_usd.model(),
            t.records() == Map::<Seq<char>, Seq<CostRecord>>::empty(),
            forall|u: Seq<char>, d: Seq<char>| t.summary(u, d) is None,
    {
        let t = CostTracker { config, records: KeyedStore::new(), daily_summaries: KeyedStore::new() };
        assert(t.records() =~= Map::<Seq<char>, Seq<CostRecord>>::empty());
        t
    }

    /// What recording a call at `now` does, taking this tracker to `after`
    /// and returning `r`: with tracking off nothing changes and the cost is 0;
    /// with it on, the call's record is appended to the user's records, the
    /// user's summary for the day of `now` counts the call, and nothing else
    /// changes.
    pub open spec fn call_recorded(self, after: Self, user_id: Seq<char>, toolkit: Seq<char>, now: i64, r: u64) -> bool {
        &&& after.enabled() == self.enabled()
        &&& after.tier() == self.tier()
        &&& after.budget() == self.budget()
        &&& after.limits() == self.limits()
        &&& !self.enabled() ==> r == 0 && after.records() == self.records()
            && forall|u: Seq<char>, d: Seq<char>| #[trigger] after.summary(u, d) == self.summary(u, d)
        &&& self.enabled() ==> {
            let cost = tier_price(self.tier());
            &&& r == cost
            &&& after.records().dom() == self.records().dom().insert(user_id)
            &&& forall|u: Seq<char>| u != user_id && #[trigger] self.records().contains_key(u) ==> after.records()[u] == self.records()[u]
            &&& after.records()[user_id].len() == (if self.records().contains_key(user_id) { self.records()[user_id].len() } else { 0 }) + 1
            &&& forall|i: int| 0 <= i < after.records()[user_id].len() - 1 ==> #[trigger] after.records()[user_id][i] == self.records()[user_id][i]
            &&& record_is(after.records()[user_id].last(), user_id, toolkit, now, cost, self.tier())
            &&& after.summary(user_id, spec_utc_date(now)) == Some(after_call(
                self.summary(user_id, spec_utc_date(now)),
                user_id,
                toolkit,
                spec_utc_date(now),
                now,
                self.budget(),
                cost,
            ))
            &&& forall|u: Seq<char>, d: Seq<char>| !(u == user_id && d == spec_utc_date(now)) ==> #[trigger] after.summary(u, d) == self.summary(u, d)
        }
    }

    /// Record, at `now`, a Composio API call and estimate its cost (0 when
    /// tracking is off, and then nothing is recorded).
    pub fn record_call_at(&mut self, user_id: &str, toolkit: &str, now: i64) -> (r: u64)
        ensures
            old(self).call_recorded(*final(self), user_id@, toolkit@, now, r),
    {
        if !self.config.enabled {
            return 0;
        }
        let cost = self.config.default_pricing_tier.cost_per_call();
        let record = CostRecord {
            user_id: user_id.to_owned(),
            toolkit: toolkit.to_owned(),
            timestamp: now,
            estimated_cost_micro_usd: cost,
            pricing_tier: self.config.default_pricing_tier,
        };
        let ghost old_records = self.records();
        let mut list: Vec<CostRecord> = match self.records.remove(user_id) {
            Some(v) => v,
            None => Vec::new(),
        };
        list.push(record);
        self.records.insert(user_id.to_owned(), list);
        proof {
            assert(self.records().dom() =~= old_records.dom().insert(user_id@));
        }
        self.update_daily_summary(user_id, toolkit, cost, now);
        cost
    }

    /// Record a Composio API call now and estimate its cost: the call is
    /// recorded as by `record_call_at` at the time the clock reads.
    pub fn record_call(&mut self, user_id: &str, toolkit: &str) -> (r: u64)
        ensures
            r == (if old(self).enabled() { tier_price(old(self).tier()) } else { 0 }),
            exists|now: i64| #[trigger] old(self).call_recorded(*final(self), user_id@, toolkit@, now, r),
    {
        let now = now_millis();
        let r = self.record_call_at(user_id, toolkit, now);
        assert(old(self).call_recorded(*self, user_id@, toolkit@, now, r));
        r
    }

    /// Adds one call of `cost` under `toolkit` to the user's summary for the
    /// day of `now`, creating it when absent.
    fn update_daily_summary(&mut self, user_id: &str, toolkit: &str, cost: u64, now: i64)
        ensures
            final(self).config == old(self).config,
            final(self).records == old(self).records,
            final(self).summary(user_id@, spec_utc_date(now)) == Some(after_call(
                old(self).summary(user_id@, spec_utc_date(now)),
                user_id@,
                toolkit@,
                spec_utc_date(now),
                now,
                old(self).budget(),
                cost,
            )),
            forall|u: Seq<char>, d: Seq<char>| !(u == user_id@ && d == spec_utc_date(now)) ==> #[trigger] final(self).summary(u, d) == old(self).summary(u, d),
    {
        let date = utc_date(now);
        let ghost old_self = *self;
        let mut per_user: KeyedStore<DailyCostSummary> = match self.daily_summaries.remove(user_id) {
            Some(m) => m,
            None => KeyedStore::new(),
        };
        let ghost pu = per_user.model();
        let mut summary = match per_user.remove(date.as_str()) {
            Some(s) => s,
            None => DailyCostSummary {
                user_id: user_id.to_owned(),
                date: date.clone(),
                day_start_ms: day_start_of(now),
                total_calls: 0,
                total_cost_micro_usd: 0,
                cost_by_toolkit: KeyedStore::new(),
                daily_budget_micro_usd: self.config.daily_budget_per_user_micro_usd,
            },
        };
        let ghost sv = summary@;
        proof {
            assert(old_self.summary(user_id@, date@) == if pu.contains_key(date@) { Some(pu[date@]@) } else { None::<SummaryView> });
            assert(sv == match old_self.summary(user_id@, date@) {
                Some(b) => b,
                None => SummaryView {
                    user_id: user_id@,
                    date: date@,
                    day_start_ms: day_start(now) as i64,
                    total_calls: 0,
                    total_cost: 0,
                    cost_by_toolkit: Map::empty(),
                    budget: old_self.budget(),
                },
            });
        }
        summary.total_calls = summary.total_calls.saturating_add(1);
        summary.total_cost_micro_usd = summary.total_cost_micro_usd.saturating_add(cost);
        let prev: u64 = match summary.cost_by_toolkit.get(toolkit) {
            Some(c) => *c,
            None => 0,
        };
        summary.cost_by_toolkit.insert(toolkit.to_owned(), prev.saturating_add(cost));
        proof {
            assert(summary@ == after_call(
                old_self.summary(user_id@, date@),
                user_id@,
                toolkit@,
                date@,
                now,
                old_self.budget(),
                cost,
            ));
        }
        per_user.insert(date, summary);
        self.daily_summaries.insert(user_id.to_owned(), per_user);
    }


    /// Remove, at `now`, records and daily summaries older than 30 days: a
    /// record stays when it was made after the cutoff, a summary when its day
    /// starts after it.
    pub fn cleanup_old_records_at(&mut self, now: i64)
        ensures
            final(self).enabled() == old(self).enabled(),
            final(self).tier() == old(self).tier(),
            final(self).budget() == old(self).budget(),
            final(self).limits() == old(self).limits(),
            final(self).records() == old(self).records().map_values(
                |v: Seq<CostRecord>| v.filter(|r: CostRecord| r.timestamp > cutoff_of(now)),
            ),
            forall|u: Seq<char>, d: Seq<char>| #[trigger] final(self).summary(u, d) == match old(self).summary(u, d) {
                Some(x) => if x.day_start_ms > cutoff_of(now) {
                    Some(x)
                } else {
                    None
                },
                None => None,
            },
    {
        let cutoff = cutoff_millis(now);
        let ghost keep = |r: CostRecord| r.timestamp > cutoff;
        let ghost old_rec = self.records.model();
        self.records.entry_facts();
        let n = self.records.len();
        let mut fresh: KeyedStore<Vec<CostRecord>> = KeyedStore::new();
        let mut i: usize = 0;
        while i < n
            invariant
                n == self.records.entry_seq().len(),
                old_rec == self.records.model(),
                keep == (|r: CostRecord| r.timestamp > cutoff),
                i <= n,
                unique_keys(self.records.entry_seq()),
                forall|j: int| 0 <= j < self.records.entry_seq().len() ==> #[trigger] old_rec.contains_key(
                    self.records.entry_seq()[j].0,
                ) && old_rec[self.records.entry_seq()[j].0] == self.records.entry_seq()[j].1,
                forall|k: Seq<char>| fresh.model().contains_key(k) <==> exists|j: int| 0 <= j < i && #[trigger] self.records.entry_seq()[j].0 == k,
                forall|k: Seq<char>| #[trigger] fresh.model().contains_key(k) ==> fresh.model()[k]@ == old_rec[k]@.filter(keep),
            decreases n - i,
        {
            let k = self.records.key_at(i);
            let v = self.records.value_at(i);
            let kept = keep_recent(v, cutoff);
            let ghost key = self.records.entry_seq()[i as int].0;
            fresh.insert(k.clone(), kept);
            proof {
                assert forall|q: Seq<char>| fresh.model().contains_key(q) implies exists|j: int| 0 <= j < i + 1 && #[trigger] self.records.entry_seq()[j].0 == q by {
                    if q != key {
                        let j = choose|j: int| 0 <= j < i && #[trigger] self.records.entry_seq()[j].0 == q;
                    }
                }
            }
            i = i + 1;
        }
        self.records.entry_facts();
        proof {
            assert forall|k: Seq<char>| old_rec.contains_key(k) implies fresh.model().contains_key(k) by {
                let j = choose|j: int| 0 <= j < self.records.entry_seq().len() && self.records.entry_seq()[j].0 == k
                    && old_rec[k] == self.records.entry_seq()[j].1;
            }
        }
        self.records = fresh;
        proof {
            assert(self.records() =~= old(self).records().map_values(
                |v: Seq<CostRecord>| v.filter(|r: CostRecord| r.timestamp > cutoff_of(now)),
            ));
        }
        self.cleanup_summaries(cutoff);
    }


    /// Clear records and summaries older than 30 days, now
    pub fn cleanup_old_records(&mut self)
        ensures
            final(self).enabled() == old(self).enabled(),
            final(self).tier() == old(self).tier(),
            final(self).budget() == old(self).budget(),
            final(self).limits() == old(self).limits(),
            exists|now: i64| final(self).records() == old(self).records().map_values(
                |v: Seq<CostRecord>| v.filter(|r: CostRecord| r.timestamp > #[trigger] cutoff_of(now)),
            ),
    {
        self.cleanup_old_records_at(now_millis());
    }

    /// Keeps the summaries whose day starts after `cutoff`.
    fn cleanup_summaries(&mut self, cutoff: i64)
        ensures
            final(self).config == old(self).config,
            final(self).records == old(self).records,
            forall|u: Seq<char>, d: Seq<char>| #[trigger] final(self).summary(u, d) == match old(self).summary(u, d) {
                Some(x) => if x.day_start_ms > cutoff {
                    Some(x)
                } else {
                    None
                },
                None => None,
            },
    {
        let ghost om = self.daily_summaries.model();
        self.daily_summaries.entry_facts();
        let n = self.daily_summaries.len();
        let mut fresh: KeyedStore<KeyedStore<DailyCostSummary>> = KeyedStore::new();
        let mut i: usize = 0;
        while i < n
            invariant
                n == self.daily_summaries.entry_seq().len(),
                om == self.daily_summaries.model(),
                i <= n,
                forall|j: int| 0 <= j < self.daily_summaries.entry_seq().len() ==> #[trigger] om.contains_key(
                    self.daily_summaries.entry_seq()[j].0,
                ) && om[self.daily_summaries.entry_seq()[j].0] == self.daily_summaries.entry_seq()[j].1,
                forall|u: Seq<char>| fresh.model().contains_key(u) <==> exists|j: int| 0 <= j < i && #[trigger] self.daily_summaries.entry_seq()[j].0 == u,
                forall|u: Seq<char>, d: Seq<char>| #[trigger] fresh.model().contains_key(u) ==> (
                    #[trigger] fresh.model()[u].model().contains_key(d) <==> (om[u].model().contains_key(d)
                        && om[u].model()[d].day_start_ms > cutoff)),
                forall|u: Seq<char>, d: Seq<char>| fresh.model().contains_key(u) && #[trigger] fresh.model()[u].model().contains_key(d) ==> fresh.model()[u].model()[d]@ == om[u].model()[d]@,
            decreases n - i,
        {
            let user = self.daily_summaries.key_at(i);
            let inner = self.daily_summaries.value_at(i);
            let ghost uk = self.daily_summaries.entry_seq()[i as int].0;
            let kept = keep_recent_days(inner, cutoff);
            proof {
                assert(0 <= i < self.daily_summaries.entry_seq().len());
                assert(om.contains_key(self.daily_summaries.entry_seq()[i as int].0));
                assert(*inner == self.daily_summaries.entry_seq()[i as int].1);
                assert(om.contains_key(uk) && om[uk] == *inner);
            }
            let ghost prev = fresh.model();
            fresh.insert(user.clone(), kept);
            proof {
                assert forall|u: Seq<char>, d: Seq<char>| #[trigger] fresh.model().contains_key(u) implies (
                    #[trigger] fresh.model()[u].model().contains_key(d) <==> (om[u].model().contains_key(d)
                        && om[u].model()[d].day_start_ms > cutoff)) by {
                    if u != uk {
                        assert(prev.contains_key(u));
                        assert(prev[u].model().contains_key(d) <==> (om[u].model().contains_key(d)
                            && om[u].model()[d].day_start_ms > cutoff));
                    }
                }
                assert forall|u: Seq<char>, d: Seq<char>| fresh.model().contains_key(u) && #[trigger] fresh.model()[u].model().contains_key(d) implies fresh.model()[u].model()[d]@ == om[u].model()[d]@ by {
                    if u != uk {
                        assert(prev.contains_key(u));
                        assert(prev[u].model().contains_key(d));
                    }
                }
                assert forall|q: Seq<char>| fresh.model().contains_key(q) implies exists|j: int| 0 <= j < i + 1 && #[trigger] self.daily_summaries.entry_seq()[j].0 == q by {
                    if q != uk {
                        let j = choose|j: int| 0 <= j < i && #[trigger] self.daily_summaries.entry_seq()[j].0 == q;
                    }
                }
            }
            i = i + 1;
        }
        let ghost before = *self;
        self.daily_summaries = fresh;
        proof {
            assert forall|u: Seq<char>, d: Seq<char>| #[trigger] self.summary(u, d) == match before.summary(u, d) {
                Some(x) => if x.day_start_ms > cutoff {
                    Some(x)
                } else {
                    None
                },
                None => None,
            } by {
                if om.contains_key(u) {
                    let j = choose|j: int| 0 <= j < n && self.daily_summaries.entry_seq().len() >= 0 && before.daily_summaries.entry_seq()[j].0 == u;
                    assert(self.daily_summaries.model().contains_key(u));
                }
                if self.daily_summaries.model().contains_key(u) {
                    assert(om.contains_key(u)) by {
                        let j = choose|j: int| 0 <= j < n && #[trigger] before.daily_summaries.entry_seq()[j].0 == u;
                    }
                }
            }
        }
    }

    /// The summary of a user on the date of `now`.
    pub fn get_daily_summary_at(&self, user_id: &str, now: i64) -> (r: Option<DailyCostSummary>)
        ensures
            match r {
                Some(s) => self.summary(user_id@, spec_utc_date(now)) == Some(s@),
                None => self.summary(user_id@, spec_utc_date(now)) is None,
            },
    {
        let date = utc_date(now);
        match self.daily_summaries.get(user_id) {
            Some(per_user) => match per_user.get(date.as_str()) {
                Some(s) => Some(s.copy()),
                None => None,
            },
            None => None,
        }
    }

    /// Get the daily cost summary for a user, today
    pub fn get_daily_summary(&self, user_id: &str) -> (r: Option<DailyCostSummary>)
        ensures
            exists|now: i64|
                match r {
                    Some(s) => #[trigger] self.summary(user_id@, spec_utc_date(now)) == Some(s@),
                    None => self.summary(user_id@, spec_utc_date(now)) is None,
                },
    {
        self.get_daily_summary_at(user_id, now_millis())
    }

    /// Whether a user should receive a budget warning on the date of `now`.
    pub fn should_warn_budget_at(&self, user_id: &str, now: i64) -> (r: bool)
        ensures
            r == (self.enabled() && match self.summary(user_id@, spec_utc_date(now)) {
                Some(s) => warn_level(s),
                None => false,
            }),
    {
        if !self.config.enabled {
            return false;
        }
        match self.get_daily_summary_at(user_id, now) {
            Some(s) => s.should_warn(),
            None => false,
        }
    }

    /// Check if a user should receive a budget warning today
    pub fn should_warn_budget(&self, user_id: &str) -> (r: bool)
        ensures
            !self.enabled() ==> !r,
            exists|now: i64| r == (self.enabled() && match #[trigger] self.summary(user_id@, spec_utc_date(now)) {
                Some(s) => warn_level(s),
                None => false,
            }),
    {
        self.should_warn_budget_at(user_id, now_millis())
    }

    /// Whether a user has exceeded the daily budget on the date of `now`.
    pub fn is_budget_exceeded_at(&self, user_id: &str, now: i64) -> (r: bool)
        ensures
            r == (self.enabled() && match self.summary(user_id@, spec_utc_date(now)) {
                Some(s) => exceeded_level(s),
                None => false,
            }),
    {
        if !self.config.enabled {
            return false;
        }
        match self.get_daily_summary_at(user_id, now) {
            Some(s) => s.is_budget_exceeded(),
            None => false,
        }
    }

    /// Check if a user has exceeded their daily budget today
    pub fn is_budget_exceeded(&self, user_id: &str) -> (r: bool)
        ensures
            !self.enabled() ==> !r,
            exists|now: i64| r == (self.enabled() && match #[trigger] self.summary(user_id@, spec_utc_date(now)) {
                Some(s) => exceeded_level(s),
                None => false,
            }),
    {
        self.is_budget_exceeded_at(user_id, now_millis())
    }

    /// Whether the user's spend on a toolkit, on the date of `now`, reached
    /// the toolkit's limit: never when tracking is off, the toolkit has no
    /// limit or the user no summary that day.
    pub open spec fn toolkit_limit_reached(&self, user_id: Seq<char>, toolkit: Seq<char>, now: i64) -> bool {
        self.enabled() && self.limits().contains_key(toolkit) && match self.summary(user_id, spec_utc_date(now)) {
            Some(s) => (if s.cost_by_toolkit.contains_key(toolkit) {
                s.cost_by_toolkit[toolkit]
            } else {
                0
            }) >= self.limits()[toolkit],
            None => false,
        }
    }

    /// Whether the user's spend on a toolkit, on the date of `now`, reached
    /// the toolkit's limit (false without a limit or a summary).
    pub fn is_toolkit_limit_exceeded_at(&self, user_id: &str, toolkit: &str, now: i64) -> (r: bool)
        ensures
            r == self.toolkit_limit_reached(user_id@, toolkit@, now),
    {
        if !self.config.enabled {
            return false;
        }
        let limit: u64 = match self.config.toolkit_cost_limits_micro_usd.get(toolkit) {
            Some(l) => *l,
            None => {
                return false;
            },
        };
        let summary = match self.get_daily_summary_at(user_id, now) {
            Some(s) => s,
            None => {
                return false;
            },
        };
        let spent: u64 = match summary.cost_by_toolkit.get(toolkit) {
            Some(c) => *c,
            None => 0,
        };
        spent >= limit
    }

    /// Check if a toolkit cost limit is exceeded for a user today
    pub fn is_toolkit_limit_exceeded(&self, user_id: &str, toolkit: &str) -> (r: bool)
        ensures
            exists|now: i64| r == #[trigger] self.toolkit_limit_reached(user_id@, toolkit@, now),
    {
        self.is_toolkit_limit_exceeded_at(user_id, toolkit, now_millis())
    }

    /// Estimate the cost of a future API call, in micro-dollars
    pub fn estimate_call_cost(&self) -> (r: u64)
        ensures
            r == (if self.enabled() { tier_price(self.tier()) } else { 0 }),
    {
        if !self.config.enabled {
            return 0;
        }
        self.config.default_pricing_tier.cost_per_call()
    }

    /// Get all cost records for a user
    pub fn get_user_records(&self, user_id: &str) -> (r: Vec<CostRecord>)
        ensures
            r@ == (if self.records().contains_key(user_id@) { self.records()[user_id@] } else { Seq::empty() }),
    {
        match self.records.get(user_id) {
            Some(v) => {
                let mut out: Vec<CostRecord> = Vec::new();
                let mut i: usize = 0;
                while i < v.len()
                    invariant
                        i <= v@.len(),
                        out@ == v@.subrange(0, i as int),
                    decreases v.len() - i,
                {
                    out.push(v[i].clone());
                    i = i + 1;
                }
                proof {
                    assert(v@.subrange(0, v@.len() as int) =~= v@);
                }
                out
            },
            None => Vec::new(),
        }
    }

    /// Get total cost for a user across all time, in micro-dollars
    pub fn get_total_cost(&self, user_id: &str) -> (r: u64)
        ensures
            r == total_cost_of(if self.records().contains_key(user_id@) { self.records()[user_id@] } else { Seq::empty() }),
    {
        let recs = self.get_user_records(user_id);
        let mut total: u64 = 0;
        let mut i: usize = 0;
        while i < recs.len()
            invariant
                i <= recs@.len(),
                total == total_cost_of(recs@.subrange(0, i as int)),
            decreases recs.len() - i,
        {
            proof {
                assert(recs@.subrange(0, i + 1).drop_last() =~= recs@.subrange(0, i as int));
            }
            total = total.saturating_add(recs[i].estimated_cost_micro_usd);
            i = i + 1;
        }
        proof {
            assert(recs@.subrange(0, recs@.len() as int) =~= recs@);
        }
        total
    }

    /// Export, at `now`, the cost metrics of the date of `now`.
    pub fn export_metrics_at(&self, now: i64) -> (r: CostMetrics)
        ensures
            ({
                let (c, t, o, n) = metrics_of(self.summaries_on(spec_utc_date(now)));
                r == CostMetrics {
                    total_calls_today: c,
                    total_cost_today_micro_usd: t,
                    users_over_budget: o,
                    users_near_budget: n,
                    cost_per_call_micro_usd: tier_price(self.tier()),
                }
            }),
    {
        let today = utc_date(now);
        let ghost d = today@;
        let ghost f = |e: (Seq<char>, KeyedStore<DailyCostSummary>)| e.1.model().contains_key(d);
        let ghost g = |e: (Seq<char>, KeyedStore<DailyCostSummary>)| e.1.model()[d]@;
        let ghost es = self.daily_summaries.entry_seq();
        let mut calls: u64 = 0;
        let mut cost: u64 = 0;
        let mut over: u64 = 0;
        let mut near: u64 = 0;
        let n = self.daily_summaries.len();
        let mut i: usize = 0;
        while i < n
            invariant
                n == es.len(),
                es == self.daily_summaries.entry_seq(),
                d == today@,
                f == (|e: (Seq<char>, KeyedStore<DailyCostSummary>)| e.1.model().contains_key(d)),
                g == (|e: (Seq<char>, KeyedStore<DailyCostSummary>)| e.1.model()[d]@),
                i <= n,
                (calls, cost, over, near) == metrics_of(es.subrange(0, i as int).filter(f).map_values(g)),
            decreases n - i,
        {
            let per_user = self.daily_summaries.value_at(i);
            proof {
                reveal(Seq::filter);
                assert(es.subrange(0, i + 1).drop_last() =~= es.subrange(0, i as int));
                assert(es.subrange(0, i + 1).last() == es[i as int]);
            }
            match per_user.get(today.as_str()) {
                Some(s) => {
                    let ghost prev = es.subrange(0, i as int).filter(f).map_values(g);
                    proof {
                        assert(f(es[i as int]));
                        assert(es.subrange(0, i + 1).filter(f) == es.subrange(0, i as int).filter(f).push(es[i as int]));
                        assert(es.subrange(0, i + 1).filter(f).map_values(g) =~= prev.push(s@));
                        assert(prev.push(s@).drop_last() =~= prev);
                    }
                    calls = calls.saturating_add(s.total_calls);
                    cost = cost.saturating_add(s.total_cost_micro_usd);
                    let exceeded = s.is_budget_exceeded();
                    if exceeded {
                        over = over.saturating_add(1);
                    } else if s.should_warn() {
                        near = near.saturating_add(1);
                    }
                },
                None => {
                    proof {
                        assert(!f(es[i as int]));
                        assert(es.subrange(0, i + 1).filter(f) == es.subrange(0, i as int).filter(f));
                    }
                },
            }
            i = i + 1;
        }
        proof {
            assert(es.subrange(0, n as int) =~= es);
        }
        CostMetrics {
            total_calls_today: calls,
            total_cost_today_micro_usd: cost,
            users_over_budget: over,
            users_near_budget: near,
            cost_per_call_micro_usd: self.config.default_pricing_tier.cost_per_call(),
        }
    }

    /// Export cost metrics for observability
    pub fn export_metrics(&self) -> (r: CostMetrics)
        ensures
            r.cost_per_call_micro_usd == tier_price(self.tier()),
            exists|now: i64| ({
                let (c, t, o, n) = metrics_of(#[trigger] self.summaries_on(spec_utc_date(now)));
                r == CostMetrics {
                    total_calls_today: c,
                    total_cost_today_micro_usd: t,
                    users_over_budget: o,
                    users_near_budget: n,
                    cost_per_call_micro_usd: tier_price(self.tier()),
                }
            }),
    {
        self.export_metrics_at(now_millis())
    }
}

/// Thirty days before `now`, in milliseconds (saturating).
pub open spec fn cutoff_of(now: i64) -> i64 {
    if now - 30 * MILLIS_PER_DAY < i64::MIN {
        i64::MIN
    } else {
        (now - 30 * MILLIS_PER_DAY) as i64
    }
}

/// Thirty days before `now`.
pub fn cutoff_millis(now: i64) -> (r: i64)
    ensures
        r == cutoff_of(now),
{
    if (now as i128) - 30 * (MILLIS_PER_DAY as i128) < i64::MIN as i128 {
        i64::MIN
    } else {
        now - 30 * MILLIS_PER_DAY
    }
}

/// The records made after `cutoff`, in order.
pub fn keep_recent(v: &Vec<CostRecord>, cutoff: i64) -> (r: Vec<CostRecord>)
    ensures
        r@ == v@.filter(|x: CostRecord| x.timestamp > cutoff),
{
    let ghost keep = |x: CostRecord| x.timestamp > cutoff;
    let mut out: Vec<CostRecord> = Vec::new();
    let mut i: usize = 0;
    while i < v.len()
        invariant
            i <= v@.len(),
            keep == (|x: CostRecord| x.timestamp > cutoff),
            out@ == v@.subrange(0, i as int).filter(keep),
        decreases v.len() - i,
    {
        proof {
            reveal(Seq::filter);
            assert(v@.subrange(0, i + 1).drop_last() =~= v@.subrange(0, i as int));
        }
        if v[i].timestamp > cutoff {
            out.push(v[i].clone());
        }
        i = i + 1;
    }
    proof {
        assert(v@.subrange(0, v@.len() as int) =~= v@);
    }
    out
}

/// The summaries of a store whose day starts after `cutoff`.
fn keep_recent_days(inner: &KeyedStore<DailyCostSummary>, cutoff: i64) -> (r: KeyedStore<DailyCostSummary>)
    ensures
        forall|d: Seq<char>| #[trigger] r.model().contains_key(d) <==> (inner.model().contains_key(d)
            && inner.model()[d].day_start_ms > cutoff),
        forall|d: Seq<char>| #[trigger] r.model().contains_key(d) ==> r.model()[d]@ == inner.model()[d]@,
{
    inner.entry_facts();
    let n = inner.len();
    let mut out: KeyedStore<DailyCostSummary> = KeyedStore::new();
    let mut i: usize = 0;
    while i < n
        invariant
            n == inner.entry_seq().len(),
            i <= n,
            forall|j: int| 0 <= j < inner.entry_seq().len() ==> #[trigger] inner.model().contains_key(
                inner.entry_seq()[j].0,
            ) && inner.model()[inner.entry_seq()[j].0] == inner.entry_seq()[j].1,
            forall|k: Seq<char>| #[trigger] inner.model().contains_key(k) ==> exists|j: int|
                0 <= j < inner.entry_seq().len() && inner.entry_seq()[j].0 == k && inner.model()[k] == inner.entry_seq()[j].1,
            unique_keys(inner.entry_seq()),
            forall|d: Seq<char>| out.model().contains_key(d) <==> exists|j: int| 0 <= j < i && #[trigger] inner.entry_seq()[j].0 == d
                && inner.entry_seq()[j].1.day_start_ms > cutoff,
            forall|d: Seq<char>| #[trigger] out.model().contains_key(d) ==> out.model()[d]@ == inner.model()[d]@,
        decreases n - i,
    {
        let k = inner.key_at(i);
        let v = inner.value_at(i);
        let ghost dk = inner.entry_seq()[i as int].0;
        if v.day_start_ms > cutoff {
            out.insert(k.clone(), v.copy());
        }
        proof {
            assert forall|q: Seq<char>| out.model().contains_key(q) implies exists|j: int| 0 <= j < i + 1 && #[trigger] inner.entry_seq()[j].0 == q
                && inner.entry_seq()[j].1.day_start_ms > cutoff by {
                if q != dk || !(v.day_start_ms > cutoff) {
                    let j = choose|j: int| 0 <= j < i && #[trigger] inner.entry_seq()[j].0 == q && inner.entry_seq()[j].1.day_start_ms > cutoff;
                }
            }
        }
        i = i + 1;
    }
    proof {
        assert forall|d: Seq<char>| inner.model().contains_key(d) && inner.model()[d].day_start_ms > cutoff implies #[trigger] out.model().contains_key(d) by {
            let j = choose|j: int| 0 <= j < inner.entry_seq().len() && inner.entry_seq()[j].0 == d && inner.model()[d] == inner.entry_seq()[j].1;
        }
        assert forall|d: Seq<char>| #[trigger] out.model().contains_key(d) implies inner.model().contains_key(d) && inner.model()[d].day_start_ms > cutoff by {
            let j = choose|j: int| 0 <= j < n && #[trigger] inner.entry_seq()[j].0 == d && inner.entry_seq()[j].1.day_start_ms > cutoff;
        }
    }
    out
}

/// The total cost of a list of records, in micro-dollars (saturating).
pub open spec fn total_cost_of(s: Seq<CostRecord>) -> u64
    decreases s.len(),
{
    if s.len() == 0 {
        0
    } else {
        sat_add(total_cost_of(s.drop_last()), s.last().estimated_cost_micro_usd)
    }
}

/// Only a toolkit's own spend counts against its limit: recording a call on
/// another toolkit never changes whether this toolkit's limit is reached,
/// for any user on any day. (A limit of zero is left out: the first call of a
/// day on any toolkit gives the user a summary, and a zero limit counts as
/// reached by any summary.)
pub proof fn law_other_toolkits_do_not_count(
    t: CostTracker,
    after: CostTracker,
    user_id: Seq<char>,
    other: Seq<char>,
    now: i64,
    r: u64,
    toolkit: Seq<char>,
    who: Seq<char>,
    when: i64,
)
    requires
        t.call_recorded(after, user_id, other, now, r),
        other != toolkit,
        t.limits().contains_key(toolkit) ==> t.limits()[toolkit] > 0,
    ensures
        after.toolkit_limit_reached(who, toolkit, when) == t.toolkit_limit_reached(who, toolkit, when),
{
    if t.enabled() && !(who == user_id && spec_utc_date(when) == spec_utc_date(now)) {
        assert(after.summary(who, spec_utc_date(when)) == t.summary(who, spec_utc_date(when)));
    }
}

/// A call on a toolkit whose price alone reaches the toolkit's limit leaves
/// that limit reached for the caller on that day.
pub proof fn law_a_call_at_the_limit_reaches_it(
    t: CostTracker,
    after: CostTracker,
    user_id: Seq<char>,
    toolkit: Seq<char>,
    now: i64,
    r: u64,
)
    requires
        t.call_recorded(after, user_id, toolkit, now, r),
        t.enabled(),
        t.limits().contains_key(toolkit),
        tier_price(t.tier()) >= t.limits()[toolkit],
    ensures
        after.toolkit_limit_reached(user_id, toolkit, now),
{
}

/// Recording a call never takes a toolkit back under its limit: once a
/// user's spend on a toolkit reached its limit on a day, it stays reached
/// after any further call.
pub proof fn law_reached_limits_stay_reached(
    t: CostTracker,
    after: CostTracker,
    user_id: Seq<char>,
    called: Seq<char>,
    now: i64,
    r: u64,
    toolkit: Seq<char>,
    who: Seq<char>,
    when: i64,
)
    requires
        t.call_recorded(after, user_id, called, now, r),
        t.toolkit_limit_reached(who, toolkit, when),
    ensures
        after.toolkit_limit_reached(who, toolkit, when),
{
    if !(who == user_id && spec_utc_date(when) == spec_utc_date(now)) {
        assert(after.summary(who, spec_utc_date(when)) == t.summary(who, spec_utc_date(when)));
    }
}

} // verus!
