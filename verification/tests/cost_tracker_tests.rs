use zeroclaw_composio::cost_tracker::{CostTracker, CostTrackerConfig, PricingTier};
use zeroclaw_composio::store::KeyedStore;

fn usd(micro: u64) -> f64 {
    micro as f64 / 1_000_000.0
}

fn config(enabled: bool, tier: PricingTier, budget: Option<u64>) -> CostTrackerConfig {
    CostTrackerConfig {
        enabled,
        default_pricing_tier: tier,
        daily_budget_per_user_micro_usd: budget,
        toolkit_cost_limits_micro_usd: KeyedStore::new(),
        budget_warning_threshold_per_mille: 800,
    }
}

#[test]
fn test_pricing_tier_costs() {
    assert_eq!(usd(PricingTier::Free.cost_per_call()), 0.0);
    assert_eq!(usd(PricingTier::Starter.cost_per_call()), 0.001);
    assert_eq!(usd(PricingTier::Professional.cost_per_call()), 0.0005);
    assert_eq!(usd(PricingTier::Enterprise.cost_per_call()), 0.0003);
}

#[test]
fn test_cost_tracker_disabled() {
    let config = CostTrackerConfig { enabled: false, ..Default::default() };
    let mut tracker = CostTracker::new(config);
    let cost = tracker.record_call("user1", "gmail");
    assert_eq!(usd(cost), 0.0);
    assert!(!tracker.should_warn_budget("user1"));
    assert!(!tracker.is_budget_exceeded("user1"));
}

#[test]
fn test_cost_tracker_record_call() {
    let mut tracker = CostTracker::new(config(true, PricingTier::Starter, Some(1_000_000)));
    let cost = tracker.record_call("user1", "gmail");
    assert_eq!(usd(cost), 0.001);
    let summary = tracker.get_daily_summary("user1").unwrap();
    assert_eq!(summary.total_calls, 1);
    assert_eq!(usd(summary.total_cost_micro_usd), 0.001);
    assert_eq!(summary.cost_by_toolkit.get("gmail").map(|c| usd(*c)), Some(0.001));
}

#[test]
fn test_budget_warning_threshold() {
    let mut tracker = CostTracker::new(config(true, PricingTier::Starter, Some(1_000_000)));
    for _ in 0..800 {
        tracker.record_call("user1", "gmail");
    }
    assert!(tracker.should_warn_budget("user1"));
    assert!(!tracker.is_budget_exceeded("user1"));
    let summary = tracker.get_daily_summary("user1").unwrap();
    let consumed = summary.total_cost_micro_usd as f64 / summary.daily_budget_micro_usd.unwrap() as f64;
    assert_eq!(consumed, 0.8);
}

#[test]
fn test_budget_exceeded() {
    let mut tracker = CostTracker::new(config(true, PricingTier::Starter, Some(1_000_000)));
    for _ in 0..1000 {
        tracker.record_call("user1", "gmail");
    }
    assert!(tracker.is_budget_exceeded("user1"));
    let summary = tracker.get_daily_summary("user1").unwrap();
    let consumed = summary.total_cost_micro_usd as f64 / summary.daily_budget_micro_usd.unwrap() as f64;
    assert_eq!(consumed, 1.0);
    assert_eq!(summary.remaining_budget_micro_usd().map(usd), Some(0.0));
}

#[test]
fn test_toolkit_cost_limit() {
    let mut limits = KeyedStore::new();
    limits.insert("gmail".to_string(), 500_000u64);
    let config = CostTrackerConfig {
        enabled: true,
        default_pricing_tier: PricingTier::Starter,
        toolkit_cost_limits_micro_usd: limits,
        ..Default::default()
    };
    let mut tracker = CostTracker::new(config);
    for _ in 0..500 {
        tracker.record_call("user1", "gmail");
    }
    assert!(tracker.is_toolkit_limit_exceeded("user1", "gmail"));
    assert!(!tracker.is_toolkit_limit_exceeded("user1", "slack"));
}

#[test]
fn test_multiple_toolkits() {
    let mut tracker = CostTracker::new(config(true, PricingTier::Starter, Some(1_000_000)));
    tracker.record_call("user1", "gmail");
    tracker.record_call("user1", "slack");
    tracker.record_call("user1", "github");
    let summary = tracker.get_daily_summary("user1").unwrap();
    assert_eq!(summary.total_calls, 3);
    assert_eq!(usd(summary.total_cost_micro_usd), 0.003);
    assert_eq!(summary.cost_by_toolkit.len(), 3);
}

#[test]
fn test_multiple_users() {
    let mut tracker = CostTracker::new(config(true, PricingTier::Starter, None));
    tracker.record_call("user1", "gmail");
    tracker.record_call("user2", "slack");
    let summary1 = tracker.get_daily_summary("user1").unwrap();
    let summary2 = tracker.get_daily_summary("user2").unwrap();
    assert_eq!(summary1.total_calls, 1);
    assert_eq!(summary2.total_calls, 1);
    assert_ne!(summary1.user_id, summary2.user_id);
}

#[test]
fn test_estimate_call_cost() {
    let tracker = CostTracker::new(config(true, PricingTier::Professional, None));
    assert_eq!(usd(tracker.estimate_call_cost()), 0.0005);
}

#[test]
fn test_export_metrics() {
    let mut tracker = CostTracker::new(config(true, PricingTier::Starter, Some(1_000_000)));
    for _ in 0..900 {
        tracker.record_call("user1", "gmail");
    }
    for _ in 0..1100 {
        tracker.record_call("user2", "slack");
    }
    let metrics = tracker.export_metrics();
    assert_eq!(metrics.total_calls_today, 2000);
    assert_eq!(usd(metrics.total_cost_today_micro_usd), 2.0);
    assert_eq!(metrics.users_over_budget, 1);
    assert_eq!(metrics.users_near_budget, 1);
}

#[test]
fn a_call_adds_its_cost_to_the_total() {
    let mut tracker = CostTracker::new(config(true, PricingTier::Enterprise, None));
    let t0 = 1_700_000_000_000i64;
    tracker.record_call_at("u", "gmail", t0);
    tracker.record_call_at("u", "gmail", t0 + 1000);
    assert_eq!(tracker.get_total_cost("u"), 600);
    assert_eq!(tracker.get_user_records("u").len(), 2);
}

#[test]
fn old_records_are_cleaned_up() {
    let mut tracker = CostTracker::new(config(true, PricingTier::Starter, None));
    let day = 86_400_000i64;
    let t0 = 1_700_000_000_000i64;
    tracker.record_call_at("u", "gmail", t0);
    tracker.record_call_at("u", "gmail", t0 + 40 * day);
    tracker.cleanup_old_records_at(t0 + 40 * day);
    assert_eq!(tracker.get_user_records("u").len(), 1);
}

#[test]
fn exceeded_budget_also_warns() {
    let mut tracker = CostTracker::new(config(true, PricingTier::Starter, Some(2_000)));
    let t0 = 1_700_000_000_000i64;
    tracker.record_call_at("u", "gmail", t0);
    tracker.record_call_at("u", "gmail", t0 + 1);
    assert!(tracker.is_budget_exceeded_at("u", t0 + 2));
    assert!(tracker.should_warn_budget_at("u", t0 + 2));
}

#[test]
fn recording_now_appends_a_record_and_counts_the_call() {
    let mut tracker = CostTracker::new(config(true, PricingTier::Starter, None));
    let cost = tracker.record_call("user1", "gmail");
    assert_eq!(cost, PricingTier::Starter.cost_per_call());
    let summary = tracker.get_daily_summary("user1").unwrap();
    assert_eq!(summary.total_calls, 1);
    assert_eq!(summary.total_cost_micro_usd, cost);
    let mut off = CostTracker::new(config(false, PricingTier::Starter, None));
    assert_eq!(off.record_call("user1", "gmail"), 0);
    assert!(off.get_daily_summary("user1").is_none());
}
