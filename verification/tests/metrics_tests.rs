use stellai::metrics::{BucketDuration, MetricType, MetricsAggregator, OrderBy, UserActivityType};
use stellai::types::Address;

fn setup() -> (Address, MetricsAggregator) {
    let mut m = MetricsAggregator::new();
    let admin = Address(1);
    m.init_contract(admin);
    (admin, m)
}

#[test]
fn test_init_contract() {
    let (_admin, _m) = setup();
}

#[test]
fn test_record_and_query_single_metric() {
    let (admin, mut m) = setup();
    m.record_metric(admin, MetricType::AgentsMinted, 1, 3600);
    let result = m.query_metrics(MetricType::AgentsMinted, BucketDuration::Hourly, 0, 7200, 10);
    assert_eq!(result.total_count, 1);
    assert_eq!(result.buckets.len(), 1);
    let bucket = result.buckets[0];
    assert_eq!(bucket.value, 1);
    assert_eq!(bucket.count, 1);
    assert_eq!(bucket.min, 1);
    assert_eq!(bucket.max, 1);
    assert_eq!(bucket.timestamp, 3600);
}

#[test]
fn test_record_multiple_aggregates_in_same_bucket() {
    let (admin, mut m) = setup();
    m.record_metric(admin, MetricType::MarketplaceVolume, 100, 3600);
    m.record_metric(admin, MetricType::MarketplaceVolume, 250, 3900);
    m.record_metric(admin, MetricType::MarketplaceVolume, 50, 4000);
    let result = m.query_metrics(MetricType::MarketplaceVolume, BucketDuration::Hourly, 3600, 3600, 10);
    assert_eq!(result.total_count, 1);
    let bucket = result.buckets[0];
    assert_eq!(bucket.value, 400);
    assert_eq!(bucket.count, 3);
    assert_eq!(bucket.min, 50);
    assert_eq!(bucket.max, 250);
}

#[test]
fn test_record_across_multiple_hourly_buckets() {
    let (admin, mut m) = setup();
    m.record_metric(admin, MetricType::ExecutionActions, 5, 1000);
    m.record_metric(admin, MetricType::ExecutionActions, 10, 4000);
    m.record_metric(admin, MetricType::ExecutionActions, 15, 8000);
    let result = m.query_metrics(MetricType::ExecutionActions, BucketDuration::Hourly, 0, 10800, 10);
    assert_eq!(result.total_count, 3);
}

#[test]
fn test_daily_bucketing() {
    let (admin, mut m) = setup();
    m.record_metric(admin, MetricType::MarketplaceSales, 1, 1000);
    m.record_metric(admin, MetricType::MarketplaceSales, 1, 50000);
    let result = m.query_metrics(MetricType::MarketplaceSales, BucketDuration::Daily, 0, 86400, 10);
    assert_eq!(result.total_count, 1);
    let bucket = result.buckets[0];
    assert_eq!(bucket.value, 2);
    assert_eq!(bucket.count, 2);
}

#[test]
fn test_monthly_bucketing() {
    let (admin, mut m) = setup();
    m.record_metric(admin, MetricType::GovernanceProposals, 1, 100);
    m.record_metric(admin, MetricType::GovernanceProposals, 1, 1_000_000);
    let result = m.query_metrics(MetricType::GovernanceProposals, BucketDuration::Monthly, 0, 2_592_000, 10);
    assert_eq!(result.total_count, 1);
    assert_eq!(result.buckets[0].value, 2);
}

#[test]
fn test_query_empty_range() {
    let (_admin, m) = setup();
    let result = m.query_metrics(MetricType::AgentsMinted, BucketDuration::Hourly, 0, 7200, 10);
    assert_eq!(result.total_count, 0);
    assert_eq!(result.buckets.len(), 0);
    assert!(!result.has_more);
}

#[test]
fn test_query_limit_enforcement() {
    let (admin, mut m) = setup();
    for i in 0..5u64 {
        m.record_metric(admin, MetricType::EvolutionRequests, 1, i * 3600);
    }
    let result = m.query_metrics(MetricType::EvolutionRequests, BucketDuration::Hourly, 0, 18000, 3);
    assert_eq!(result.total_count, 3);
    assert!(result.has_more);
}

#[test]
fn test_record_user_activity_and_get_stats() {
    let (admin, mut m) = setup();
    let user = Address(7);
    m.record_user_activity(admin, user, UserActivityType::AgentOwned, 2, 10);
    m.record_user_activity(admin, user, UserActivityType::AgentTraded, 1, 11);
    m.record_user_activity(admin, user, UserActivityType::VolumeAdded, 5000, 12);
    m.record_user_activity(admin, user, UserActivityType::AmountSpent, 3000, 13);
    m.record_user_activity(admin, user, UserActivityType::ParticipationScored, 10, 14);
    let stats = m.get_user_stats(user).unwrap();
    assert_eq!(stats.agents_owned, 2);
    assert_eq!(stats.agents_traded, 1);
    assert_eq!(stats.agents_leased, 0);
    assert_eq!(stats.total_volume, 5000);
    assert_eq!(stats.total_spent, 3000);
    assert_eq!(stats.participation_score, 10);
    assert_eq!(stats.last_active, 14);
}

#[test]
fn test_user_stats_increments() {
    let (admin, mut m) = setup();
    let user = Address(7);
    m.record_user_activity(admin, user, UserActivityType::AgentOwned, 1, 0);
    m.record_user_activity(admin, user, UserActivityType::AgentOwned, 3, 0);
    assert_eq!(m.get_user_stats(user).unwrap().agents_owned, 4);
}

#[test]
fn test_get_user_stats_returns_none_for_unknown() {
    let (_admin, m) = setup();
    assert!(m.get_user_stats(Address(99)).is_none());
}

#[test]
fn test_top_agents_sorted_descending() {
    let (admin, mut m) = setup();
    m.update_agent_score(admin, 1, OrderBy::Volume, 500);
    m.update_agent_score(admin, 2, OrderBy::Volume, 1000);
    m.update_agent_score(admin, 3, OrderBy::Volume, 750);
    let top = m.get_top_agents(OrderBy::Volume, 10);
    assert_eq!(top.len(), 3);
    assert_eq!(top[0].agent_id, 2);
    assert_eq!(top[1].agent_id, 3);
    assert_eq!(top[2].agent_id, 1);
}

#[test]
fn test_top_agents_limit() {
    let (admin, mut m) = setup();
    m.update_agent_score(admin, 1, OrderBy::Sales, 100);
    m.update_agent_score(admin, 2, OrderBy::Sales, 200);
    m.update_agent_score(admin, 3, OrderBy::Sales, 300);
    let top = m.get_top_agents(OrderBy::Sales, 2);
    assert_eq!(top.len(), 2);
    assert_eq!(top[0].agent_id, 3);
    assert_eq!(top[1].agent_id, 2);
}

#[test]
fn test_top_agents_empty() {
    let (_admin, m) = setup();
    assert_eq!(m.get_top_agents(OrderBy::Volume, 10).len(), 0);
}

#[test]
fn test_update_agent_score_overwrites() {
    let (admin, mut m) = setup();
    m.update_agent_score(admin, 1, OrderBy::Volume, 500);
    m.update_agent_score(admin, 1, OrderBy::Volume, 1500);
    let top = m.get_top_agents(OrderBy::Volume, 10);
    assert_eq!(top.len(), 1);
    assert_eq!(top[0].score, 1500);
}

#[test]
fn test_take_and_get_snapshot() {
    let (admin, mut m) = setup();
    let sid = m.take_snapshot(admin, 100, 25, 50000, 80, 15, 3, 0);
    assert_eq!(sid, 1);
    let snapshot = m.get_snapshot(sid).unwrap();
    assert_eq!(snapshot.total_agents, 100);
    assert_eq!(snapshot.active_listings, 25);
    assert_eq!(snapshot.total_volume, 50000);
    assert_eq!(snapshot.total_sales, 80);
    assert_eq!(snapshot.total_evolutions, 15);
    assert_eq!(snapshot.active_proposals, 3);
}

#[test]
fn test_multiple_snapshots() {
    let (admin, mut m) = setup();
    let s1 = m.take_snapshot(admin, 10, 5, 1000, 8, 2, 1, 0);
    let s2 = m.take_snapshot(admin, 20, 10, 5000, 18, 5, 2, 0);
    assert_eq!(s1, 1);
    assert_eq!(s2, 2);
    assert_eq!(m.get_snapshot(s1).unwrap().total_agents, 10);
    assert_eq!(m.get_snapshot(s2).unwrap().total_agents, 20);
}

#[test]
fn test_get_nonexistent_snapshot() {
    let (_admin, m) = setup();
    assert!(m.get_snapshot(999).is_none());
}

#[test]
fn test_prune_old_hourly_buckets() {
    let (admin, mut m) = setup();
    m.record_metric(admin, MetricType::AgentsMinted, 1, 0);
    let recent_ts: u64 = 31_536_000 + 7200;
    m.record_metric(admin, MetricType::AgentsMinted, 1, recent_ts);
    let now = recent_ts + 100;
    assert_eq!(m.prunable_count(now), 1);
    let pruned = m.prune_metrics(admin, now);
    assert_eq!(pruned, 1);
    let result = m.query_metrics(MetricType::AgentsMinted, BucketDuration::Hourly, 0, 0, 10);
    assert_eq!(result.total_count, 0);
    let recent_aligned = (recent_ts / 3600) * 3600;
    let result2 = m.query_metrics(MetricType::AgentsMinted, BucketDuration::Hourly, recent_aligned, recent_aligned, 10);
    assert_eq!(result2.total_count, 1);
}

#[test]
fn test_prune_monthly_never_pruned() {
    let (admin, mut m) = setup();
    m.record_metric(admin, MetricType::MarketplaceSales, 1, 0);
    let pruned = m.prune_metrics(admin, 200_000_000);
    assert_eq!(pruned, 2);
    let result = m.query_metrics(MetricType::MarketplaceSales, BucketDuration::Monthly, 0, 0, 10);
    assert_eq!(result.total_count, 1);
}

#[test]
fn test_platform_summary() {
    let (admin, mut m) = setup();
    m.record_metric(admin, MetricType::AgentsMinted, 5, 1000);
    m.record_metric(admin, MetricType::MarketplaceSales, 3, 2000);
    m.record_metric(admin, MetricType::MarketplaceVolume, 10000, 2000);
    m.record_metric(admin, MetricType::ExecutionActions, 20, 3000);
    m.record_metric(admin, MetricType::EvolutionRequests, 2, 4000);
    m.record_metric(admin, MetricType::EvolutionCompleted, 1, 5000);
    m.record_metric(admin, MetricType::GovernanceProposals, 4, 6000);
    let summary = m.get_platform_summary(0);
    assert_eq!(summary.total_agents_minted, 5);
    assert_eq!(summary.total_marketplace_sales, 3);
    assert_eq!(summary.total_marketplace_volume, 10000);
    assert_eq!(summary.total_execution_actions, 20);
    assert_eq!(summary.total_evolution_requests, 2);
    assert_eq!(summary.total_evolution_completed, 1);
    assert_eq!(summary.total_governance_proposals, 4);
}

#[test]
fn test_platform_summary_empty() {
    let (_admin, m) = setup();
    let summary = m.get_platform_summary(0);
    assert_eq!(summary.total_agents_minted, 0);
    assert_eq!(summary.total_marketplace_sales, 0);
}

#[test]
fn test_large_values_no_overflow() {
    let (admin, mut m) = setup();
    let large: i128 = i128::MAX / 4;
    m.record_metric(admin, MetricType::MarketplaceVolume, large, 3600);
    m.record_metric(admin, MetricType::MarketplaceVolume, large, 3601);
    let result = m.query_metrics(MetricType::MarketplaceVolume, BucketDuration::Hourly, 3600, 3600, 10);
    let bucket = result.buckets[0];
    assert!(bucket.value > 0);
    assert_eq!(bucket.count, 2);
}

#[test]
fn test_cumulative_saturation() {
    let (admin, mut m) = setup();
    let large: i128 = i128::MAX / 2;
    m.record_metric(admin, MetricType::AgentsMinted, large, 0);
    m.record_metric(admin, MetricType::AgentsMinted, large, 3600);
    m.record_metric(admin, MetricType::AgentsMinted, large, 7200);
    let summary = m.get_platform_summary(0);
    assert!(summary.total_agents_minted > 0);
    assert_eq!(summary.total_agents_minted, i128::MAX);
}

#[test]
fn ranking_ties_keep_scoreboard_order_and_limit_defaults() {
    let (admin, mut m) = setup();
    m.update_agent_score(admin, 9, OrderBy::EvolutionLevel, 5);
    m.update_agent_score(admin, 4, OrderBy::EvolutionLevel, 7);
    m.update_agent_score(admin, 6, OrderBy::EvolutionLevel, 5);
    let top = m.get_top_agents(OrderBy::EvolutionLevel, 0);
    let ids: Vec<u64> = top.iter().map(|r| r.agent_id).collect();
    assert_eq!(ids, vec![4, 9, 6]);
}

#[test]
fn bucket_ids_follow_hourly_daily_monthly_order() {
    let (admin, mut m) = setup();
    m.record_metric(admin, MetricType::AgentsActive, -3, 90_000);
    assert_eq!(m.bucket_counter, 3);
    let hourly = m.query_metrics(MetricType::AgentsActive, BucketDuration::Hourly, 90_000, 90_000, 1);
    assert_eq!(hourly.buckets[0].bucket_id, 1);
    assert_eq!(hourly.buckets[0].timestamp, 90_000 - 90_000 % 3600);
    let daily = m.query_metrics(MetricType::AgentsActive, BucketDuration::Daily, 90_000, 90_000, 1);
    assert_eq!(daily.buckets[0].bucket_id, 2);
    assert_eq!(daily.buckets[0].timestamp, 86_400);
    let monthly = m.query_metrics(MetricType::AgentsActive, BucketDuration::Monthly, 90_000, 90_000, 1);
    assert_eq!(monthly.buckets[0].bucket_id, 3);
    assert_eq!(monthly.buckets[0].min, -3);
}
