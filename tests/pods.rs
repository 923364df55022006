use websocket::load_balancer::{weight_of, LoadBalancer, PodMetrics};

fn pod(id: &str, active: usize, cpu: u64, mem: u64, last: u64) -> PodMetrics {
    PodMetrics {
        pod_id: id.to_string(),
        active_connections: active,
        cpu_usage: cpu,
        memory_usage: mem,
        relay_count: 3,
        last_updated: last,
    }
}

#[test]
fn weighted_pod_pick() {
    assert_eq!(weight_of(&pod("pod-a", 0, 0, 0, 0)), 1_000_000);
    assert_eq!(weight_of(&pod("pod-b", 500, 5000, 5000, 0)), 500_000);
    let mut lb = LoadBalancer::new();
    lb.update_pod_metrics(pod("pod-a", 0, 0, 0, 0));
    lb.update_pod_metrics(pod("pod-b", 500, 5000, 5000, 0));
    let mut a = 0;
    let mut b = 0;
    for i in 0..3000u64 {
        match lb.select_best_pod_with_draw(i * 500).as_deref() {
            Some("pod-a") => a += 1,
            Some("pod-b") => b += 1,
            _ => panic!("no pod"),
        }
    }
    assert!(a > 1900 && a < 2100, "pod-a drawn {} times", a);
    assert!(b > 900 && b < 1100, "pod-b drawn {} times", b);
}

#[test]
fn pick_boundaries() {
    let mut lb = LoadBalancer::new();
    lb.update_pod_metrics(pod("pod-a", 0, 0, 0, 0));
    lb.update_pod_metrics(pod("pod-b", 500, 5000, 5000, 0));
    assert_eq!(lb.select_best_pod_with_draw(0).as_deref(), Some("pod-a"));
    assert_eq!(lb.select_best_pod_with_draw(1_000_000).as_deref(), Some("pod-a"));
    assert_eq!(lb.select_best_pod_with_draw(1_000_001).as_deref(), Some("pod-b"));
    assert_eq!(lb.select_best_pod_with_draw(1_499_999).as_deref(), Some("pod-b"));
    assert_eq!(lb.select_best_pod_with_draw(1_500_000).as_deref(), Some("pod-a"));
}

#[test]
fn select_on_empty_is_none() {
    let lb = LoadBalancer::new();
    assert_eq!(lb.select_best_pod(), None);
    assert_eq!(lb.select_best_pod_with_draw(7), None);
}

#[test]
fn select_from_clock_picks_known_pod() {
    let mut lb = LoadBalancer::new();
    lb.update_pod_metrics(pod("only", 10, 10, 10, 0));
    assert_eq!(lb.select_best_pod().as_deref(), Some("only"));
}

#[test]
fn weight_stays_in_range() {
    assert_eq!(weight_of(&pod("x", 5000, 10000, 10000, 0)), 100_000);
    assert_eq!(weight_of(&pod("x", 0, 90000, 90000, 0)), 100_000);
    assert_eq!(weight_of(&pod("x", 999, 0, 0, 0)), 500_500);
    assert_eq!(weight_of(&pod("x", 1000, 10000, 0, 0)), 200_000);
}

#[test]
fn stale_pod_eviction() {
    let now = 1_000;
    let mut lb = LoadBalancer::new();
    lb.update_pod_metrics(pod("pod-a", 0, 0, 0, now - 30));
    lb.update_pod_metrics(pod("pod-b", 0, 0, 0, now - 90));
    lb.cleanup_inactive_pods(now);
    let left = lb.get_pod_stats();
    assert_eq!(left.len(), 1);
    assert_eq!(left[0].pod_id, "pod-a");
}

#[test]
fn stale_boundary_and_future_stamps() {
    let mut lb = LoadBalancer::new();
    lb.update_pod_metrics(pod("edge", 0, 0, 0, 40));
    lb.update_pod_metrics(pod("late", 0, 0, 0, 39));
    lb.update_pod_metrics(pod("future", 0, 0, 0, 500));
    lb.cleanup_inactive_pods(100);
    let ids: Vec<String> = lb.get_pod_stats().into_iter().map(|p| p.pod_id).collect();
    assert_eq!(ids, vec!["edge".to_string(), "future".to_string()]);
}

#[test]
fn update_replaces_report() {
    let mut lb = LoadBalancer::new();
    lb.update_pod_metrics(pod("pod-a", 0, 0, 0, 1));
    lb.update_pod_metrics(pod("pod-a", 700, 0, 0, 2));
    let s = lb.get_pod_stats();
    assert_eq!(s.len(), 1);
    assert_eq!(s[0].active_connections, 700);
    assert_eq!(s[0].last_updated, 2);
}
