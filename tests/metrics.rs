use websocket::balancer::RelayMetrics;
use websocket::metrics::{memory_usage, pod_report, total_connections};

fn relay(id: u32, active: usize) -> RelayMetrics {
    RelayMetrics { relay_id: id, active_connections: active, message_throughput: 0, avg_response_time: 0, last_updated: 0 }
}

#[test]
fn connections_summed() {
    assert_eq!(total_connections(&vec![]), 0);
    assert_eq!(total_connections(&vec![relay(1, 3), relay(2, 4), relay(3, 0)]), 7);
    assert_eq!(total_connections(&vec![relay(1, usize::MAX), relay(2, 4)]), usize::MAX);
}

#[test]
fn memory_share() {
    assert_eq!(memory_usage(50, 100), 5000);
    assert_eq!(memory_usage(1, 3), 3333);
    assert_eq!(memory_usage(5, 0), 0);
    assert_eq!(memory_usage(200, 100), 10000);
}

#[test]
fn report_from_shards() {
    let r = pod_report("pod-a".to_string(), &vec![relay(1, 2), relay(2, 5)], 1234, 5678, 99);
    assert_eq!(r.pod_id, "pod-a");
    assert_eq!(r.active_connections, 7);
    assert_eq!(r.relay_count, 2);
    assert_eq!(r.cpu_usage, 1234);
    assert_eq!(r.memory_usage, 5678);
    assert_eq!(r.last_updated, 99);
}

#[test]
fn rate_of_messages() {
    assert_eq!(websocket::metrics::message_rate(100, 350, 10), 25);
    assert_eq!(websocket::metrics::message_rate(100, 50, 10), 0);
    assert_eq!(websocket::metrics::message_rate(0, 50, 0), 0);
}
