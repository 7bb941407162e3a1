use magna_middleware::metrics::noop::MetricsCollector as NoopCollector;
use magna_middleware::metrics::{MetricsCollector, MAX_DURATION_NANOS};
use magna_middleware::utils::errors::Precision;

const MS: u128 = 1_000_000;

#[test]
fn empty_snapshot() {
    let mc = MetricsCollector::new(Precision::FP32);
    assert_eq!(mc.inference_count(), 0);
    assert_eq!(mc.total_latency_nanos(), 0);
    assert_eq!(mc.max_latency_nanos(), 0);
    assert_eq!(mc.min_latency_nanos(), MAX_DURATION_NANOS);
}

#[test]
fn record_latency() {
    let mut mc = MetricsCollector::new(Precision::FP16);
    mc.record_latency(10 * MS);
    mc.record_latency(20 * MS);
    mc.record_latency(30 * MS);

    assert_eq!(mc.inference_count(), 3);
    assert_eq!(mc.total_latency_nanos() / 3, 20 * MS);
    assert_eq!(mc.min_latency_nanos(), 10 * MS);
    assert_eq!(mc.max_latency_nanos(), 30 * MS);
    assert_eq!(mc.last_latency_nanos(), 30 * MS);
    assert_eq!(mc.precision(), Precision::FP16);
}

#[test]
fn start_stop_timing() {
    let mut mc = MetricsCollector::new(Precision::FP32);
    mc.start_timing();
    let mut x: u64 = 0;
    for i in 0..100_000u64 {
        x = x.wrapping_add(i);
    }
    assert!(x > 0);
    let elapsed = mc.stop_timing();
    assert_eq!(mc.inference_count(), 1);
    assert_eq!(mc.last_latency_nanos(), elapsed);
    assert_eq!(MetricsCollector::new(Precision::FP32).stop_timing(), 0);
}

#[test]
fn reset_clears_state() {
    let mut mc = MetricsCollector::new(Precision::INT8);
    mc.record_latency(50 * MS);
    mc.set_memory_usage(7);
    mc.reset();
    assert_eq!(mc.inference_count(), 0);
    assert_eq!(mc.total_latency_nanos(), 0);
    assert_eq!(mc.memory_bytes(), 7);
    assert_eq!(mc.precision(), Precision::INT8);
}

#[test]
fn memory_usage() {
    let mut mc = MetricsCollector::new(Precision::FP32);
    mc.set_memory_usage(1024 * 1024);
    assert_eq!(mc.memory_bytes(), 1024 * 1024);
    mc.set_precision(Precision::FP8);
    assert_eq!(mc.precision(), Precision::FP8);
}

#[test]
fn noop_collector_compiles_and_runs() {
    let mut mc = NoopCollector::new(Precision::FP32);
    mc.start_timing();
    assert_eq!(mc.stop_timing(), 0);
    mc.set_memory_usage(1024);
    mc.record_latency(5);
    mc.reset();
    assert_eq!(mc.inference_count(), 0);
}

#[test]
fn latency_bounds_hold() {
    let mut mc = MetricsCollector::new(Precision::FP32);
    for d in [7u128, 3, 11, 5] {
        mc.record_latency(d * MS);
        let n = mc.inference_count() as u128;
        assert!(mc.min_latency_nanos() <= mc.last_latency_nanos());
        assert!(mc.last_latency_nanos() <= mc.max_latency_nanos());
        assert!(n * mc.min_latency_nanos() <= mc.total_latency_nanos());
        assert!(mc.total_latency_nanos() <= n * mc.max_latency_nanos());
    }
}

#[test]
fn stop_without_start_records_zero() {
    let mut mc = MetricsCollector::new(Precision::FP32);
    mc.record_latency(5 * MS);
    assert_eq!(mc.stop_timing(), 0);
    assert_eq!(mc.inference_count(), 2);
    assert_eq!(mc.min_latency_nanos(), 0);
    assert_eq!(mc.max_latency_nanos(), 5 * MS);
    assert_eq!(mc.last_latency_nanos(), 0);
    assert_eq!(mc.total_latency_nanos(), 5 * MS);
}
