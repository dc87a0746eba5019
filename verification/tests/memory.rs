use heisenberg::mike::db::pattern_hash;
use heisenberg::mike::monitor::MemoryMonitor;
use heisenberg::mike::zones::{MemoryZone, ZoneTracker};
use heisenberg::mike::{
    available_memory, check_cap, scaled_context, MemoryError, MemoryPressure, Mike,
};
use heisenberg::saul::config::Config;

#[test]
fn pressure_thresholds() {
    assert_eq!(MemoryPressure::from_usage(0, 100), MemoryPressure::Normal);
    assert_eq!(MemoryPressure::from_usage(59, 100), MemoryPressure::Normal);
    assert_eq!(MemoryPressure::from_usage(60, 100), MemoryPressure::Elevated);
    assert_eq!(MemoryPressure::from_usage(79, 100), MemoryPressure::Elevated);
    assert_eq!(MemoryPressure::from_usage(80, 100), MemoryPressure::High);
    assert_eq!(MemoryPressure::from_usage(94, 100), MemoryPressure::High);
    assert_eq!(MemoryPressure::from_usage(95, 100), MemoryPressure::Critical);
    assert_eq!(MemoryPressure::from_usage(u64::MAX, u64::MAX), MemoryPressure::Critical);
    // A zero cap is always critical.
    assert_eq!(MemoryPressure::from_usage(0, 0), MemoryPressure::Critical);
}

#[test]
fn pressure_grows_with_rss() {
    let cap = 3_221_225_472u64;
    let mut last = MemoryPressure::Normal;
    for rss in (0..=cap).step_by(100_000_000) {
        let p = MemoryPressure::from_usage(rss, cap);
        assert!(p >= last);
        last = p;
    }
}

#[test]
fn emoji_per_level() {
    assert_eq!(MemoryPressure::Normal.emoji(), "🟢");
    assert_eq!(MemoryPressure::Elevated.emoji(), "🟡");
    assert_eq!(MemoryPressure::High.emoji(), "🟠");
    assert_eq!(MemoryPressure::Critical.emoji(), "🔴");
}

#[test]
fn context_scales_with_pressure() {
    assert_eq!(scaled_context(MemoryPressure::Normal, 4096), 4096);
    assert_eq!(scaled_context(MemoryPressure::Elevated, 4096), 3072);
    assert_eq!(scaled_context(MemoryPressure::High, 4096), 2048);
    assert_eq!(scaled_context(MemoryPressure::Critical, 4096), 1024);
    assert_eq!(scaled_context(MemoryPressure::Elevated, u32::MAX), 3_221_225_471);
}

#[test]
fn available_memory_takes_the_larger_use() {
    assert_eq!(available_memory(1_000, 0, 0, 10_000), 9_000);
    assert_eq!(available_memory(1_000, 5_000, 1_000, 10_000), 6_000);
    assert_eq!(available_memory(20_000, 0, 0, 10_000), 0);
    assert!(available_memory(2_000, 0, 0, 10_000) <= available_memory(1_000, 0, 0, 10_000));
}

#[test]
fn cap_check_and_message() {
    assert!(check_cap(10, 10).is_ok());
    let e = check_cap(11, 10).unwrap_err();
    assert_eq!(e, MemoryError::CapExceeded(11, 10));
    assert_eq!(e.message(), "Memory cap exceeded: 11 bytes > 10 cap");
}

#[test]
fn zones_read_back_what_was_written() {
    let mut t = ZoneTracker::new();
    assert_eq!(t.total(), 0);
    t.set(MemoryZone::Inference, 1_000);
    t.set(MemoryZone::Cache, 250);
    assert_eq!(t.get(MemoryZone::Inference), 1_000);
    assert_eq!(t.get(MemoryZone::Cache), 250);
    assert_eq!(t.get(MemoryZone::State), 0);
    assert_eq!(t.total(), 1_250);
    t.set(MemoryZone::Cache, 50);
    assert_eq!(t.total(), 1_050);
    t.clear(MemoryZone::Inference);
    assert_eq!(t.get(MemoryZone::Inference), 0);
    assert_eq!(t.total(), 50);
    let d = ZoneTracker::default();
    assert_eq!(d.total(), 0);
}

#[test]
fn zone_names() {
    assert_eq!(MemoryZone::Inference.as_str(), "inference");
    assert_eq!(MemoryZone::Cache.as_str(), "cache");
    assert_eq!(MemoryZone::State.as_str(), "state");
    assert_eq!(MemoryZone::ScreenBuffer.as_str(), "screen_buffer");
    assert_eq!(MemoryZone::BrowserSession.as_str(), "browser_session");
}

#[test]
fn manager_starts_from_the_configuration() {
    let cfg = Config::with_detected("models", "llama-server", "/tmp/work", Some(8));
    let mut mike = Mike::new(&cfg);
    assert_eq!(mike.max_bytes, 3_221_225_472);
    assert_eq!(mike.monitor.poll_interval_ms(), 2000);
    assert_eq!(mike.eviction_count(), 0);
    mike.record_eviction();
    mike.record_eviction();
    assert_eq!(mike.eviction_count(), 2);
    assert!(mike.available_for_inference() <= mike.max_bytes);
    assert!(mike.recommended_context_size(4096) <= 4096);
    // This test process is far below 3 GiB.
    assert!(mike.enforce_cap().is_ok());
    assert!(mike.rss_bytes() > 0);
}

#[test]
fn monitor_handle_shares_the_cache() {
    let m = MemoryMonitor::new(500);
    assert_eq!(m.poll_interval_ms(), 500);
    let h = m.clone_inner();
    h.refresh();
    assert_eq!(h.current_rss_bytes(), m.current_rss_bytes());
    m.refresh();
    assert_eq!(h.current_rss_bytes(), m.current_rss_bytes());
}

#[test]
fn pattern_hash_is_sha256_hex_of_the_normalised_text() {
    let h = pattern_hash("  Deploy THE app \n");
    assert_eq!(h, "39be3a4a21d93537f90c5e075fd1f287bbf8fc35e3feaccf71296722f05fe5e3");
    assert_eq!(h.len(), 64);
    assert_eq!(pattern_hash("deploy the app"), h);
    assert_ne!(pattern_hash("deploy the api"), h);
}
