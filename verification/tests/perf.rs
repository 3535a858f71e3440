//! Timings.

use dl_voice_typing::commands::settings::get_perf_history;
use dl_voice_typing::perf::{PerfHistory, PerfMetrics};

#[test]
fn test_new_metrics_all_none() {
    let m = PerfMetrics::new(1);
    assert_eq!(m.cycle_id, 1);
    assert!(m.press_latency_ms.is_none());
    assert!(m.end_to_end_ms.is_none());
}

#[test]
fn test_summary_format() {
    let m = PerfMetrics {
        cycle_id: 42,
        end_to_end_ms: Some(2340),
        audio_duration_ms: Some(1200),
        release_latency_ms: Some(12),
        transcription_ms: Some(890),
        llm_correction_ms: None,
        injection_ms: Some(215),
        text_length: 48,
        ..PerfMetrics::new(42)
    };
    let s = m.summary();
    assert!(s.contains("[perf #42]"));
    assert!(s.contains("e2e=2.34s"));
    assert!(s.contains("capture=1.20s"));
    assert!(s.contains("release=12ms"));
    assert!(s.contains("whisper=890ms"));
    assert!(s.contains("inject=215ms"));
    assert!(s.contains("48ch"));
}

#[test]
fn test_history_record_and_recent() {
    let mut h = PerfHistory::new();
    let id1 = h.next_cycle_id();
    let id2 = h.next_cycle_id();
    assert_eq!(id1, 1);
    assert_eq!(id2, 2);

    h.record(PerfMetrics::new(id1));
    h.record(PerfMetrics::new(id2));

    let recent = h.recent(10);
    assert_eq!(recent.len(), 2);
    assert_eq!(recent[0].cycle_id, 1);
    assert_eq!(recent[1].cycle_id, 2);
}

#[test]
fn test_history_caps_at_capacity() {
    let mut h = PerfHistory::new();
    for _ in 0..(PerfHistory::CAPACITY + 10) {
        let id = h.next_cycle_id();
        h.record(PerfMetrics::new(id));
    }
    let recent = h.recent(100);
    assert_eq!(recent.len(), PerfHistory::CAPACITY);
    assert_eq!(
        recent.last().unwrap().cycle_id,
        PerfHistory::CAPACITY as u64 + 10
    );
}

#[test]
fn durations_are_rounded_like_floating_point_does() {
    for ms in [
        0u64,
        999,
        1000,
        1005,
        1015,
        1025,
        1234,
        2675,
        59_995,
        1_234_565,
        9_007_199_254_740_993,
        u64::MAX,
    ] {
        let m = PerfMetrics { end_to_end_ms: Some(ms), ..PerfMetrics::new(1) };
        let shown = if ms >= 1000 {
            format!("e2e={:.2}s", ms as f64 / 1000.0)
        } else {
            format!("e2e={ms}ms")
        };
        let s = m.summary();
        assert!(s.contains(&shown), "{s} should hold {shown}");
    }
}

#[test]
fn the_summary_is_one_line() {
    let m = PerfMetrics { text_length: 3, ..PerfMetrics::new(7) };
    assert_eq!(
        m.summary(),
        "[perf #7] e2e=- | capture=- | release=- | whisper=- | llm=- | inject=- | 3ch"
    );
}

#[test]
fn ten_cycles_are_shown_by_default() {
    let mut h = PerfHistory::new();
    for _ in 0..12 {
        let id = h.next_cycle_id();
        h.record(PerfMetrics::new(id));
    }
    assert_eq!(get_perf_history(&h, None).len(), 10);
    assert_eq!(get_perf_history(&h, Some(2))[0].cycle_id, 11);
}
