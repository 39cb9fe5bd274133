use flow_telemetry::link::{LinkManager, LinkState};
use flow_telemetry::pulse::PulseCounter;
use flow_telemetry::sampler::{
    millis_from_micros, CycleDecision, PublishAttempt, SampleWindow, TelemetryRecord,
    SAMPLE_PERIOD_MS,
};
use flow_telemetry::session::{Notification, SessionManager, SessionState};

fn expect_publish(d: CycleDecision) -> PublishAttempt {
    match d {
        CycleDecision::Publish(a) => a,
        other => panic!("expected a publish, got {:?}", other),
    }
}

#[test]
fn counter_counts_edges() {
    let mut c = PulseCounter::new(5);
    c.on_edge();
    c.on_edges(36);
    assert_eq!(c.value(), 42);
}

#[test]
fn counter_wraps_past_max() {
    let mut c = PulseCounter::new(u32::MAX);
    c.on_edge();
    assert_eq!(c.value(), 0);
    let mut c = PulseCounter::new(4294967290);
    c.on_edges(10);
    assert_eq!(c.value(), 4);
}

#[test]
fn scenario_a_publishes_and_advances() {
    let mut counter = PulseCounter::new(0);
    let mut window = SampleWindow::new(0, counter.value());
    counter.on_edges(37);
    let attempt = expect_publish(window.decide(1200, counter.value(), true, true));
    assert_eq!(attempt.record, TelemetryRecord { pulse_delta: 37, time_delta: 1200 });
    assert_eq!(attempt.record.to_json(), "{\"total_pulses\":37,\"time_ms\":1200}");
    window.on_publish_result(&attempt, true);
    assert_eq!(window, SampleWindow { last_sample_time: 1200, last_pulse_count: 37 });
}

#[test]
fn scenario_b_link_down_then_up() {
    let mut counter = PulseCounter::new(0);
    let mut window = SampleWindow::new(0, counter.value());
    assert_eq!(window.decide(1000, counter.value(), false, true), CycleDecision::Offline);
    assert_eq!(window, SampleWindow::new(0, 0));
    counter.on_edges(10);
    let attempt = expect_publish(window.decide(2500, counter.value(), true, true));
    assert_eq!(attempt.record, TelemetryRecord { pulse_delta: 10, time_delta: 2500 });
    assert_eq!(attempt.record.to_json(), "{\"total_pulses\":10,\"time_ms\":2500}");
    window.on_publish_result(&attempt, true);
    assert_eq!(window, SampleWindow::new(2500, 10));
}

#[test]
fn scenario_c_wraparound_saturates() {
    let mut counter = PulseCounter::new(4294967290);
    let window = SampleWindow::new(0, counter.value());
    counter.on_edges(10);
    assert_eq!(counter.value(), 4);
    let attempt = expect_publish(window.decide(1500, counter.value(), true, true));
    assert_eq!(attempt.record.pulse_delta, 0);
    let fresh = SampleWindow::new(0, 0);
    let attempt = expect_publish(fresh.decide(1500, 4294967290, true, true));
    assert_eq!(attempt.record.pulse_delta, 4294967290);
}

#[test]
fn no_publish_within_period() {
    let mut window = SampleWindow::new(5000, 3);
    for now in [5000u64, 5001, 5500, 5999] {
        assert_eq!(window.decide(now, 99, true, true), CycleDecision::NotDue);
    }
    let attempt = expect_publish(window.decide(6000, 99, true, true));
    assert_eq!(attempt.record, TelemetryRecord { pulse_delta: 96, time_delta: SAMPLE_PERIOD_MS });
    window.on_publish_result(&attempt, true);
    assert_eq!(window.decide(6999, 120, true, true), CycleDecision::NotDue);
}

#[test]
fn clock_before_window_is_not_due() {
    let window = SampleWindow::new(5000, 0);
    assert_eq!(window.elapsed(4000), 0);
    assert_eq!(window.decide(4000, 10, true, true), CycleDecision::NotDue);
}

#[test]
fn skip_when_either_flag_down() {
    let window = SampleWindow::new(0, 0);
    assert_eq!(window.decide(2000, 7, false, true), CycleDecision::Offline);
    assert_eq!(window.decide(2000, 7, true, false), CycleDecision::Offline);
    assert_eq!(window.decide(2000, 7, false, false), CycleDecision::Offline);
}

#[test]
fn failed_publish_is_retried_with_larger_window() {
    let mut window = SampleWindow::new(100, 20);
    let first = expect_publish(window.decide(1300, 50, true, true));
    assert_eq!(first.record, TelemetryRecord { pulse_delta: 30, time_delta: 1200 });
    window.on_publish_result(&first, false);
    assert_eq!(window, SampleWindow::new(100, 20));
    let second = expect_publish(window.decide(2100, 65, true, true));
    assert_eq!(second.record, TelemetryRecord { pulse_delta: 45, time_delta: 2000 });
    window.on_publish_result(&second, true);
    assert_eq!(window, SampleWindow::new(2100, 65));
}

#[test]
fn record_json_of_zero_and_large_values() {
    let r = TelemetryRecord { pulse_delta: 0, time_delta: 0 };
    assert_eq!(r.to_json(), "{\"total_pulses\":0,\"time_ms\":0}");
    let r = TelemetryRecord { pulse_delta: u32::MAX, time_delta: u64::MAX };
    assert_eq!(
        r.to_json(),
        "{\"total_pulses\":4294967295,\"time_ms\":18446744073709551615}"
    );
}

#[test]
fn link_manager_reports_and_reconnects() {
    let mut link = LinkManager::new();
    assert_eq!(link.state, LinkState::Down);
    let step = link.step(true, false);
    assert!(!step.link_up && step.reconnect);
    assert!(!link.is_up());
    let step = link.step(false, true);
    assert!(!step.link_up && step.reconnect);
    let step = link.step(true, true);
    assert!(step.link_up && !step.reconnect);
    assert_eq!(link.state, LinkState::Up);
    let step = link.step(false, false);
    assert!(!step.link_up && step.reconnect);
    assert_eq!(link.state, LinkState::Down);
}

#[test]
fn session_manager_follows_notifications() {
    let mut session = SessionManager::new();
    assert_eq!(session.state, SessionState::Disconnected);
    assert!(!session.on_read(Some(Notification::Other)));
    assert!(session.on_read(Some(Notification::Connected)));
    assert!(session.on_read(None));
    assert!(session.on_read(Some(Notification::Other)));
    assert!(session.is_up());
    assert!(!session.on_read(Some(Notification::Disconnected)));
    assert!(!session.on_read(None));
    assert_eq!(session.state, SessionState::Disconnected);
}

#[test]
fn timer_micros_to_millis() {
    assert_eq!(millis_from_micros(1_234_567), 1234);
    assert_eq!(millis_from_micros(999), 0);
    assert_eq!(millis_from_micros(-5), 0);
    assert_eq!(millis_from_micros(i64::MAX), 9_223_372_036_854_775);
}
