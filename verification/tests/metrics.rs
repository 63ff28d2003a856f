//! Tests of the registry, the command interface, the event aggregator,
//! and the module lifecycle.

use mod_prometheus::lifecycle::Module;
use mod_prometheus::commands::CommandError;
use mod_prometheus::event::Event;
use mod_prometheus::event::EventKind;
use mod_prometheus::metric::MetricKind;
use mod_prometheus::value::SCALE;
use mod_prometheus::metric::Metric;

fn fresh_module() -> Module {
    Module::load(String::from("0.0.0.0"), 9282)
}

fn channel_event(kind: EventKind, headers: &[(&str, &str)]) -> Event {
    let mut e = Event::new(kind);
    for (name, value) in headers {
        e.add_header(String::from(*name), String::from(*value));
    }
    e
}

#[test]
fn counter_increment_accumulates() {
    let mut m = fresh_module();
    let first = m.counter_increment_api("mycounter 5").unwrap();
    assert_eq!(first, "+OK 5");
    let second = m.counter_increment_api("mycounter 3").unwrap();
    assert_eq!(second, "+OK 8");
}

#[test]
fn counter_increment_defaults_to_one() {
    let mut m = fresh_module();
    assert_eq!(m.counter_increment_api("hits").unwrap(), "+OK 1");
    assert_eq!(m.counter_increment_api("hits").unwrap(), "+OK 2");
}

#[test]
fn counter_rejects_negative_delta() {
    let mut m = fresh_module();
    assert_eq!(m.counter_increment_api("c -5"), Err(CommandError::InvalidMetricValue));
    // The rejection happened before any mutation: the store is untouched.
    assert_eq!(m.registry.dynamics.len(), 0);
}

#[test]
fn gauge_set_accepts_negative_values() {
    let mut m = fresh_module();
    assert_eq!(m.gauge_set_api("latency -1").unwrap(), "+OK -1");
}

#[test]
fn gauge_increment_and_decrement() {
    let mut m = fresh_module();
    assert_eq!(m.gauge_set_api("depth 10").unwrap(), "+OK 10");
    assert_eq!(m.gauge_increment_api("depth 2.5").unwrap(), "+OK 12.5");
    assert_eq!(m.gauge_decrement_api("depth 20").unwrap(), "+OK -7.5");
    assert_eq!(m.gauge_decrement_api("fresh").unwrap(), "+OK -1");
}

#[test]
fn commands_reject_bad_arguments() {
    let mut m = fresh_module();
    assert_eq!(m.counter_increment_api(""), Err(CommandError::InvalidArguments));
    assert_eq!(m.gauge_set_api(" leading"), Err(CommandError::InvalidArguments));
    assert_eq!(m.counter_increment_api("name abc"), Err(CommandError::InvalidMetricValue));
    assert_eq!(m.gauge_set_api("name 1 2 junk").unwrap(), "+OK 1");
}

#[test]
fn command_error_messages() {
    assert_eq!(CommandError::InvalidArguments.message(), "Invalid arguments");
    assert_eq!(CommandError::InvalidMetricValue.message(), "Invalid metric value");
}

#[test]
fn duplicate_names_are_refused_across_kinds() {
    let mut m = fresh_module();
    assert_eq!(m.gauge_set_api("shared 1").unwrap(), "+OK 1");
    assert_eq!(m.counter_increment_api("shared 1"), Err(CommandError::DuplicateMetricName));
    assert_eq!(
        m.counter_increment_api("freeswitch_sessions_total 1"),
        Err(CommandError::DuplicateMetricName)
    );
}

#[test]
fn get_or_create_returns_the_same_metric() {
    let mut m = fresh_module();
    let first = m.registry.get_or_create_counter("x").unwrap();
    let before = m.registry.dynamics.len();
    let second = m.registry.get_or_create_counter("x").unwrap();
    assert_eq!(first, second);
    assert_eq!(m.registry.dynamics.len(), before);
    // Exactly one metric named "x" was registered.
    let named: Vec<usize> = (0..m.registry.dynamics.len())
        .filter(|i| m.registry.dynamics[*i].name == "x")
        .collect();
    assert_eq!(named.len(), 1);
    // A gauge under the same name is a duplicate.
    assert!(m.registry.get_or_create_gauge("x").is_err());
}

#[test]
fn counter_accumulates_a_long_sequence_of_deltas() {
    let mut m = fresh_module();
    let mut expected: i64 = 0;
    for i in 0..100i64 {
        let d = i % 7;
        expected += d;
        m.counter_increment_api(&format!("bulk {}", d)).unwrap();
    }
    assert_eq!(m.registry.dynamics[0].value.raw(), expected * SCALE);
}

#[test]
fn gauge_folds_its_operations_in_call_order() {
    let mut m = fresh_module();
    m.gauge_increment_api("g 5").unwrap();
    m.gauge_decrement_api("g 2").unwrap();
    m.gauge_set_api("g 100").unwrap();
    m.gauge_decrement_api("g 0.5").unwrap();
    assert_eq!(m.registry.dynamics[0].value.raw(), 99_500_000);
}

#[test]
fn heartbeat_event_counts() {
    let mut m = fresh_module();
    m.deliver_event(&channel_event(EventKind::Heartbeat, &[]));
    m.deliver_event(&channel_event(EventKind::Heartbeat, &[]));
    assert_eq!(m.registry.statics.heartbeats.raw(), 2 * SCALE);
}

#[test]
fn outbound_create_then_answer_settles_asr() {
    let mut m = fresh_module();
    m.deliver_event(&channel_event(EventKind::ChannelCreate, &[("Call-Direction", "outbound")]));
    m.deliver_event(&channel_event(EventKind::ChannelAnswer, &[("Call-Direction", "outbound")]));
    let s = &m.registry.statics;
    assert_eq!(s.sessions_outbound.raw(), SCALE);
    assert_eq!(s.sessions_outbound_answered.raw(), SCALE);
    assert_eq!(s.sessions_asr.raw(), SCALE); // the ratio reads exactly one
    assert_eq!(s.sessions.raw(), SCALE);
    assert_eq!(s.sessions_answered.raw(), SCALE);
    assert_eq!(s.sessions_active.raw(), SCALE);
}

#[test]
fn asr_tracks_partial_answers() {
    let mut m = fresh_module();
    let create = channel_event(EventKind::ChannelCreate, &[("Call-Direction", "outbound")]);
    m.deliver_event(&create);
    m.deliver_event(&create);
    m.deliver_event(&channel_event(EventKind::ChannelAnswer, &[("Call-Direction", "outbound")]));
    // One answered out of two outbound: the gauge reads one half.
    assert_eq!(m.registry.statics.sessions_asr.raw(), 500_000);
}

#[test]
fn inbound_failed_hangup_counts_by_direction() {
    let mut m = fresh_module();
    m.deliver_event(&channel_event(EventKind::ChannelCreate, &[("Call-Direction", "inbound")]));
    m.deliver_event(&channel_event(
        EventKind::ChannelHangup,
        &[("Caller-Channel-Answered-Time", "0"), ("Call-Direction", "inbound")],
    ));
    let s = &m.registry.statics;
    assert_eq!(s.sessions_inbound_failed.raw(), SCALE);
    assert_eq!(s.sessions_failed.raw(), SCALE);
    assert_eq!(s.sessions_outbound_failed.raw(), 0);
}

#[test]
fn outbound_hangup_accumulates_duration_and_acd() {
    let mut m = fresh_module();
    m.deliver_event(&channel_event(EventKind::ChannelCreate, &[("Call-Direction", "outbound")]));
    m.deliver_event(&channel_event(EventKind::ChannelAnswer, &[("Call-Direction", "outbound")]));
    m.deliver_event(&channel_event(
        EventKind::ChannelHangup,
        &[("Caller-Channel-Answered-Time", "10"), ("Call-Direction", "outbound")],
    ));
    let s = &m.registry.statics;
    assert_eq!(s.sessions_outbound_duration_total.raw(), 10 * SCALE);
    assert_eq!(s.sessions_acd.raw(), 10 * SCALE);
}

#[test]
fn hangup_without_headers_changes_nothing() {
    let mut m = fresh_module();
    m.deliver_event(&channel_event(EventKind::ChannelHangup, &[]));
    m.deliver_event(&channel_event(
        EventKind::ChannelHangup,
        &[("Caller-Channel-Answered-Time", "not-a-number")],
    ));
    assert_eq!(m.registry.statics.sessions_failed.raw(), 0);
    assert_eq!(m.registry.statics.sessions_outbound_duration_total.raw(), 0);
}

#[test]
fn create_without_direction_still_counts_session() {
    let mut m = fresh_module();
    m.deliver_event(&channel_event(EventKind::ChannelCreate, &[]));
    let s = &m.registry.statics;
    assert_eq!(s.sessions.raw(), SCALE);
    assert_eq!(s.sessions_active.raw(), SCALE);
    assert_eq!(s.sessions_inbound.raw(), 0);
    assert_eq!(s.sessions_outbound.raw(), 0);
}

#[test]
fn destroy_lowers_active_sessions() {
    let mut m = fresh_module();
    m.deliver_event(&channel_event(EventKind::ChannelCreate, &[("Call-Direction", "inbound")]));
    m.deliver_event(&channel_event(EventKind::ChannelDestroy, &[]));
    assert_eq!(m.registry.statics.sessions_active.raw(), 0);
}

#[test]
fn registration_events_track_the_ledger_of_registrations() {
    let mut m = fresh_module();
    m.deliver_event(&Event::new_custom(String::from("sofia::register_attempt")));
    m.deliver_event(&Event::new_custom(String::from("sofia::register")));
    m.deliver_event(&Event::new_custom(String::from("sofia::register")));
    m.deliver_event(&Event::new_custom(String::from("sofia::register_failure")));
    m.deliver_event(&Event::new_custom(String::from("sofia::unregister")));
    m.deliver_event(&Event::new_custom(String::from("sofia::expire")));
    m.deliver_event(&Event::new_custom(String::from("sofia::something_else")));
    let s = &m.registry.statics;
    assert_eq!(s.registration_attempts.raw(), SCALE);
    assert_eq!(s.registrations.raw(), 2 * SCALE);
    assert_eq!(s.registration_failures.raw(), SCALE);
    assert_eq!(s.registrations_active.raw(), 0);
}

#[test]
fn first_header_wins() {
    let e = channel_event(
        EventKind::ChannelCreate,
        &[("Call-Direction", "inbound"), ("Call-Direction", "outbound")],
    );
    assert_eq!(e.header("Call-Direction").unwrap().as_str(), "inbound");
    assert!(e.header("Missing").is_none());
}

#[test]
fn unload_drains_the_ledger_and_clears_the_store() {
    let mut m = fresh_module();
    m.record_subscription(7);
    m.record_subscription(9);
    m.counter_increment_api("mycounter 5").unwrap();
    assert_eq!(m.registry.dynamics.len(), 1);
    let handles = m.unload();
    assert_eq!(handles, vec![7, 9]);
    assert_eq!(m.ledger.len(), 0);
    assert_eq!(m.registry.dynamics.len(), 0);
    assert!(!m.registry.started);
    assert!(!m.loaded);
}

#[test]
fn no_handler_fires_after_unload() {
    let mut m = fresh_module();
    m.unload();
    m.deliver_event(&channel_event(EventKind::Heartbeat, &[]));
    m.deliver_event(&channel_event(EventKind::ChannelCreate, &[("Call-Direction", "outbound")]));
    assert_eq!(m.registry.statics.heartbeats.raw(), 0);
    assert_eq!(m.registry.statics.sessions.raw(), 0);
}

#[test]
fn reload_starts_from_only_the_static_metrics() {
    let mut m = fresh_module();
    m.counter_increment_api("mycounter 5").unwrap();
    m.deliver_event(&channel_event(EventKind::Heartbeat, &[]));
    m.unload();
    let m2 = fresh_module();
    assert!(m2.loaded);
    assert!(m2.registry.started);
    let snap = m2.registry.snapshot();
    assert_eq!(snap.len(), 18);
    assert!(snap.iter().all(|s| s.value.raw() == 0));
    assert!(!snap.iter().any(|s| s.name == "mycounter"));
}

#[test]
fn subscription_plan_lists_every_handler() {
    let plan = Module::subscription_plan();
    assert_eq!(plan.len(), 10);
    assert_eq!(plan[0].kind, EventKind::Heartbeat);
    assert_eq!(plan[4].kind, EventKind::ChannelDestroy);
    assert_eq!(plan[5].subclass.as_deref(), Some("sofia::register_attempt"));
    assert_eq!(plan[9].subclass.as_deref(), Some("sofia::expire"));
}

#[test]
fn register_refuses_duplicates() {
    let mut m = fresh_module();
    let c = Metric::new_counter(String::from("jobs"), String::from("jobs running"));
    assert!(m.registry.register_counter(c).is_ok());
    let again = Metric::new_gauge(String::from("jobs"), String::from("jobs running"));
    assert!(m.registry.register_gauge(again).is_err());
    let shadow = Metric::new_gauge(
        String::from("freeswitch_sessions_acd"),
        String::from("shadow"),
    );
    assert!(m.registry.register_gauge(shadow).is_err());
}

#[test]
fn default_bind_configuration() {
    let r = mod_prometheus::registry::Registry::new_default();
    assert_eq!(r.addr, "0.0.0.0");
    assert_eq!(r.port, 9282);
    assert!(!r.started);
}

#[test]
fn registry_start_twice_is_an_error() {
    let mut m = fresh_module();
    assert!(m.registry.start().is_err());
    m.registry.stop();
    assert!(m.registry.start().is_ok());
}

#[test]
fn snapshot_lists_statics_then_dynamics() {
    let mut m = fresh_module();
    m.counter_increment_api("mycounter 5").unwrap();
    m.deliver_event(&channel_event(EventKind::Heartbeat, &[]));
    let snap = m.registry.snapshot();
    assert_eq!(snap.len(), 19);
    assert_eq!(snap[0].name, "freeswitch_heartbeats_total");
    assert_eq!(snap[0].kind, MetricKind::Counter);
    assert_eq!(snap[0].value.raw(), SCALE);
    assert_eq!(snap[18].name, "mycounter");
    assert_eq!(snap[18].help, "mycounter");
    assert_eq!(snap[18].kind, MetricKind::Counter);
    assert_eq!(snap[18].value.raw(), 5 * SCALE);
}

#[test]
fn render_produces_exposition_lines() {
    let mut m = fresh_module();
    m.deliver_event(&channel_event(EventKind::Heartbeat, &[]));
    m.counter_increment_api("mycounter 5").unwrap();
    let body = m.registry.render();
    let expected_first = "# HELP freeswitch_heartbeats_total FreeSWITCH heartbeat count\n\
                          # TYPE freeswitch_heartbeats_total counter\n\
                          freeswitch_heartbeats_total 1\n";
    assert!(body.starts_with(expected_first), "body began with: {}", &body[..120.min(body.len())]);
    assert!(body.ends_with("# HELP mycounter mycounter\n# TYPE mycounter counter\nmycounter 5\n"));
    assert!(body.contains("# TYPE freeswitch_sessions_asr gauge\nfreeswitch_sessions_asr 0\n"));
    // One help, one type, and one value line per metric: 19 metrics.
    assert_eq!(body.lines().count(), 57);
}
