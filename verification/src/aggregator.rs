//! The event aggregator: turns host events into static-metric updates,
//! including the derived answer-seizure-ratio and average-call-duration
//! gauges. The whole effect of one event is the pure transition `step`;
//! `apply_event` realizes exactly that transition.

use vstd::prelude::*;
use crate::value::Value;
use crate::value::SCALE;
use crate::value::sat64;
use crate::text::parse_int;
use crate::text::parse_i64;
use crate::text::str_eq;
use crate::event::Event;
use crate::event::EventKind;
use crate::catalog::StaticMetrics;
use crate::catalog::StatView;
use crate::catalog::stat_wf;

verus! {

broadcast use crate::value::lemma_value_bounds;

/// The derived ratio of two metrics in fixed point, rounded toward zero
/// and saturated (meaningful when `den > 0` and `num >= 0`).
pub open spec fn ratio_spec(num: int, den: int) -> int {
    sat64((num * SCALE) / den)
}

/// A ratio of a non-negative numerator to a positive denominator is a
/// non-negative representable value.
pub proof fn lemma_ratio_spec_bounds(num: int, den: int)
    requires
        num >= 0,
        den > 0,
    ensures
        0 <= ratio_spec(num, den) <= i64::MAX,
{
    assert((num * SCALE) / den >= 0) by (nonlinear_arith)
        requires
            num >= 0,
            den > 0,
    ;
}

/// Effect of a channel-create event: one more session, one more active
/// session; with a direction header, one more directional session, and
/// for outbound the answer seizure ratio is recomputed against the new
/// denominator.
pub open spec fn step_create(s: StatView, e: Event) -> StatView {
    let s1 = StatView {
        sessions: sat64(s.sessions + SCALE),
        sessions_active: sat64(s.sessions_active + SCALE),
        ..s
    };
    match e.spec_header("Call-Direction"@) {
        None => s1,
        Some(dir) => if dir == "inbound"@ {
            StatView { sessions_inbound: sat64(s1.sessions_inbound + SCALE), ..s1 }
        } else {
            let out = sat64(s1.sessions_outbound + SCALE);
            StatView {
                sessions_outbound: out,
                sessions_asr: ratio_spec(s1.sessions_outbound_answered, out),
                ..s1
            }
        },
    }
}

/// Effect of a channel-answer event: one more answered session; with a
/// direction header, one more directional answered session, and for
/// outbound the answer seizure ratio is recomputed when any outbound
/// session has been seen.
pub open spec fn step_answer(s: StatView, e: Event) -> StatView {
    let s1 = StatView { sessions_answered: sat64(s.sessions_answered + SCALE), ..s };
    match e.spec_header("Call-Direction"@) {
        None => s1,
        Some(dir) => if dir == "inbound"@ {
            StatView {
                sessions_inbound_answered: sat64(s1.sessions_inbound_answered + SCALE),
                ..s1
            }
        } else {
            let ans = sat64(s1.sessions_outbound_answered + SCALE);
            if s1.sessions_outbound > 0 {
                StatView {
                    sessions_outbound_answered: ans,
                    sessions_asr: ratio_spec(ans, s1.sessions_outbound),
                    ..s1
                }
            } else {
                StatView { sessions_outbound_answered: ans, ..s1 }
            }
        },
    }
}

/// Effect of a channel-hangup event, read from the answered-time header:
/// zero means a failed session (counted overall and per direction); a
/// positive value on an outbound channel adds that duration to the total
/// and recomputes the average call duration when any outbound session has
/// been answered. A missing or unparsable header leaves everything alone.
pub open spec fn step_hangup(s: StatView, e: Event) -> StatView {
    match e.spec_header("Caller-Channel-Answered-Time"@) {
        None => s,
        Some(ts) => match parse_int(ts) {
            None => s,
            Some(time) => if time == 0 {
                match e.spec_header("Call-Direction"@) {
                    None => s,
                    Some(dir) => if dir == "inbound"@ {
                        StatView {
                            sessions_inbound_failed: sat64(s.sessions_inbound_failed + SCALE),
                            sessions_failed: sat64(s.sessions_failed + SCALE),
                            ..s
                        }
                    } else {
                        StatView {
                            sessions_outbound_failed: sat64(s.sessions_outbound_failed + SCALE),
                            sessions_failed: sat64(s.sessions_failed + SCALE),
                            ..s
                        }
                    },
                }
            } else if time > 0 {
                match e.spec_header("Call-Direction"@) {
                    None => s,
                    Some(dir) => if dir == "inbound"@ {
                        s
                    } else {
                        let total = sat64(
                            s.sessions_outbound_duration_total + sat64(time * SCALE),
                        );
                        if s.sessions_outbound_answered > 0 {
                            StatView {
                                sessions_outbound_duration_total: total,
                                sessions_acd: ratio_spec(total, s.sessions_outbound_answered),
                                ..s
                            }
                        } else {
                            StatView { sessions_outbound_duration_total: total, ..s }
                        }
                    },
                }
            } else {
                s
            },
        },
    }
}

/// Effect of a custom event, chosen by its subclass: registration
/// attempts, failures, registrations (with the active-registration
/// gauge), and unregister or expiry (which lower that gauge).
pub open spec fn step_custom(s: StatView, e: Event) -> StatView {
    match e.spec_subclass() {
        None => s,
        Some(sub) => if sub == "sofia::register_attempt"@ {
            StatView { registration_attempts: sat64(s.registration_attempts + SCALE), ..s }
        } else if sub == "sofia::register_failure"@ {
            StatView { registration_failures: sat64(s.registration_failures + SCALE), ..s }
        } else if sub == "sofia::register"@ {
            StatView {
                registrations: sat64(s.registrations + SCALE),
                registrations_active: sat64(s.registrations_active + SCALE),
                ..s
            }
        } else if sub == "sofia::unregister"@ || sub == "sofia::expire"@ {
            StatView { registrations_active: sat64(s.registrations_active - SCALE), ..s }
        } else {
            s
        },
    }
}

/// The whole effect of one event on the static catalog.
pub open spec fn step(s: StatView, e: Event) -> StatView {
    match e.kind {
        EventKind::Heartbeat => StatView { heartbeats: sat64(s.heartbeats + SCALE), ..s },
        EventKind::ChannelCreate => step_create(s, e),
        EventKind::ChannelAnswer => step_answer(s, e),
        EventKind::ChannelHangup => step_hangup(s, e),
        EventKind::ChannelDestroy => StatView {
            sessions_active: sat64(s.sessions_active - SCALE),
            ..s
        },
        EventKind::Custom => step_custom(s, e),
    }
}

/// A step preserves the catalog's well-formedness.
pub proof fn lemma_step_wf(s: StatView, e: Event)
    requires
        stat_wf(s),
    ensures
        stat_wf(step(s, e)),
{
    match e.kind {
        EventKind::ChannelCreate => {
            match e.spec_header("Call-Direction"@) {
                Some(dir) => {
                    if dir != "inbound"@ {
                        let out = sat64(s.sessions_outbound + SCALE);
                        lemma_ratio_spec_bounds(s.sessions_outbound_answered, out);
                    }
                },
                None => {},
            }
        },
        EventKind::ChannelAnswer => {
            match e.spec_header("Call-Direction"@) {
                Some(dir) => {
                    if dir != "inbound"@ && s.sessions_outbound > 0 {
                        let ans = sat64(s.sessions_outbound_answered + SCALE);
                        lemma_ratio_spec_bounds(ans, s.sessions_outbound);
                    }
                },
                None => {},
            }
        },
        EventKind::ChannelHangup => {
            match e.spec_header("Caller-Channel-Answered-Time"@) {
                Some(ts) => {
                    match parse_int(ts) {
                        Some(time) => {
                            if time > 0 {
                                match e.spec_header("Call-Direction"@) {
                                    Some(dir) => {
                                        if dir != "inbound"@ && s.sessions_outbound_answered > 0 {
                                            let total = sat64(
                                                s.sessions_outbound_duration_total + sat64(
                                                    time * SCALE,
                                                ),
                                            );
                                            lemma_ratio_spec_bounds(
                                                total,
                                                s.sessions_outbound_answered,
                                            );
                                        }
                                    },
                                    None => {},
                                }
                            }
                        },
                        None => {},
                    }
                },
                None => {},
            }
        },
        _ => {},
    }
}

/// Applies one event to the static catalog; the new catalog is exactly
/// `step` of the old one.
pub fn apply_event(stats: &mut StaticMetrics, e: &Event)
    requires
        stat_wf(old(stats)@),
    ensures
        final(stats)@ == step(old(stats)@, *e),
        stat_wf(final(stats)@),
{
    proof {
        lemma_step_wf(old(stats)@, *e);
    }
    match e.kind {
        EventKind::Heartbeat => {
            stats.heartbeats = stats.heartbeats.add(Value::one());
        },
        EventKind::ChannelCreate => {
            stats.sessions = stats.sessions.add(Value::one());
            stats.sessions_active = stats.sessions_active.add(Value::one());
            match e.header("Call-Direction") {
                None => {},
                Some(dir) => {
                    if str_eq(dir.as_str(), "inbound") {
                        stats.sessions_inbound = stats.sessions_inbound.add(Value::one());
                    } else {
                        let out = stats.sessions_outbound.add(Value::one());
                        stats.sessions_outbound = out;
                        stats.sessions_asr = Value::ratio(stats.sessions_outbound_answered, out);
                    }
                },
            }
        },
        EventKind::ChannelAnswer => {
            stats.sessions_answered = stats.sessions_answered.add(Value::one());
            match e.header("Call-Direction") {
                None => {},
                Some(dir) => {
                    if str_eq(dir.as_str(), "inbound") {
                        stats.sessions_inbound_answered = stats.sessions_inbound_answered.add(
                            Value::one(),
                        );
                    } else {
                        let ans = stats.sessions_outbound_answered.add(Value::one());
                        stats.sessions_outbound_answered = ans;
                        if stats.sessions_outbound.raw() > 0 {
                            stats.sessions_asr = Value::ratio(ans, stats.sessions_outbound);
                        }
                    }
                },
            }
        },
        EventKind::ChannelHangup => {
            match e.header("Caller-Channel-Answered-Time") {
                None => {},
                Some(ts) => {
                    match parse_i64(ts.as_str()) {
                        None => {},
                        Some(time) => {
                            if time == 0 {
                                match e.header("Call-Direction") {
                                    None => {},
                                    Some(dir) => {
                                        if str_eq(dir.as_str(), "inbound") {
                                            stats.sessions_inbound_failed =
                                                stats.sessions_inbound_failed.add(Value::one());
                                        } else {
                                            stats.sessions_outbound_failed =
                                                stats.sessions_outbound_failed.add(Value::one());
                                        }
                                        stats.sessions_failed = stats.sessions_failed.add(
                                            Value::one(),
                                        );
                                    },
                                }
                            } else if time > 0 {
                                match e.header("Call-Direction") {
                                    None => {},
                                    Some(dir) => {
                                        if !str_eq(dir.as_str(), "inbound") {
                                            let total = stats.sessions_outbound_duration_total.add(
                                                Value::from_whole(time),
                                            );
                                            stats.sessions_outbound_duration_total = total;
                                            if stats.sessions_outbound_answered.raw() > 0 {
                                                stats.sessions_acd = Value::ratio(
                                                    total,
                                                    stats.sessions_outbound_answered,
                                                );
                                            }
                                        }
                                    },
                                }
                            }
                        },
                    }
                },
            }
        },
        EventKind::ChannelDestroy => {
            stats.sessions_active = stats.sessions_active.sub(Value::one());
        },
        EventKind::Custom => {
            match &e.subclass {
                None => {},
                Some(sub) => {
                    if str_eq(sub.as_str(), "sofia::register_attempt") {
                        stats.registration_attempts = stats.registration_attempts.add(
                            Value::one(),
                        );
                    } else if str_eq(sub.as_str(), "sofia::register_failure") {
                        stats.registration_failures = stats.registration_failures.add(
                            Value::one(),
                        );
                    } else if str_eq(sub.as_str(), "sofia::register") {
                        stats.registrations = stats.registrations.add(Value::one());
                        stats.registrations_active = stats.registrations_active.add(Value::one());
                    } else if str_eq(sub.as_str(), "sofia::unregister") || str_eq(
                        sub.as_str(),
                        "sofia::expire",
                    ) {
                        stats.registrations_active = stats.registrations_active.sub(Value::one());
                    }
                },
            }
        },
    }
}

} // verus!
