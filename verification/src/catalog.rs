//! The static metric catalog: the fixed telephony counters and gauges
//! known at startup, one named slot per metric, so no out-of-range access
//! is possible by construction.

use vstd::prelude::*;
use crate::value::Value;
use crate::metric::MetricKind;
use crate::metric::MetricView;
use crate::text::str_eq;

verus! {

broadcast use crate::value::lemma_value_bounds;

/// The fixed counters and gauges, one field per metric. The first
/// fourteen fields are counters, the last four gauges.
pub struct StaticMetrics {
    pub heartbeats: Value,
    pub sessions: Value,
    pub sessions_answered: Value,
    pub sessions_failed: Value,
    pub sessions_inbound: Value,
    pub sessions_inbound_answered: Value,
    pub sessions_inbound_failed: Value,
    pub sessions_outbound: Value,
    pub sessions_outbound_answered: Value,
    pub sessions_outbound_failed: Value,
    pub registrations: Value,
    pub registration_attempts: Value,
    pub registration_failures: Value,
    pub sessions_outbound_duration_total: Value,
    pub sessions_active: Value,
    pub sessions_asr: Value,
    pub registrations_active: Value,
    pub sessions_acd: Value,
}

/// The catalog as plain integers (raw fixed-point units).
pub struct StatView {
    pub heartbeats: int,
    pub sessions: int,
    pub sessions_answered: int,
    pub sessions_failed: int,
    pub sessions_inbound: int,
    pub sessions_inbound_answered: int,
    pub sessions_inbound_failed: int,
    pub sessions_outbound: int,
    pub sessions_outbound_answered: int,
    pub sessions_outbound_failed: int,
    pub registrations: int,
    pub registration_attempts: int,
    pub registration_failures: int,
    pub sessions_outbound_duration_total: int,
    pub sessions_active: int,
    pub sessions_asr: int,
    pub registrations_active: int,
    pub sessions_acd: int,
}

impl View for StaticMetrics {
    type V = StatView;

    open spec fn view(&self) -> StatView {
        StatView {
            heartbeats: self.heartbeats@,
            sessions: self.sessions@,
            sessions_answered: self.sessions_answered@,
            sessions_failed: self.sessions_failed@,
            sessions_inbound: self.sessions_inbound@,
            sessions_inbound_answered: self.sessions_inbound_answered@,
            sessions_inbound_failed: self.sessions_inbound_failed@,
            sessions_outbound: self.sessions_outbound@,
            sessions_outbound_answered: self.sessions_outbound_answered@,
            sessions_outbound_failed: self.sessions_outbound_failed@,
            registrations: self.registrations@,
            registration_attempts: self.registration_attempts@,
            registration_failures: self.registration_failures@,
            sessions_outbound_duration_total: self.sessions_outbound_duration_total@,
            sessions_active: self.sessions_active@,
            sessions_asr: self.sessions_asr@,
            registrations_active: self.registrations_active@,
            sessions_acd: self.sessions_acd@,
        }
    }
}

/// The catalog with every metric at zero.
pub open spec fn init_stat() -> StatView {
    StatView {
        heartbeats: 0,
        sessions: 0,
        sessions_answered: 0,
        sessions_failed: 0,
        sessions_inbound: 0,
        sessions_inbound_answered: 0,
        sessions_inbound_failed: 0,
        sessions_outbound: 0,
        sessions_outbound_answered: 0,
        sessions_outbound_failed: 0,
        registrations: 0,
        registration_attempts: 0,
        registration_failures: 0,
        sessions_outbound_duration_total: 0,
        sessions_active: 0,
        sessions_asr: 0,
        registrations_active: 0,
        sessions_acd: 0,
    }
}

/// Every counter of the catalog is non-negative, and every field lies in
/// the `i64` range.
pub open spec fn stat_wf(s: StatView) -> bool {
    &&& 0 <= s.heartbeats <= i64::MAX
    &&& 0 <= s.sessions <= i64::MAX
    &&& 0 <= s.sessions_answered <= i64::MAX
    &&& 0 <= s.sessions_failed <= i64::MAX
    &&& 0 <= s.sessions_inbound <= i64::MAX
    &&& 0 <= s.sessions_inbound_answered <= i64::MAX
    &&& 0 <= s.sessions_inbound_failed <= i64::MAX
    &&& 0 <= s.sessions_outbound <= i64::MAX
    &&& 0 <= s.sessions_outbound_answered <= i64::MAX
    &&& 0 <= s.sessions_outbound_failed <= i64::MAX
    &&& 0 <= s.registrations <= i64::MAX
    &&& 0 <= s.registration_attempts <= i64::MAX
    &&& 0 <= s.registration_failures <= i64::MAX
    &&& 0 <= s.sessions_outbound_duration_total <= i64::MAX
    &&& i64::MIN <= s.sessions_active <= i64::MAX
    &&& i64::MIN <= s.sessions_asr <= i64::MAX
    &&& i64::MIN <= s.registrations_active <= i64::MAX
    &&& i64::MIN <= s.sessions_acd <= i64::MAX
}

impl StaticMetrics {
    /// A fresh catalog, every metric at zero.
    pub fn new() -> (r: StaticMetrics)
        ensures
            r@ == init_stat(),
            stat_wf(r@),
    {
        StaticMetrics {
            heartbeats: Value::zero(),
            sessions: Value::zero(),
            sessions_answered: Value::zero(),
            sessions_failed: Value::zero(),
            sessions_inbound: Value::zero(),
            sessions_inbound_answered: Value::zero(),
            sessions_inbound_failed: Value::zero(),
            sessions_outbound: Value::zero(),
            sessions_outbound_answered: Value::zero(),
            sessions_outbound_failed: Value::zero(),
            registrations: Value::zero(),
            registration_attempts: Value::zero(),
            registration_failures: Value::zero(),
            sessions_outbound_duration_total: Value::zero(),
            sessions_active: Value::zero(),
            sessions_asr: Value::zero(),
            registrations_active: Value::zero(),
            sessions_acd: Value::zero(),
        }
    }
}

/// The export view of the catalog, in its fixed order: counters first,
/// then gauges, each with name, help text, kind, and current value.
pub open spec fn static_samples(s: StatView) -> Seq<MetricView> {
    seq![
        MetricView {
            name: "freeswitch_heartbeats_total"@,
            help: "FreeSWITCH heartbeat count"@,
            kind: MetricKind::Counter,
            value: s.heartbeats,
        },
        MetricView {
            name: "freeswitch_sessions_total"@,
            help: "FreeSWITCH Session Count"@,
            kind: MetricKind::Counter,
            value: s.sessions,
        },
        MetricView {
            name: "freeswitch_sessions_answered_total"@,
            help: "FreeSWITCH Answered Sessions Count"@,
            kind: MetricKind::Counter,
            value: s.sessions_answered,
        },
        MetricView {
            name: "freeswitch_sessions_failed_total"@,
            help: "FreeSWITCH Failed Sessions Count"@,
            kind: MetricKind::Counter,
            value: s.sessions_failed,
        },
        MetricView {
            name: "freeswitch_sessions_inbound_total"@,
            help: "FreeSWITCH Inbound Sessions Count"@,
            kind: MetricKind::Counter,
            value: s.sessions_inbound,
        },
        MetricView {
            name: "freeswitch_sessions_inbound_answered_total"@,
            help: "FreeSWITCH Answered Inbound Sessions Count"@,
            kind: MetricKind::Counter,
            value: s.sessions_inbound_answered,
        },
        MetricView {
            name: "freeswitch_sessions_inbound_failed_total"@,
            help: "FreeSWITCH Failed Inbound Sessions Count"@,
            kind: MetricKind::Counter,
            value: s.sessions_inbound_failed,
        },
        MetricView {
            name: "freeswitch_sessions_outbound_total"@,
            help: "FreeSWITCH Outbound Sessions Count"@,
            kind: MetricKind::Counter,
            value: s.sessions_outbound,
        },
        MetricView {
            name: "freeswitch_sessions_outbound_answered_total"@,
            help: "FreeSWITCH Answered Outbound Sessions Count"@,
            kind: MetricKind::Counter,
            value: s.sessions_outbound_answered,
        },
        MetricView {
            name: "freeswitch_sessions_outbound_failed_total"@,
            help: "FreeSWITCH Failed Outbound Sessions Count"@,
            kind: MetricKind::Counter,
            value: s.sessions_outbound_failed,
        },
        MetricView {
            name: "freeswitch_registrations_total"@,
            help: "FreeSWITCH Registration Count"@,
            kind: MetricKind::Counter,
            value: s.registrations,
        },
        MetricView {
            name: "freeswitch_registration_attempts_total"@,
            help: "FreeSWITCH Registration Attempts"@,
            kind: MetricKind::Counter,
            value: s.registration_attempts,
        },
        MetricView {
            name: "freeswitch_registration_failures_total"@,
            help: "FreeSWITCH Registration Failures"@,
            kind: MetricKind::Counter,
            value: s.registration_failures,
        },
        MetricView {
            name: "freeswitch_sessions_outbound_duration_total"@,
            help: "FreeSWITCH outbound Calls total duration"@,
            kind: MetricKind::Counter,
            value: s.sessions_outbound_duration_total,
        },
        MetricView {
            name: "freeswitch_sessions_active"@,
            help: "FreeSWITCH Active Sessions"@,
            kind: MetricKind::Gauge,
            value: s.sessions_active,
        },
        MetricView {
            name: "freeswitch_sessions_asr"@,
            help: "FreeSWITCH Sessions Answer Seizure Ratio"@,
            kind: MetricKind::Gauge,
            value: s.sessions_asr,
        },
        MetricView {
            name: "freeswitch_registrations_active"@,
            help: "FreeSWITCH Active Registrations"@,
            kind: MetricKind::Gauge,
            value: s.registrations_active,
        },
        MetricView {
            name: "freeswitch_sessions_acd"@,
            help: "FreeSWITCH outbound Calls Average Duration"@,
            kind: MetricKind::Gauge,
            value: s.sessions_acd,
        },
    ]
}

/// True when `n` is the name of one of the static metrics.
pub open spec fn is_static_name_spec(n: Seq<char>) -> bool {
    ||| n == "freeswitch_heartbeats_total"@
    ||| n == "freeswitch_sessions_total"@
    ||| n == "freeswitch_sessions_answered_total"@
    ||| n == "freeswitch_sessions_failed_total"@
    ||| n == "freeswitch_sessions_inbound_total"@
    ||| n == "freeswitch_sessions_inbound_answered_total"@
    ||| n == "freeswitch_sessions_inbound_failed_total"@
    ||| n == "freeswitch_sessions_outbound_total"@
    ||| n == "freeswitch_sessions_outbound_answered_total"@
    ||| n == "freeswitch_sessions_outbound_failed_total"@
    ||| n == "freeswitch_registrations_total"@
    ||| n == "freeswitch_registration_attempts_total"@
    ||| n == "freeswitch_registration_failures_total"@
    ||| n == "freeswitch_sessions_outbound_duration_total"@
    ||| n == "freeswitch_sessions_active"@
    ||| n == "freeswitch_sessions_asr"@
    ||| n == "freeswitch_registrations_active"@
    ||| n == "freeswitch_sessions_acd"@
}

/// Decides whether `name` is the name of one of the static metrics.
pub fn is_static_name(name: &str) -> (r: bool)
    ensures
        r == is_static_name_spec(name@),
{
    if str_eq(name, "freeswitch_heartbeats_total") {
        return true;
    }
    if str_eq(name, "freeswitch_sessions_total") {
        return true;
    }
    if str_eq(name, "freeswitch_sessions_answered_total") {
        return true;
    }
    if str_eq(name, "freeswitch_sessions_failed_total") {
        return true;
    }
    if str_eq(name, "freeswitch_sessions_inbound_total") {
        return true;
    }
    if str_eq(name, "freeswitch_sessions_inbound_answered_total") {
        return true;
    }
    if str_eq(name, "freeswitch_sessions_inbound_failed_total") {
        return true;
    }
    if str_eq(name, "freeswitch_sessions_outbound_total") {
        return true;
    }
    if str_eq(name, "freeswitch_sessions_outbound_answered_total") {
        return true;
    }
    if str_eq(name, "freeswitch_sessions_outbound_failed_total") {
        return true;
    }
    if str_eq(name, "freeswitch_registrations_total") {
        return true;
    }
    if str_eq(name, "freeswitch_registration_attempts_total") {
        return true;
    }
    if str_eq(name, "freeswitch_registration_failures_total") {
        return true;
    }
    if str_eq(name, "freeswitch_sessions_outbound_duration_total") {
        return true;
    }
    if str_eq(name, "freeswitch_sessions_active") {
        return true;
    }
    if str_eq(name, "freeswitch_sessions_asr") {
        return true;
    }
    if str_eq(name, "freeswitch_registrations_active") {
        return true;
    }
    if str_eq(name, "freeswitch_sessions_acd") {
        return true;
    }
    false
}

} // verus!
