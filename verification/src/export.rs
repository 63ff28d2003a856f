//! The scrape/export path: a snapshot of every registered metric, and the
//! text exposition body built from it (help line, type line, value line
//! per metric).

use vstd::prelude::*;
use crate::metric::Metric;
use crate::metric::MetricKind;
use crate::metric::MetricView;
use crate::value::fixed_text;
use crate::catalog::StaticMetrics;
use crate::catalog::static_samples;
use crate::registry::Registry;

verus! {

/// The exposition word for a metric kind.
pub open spec fn kind_text(k: MetricKind) -> Seq<char> {
    match k {
        MetricKind::Counter => "counter"@,
        MetricKind::Gauge => "gauge"@,
    }
}

/// The exposition word for a metric kind.
pub fn kind_str(k: MetricKind) -> (r: &'static str)
    ensures
        r@ == kind_text(k),
{
    match k {
        MetricKind::Counter => "counter",
        MetricKind::Gauge => "gauge",
    }
}

/// The exposition lines of one metric: its help line, its type line, and
/// its value line.
pub open spec fn render_sample(m: MetricView) -> Seq<char> {
    "# HELP "@ + m.name + " "@ + m.help + "\n"@ + "# TYPE "@ + m.name + " "@ + kind_text(m.kind)
        + "\n"@ + m.name + " "@ + fixed_text(m.value) + "\n"@
}

/// The exposition lines of a list of metrics, in order.
pub open spec fn render_seq(s: Seq<MetricView>) -> Seq<char>
    decreases s.len(),
{
    if s.len() == 0 {
        Seq::empty()
    } else {
        render_seq(s.drop_last()) + render_sample(s.last())
    }
}

/// Extending the list by one metric appends that metric's lines.
pub proof fn lemma_render_seq_take_step(s: Seq<MetricView>, k: int)
    requires
        0 <= k < s.len(),
    ensures
        render_seq(s.take(k + 1)) == render_seq(s.take(k)) + render_sample(s[k]),
{
    assert(s.take(k + 1).drop_last() =~= s.take(k));
    assert(s.take(k + 1).last() == s[k]);
}

/// Appends one metric's exposition lines.
fn append_sample(out: &mut String, m: &Metric)
    ensures
        final(out)@ == old(out)@ + render_sample(m@),
{
    out.append("# HELP ");
    out.append(m.name.as_str());
    out.append(" ");
    out.append(m.help.as_str());
    out.append("\n");
    out.append("# TYPE ");
    out.append(m.name.as_str());
    out.append(" ");
    out.append(kind_str(m.kind));
    out.append("\n");
    out.append(m.name.as_str());
    out.append(" ");
    let vt = m.value.to_text();
    out.append(vt.as_str());
    out.append("\n");
    proof {
        assert(out@ =~= old(out)@ + render_sample(m@));
    }
}

/// Fresh metric cells carrying the static catalog's current values, in
/// the catalog's fixed order.
pub fn static_snapshot(stats: &StaticMetrics) -> (r: Vec<Metric>)
    ensures
        r@.map_values(|m: Metric| m@) == static_samples(stats@),
{
    let mut r: Vec<Metric> = Vec::new();
    r.push(
        Metric {
            name: String::from_str("freeswitch_heartbeats_total"),
            help: String::from_str("FreeSWITCH heartbeat count"),
            kind: MetricKind::Counter,
            value: stats.heartbeats,
        },
    );
    r.push(
        Metric {
            name: String::from_str("freeswitch_sessions_total"),
            help: String::from_str("FreeSWITCH Session Count"),
            kind: MetricKind::Counter,
            value: stats.sessions,
        },
    );
    r.push(
        Metric {
            name: String::from_str("freeswitch_sessions_answered_total"),
            help: String::from_str("FreeSWITCH Answered Sessions Count"),
            kind: MetricKind::Counter,
            value: stats.sessions_answered,
        },
    );
    r.push(
        Metric {
            name: String::from_str("freeswitch_sessions_failed_total"),
            help: String::from_str("FreeSWITCH Failed Sessions Count"),
            kind: MetricKind::Counter,
            value: stats.sessions_failed,
        },
    );
    r.push(
        Metric {
            name: String::from_str("freeswitch_sessions_inbound_total"),
            help: String::from_str("FreeSWITCH Inbound Sessions Count"),
            kind: MetricKind::Counter,
            value: stats.sessions_inbound,
        },
    );
    r.push(
        Metric {
            name: String::from_str("freeswitch_sessions_inbound_answered_total"),
            help: String::from_str("FreeSWITCH Answered Inbound Sessions Count"),
            kind: MetricKind::Counter,
            value: stats.sessions_inbound_answered,
        },
    );
    r.push(
        Metric {
            name: String::from_str("freeswitch_sessions_inbound_failed_total"),
            help: String::from_str("FreeSWITCH Failed Inbound Sessions Count"),
            kind: MetricKind::Counter,
            value: stats.sessions_inbound_failed,
        },
    );
    r.push(
        Metric {
            name: String::from_str("freeswitch_sessions_outbound_total"),
            help: String::from_str("FreeSWITCH Outbound Sessions Count"),
            kind: MetricKind::Counter,
            value: stats.sessions_outbound,
        },
    );
    r.push(
        Metric {
            name: String::from_str("freeswitch_sessions_outbound_answered_total"),
            help: String::from_str("FreeSWITCH Answered Outbound Sessions Count"),
            kind: MetricKind::Counter,
            value: stats.sessions_outbound_answered,
        },
    );
    r.push(
        Metric {
            name: String::from_str("freeswitch_sessions_outbound_failed_total"),
            help: String::from_str("FreeSWITCH Failed Outbound Sessions Count"),
            kind: MetricKind::Counter,
            value: stats.sessions_outbound_failed,
        },
    );
    r.push(
        Metric {
            name: String::from_str("freeswitch_registrations_total"),
            help: String::from_str("FreeSWITCH Registration Count"),
            kind: MetricKind::Counter,
            value: stats.registrations,
        },
    );
    r.push(
        Metric {
            name: String::from_str("freeswitch_registration_attempts_total"),
            help: String::from_str("FreeSWITCH Registration Attempts"),
            kind: MetricKind::Counter,
            value: stats.registration_attempts,
        },
    );
    r.push(
        Metric {
            name: String::from_str("freeswitch_registration_failures_total"),
            help: String::from_str("FreeSWITCH Registration Failures"),
            kind: MetricKind::Counter,
            value: stats.registration_failures,
        },
    );
    r.push(
        Metric {
            name: String::from_str("freeswitch_sessions_outbound_duration_total"),
            help: String::from_str("FreeSWITCH outbound Calls total duration"),
            kind: MetricKind::Counter,
            value: stats.sessions_outbound_duration_total,
        },
    );
    r.push(
        Metric {
            name: String::from_str("freeswitch_sessions_active"),
            help: String::from_str("FreeSWITCH Active Sessions"),
            kind: MetricKind::Gauge,
            value: stats.sessions_active,
        },
    );
    r.push(
        Metric {
            name: String::from_str("freeswitch_sessions_asr"),
            help: String::from_str("FreeSWITCH Sessions Answer Seizure Ratio"),
            kind: MetricKind::Gauge,
            value: stats.sessions_asr,
        },
    );
    r.push(
        Metric {
            name: String::from_str("freeswitch_registrations_active"),
            help: String::from_str("FreeSWITCH Active Registrations"),
            kind: MetricKind::Gauge,
            value: stats.registrations_active,
        },
    );
    r.push(
        Metric {
            name: String::from_str("freeswitch_sessions_acd"),
            help: String::from_str("FreeSWITCH outbound Calls Average Duration"),
            kind: MetricKind::Gauge,
            value: stats.sessions_acd,
        },
    );
    proof {
        assert(r@.map_values(|m: Metric| m@) =~= static_samples(stats@));
    }
    r
}

impl Registry {
    /// What every registered metric currently reads as: the statics in
    /// their fixed order, then the dynamic metrics in creation order.
    pub open spec fn samples(self) -> Seq<MetricView> {
        static_samples(self.statics@) + self.dynamics@.map_values(|m: Metric| m@)
    }

    /// A consistent snapshot of every registered metric: name, help,
    /// kind, and current value, statics first.
    pub fn snapshot(&self) -> (r: Vec<Metric>)
        ensures
            r@.map_values(|m: Metric| m@) == self.samples(),
    {
        let mut r = static_snapshot(&self.statics);
        let ghost head = r@;
        let n = self.dynamics.len();
        let mut i: usize = 0;
        while i < n
            invariant
                i <= n,
                n == self.dynamics@.len(),
                r@.len() == head.len() + i,
                r@.take(head.len() as int) == head,
                head.map_values(|m: Metric| m@) == static_samples(self.statics@),
                forall|k: int| 0 <= k < i ==> r@[head.len() + k] == self.dynamics@[k],
            decreases n - i,
        {
            let m = self.dynamics[i].duplicate();
            r.push(m);
            proof {
                assert(r@.take(head.len() as int) =~= head);
            }
            i = i + 1;
        }
        proof {
            assert(r@.map_values(|m: Metric| m@) =~= self.samples());
        }
        r
    }

    /// The exposition text body: for every registered metric its help,
    /// type, and value lines, statics first.
    pub fn render(&self) -> (r: String)
        ensures
            r@ == render_seq(self.samples()),
    {
        let samples = self.snapshot();
        let ghost views = samples@.map_values(|m: Metric| m@);
        let mut out = String::new();
        let n = samples.len();
        let mut i: usize = 0;
        proof {
            assert(views.take(0) =~= Seq::<MetricView>::empty());
        }
        while i < n
            invariant
                i <= n,
                n == samples@.len(),
                views == samples@.map_values(|m: Metric| m@),
                views == self.samples(),
                out@ == render_seq(views.take(i as int)),
            decreases n - i,
        {
            proof {
                lemma_render_seq_take_step(views, i as int);
                assert(views[i as int] == samples@[i as int]@);
            }
            append_sample(&mut out, &samples[i]);
            i = i + 1;
        }
        proof {
            assert(views.take(n as int) =~= views);
        }
        out
    }
}

} // verus!
