//! The text command interface: one argument line of the shape
//! `<metric-name> [<value>]`, a reply of `+OK <resulting-value>` on
//! success, and a short error text otherwise.

use vstd::prelude::*;
use crate::value::Value;
use crate::value::SCALE;
use crate::value::sat64;
use crate::value::parse_fixed;
use crate::value::fixed_text;
use crate::text::find_char;
use crate::text::lemma_find_char_at;
use crate::text::find_char_from;
use crate::metric::MetricKind;
use crate::registry::name_taken;
use crate::registry::stored_value;
use crate::registry::store_update_effect;
use crate::lifecycle::Module;

verus! {

/// Rejections of a command, each with its user-visible reply text.
#[derive(Clone, Copy, PartialEq, Eq, Structural, Debug)]
pub enum CommandError {
    /// The argument line is missing or holds no metric name.
    InvalidArguments,
    /// The value token is not a valid number (for a counter: not a valid
    /// non-negative number).
    InvalidMetricValue,
    /// The name is registered under an incompatible kind.
    DuplicateMetricName,
}

impl CommandError {
    /// The reply text a caller sees.
    pub fn message(self) -> (r: &'static str)
        ensures
            self is InvalidArguments ==> r@ == "Invalid arguments"@,
            self is InvalidMetricValue ==> r@ == "Invalid metric value"@,
            self is DuplicateMetricName ==> r@ == "Duplicate metric name"@,
    {
        match self {
            CommandError::InvalidArguments => "Invalid arguments",
            CommandError::InvalidMetricValue => "Invalid metric value",
            CommandError::DuplicateMetricName => "Duplicate metric name",
        }
    }
}

/// What an argument line denotes: its first space-delimited token is the
/// metric name (required), its second the value (one when absent); any
/// further token is ignored. The name must be non-empty and the value a
/// valid fixed-point number.
pub open spec fn parse_args_spec(s: Seq<char>) -> Result<(Seq<char>, int), CommandError> {
    let sp = find_char(s, ' ');
    let name = s.take(sp);
    if name.len() == 0 {
        Err(CommandError::InvalidArguments)
    } else if sp == s.len() {
        Ok((name, SCALE as int))
    } else {
        let rest = s.skip(sp + 1);
        let tok = rest.take(find_char(rest, ' '));
        match parse_fixed(tok) {
            Some(v) => Ok((name, v)),
            None => Err(CommandError::InvalidMetricValue),
        }
    }
}

/// Splits an argument line into the metric name and the value (one when
/// no value token is given).
pub fn parse_metric_api_args(line: &str) -> (r: Result<(String, Value), CommandError>)
    ensures
        ({
            let sp = parse_args_spec(line@);
            match r {
                Ok(p) => sp matches Ok(q) && q.0 == p.0@ && q.1 == p.1@,
                Err(e) => sp matches Err(e2) && e2 == e,
            }
        }),
{
    let n = line.unicode_len();
    let j1 = find_char_from(line, 0, ' ');
    proof {
        lemma_find_char_at(line@, ' ', j1 as int);
    }
    if j1 == 0 {
        return Err(CommandError::InvalidArguments);
    }
    let name_slice = line.substring_char(0, j1);
    proof {
        assert(name_slice@ =~= line@.take(j1 as int));
    }
    let name = String::from_str(name_slice);
    if j1 == n {
        return Ok((name, Value::one()));
    }
    let j2 = find_char_from(line, j1 + 1, ' ');
    let ghost rest = line@.skip(j1 + 1);
    proof {
        assert forall|i: int| 0 <= i < j2 - (j1 + 1) implies rest[i] != ' ' by {
            assert(rest[i] == line@[j1 + 1 + i]);
        }
        if j2 < n {
            assert(rest[j2 - (j1 + 1)] == line@[j2 as int]);
        }
        lemma_find_char_at(rest, ' ', j2 - (j1 + 1));
    }
    let tok = line.substring_char(j1 + 1, j2);
    proof {
        assert(tok@ =~= rest.take(j2 - (j1 + 1)));
    }
    match Value::parse(tok) {
        Some(v) => Ok((name, v)),
        None => Err(CommandError::InvalidMetricValue),
    }
}

/// The reply for a successful command: `+OK` and the resulting value.
pub open spec fn ok_reply(v: int) -> Seq<char> {
    "+OK "@ + fixed_text(v)
}

/// Builds the reply for a successful command.
fn make_reply(v: Value) -> (r: String)
    ensures
        r@ == ok_reply(v@),
{
    let mut s = String::from_str("+OK ");
    let vt = v.to_text();
    s.append(vt.as_str());
    s
}

impl Module {
    /// The `prom_counter_increment` command: parses the line, rejects a
    /// negative delta before any mutation, resolves the counter by
    /// get-or-create, adds the delta, and replies with the new value.
    pub fn counter_increment_api(&mut self, line: &str) -> (r: Result<String, CommandError>)
        requires
            old(self).wf(),
            old(self).loaded,
        ensures
            final(self).wf(),
            final(self).loaded == old(self).loaded,
            final(self).ledger == old(self).ledger,
            final(self).registry.addr == old(self).registry.addr,
            final(self).registry.port == old(self).registry.port,
            final(self).registry.statics == old(self).registry.statics,
            final(self).registry.started == old(self).registry.started,
            ({
                let olds = old(self).registry.dynamics@;
                match parse_args_spec(line@) {
                    Err(e) => r matches Err(e2) && e2 == e && *final(self) == *old(self),
                    Ok((name, val)) => {
                        if val < 0 {
                            r matches Err(e) && e is InvalidMetricValue && *final(self) == *old(
                                self,
                            )
                        } else {
                            match r {
                                Ok(reply) => {
                                    &&& store_update_effect(
                                        olds,
                                        final(self).registry.dynamics@,
                                        name,
                                        MetricKind::Counter,
                                        sat64(stored_value(olds, name) + val),
                                    )
                                    &&& reply@ == ok_reply(sat64(stored_value(olds, name) + val))
                                },
                                Err(e) => {
                                    &&& e is DuplicateMetricName
                                    &&& *final(self) == *old(self)
                                    &&& name_taken(olds, name, MetricKind::Counter)
                                },
                            }
                        }
                    },
                }
            }),
    {
        match parse_metric_api_args(line) {
            Err(e) => Err(e),
            Ok((name, val)) => {
                if val.is_negative() {
                    return Err(CommandError::InvalidMetricValue);
                }
                match self.registry.counter_increment_by(name.as_str(), val) {
                    Ok(v) => Ok(make_reply(v)),
                    Err(_) => Err(CommandError::DuplicateMetricName),
                }
            },
        }
    }

    /// The `prom_gauge_set` command: parses the line (gauges accept
    /// negative values), resolves the gauge by get-or-create, replaces
    /// its value, and replies with the new value.
    pub fn gauge_set_api(&mut self, line: &str) -> (r: Result<String, CommandError>)
        requires
            old(self).wf(),
            old(self).loaded,
        ensures
            final(self).wf(),
            final(self).loaded == old(self).loaded,
            final(self).ledger == old(self).ledger,
            final(self).registry.addr == old(self).registry.addr,
            final(self).registry.port == old(self).registry.port,
            final(self).registry.statics == old(self).registry.statics,
            final(self).registry.started == old(self).registry.started,
            ({
                let olds = old(self).registry.dynamics@;
                match parse_args_spec(line@) {
                    Err(e) => r matches Err(e2) && e2 == e && *final(self) == *old(self),
                    Ok((name, val)) => match r {
                        Ok(reply) => {
                            &&& store_update_effect(
                                olds,
                                final(self).registry.dynamics@,
                                name,
                                MetricKind::Gauge,
                                val,
                            )
                            &&& reply@ == ok_reply(val)
                        },
                        Err(e) => {
                            &&& e is DuplicateMetricName
                            &&& *final(self) == *old(self)
                            &&& name_taken(olds, name, MetricKind::Gauge)
                        },
                    },
                }
            }),
    {
        match parse_metric_api_args(line) {
            Err(e) => Err(e),
            Ok((name, val)) => {
                match self.registry.gauge_set(name.as_str(), val) {
                    Ok(v) => Ok(make_reply(v)),
                    Err(_) => Err(CommandError::DuplicateMetricName),
                }
            },
        }
    }

    /// The `prom_gauge_increment` command: parses the line, resolves the
    /// gauge by get-or-create, adds the delta (either sign), and replies
    /// with the new value.
    pub fn gauge_increment_api(&mut self, line: &str) -> (r: Result<String, CommandError>)
        requires
            old(self).wf(),
            old(self).loaded,
        ensures
            final(self).wf(),
            final(self).loaded == old(self).loaded,
            final(self).ledger == old(self).ledger,
            final(self).registry.addr == old(self).registry.addr,
            final(self).registry.port == old(self).registry.port,
            final(self).registry.statics == old(self).registry.statics,
            final(self).registry.started == old(self).registry.started,
            ({
                let olds = old(self).registry.dynamics@;
                match parse_args_spec(line@) {
                    Err(e) => r matches Err(e2) && e2 == e && *final(self) == *old(self),
                    Ok((name, val)) => match r {
                        Ok(reply) => {
                            &&& store_update_effect(
                                olds,
                                final(self).registry.dynamics@,
                                name,
                                MetricKind::Gauge,
                                sat64(stored_value(olds, name) + val),
                            )
                            &&& reply@ == ok_reply(sat64(stored_value(olds, name) + val))
                        },
                        Err(e) => {
                            &&& e is DuplicateMetricName
                            &&& *final(self) == *old(self)
                            &&& name_taken(olds, name, MetricKind::Gauge)
                        },
                    },
                }
            }),
    {
        match parse_metric_api_args(line) {
            Err(e) => Err(e),
            Ok((name, val)) => {
                match self.registry.gauge_increment_by(name.as_str(), val) {
                    Ok(v) => Ok(make_reply(v)),
                    Err(_) => Err(CommandError::DuplicateMetricName),
                }
            },
        }
    }

    /// The `prom_gauge_decrement` command: parses the line, resolves the
    /// gauge by get-or-create, subtracts the delta (either sign), and
    /// replies with the new value.
    pub fn gauge_decrement_api(&mut self, line: &str) -> (r: Result<String, CommandError>)
        requires
            old(self).wf(),
            old(self).loaded,
        ensures
            final(self).wf(),
            final(self).loaded == old(self).loaded,
            final(self).ledger == old(self).ledger,
            final(self).registry.addr == old(self).registry.addr,
            final(self).registry.port == old(self).registry.port,
            final(self).registry.statics == old(self).registry.statics,
            final(self).registry.started == old(self).registry.started,
            ({
                let olds = old(self).registry.dynamics@;
                match parse_args_spec(line@) {
                    Err(e) => r matches Err(e2) && e2 == e && *final(self) == *old(self),
                    Ok((name, val)) => match r {
                        Ok(reply) => {
                            &&& store_update_effect(
                                olds,
                                final(self).registry.dynamics@,
                                name,
                                MetricKind::Gauge,
                                sat64(stored_value(olds, name) - val),
                            )
                            &&& reply@ == ok_reply(sat64(stored_value(olds, name) - val))
                        },
                        Err(e) => {
                            &&& e is DuplicateMetricName
                            &&& *final(self) == *old(self)
                            &&& name_taken(olds, name, MetricKind::Gauge)
                        },
                    },
                }
            }),
    {
        match parse_metric_api_args(line) {
            Err(e) => Err(e),
            Ok((name, val)) => {
                match self.registry.gauge_decrement_by(name.as_str(), val) {
                    Ok(v) => Ok(make_reply(v)),
                    Err(_) => Err(CommandError::DuplicateMetricName),
                }
            },
        }
    }
}

} // verus!
