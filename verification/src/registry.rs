//! The metric registry: owns the static catalog and the dynamic
//! get-or-create store, keeps names unique, and carries the exposition
//! listener's configuration and started state.

use vstd::prelude::*;
use crate::value::Value;
use crate::value::sat64;
use crate::metric::Metric;
use crate::metric::MetricKind;
use crate::text::str_eq;
use crate::catalog::StaticMetrics;
use crate::catalog::stat_wf;
use crate::catalog::init_stat;
use crate::catalog::is_static_name;
use crate::catalog::is_static_name_spec;

verus! {

broadcast use crate::value::lemma_value_bounds;

/// The documented default bind port of the exposition listener.
pub const DEFAULT_PORT: u16 = 9282;

/// Errors the registry reports to its callers.
#[derive(Clone, Copy, PartialEq, Eq, Structural, Debug)]
pub enum RegistryError {
    /// The name is already registered (as a static metric or as a dynamic
    /// metric of the other kind).
    DuplicateMetricName,
    /// The listener was started twice.
    AlreadyStarted,
}

/// The index of the first dynamic metric named `name`, or `s.len()` when
/// none is.
pub open spec fn find_by_name(s: Seq<Metric>, name: Seq<char>) -> int
    decreases s.len(),
{
    if s.len() == 0 {
        0
    } else if s[0]@.name == name {
        0
    } else {
        1 + find_by_name(s.skip(1), name)
    }
}

/// `find_by_name` names the first match: it is in bounds, it matches when
/// in bounds, and nothing before it matches.
pub proof fn lemma_find_by_name(s: Seq<Metric>, name: Seq<char>)
    ensures
        0 <= find_by_name(s, name) <= s.len(),
        find_by_name(s, name) < s.len() ==> s[find_by_name(s, name)]@.name == name,
        forall|i: int| 0 <= i < find_by_name(s, name) ==> s[i]@.name != name,
    decreases s.len(),
{
    if s.len() == 0 {
    } else if s[0]@.name == name {
    } else {
        lemma_find_by_name(s.skip(1), name);
        assert forall|i: int| 0 <= i < find_by_name(s, name) implies s[i]@.name != name by {
            if i > 0 {
                assert(s.skip(1)[i - 1] == s[i]);
            }
        }
        if find_by_name(s, name) < s.len() {
            assert(s.skip(1)[find_by_name(s, name) - 1] == s[find_by_name(s, name)]);
        }
    }
}

/// The name is taken by a static metric or by a dynamic metric of
/// another kind, so a metric of kind `kind` cannot be created under it.
pub open spec fn name_taken(s: Seq<Metric>, name: Seq<char>, kind: MetricKind) -> bool {
    ||| is_static_name_spec(name)
    ||| (find_by_name(s, name) < s.len() && s[find_by_name(s, name)]@.kind != kind)
}

/// The stored value of the dynamic metric named `name`, zero when there
/// is none yet.
pub open spec fn stored_value(s: Seq<Metric>, name: Seq<char>) -> int {
    let d = find_by_name(s, name);
    if d < s.len() {
        s[d]@.value
    } else {
        0
    }
}

/// What a get-or-create update of kind `kind` under `name` does to the
/// store: the named metric holds `v` (a fresh one carries its name as
/// help text), and no other metric moves.
pub open spec fn store_update_effect(
    olds: Seq<Metric>,
    news: Seq<Metric>,
    name: Seq<char>,
    kind: MetricKind,
    v: int,
) -> bool {
    let d = find_by_name(olds, name);
    &&& news[d]@.name == name
    &&& news[d]@.kind == kind
    &&& news[d]@.value == v
    &&& (forall|k: int| 0 <= k < olds.len() && k != d ==> news[k] == olds[k])
    &&& if d < olds.len() {
        &&& olds[d]@.kind == kind
        &&& news.len() == olds.len()
        &&& news[d]@.help == olds[d]@.help
    } else {
        &&& !is_static_name_spec(name)
        &&& news.len() == d + 1
        &&& news[d]@.help == name
    }
}

/// The registry: configuration, the static catalog, the dynamic store,
/// and the listener state.
pub struct Registry {
    /// Bind address of the exposition listener (configuration).
    pub addr: String,
    /// Bind port of the exposition listener (configuration).
    pub port: u16,
    /// The static catalog.
    pub statics: StaticMetrics,
    /// The dynamic get-or-create store.
    pub dynamics: Vec<Metric>,
    /// Whether the exposition listener is running.
    pub started: bool,
}

impl Registry {
    /// Names are unique: dynamic names collide neither with each other
    /// nor with the static catalog; dynamic counters are non-negative;
    /// the catalog is well formed.
    pub open spec fn wf(self) -> bool {
        &&& forall|i: int, j: int|
            0 <= i < j < self.dynamics@.len() ==> self.dynamics@[i]@.name
                != self.dynamics@[j]@.name
        &&& forall|i: int|
            0 <= i < self.dynamics@.len() ==> !is_static_name_spec(
                #[trigger] self.dynamics@[i]@.name,
            )
        &&& forall|i: int| 0 <= i < self.dynamics@.len() ==> (#[trigger] self.dynamics@[i]).wf()
        &&& stat_wf(self.statics@)
    }

    /// A fresh registry for the given bind address: static catalog at
    /// zero, empty dynamic store, listener not yet started.
    pub fn new(addr: String, port: u16) -> (r: Registry)
        ensures
            r.wf(),
            r.addr@ == addr@,
            r.port == port,
            r.statics@ == init_stat(),
            r.dynamics@.len() == 0,
            !r.started,
    {
        Registry {
            addr,
            port,
            statics: StaticMetrics::new(),
            dynamics: Vec::new(),
            started: false,
        }
    }

    /// A fresh registry bound to the documented default address and
    /// port.
    pub fn new_default() -> (r: Registry)
        ensures
            r.wf(),
            r.addr@ == "0.0.0.0"@,
            r.port == DEFAULT_PORT,
            r.statics@ == init_stat(),
            r.dynamics@.len() == 0,
            !r.started,
    {
        Registry::new(String::from_str("0.0.0.0"), DEFAULT_PORT)
    }

    /// Starts the exposition listener; starting twice is a logic error
    /// reported to the caller, never ignored.
    pub fn start(&mut self) -> (r: Result<(), RegistryError>)
        ensures
            final(self).addr == old(self).addr,
            final(self).port == old(self).port,
            final(self).statics == old(self).statics,
            final(self).dynamics == old(self).dynamics,
            match r {
                Ok(()) => !old(self).started && final(self).started,
                Err(e) => e is AlreadyStarted && old(self).started && *final(self) == *old(self),
            },
    {
        if self.started {
            Err(RegistryError::AlreadyStarted)
        } else {
            self.started = true;
            Ok(())
        }
    }

    /// Stops the exposition listener; safe to call in any state.
    pub fn stop(&mut self)
        ensures
            final(self).addr == old(self).addr,
            final(self).port == old(self).port,
            final(self).statics == old(self).statics,
            final(self).dynamics == old(self).dynamics,
            !final(self).started,
    {
        self.started = false;
    }

    /// The index of the first dynamic metric named `name`, or the store's
    /// length when there is none.
    pub fn find_dynamic(&self, name: &str) -> (r: usize)
        ensures
            r == find_by_name(self.dynamics@, name@),
    {
        let n = self.dynamics.len();
        let mut i: usize = 0;
        while i < n
            invariant
                i <= n,
                n == self.dynamics@.len(),
                forall|k: int| 0 <= k < i ==> self.dynamics@[k]@.name != name@,
            decreases n - i,
        {
            if str_eq(self.dynamics[i].name.as_str(), name) {
                proof {
                    lemma_find_by_name(self.dynamics@, name@);
                    lemma_find_by_name_at(self.dynamics@, name@, i as int);
                }
                return i;
            }
            i = i + 1;
        }
        proof {
            lemma_find_by_name_at(self.dynamics@, name@, n as int);
        }
        n
    }

    /// Inserts a counter under an unused name; a duplicate name is
    /// reported, not overwritten.
    pub fn register_counter(&mut self, m: Metric) -> (r: Result<(), RegistryError>)
        requires
            old(self).wf(),
            m.wf(),
            m.kind is Counter,
        ensures
            final(self).wf(),
            final(self).addr == old(self).addr,
            final(self).port == old(self).port,
            final(self).statics == old(self).statics,
            final(self).started == old(self).started,
            match r {
                Ok(()) => {
                    &&& !is_static_name_spec(m@.name)
                    &&& find_by_name(old(self).dynamics@, m@.name) == old(self).dynamics@.len()
                    &&& final(self).dynamics@ == old(self).dynamics@.push(m)
                },
                Err(e) => {
                    &&& e is DuplicateMetricName
                    &&& *final(self) == *old(self)
                    &&& (is_static_name_spec(m@.name) || find_by_name(old(self).dynamics@, m@.name)
                        < old(self).dynamics@.len())
                },
            },
    {
        self.register(m)
    }

    /// Inserts a gauge under an unused name; a duplicate name is
    /// reported, not overwritten.
    pub fn register_gauge(&mut self, m: Metric) -> (r: Result<(), RegistryError>)
        requires
            old(self).wf(),
            m.wf(),
            m.kind is Gauge,
        ensures
            final(self).wf(),
            final(self).addr == old(self).addr,
            final(self).port == old(self).port,
            final(self).statics == old(self).statics,
            final(self).started == old(self).started,
            match r {
                Ok(()) => {
                    &&& !is_static_name_spec(m@.name)
                    &&& find_by_name(old(self).dynamics@, m@.name) == old(self).dynamics@.len()
                    &&& final(self).dynamics@ == old(self).dynamics@.push(m)
                },
                Err(e) => {
                    &&& e is DuplicateMetricName
                    &&& *final(self) == *old(self)
                    &&& (is_static_name_spec(m@.name) || find_by_name(old(self).dynamics@, m@.name)
                        < old(self).dynamics@.len())
                },
            },
    {
        self.register(m)
    }

    /// Inserts a fresh metric of either kind under an unused name; a
    /// duplicate name is reported, not overwritten.
    pub fn register(&mut self, m: Metric) -> (r: Result<(), RegistryError>)
        requires
            old(self).wf(),
            m.wf(),
        ensures
            final(self).wf(),
            final(self).addr == old(self).addr,
            final(self).port == old(self).port,
            final(self).statics == old(self).statics,
            final(self).started == old(self).started,
            match r {
                Ok(()) => {
                    &&& !is_static_name_spec(m@.name)
                    &&& find_by_name(old(self).dynamics@, m@.name) == old(self).dynamics@.len()
                    &&& final(self).dynamics@ == old(self).dynamics@.push(m)
                },
                Err(e) => {
                    &&& e is DuplicateMetricName
                    &&& *final(self) == *old(self)
                    &&& (is_static_name_spec(m@.name) || find_by_name(old(self).dynamics@, m@.name)
                        < old(self).dynamics@.len())
                },
            },
    {
        if is_static_name(m.name.as_str()) {
            return Err(RegistryError::DuplicateMetricName);
        }
        let d = self.find_dynamic(m.name.as_str());
        proof {
            lemma_find_by_name(self.dynamics@, m@.name);
        }
        if d < self.dynamics.len() {
            return Err(RegistryError::DuplicateMetricName);
        }
        let ghost olddyn = self.dynamics@;
        self.dynamics.push(m);
        proof {
            assert forall|i: int, j: int|
                0 <= i < j < self.dynamics@.len() implies self.dynamics@[i]@.name
                != self.dynamics@[j]@.name by {
                if j < olddyn.len() {
                    assert(self.dynamics@[i] == olddyn[i]);
                    assert(self.dynamics@[j] == olddyn[j]);
                } else {
                    assert(self.dynamics@[i] == olddyn[i]);
                    assert(self.dynamics@[j] == m);
                }
            }
        }
        Ok(())
    }
    /// Returns the index of the dynamic counter named `name`, creating
    /// and registering a fresh one (help text is the name) when none
    /// exists; only a name already held by a static metric or a dynamic
    /// gauge is refused. A repeated call returns the same metric and
    /// changes nothing.
    pub fn get_or_create_counter(&mut self, name: &str) -> (r: Result<usize, RegistryError>)
        requires
            old(self).wf(),
        ensures
            final(self).wf(),
            final(self).addr == old(self).addr,
            final(self).port == old(self).port,
            final(self).statics == old(self).statics,
            final(self).started == old(self).started,
            ({
                let d = find_by_name(old(self).dynamics@, name@);
                match r {
                    Ok(i) => {
                        &&& i == d
                        &&& final(self).dynamics@[d]@.name == name@
                        &&& final(self).dynamics@[d]@.kind is Counter
                        &&& if d < old(self).dynamics@.len() {
                            &&& old(self).dynamics@[d]@.kind is Counter
                            &&& final(self).dynamics@ == old(self).dynamics@
                        } else {
                            &&& !is_static_name_spec(name@)
                            &&& final(self).dynamics@.len() == d + 1
                            &&& (forall|k: int|
                                0 <= k < d ==> final(self).dynamics@[k] == old(self).dynamics@[k])
                            &&& final(self).dynamics@[d]@.help == name@
                            &&& final(self).dynamics@[d]@.value == 0
                        }
                    },
                    Err(e) => {
                        &&& e is DuplicateMetricName
                        &&& *final(self) == *old(self)
                        &&& (is_static_name_spec(name@) || (d < old(self).dynamics@.len() && !(
                        old(self).dynamics@[d]@.kind is Counter)))
                    },
                }
            }),
    {
        let d = self.find_dynamic(name);
        proof {
            lemma_find_by_name(self.dynamics@, name@);
        }
        if d < self.dynamics.len() {
            if self.dynamics[d].kind == MetricKind::Counter {
                Ok(d)
            } else {
                Err(RegistryError::DuplicateMetricName)
            }
        } else {
            let m = Metric::new_counter(String::from_str(name), String::from_str(name));
            match self.register(m) {
                Ok(()) => Ok(d),
                Err(e) => Err(e),
            }
        }
    }

    /// Returns the index of the dynamic gauge named `name`, creating and
    /// registering a fresh one (help text is the name) when none exists;
    /// only a name already held by a static metric or a dynamic counter
    /// is refused. A repeated call returns the same metric and changes
    /// nothing.
    pub fn get_or_create_gauge(&mut self, name: &str) -> (r: Result<usize, RegistryError>)
        requires
            old(self).wf(),
        ensures
            final(self).wf(),
            final(self).addr == old(self).addr,
            final(self).port == old(self).port,
            final(self).statics == old(self).statics,
            final(self).started == old(self).started,
            ({
                let d = find_by_name(old(self).dynamics@, name@);
                match r {
                    Ok(i) => {
                        &&& i == d
                        &&& final(self).dynamics@[d]@.name == name@
                        &&& final(self).dynamics@[d]@.kind is Gauge
                        &&& if d < old(self).dynamics@.len() {
                            &&& old(self).dynamics@[d]@.kind is Gauge
                            &&& final(self).dynamics@ == old(self).dynamics@
                        } else {
                            &&& !is_static_name_spec(name@)
                            &&& final(self).dynamics@.len() == d + 1
                            &&& (forall|k: int|
                                0 <= k < d ==> final(self).dynamics@[k] == old(self).dynamics@[k])
                            &&& final(self).dynamics@[d]@.help == name@
                            &&& final(self).dynamics@[d]@.value == 0
                        }
                    },
                    Err(e) => {
                        &&& e is DuplicateMetricName
                        &&& *final(self) == *old(self)
                        &&& (is_static_name_spec(name@) || (d < old(self).dynamics@.len() && !(
                        old(self).dynamics@[d]@.kind is Gauge)))
                    },
                }
            }),
    {
        let d = self.find_dynamic(name);
        proof {
            lemma_find_by_name(self.dynamics@, name@);
        }
        if d < self.dynamics.len() {
            if self.dynamics[d].kind == MetricKind::Gauge {
                Ok(d)
            } else {
                Err(RegistryError::DuplicateMetricName)
            }
        } else {
            let m = Metric::new_gauge(String::from_str(name), String::from_str(name));
            match self.register(m) {
                Ok(()) => Ok(d),
                Err(e) => Err(e),
            }
        }
    }

    /// Resolves the counter `name` by get-or-create, adds the validated
    /// non-negative delta, and returns the resulting value.
    pub fn counter_increment_by(&mut self, name: &str, delta: Value) -> (r: Result<
        Value,
        RegistryError,
    >)
        requires
            old(self).wf(),
            delta@ >= 0,
        ensures
            final(self).wf(),
            final(self).addr == old(self).addr,
            final(self).port == old(self).port,
            final(self).statics == old(self).statics,
            final(self).started == old(self).started,
            ({
                let goal = sat64(stored_value(old(self).dynamics@, name@) + delta@);
                match r {
                    Ok(v) => {
                        &&& store_update_effect(
                            old(self).dynamics@,
                            final(self).dynamics@,
                            name@,
                            MetricKind::Counter,
                            goal,
                        )
                        &&& v@ == goal
                    },
                    Err(e) => {
                        &&& e is DuplicateMetricName
                        &&& *final(self) == *old(self)
                        &&& name_taken(old(self).dynamics@, name@, MetricKind::Counter)
                    },
                }
            }),
    {
        match self.get_or_create_counter(name) {
            Err(e) => Err(e),
            Ok(d) => {
                let ghost mid = self.dynamics@;
                let mut m = self.dynamics[d].duplicate();
                let v = m.counter_increment_by(delta);
                self.dynamics.set(d, m);
                proof {
                    lemma_dyn_update_wf(mid, d as int, m);
                }
                Ok(v)
            },
        }
    }

    /// Resolves the gauge `name` by get-or-create, replaces its value,
    /// and returns the resulting value.
    pub fn gauge_set(&mut self, name: &str, value: Value) -> (r: Result<Value, RegistryError>)
        requires
            old(self).wf(),
        ensures
            final(self).wf(),
            final(self).addr == old(self).addr,
            final(self).port == old(self).port,
            final(self).statics == old(self).statics,
            final(self).started == old(self).started,
            ({
                match r {
                    Ok(v) => {
                        &&& store_update_effect(
                            old(self).dynamics@,
                            final(self).dynamics@,
                            name@,
                            MetricKind::Gauge,
                            value@,
                        )
                        &&& v@ == value@
                    },
                    Err(e) => {
                        &&& e is DuplicateMetricName
                        &&& *final(self) == *old(self)
                        &&& name_taken(old(self).dynamics@, name@, MetricKind::Gauge)
                    },
                }
            }),
    {
        match self.get_or_create_gauge(name) {
            Err(e) => Err(e),
            Ok(d) => {
                let ghost mid = self.dynamics@;
                let mut m = self.dynamics[d].duplicate();
                let v = m.gauge_set(value);
                self.dynamics.set(d, m);
                proof {
                    lemma_dyn_update_wf(mid, d as int, m);
                }
                Ok(v)
            },
        }
    }

    /// Resolves the gauge `name` by get-or-create, adds the delta (either
    /// sign), and returns the resulting value.
    pub fn gauge_increment_by(&mut self, name: &str, delta: Value) -> (r: Result<
        Value,
        RegistryError,
    >)
        requires
            old(self).wf(),
        ensures
            final(self).wf(),
            final(self).addr == old(self).addr,
            final(self).port == old(self).port,
            final(self).statics == old(self).statics,
            final(self).started == old(self).started,
            ({
                let goal = sat64(stored_value(old(self).dynamics@, name@) + delta@);
                match r {
                    Ok(v) => {
                        &&& store_update_effect(
                            old(self).dynamics@,
                            final(self).dynamics@,
                            name@,
                            MetricKind::Gauge,
                            goal,
                        )
                        &&& v@ == goal
                    },
                    Err(e) => {
                        &&& e is DuplicateMetricName
                        &&& *final(self) == *old(self)
                        &&& name_taken(old(self).dynamics@, name@, MetricKind::Gauge)
                    },
                }
            }),
    {
        match self.get_or_create_gauge(name) {
            Err(e) => Err(e),
            Ok(d) => {
                let ghost mid = self.dynamics@;
                let mut m = self.dynamics[d].duplicate();
                let v = m.gauge_increment_by(delta);
                self.dynamics.set(d, m);
                proof {
                    lemma_dyn_update_wf(mid, d as int, m);
                }
                Ok(v)
            },
        }
    }

    /// Resolves the gauge `name` by get-or-create, subtracts the delta
    /// (either sign), and returns the resulting value.
    pub fn gauge_decrement_by(&mut self, name: &str, delta: Value) -> (r: Result<
        Value,
        RegistryError,
    >)
        requires
            old(self).wf(),
        ensures
            final(self).wf(),
            final(self).addr == old(self).addr,
            final(self).port == old(self).port,
            final(self).statics == old(self).statics,
            final(self).started == old(self).started,
            ({
                let goal = sat64(stored_value(old(self).dynamics@, name@) - delta@);
                match r {
                    Ok(v) => {
                        &&& store_update_effect(
                            old(self).dynamics@,
                            final(self).dynamics@,
                            name@,
                            MetricKind::Gauge,
                            goal,
                        )
                        &&& v@ == goal
                    },
                    Err(e) => {
                        &&& e is DuplicateMetricName
                        &&& *final(self) == *old(self)
                        &&& name_taken(old(self).dynamics@, name@, MetricKind::Gauge)
                    },
                }
            }),
    {
        match self.get_or_create_gauge(name) {
            Err(e) => Err(e),
            Ok(d) => {
                let ghost mid = self.dynamics@;
                let mut m = self.dynamics[d].duplicate();
                let v = m.gauge_decrement_by(delta);
                self.dynamics.set(d, m);
                proof {
                    lemma_dyn_update_wf(mid, d as int, m);
                }
                Ok(v)
            },
        }
    }

    /// Removes every dynamic metric (used at unload; the statics stay).
    pub fn clear(&mut self)
        requires
            old(self).wf(),
        ensures
            final(self).wf(),
            final(self).addr == old(self).addr,
            final(self).port == old(self).port,
            final(self).statics == old(self).statics,
            final(self).started == old(self).started,
            final(self).dynamics@.len() == 0,
    {
        self.dynamics.clear();
    }
}

/// Replacing one metric with one of the same name keeps a store's names
/// unique and its metrics well formed.
pub proof fn lemma_dyn_update_wf(s: Seq<Metric>, d: int, m: Metric)
    requires
        forall|i: int, j: int| 0 <= i < j < s.len() ==> s[i]@.name != s[j]@.name,
        forall|i: int| 0 <= i < s.len() ==> !is_static_name_spec(#[trigger] s[i]@.name),
        forall|i: int| 0 <= i < s.len() ==> (#[trigger] s[i]).wf(),
        0 <= d < s.len(),
        m@.name == s[d]@.name,
        m.wf(),
    ensures
        forall|i: int, j: int|
            0 <= i < j < s.update(d, m).len() ==> s.update(d, m)[i]@.name != s.update(
                d,
                m,
            )[j]@.name,
        forall|i: int|
            0 <= i < s.update(d, m).len() ==> !is_static_name_spec(
                #[trigger] s.update(d, m)[i]@.name,
            ),
        forall|i: int| 0 <= i < s.update(d, m).len() ==> (#[trigger] s.update(d, m)[i]).wf(),
{
    assert forall|i: int, j: int|
        0 <= i < j < s.update(d, m).len() implies s.update(d, m)[i]@.name != s.update(
        d,
        m,
    )[j]@.name by {
        assert(s.update(d, m)[i]@.name == s[i]@.name);
        assert(s.update(d, m)[j]@.name == s[j]@.name);
    }
    assert forall|i: int|
        0 <= i < s.update(d, m).len() implies !is_static_name_spec(
        #[trigger] s.update(d, m)[i]@.name,
    ) by {
        assert(s.update(d, m)[i]@.name == s[i]@.name);
    }
}

/// `find_by_name` returns `d` when the first match is at `d` (or, with
/// `d == s.len()`, there is no match).
pub proof fn lemma_find_by_name_at(s: Seq<Metric>, name: Seq<char>, d: int)
    requires
        0 <= d <= s.len(),
        d < s.len() ==> s[d]@.name == name,
        forall|i: int| 0 <= i < d ==> s[i]@.name != name,
    ensures
        find_by_name(s, name) == d,
    decreases s.len(),
{
    if s.len() == 0 {
    } else if s[0]@.name == name {
    } else {
        assert(d > 0);
        assert forall|i: int| 0 <= i < d - 1 implies s.skip(1)[i]@.name != name by {
            assert(s.skip(1)[i] == s[i + 1]);
        }
        lemma_find_by_name_at(s.skip(1), name, d - 1);
    }
}

} // verus!
