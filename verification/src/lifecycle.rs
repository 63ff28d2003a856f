//! The module lifecycle: one context object created at load and torn down
//! at unload, with the subscription ledger that guarantees every handler
//! installed at load is removed exactly once at unload.

use vstd::prelude::*;
use crate::event::Event;
use crate::event::EventKind;
use crate::registry::Registry;
use crate::catalog::init_stat;
use crate::aggregator::step;

verus! {

/// One event subscription to install: an event kind and, for custom
/// events, the subclass to bind.
pub struct Subscription {
    pub kind: EventKind,
    pub subclass: Option<String>,
}

impl Subscription {
    /// The subclass as a character sequence, if any.
    pub open spec fn spec_subclass(self) -> Option<Seq<char>> {
        match self.subclass {
            Some(s) => Some(s@),
            None => None,
        }
    }
}

/// The ten subscriptions the aggregator needs, in installation order.
pub open spec fn plan_matches(s: Seq<Subscription>) -> bool {
    &&& s.len() == 10
    &&& s[0].kind is Heartbeat && s[0].spec_subclass() is None
    &&& s[1].kind is ChannelCreate && s[1].spec_subclass() is None
    &&& s[2].kind is ChannelAnswer && s[2].spec_subclass() is None
    &&& s[3].kind is ChannelHangup && s[3].spec_subclass() is None
    &&& s[4].kind is ChannelDestroy && s[4].spec_subclass() is None
    &&& s[5].kind is Custom && s[5].spec_subclass() == Some("sofia::register_attempt"@)
    &&& s[6].kind is Custom && s[6].spec_subclass() == Some("sofia::register_failure"@)
    &&& s[7].kind is Custom && s[7].spec_subclass() == Some("sofia::register"@)
    &&& s[8].kind is Custom && s[8].spec_subclass() == Some("sofia::unregister"@)
    &&& s[9].kind is Custom && s[9].spec_subclass() == Some("sofia::expire"@)
}

/// The module context: the registry, the subscription ledger, and whether
/// the module is loaded. Event deliveries only have an effect while the
/// module is loaded.
pub struct Module {
    /// Whether the module is loaded (handlers installed, registry live).
    pub loaded: bool,
    /// The metric registry.
    pub registry: Registry,
    /// Handles of the installed event subscriptions.
    pub ledger: Vec<u64>,
}

impl Module {
    /// The registry is well formed.
    pub open spec fn wf(self) -> bool {
        self.registry.wf()
    }

    /// Loads the module: a fresh registry with only the static metrics,
    /// the exposition listener started, and an empty ledger. The caller
    /// installs the subscriptions of `subscription_plan` and records each
    /// returned handle.
    pub fn load(addr: String, port: u16) -> (m: Module)
        ensures
            m.wf(),
            m.loaded,
            m.registry.addr@ == addr@,
            m.registry.port == port,
            m.registry.statics@ == init_stat(),
            m.registry.dynamics@.len() == 0,
            m.registry.started,
            m.ledger@ == Seq::<u64>::empty(),
    {
        let mut registry = Registry::new(addr, port);
        let started = registry.start();
        proof {
            assert(started is Ok);
        }
        Module { loaded: true, registry, ledger: Vec::new() }
    }

    /// The subscriptions to install at load, in order.
    pub fn subscription_plan() -> (r: Vec<Subscription>)
        ensures
            plan_matches(r@),
    {
        let mut r: Vec<Subscription> = Vec::new();
        r.push(Subscription { kind: EventKind::Heartbeat, subclass: None });
        r.push(Subscription { kind: EventKind::ChannelCreate, subclass: None });
        r.push(Subscription { kind: EventKind::ChannelAnswer, subclass: None });
        r.push(Subscription { kind: EventKind::ChannelHangup, subclass: None });
        r.push(Subscription { kind: EventKind::ChannelDestroy, subclass: None });
        r.push(
            Subscription {
                kind: EventKind::Custom,
                subclass: Some(String::from_str("sofia::register_attempt")),
            },
        );
        r.push(
            Subscription {
                kind: EventKind::Custom,
                subclass: Some(String::from_str("sofia::register_failure")),
            },
        );
        r.push(
            Subscription {
                kind: EventKind::Custom,
                subclass: Some(String::from_str("sofia::register")),
            },
        );
        r.push(
            Subscription {
                kind: EventKind::Custom,
                subclass: Some(String::from_str("sofia::unregister")),
            },
        );
        r.push(
            Subscription {
                kind: EventKind::Custom,
                subclass: Some(String::from_str("sofia::expire")),
            },
        );
        r
    }

    /// Records the handle the event source returned for one installed
    /// subscription; it is appended to the ledger exactly once.
    pub fn record_subscription(&mut self, handle: u64)
        requires
            old(self).wf(),
        ensures
            final(self).wf(),
            final(self).loaded == old(self).loaded,
            final(self).registry == old(self).registry,
            final(self).ledger@ == old(self).ledger@.push(handle),
    {
        self.ledger.push(handle);
    }

    /// Delivers one event. While the module is loaded the static catalog
    /// takes exactly one `step`; after unload nothing changes, since no
    /// handler is installed any more.
    pub fn deliver_event(&mut self, e: &Event)
        requires
            old(self).wf(),
        ensures
            final(self).wf(),
            final(self).loaded == old(self).loaded,
            final(self).ledger == old(self).ledger,
            final(self).registry.addr == old(self).registry.addr,
            final(self).registry.port == old(self).registry.port,
            final(self).registry.dynamics == old(self).registry.dynamics,
            final(self).registry.started == old(self).registry.started,
            old(self).loaded ==> final(self).registry.statics@ == step(
                old(self).registry.statics@,
                *e,
            ),
            !old(self).loaded ==> *final(self) == *old(self),
    {
        if self.loaded {
            crate::aggregator::apply_event(&mut self.registry.statics, e);
        }
    }

    /// Unloads the module: clears the dynamic store, drains the ledger
    /// (the caller unsubscribes every returned handle), and stops the
    /// exposition listener.
    pub fn unload(&mut self) -> (handles: Vec<u64>)
        requires
            old(self).wf(),
        ensures
            final(self).wf(),
            !final(self).loaded,
            handles@ == old(self).ledger@,
            final(self).ledger@.len() == 0,
            final(self).registry.addr == old(self).registry.addr,
            final(self).registry.port == old(self).registry.port,
            final(self).registry.statics == old(self).registry.statics,
            final(self).registry.dynamics@.len() == 0,
            !final(self).registry.started,
    {
        self.loaded = false;
        self.registry.clear();
        self.registry.stop();
        let n = self.ledger.len();
        let mut handles: Vec<u64> = Vec::new();
        let mut i: usize = 0;
        while i < n
            invariant
                i <= n,
                n == self.ledger@.len(),
                handles@ == self.ledger@.take(i as int),
            decreases n - i,
        {
            handles.push(self.ledger[i]);
            proof {
                assert(handles@ =~= self.ledger@.take(i + 1));
            }
            i = i + 1;
        }
        self.ledger.clear();
        proof {
            assert(handles@ =~= old(self).ledger@);
        }
        handles
    }
}

} // verus!
