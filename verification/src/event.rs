//! Host events as the aggregator consumes them: a kind, an optional
//! custom subclass, key/value headers, and an optional body.

use vstd::prelude::*;
use crate::text::str_eq;

verus! {

/// The event kinds the aggregator reacts to.
#[derive(Clone, Copy, PartialEq, Eq, Structural, Debug)]
pub enum EventKind {
    Heartbeat,
    ChannelCreate,
    ChannelAnswer,
    ChannelHangup,
    ChannelDestroy,
    Custom,
}

/// A delivered event notification.
pub struct Event {
    pub kind: EventKind,
    pub subclass: Option<String>,
    pub headers: Vec<(String, String)>,
    pub body: Option<String>,
}

/// The value of the first header named `name`, if any.
pub open spec fn header_val(headers: Seq<(String, String)>, name: Seq<char>) -> Option<Seq<char>>
    decreases headers.len(),
{
    if headers.len() == 0 {
        None
    } else if headers[0].0@ == name {
        Some(headers[0].1@)
    } else {
        header_val(headers.skip(1), name)
    }
}

impl Event {
    /// The subclass as a character sequence, if any.
    pub open spec fn spec_subclass(self) -> Option<Seq<char>> {
        match self.subclass {
            Some(s) => Some(s@),
            None => None,
        }
    }

    /// The value of the first header named `name`, if any.
    pub open spec fn spec_header(self, name: Seq<char>) -> Option<Seq<char>> {
        header_val(self.headers@, name)
    }

    /// An event without subclass, headers, or body.
    pub fn new(kind: EventKind) -> (r: Event)
        ensures
            r.kind == kind,
            r.subclass is None,
            r.headers@.len() == 0,
            r.body is None,
    {
        Event { kind, subclass: None, headers: Vec::new(), body: None }
    }

    /// A custom event with the given subclass.
    pub fn new_custom(subclass: String) -> (r: Event)
        ensures
            r.kind is Custom,
            r.spec_subclass() == Some(subclass@),
            r.headers@.len() == 0,
            r.body is None,
    {
        Event { kind: EventKind::Custom, subclass: Some(subclass), headers: Vec::new(), body: None }
    }

    /// Appends a header.
    pub fn add_header(&mut self, name: String, value: String)
        ensures
            final(self).kind == old(self).kind,
            final(self).subclass == old(self).subclass,
            final(self).body == old(self).body,
            final(self).headers@ == old(self).headers@.push((name, value)),
    {
        self.headers.push((name, value));
    }

    /// Looks the first header named `name` up.
    pub fn header<'a>(&'a self, name: &str) -> (r: Option<&'a String>)
        ensures
            match r {
                Some(v) => self.spec_header(name@) == Some(v@),
                None => self.spec_header(name@) is None,
            },
    {
        let n = self.headers.len();
        proof {
            assert(self.headers@.skip(0) =~= self.headers@);
        }
        let mut i: usize = 0;
        while i < n
            invariant
                i <= n,
                n == self.headers@.len(),
                header_val(self.headers@, name@) == header_val(
                    self.headers@.skip(i as int),
                    name@,
                ),
            decreases n - i,
        {
            proof {
                assert(self.headers@.skip(i as int)[0] == self.headers@[i as int]);
                assert(self.headers@.skip(i as int).skip(1) =~= self.headers@.skip(i + 1));
            }
            let pair = &self.headers[i];
            if str_eq(pair.0.as_str(), name) {
                return Some(&pair.1);
            }
            i = i + 1;
        }
        proof {
            assert(self.headers@.skip(n as int).len() == 0);
        }
        None
    }
}

} // verus!
