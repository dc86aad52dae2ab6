//! Named counters and the process-wide metrics set.

use vstd::prelude::*;
use vstd::string::*;

use crate::text::{spec_digits, u32_string};

verus! {

/// A named counter holding a non-negative value.
///
/// Decrementing below zero would be an invariant violation (a double release
/// of an admission slot), so `decrement` demands a positive value; the
/// pipeline proves that it never decrements a counter that is at zero.
#[derive(Debug)]
pub struct Counter {
    pub name: String,
    pub value: u32,
}

impl Counter {
    pub fn new(name: String) -> (c: Counter)
        ensures
            c.name == name,
            c.value == 0,
    {
        Counter { name, value: 0 }
    }

    pub fn increment(&mut self) -> (v: u32)
        requires
            old(self).value < u32::MAX,
        ensures
            *final(self) == old(self).incremented(),
            final(self).name == old(self).name,
            final(self).value == old(self).value + 1,
            v == final(self).value,
    {
        self.value += 1;
        self.value
    }

    /// The counter after one increment.
    pub open spec fn incremented(self) -> Counter {
        Counter { name: self.name, value: (self.value + 1) as u32 }
    }

    /// The counter after one decrement.
    pub open spec fn decremented(self) -> Counter {
        Counter { name: self.name, value: (self.value - 1) as u32 }
    }

    pub fn decrement(&mut self) -> (v: u32)
        requires
            old(self).value >= 1,
        ensures
            *final(self) == old(self).decremented(),
            final(self).name == old(self).name,
            final(self).value == old(self).value - 1,
            v == final(self).value,
    {
        self.value -= 1;
        self.value
    }
}

/// The exchange rendering of one counter: an object holding its name and
/// its current value.
pub open spec fn spec_counter_json(c: Counter) -> Seq<char> {
    "{\"name\":\""@ + c.name@ + "\",\"value\":"@ + spec_digits(c.value as nat) + "}"@
}

fn counter_json(c: &Counter) -> (s: String)
    ensures
        s@ == spec_counter_json(*c),
{
    let mut s = "{\"name\":\"".to_owned();
    s.append(c.name.as_str());
    s.append("\",\"value\":");
    let v = u32_string(c.value);
    s.append(v.as_str());
    s.append("}");
    proof {
        assert(s@ =~= spec_counter_json(*c));
    }
    s
}

/// The six counters shared by every request handler.
#[derive(Debug)]
pub struct Metrics {
    pub requests: Counter,
    pub delays: Counter,
    pub errors: Counter,
    pub timeouts: Counter,
    pub concurrent_requests: Counter,
    pub shed_requests: Counter,
}

impl Metrics {
    /// Every counter is strictly below its ceiling, so one more request can
    /// be accounted without overflow.
    pub open spec fn can_count(self) -> bool {
        &&& self.requests.value < u32::MAX
        &&& self.delays.value < u32::MAX
        &&& self.errors.value < u32::MAX
        &&& self.timeouts.value < u32::MAX
        &&& self.concurrent_requests.value < u32::MAX
        &&& self.shed_requests.value < u32::MAX
    }

    /// The metrics set with `requests` replaced.
    pub open spec fn with_requests(self, c: Counter) -> Metrics {
        Metrics {
            requests: c,
            delays: self.delays,
            errors: self.errors,
            timeouts: self.timeouts,
            concurrent_requests: self.concurrent_requests,
            shed_requests: self.shed_requests,
        }
    }

    /// The metrics set with `delays` replaced.
    pub open spec fn with_delays(self, c: Counter) -> Metrics {
        Metrics {
            requests: self.requests,
            delays: c,
            errors: self.errors,
            timeouts: self.timeouts,
            concurrent_requests: self.concurrent_requests,
            shed_requests: self.shed_requests,
        }
    }

    /// The metrics set with `errors` replaced.
    pub open spec fn with_errors(self, c: Counter) -> Metrics {
        Metrics {
            requests: self.requests,
            delays: self.delays,
            errors: c,
            timeouts: self.timeouts,
            concurrent_requests: self.concurrent_requests,
            shed_requests: self.shed_requests,
        }
    }

    /// The metrics set with `timeouts` replaced.
    pub open spec fn with_timeouts(self, c: Counter) -> Metrics {
        Metrics {
            requests: self.requests,
            delays: self.delays,
            errors: self.errors,
            timeouts: c,
            concurrent_requests: self.concurrent_requests,
            shed_requests: self.shed_requests,
        }
    }

    /// The metrics set with `concurrent_requests` replaced.
    pub open spec fn with_concurrent_requests(self, c: Counter) -> Metrics {
        Metrics {
            requests: self.requests,
            delays: self.delays,
            errors: self.errors,
            timeouts: self.timeouts,
            concurrent_requests: c,
            shed_requests: self.shed_requests,
        }
    }

    /// The metrics set with `shed_requests` replaced.
    pub open spec fn with_shed_requests(self, c: Counter) -> Metrics {
        Metrics {
            requests: self.requests,
            delays: self.delays,
            errors: self.errors,
            timeouts: self.timeouts,
            concurrent_requests: self.concurrent_requests,
            shed_requests: c,
        }
    }

    pub fn new() -> (m: Metrics)
        ensures
            m.requests.value == 0,
            m.delays.value == 0,
            m.errors.value == 0,
            m.timeouts.value == 0,
            m.concurrent_requests.value == 0,
            m.shed_requests.value == 0,
            m.requests.name@ == "Requests"@,
            m.delays.name@ == "Delays"@,
            m.errors.name@ == "Errors"@,
            m.timeouts.name@ == "Timeouts"@,
            m.concurrent_requests.name@ == "ConcurrentRequests"@,
            m.shed_requests.name@ == "ShedRequests"@,
    {
        Metrics {
            requests: Counter::new("Requests".to_owned()),
            delays: Counter::new("Delays".to_owned()),
            errors: Counter::new("Errors".to_owned()),
            timeouts: Counter::new("Timeouts".to_owned()),
            concurrent_requests: Counter::new("ConcurrentRequests".to_owned()),
            shed_requests: Counter::new("ShedRequests".to_owned()),
        }
    }

    /// Serialises the snapshot into the machine-readable exchange format:
    /// one object per counter, keyed by counter field name. Counter names
    /// are emitted verbatim. Reading a snapshot never changes it.
    pub fn to_json(&mut self) -> (s: String)
        ensures
            *final(self) == *old(self),
            s@ == spec_metrics_json(*old(self)),
    {
        let mut s = "{\"requests\":".to_owned();
        s.append(counter_json(&self.requests).as_str());
        s.append(",\"delays\":");
        s.append(counter_json(&self.delays).as_str());
        s.append(",\"errors\":");
        s.append(counter_json(&self.errors).as_str());
        s.append(",\"timeouts\":");
        s.append(counter_json(&self.timeouts).as_str());
        s.append(",\"concurrent_requests\":");
        s.append(counter_json(&self.concurrent_requests).as_str());
        s.append(",\"shed_requests\":");
        s.append(counter_json(&self.shed_requests).as_str());
        s.append("}");
        proof {
            assert(s@ =~= spec_metrics_json(*self));
        }
        s
    }

    /// The human-readable multi-line rendering used for the end-of-run
    /// summary.
    pub fn render(&self) -> (s: String)
        ensures
            s@ == spec_metrics_render(*self),
    {
        let mut s = "Request Count: ".to_owned();
        s.append(u32_string(self.requests.value).as_str());
        s.append(".\nDelayed Requests: ");
        s.append(u32_string(self.delays.value).as_str());
        s.append(".\nErrored Requests: ");
        s.append(u32_string(self.errors.value).as_str());
        s.append(".\nTimedout Requets: ");
        s.append(u32_string(self.timeouts.value).as_str());
        s.append(".\n");
        proof {
            assert(s@ =~= spec_metrics_render(*self));
        }
        s
    }
}

/// The exchange rendering of the whole snapshot.
pub open spec fn spec_metrics_json(m: Metrics) -> Seq<char> {
    "{\"requests\":"@ + spec_counter_json(m.requests) + ",\"delays\":"@ + spec_counter_json(
        m.delays,
    ) + ",\"errors\":"@ + spec_counter_json(m.errors) + ",\"timeouts\":"@ + spec_counter_json(
        m.timeouts,
    ) + ",\"concurrent_requests\":"@ + spec_counter_json(m.concurrent_requests)
        + ",\"shed_requests\":"@ + spec_counter_json(m.shed_requests) + "}"@
}

/// The human-readable rendering of the whole snapshot.
pub open spec fn spec_metrics_render(m: Metrics) -> Seq<char> {
    "Request Count: "@ + spec_digits(m.requests.value as nat) + ".\nDelayed Requests: "@
        + spec_digits(m.delays.value as nat) + ".\nErrored Requests: "@ + spec_digits(
        m.errors.value as nat,
    ) + ".\nTimedout Requets: "@ + spec_digits(m.timeouts.value as nat) + ".\n"@
}

} // verus!
