//! The process-wide configuration: an ordered list of fault scenarios plus
//! the addresses and limits the pipeline works against. Read-only after
//! startup.

use vstd::prelude::*;

use crate::matcher::regex_is_valid;

verus! {

/// Denominator of the fixed-point probability held by `Scenario::frequency`:
/// a frequency of `FREQUENCY_SCALE` means "always", `0` means "never".
pub const FREQUENCY_SCALE: u64 = 1_000_000;

/// The kind of fault a scenario injects.
#[derive(Clone, Copy, Debug, PartialEq, Eq, Structural)]
pub enum FailureType {
    Error,
    Delay,
    Timeout,
}

/// One configured fault rule, immutable after load.
///
/// `path` is a regular expression tested against request paths. `frequency`
/// is the probability of the fault triggering, held in fixed point as parts
/// per `FREQUENCY_SCALE`; the loader maps a configured fraction in [0.0, 1.0]
/// onto [0, FREQUENCY_SCALE]. `delay` is in milliseconds.
#[derive(Clone, Debug)]
pub struct Scenario {
    pub path: String,
    pub failure_type: FailureType,
    pub frequency: u64,
    pub delay: u64,
}

impl Scenario {
    /// The scenario is usable: its probability is within [0, 1] and its
    /// pattern compiles as a regular expression.
    pub open spec fn wf(self) -> bool {
        &&& self.frequency <= FREQUENCY_SCALE
        &&& regex_is_valid(self.path@)
    }
}

/// The whole configuration. Scenarios are evaluated in order; the first
/// pattern match wins.
#[derive(Clone, Debug)]
pub struct Configuration {
    pub scenarios: Vec<Scenario>,
    pub listener_address: String,
    pub proxy_address: String,
    pub metrics_path: String,
    pub max_concurrent_requests: u32,
}

impl Configuration {
    pub open spec fn wf(self) -> bool {
        forall|i: int| 0 <= i < self.scenarios@.len() ==> (#[trigger] self.scenarios@[i]).wf()
    }

    /// Checks the configuration the pipeline's contracts assume: every
    /// scenario's frequency is in range and every pattern compiles. A
    /// configuration that fails this check is a startup-fatal error and must
    /// not be served.
    pub fn validate(&self) -> (r: bool)
        ensures
            r == self.wf(),
    {
        let mut i: usize = 0;
        while i < self.scenarios.len()
            invariant
                i <= self.scenarios@.len(),
                forall|j: int| 0 <= j < i ==> (#[trigger] self.scenarios@[j]).wf(),
            decreases self.scenarios@.len() - i,
        {
            let s = &self.scenarios[i];
            if s.frequency > FREQUENCY_SCALE {
                return false;
            }
            if !crate::matcher::pattern_is_valid(s.path.as_str()) {
                return false;
            }
            i += 1;
        }
        true
    }
}

} // verus!
