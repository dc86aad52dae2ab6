//! The per-request decision pipeline: metrics short-circuit, admission
//! control, scenario matching and probabilistic fault injection. Each call
//! decides one inbound request and accounts for it; the caller executes the
//! decision (serve the body, wait out a delay, forward upstream) and, for a
//! forwarded request, releases the admission slot with `release` afterwards.

use vstd::prelude::*;
use vstd::string::*;

use crate::config::{Configuration, FailureType, Scenario, FREQUENCY_SCALE};
use crate::matcher::{match_scenario, spec_first_match};
use crate::metrics::{spec_metrics_json, Metrics};
use crate::text::{spec_digits, str_eq, u32_string};

verus! {

/// Milliseconds of injected latency.
pub type Delay = u64;

/// A response synthesised by the pipeline instead of, or before, an
/// upstream answer.
#[derive(Clone, Debug)]
pub struct SyntheticResponse {
    pub status: u16,
    pub body: String,
}

/// The abstract value of a synthetic response.
pub ghost struct ResponseModel {
    pub status: u16,
    pub body: Seq<char>,
}

impl View for SyntheticResponse {
    type V = ResponseModel;

    open spec fn view(&self) -> ResponseModel {
        ResponseModel { status: self.status, body: self.body@ }
    }
}

/// The result of evaluating one scenario: an optional synthetic response
/// and an optional delay. Four legal combinations: no effect, delay then
/// forward, respond without forwarding, delay then respond without
/// forwarding.
pub type Fault = (Option<SyntheticResponse>, Option<Delay>);

/// What the caller must do with one handled request.
pub enum Decision {
    /// Answer with the metrics snapshot; no counter was touched.
    ServeMetrics { response: SyntheticResponse },
    /// The request was shed: answer with the overloaded response.
    Shed { response: SyntheticResponse },
    /// Wait out the delay if any, then answer with the synthetic response;
    /// do not forward. The admission slot is already released.
    Respond { response: SyntheticResponse, delay: Option<Delay> },
    /// Wait out the delay if any, then forward upstream; afterwards call
    /// `release` exactly once, whether forwarding succeeded or failed.
    Forward { delay: Option<Delay> },
}

/// The abstract value of a decision.
pub ghost enum DecisionModel {
    ServeMetrics { status: u16, body: Seq<char> },
    Shed { status: u16, body: Seq<char> },
    Respond { status: u16, body: Seq<char>, delay: Option<Delay> },
    Forward { delay: Option<Delay> },
}

impl View for Decision {
    type V = DecisionModel;

    open spec fn view(&self) -> DecisionModel {
        match self {
            Decision::ServeMetrics { response } => DecisionModel::ServeMetrics {
                status: response.status,
                body: response.body@,
            },
            Decision::Shed { response } => DecisionModel::Shed {
                status: response.status,
                body: response.body@,
            },
            Decision::Respond { response, delay } => DecisionModel::Respond {
                status: response.status,
                body: response.body@,
                delay: *delay,
            },
            Decision::Forward { delay } => DecisionModel::Forward { delay: *delay },
        }
    }
}

/// Relies on rand::random: one value of the asked type from the
/// thread-local generator. Nothing is promised of the value; every caller
/// must cope with every outcome.
pub assume_specification<T>[ rand::random::<T> ]() -> (r: T)
    where
        rand::distributions::Standard: rand::distributions::Distribution<T>,
;

/// One sample from [0, FREQUENCY_SCALE), uniform up to the negligible bias
/// of the reduction.
fn draw_sample() -> (x: u64)
    ensures
        x < FREQUENCY_SCALE,
{
    let r: u64 = rand::random();
    r % FREQUENCY_SCALE
}

/// Body of the overloaded response: plain text naming the configured
/// ceiling.
pub open spec fn spec_overloaded_body(max: u32) -> Seq<char> {
    "The maximum number of concurrent requests("@ + spec_digits(max as nat)
        + ") has been exceeded."@
}

/// The 503-equivalent answer for a shed request.
pub fn load_overloaded(config: &Configuration) -> (r: SyntheticResponse)
    ensures
        r.status == 503,
        r.body@ == spec_overloaded_body(config.max_concurrent_requests),
{
    let mut body = "The maximum number of concurrent requests(".to_owned();
    body.append(u32_string(config.max_concurrent_requests).as_str());
    body.append(") has been exceeded.");
    proof {
        assert(body@ =~= spec_overloaded_body(config.max_concurrent_requests));
    }
    SyntheticResponse { status: 503, body }
}

/// The metrics snapshot as a response. Reading the snapshot mutates
/// nothing.
pub fn load_metrics(metrics: &mut Metrics) -> (r: SyntheticResponse)
    ensures
        *final(metrics) == *old(metrics),
        r.status == 200,
        r.body@ == spec_metrics_json(*old(metrics)),
{
    let body = metrics.to_json();
    SyntheticResponse { status: 200, body }
}

/// Whether the drawn sample makes a fault of the given frequency trigger:
/// a frequency of `FREQUENCY_SCALE` triggers on every sample, a frequency
/// of zero on none.
pub open spec fn spec_triggered(frequency: u64, sample: u64) -> bool {
    sample < frequency
}

/// Decides an Error fault from a drawn sample. When it triggers: counts it,
/// and answers a 500 response with empty body plus the scenario's delay.
/// When it does not: answers no effect and touches nothing.
pub fn determine_error_with(scenario: &Scenario, metrics: &mut Metrics, sample: u64) -> (f: Fault)
    requires
        old(metrics).errors.value < u32::MAX,
    ensures
        spec_triggered(scenario.frequency, sample) ==> ({
            &&& f.0 matches Some(r) && r.status == 500 && r.body@ == Seq::<char>::empty()
            &&& f.1 == Some(scenario.delay)
            &&& *final(metrics) == old(metrics).with_errors(old(metrics).errors.incremented())
        }),
        !spec_triggered(scenario.frequency, sample) ==> ({
            &&& f.0 is None
            &&& f.1 is None
            &&& *final(metrics) == *old(metrics)
        }),
{
    if sample < scenario.frequency {
        metrics.errors.increment();
        let body = "".to_owned();
        proof {
            reveal_strlit("");
            assert(body@ =~= Seq::<char>::empty());
        }
        (Some(SyntheticResponse { status: 500, body }), Some(scenario.delay))
    } else {
        (None, None)
    }
}

/// Decides a Timeout fault from a drawn sample. When it triggers: counts
/// it, and answers a 504 response with empty body plus the scenario's
/// delay. When it does not: answers no effect and touches nothing.
pub fn determine_timeout_with(scenario: &Scenario, metrics: &mut Metrics, sample: u64) -> (f:
    Fault)
    requires
        old(metrics).timeouts.value < u32::MAX,
    ensures
        spec_triggered(scenario.frequency, sample) ==> ({
            &&& f.0 matches Some(r) && r.status == 504 && r.body@ == Seq::<char>::empty()
            &&& f.1 == Some(scenario.delay)
            &&& *final(metrics) == old(metrics).with_timeouts(old(metrics).timeouts.incremented())
        }),
        !spec_triggered(scenario.frequency, sample) ==> ({
            &&& f.0 is None
            &&& f.1 is None
            &&& *final(metrics) == *old(metrics)
        }),
{
    if sample < scenario.frequency {
        metrics.timeouts.increment();
        let body = "".to_owned();
        proof {
            reveal_strlit("");
            assert(body@ =~= Seq::<char>::empty());
        }
        (Some(SyntheticResponse { status: 504, body }), Some(scenario.delay))
    } else {
        (None, None)
    }
}

/// Decides a Delay fault from a drawn sample. When it triggers: counts it,
/// and answers no synthetic response but the scenario's delay — the request
/// still forwards after the delay elapses. When it does not: answers no
/// effect and touches nothing.
pub fn determine_delay_with(scenario: &Scenario, metrics: &mut Metrics, sample: u64) -> (f: Fault)
    requires
        old(metrics).delays.value < u32::MAX,
    ensures
        spec_triggered(scenario.frequency, sample) ==> ({
            &&& f.0 is None
            &&& f.1 == Some(scenario.delay)
            &&& *final(metrics) == old(metrics).with_delays(old(metrics).delays.incremented())
        }),
        !spec_triggered(scenario.frequency, sample) ==> ({
            &&& f.0 is None
            &&& f.1 is None
            &&& *final(metrics) == *old(metrics)
        }),
{
    if sample < scenario.frequency {
        metrics.delays.increment();
        (None, Some(scenario.delay))
    } else {
        (None, None)
    }
}

/// Draws one independent sample and decides an Error fault with it. A
/// frequency of `FREQUENCY_SCALE` (that is, 1.0) triggers on every
/// evaluation; a frequency of zero never does.
pub fn determine_error(scenario: &Scenario, metrics: &mut Metrics) -> (f: Fault)
    requires
        old(metrics).errors.value < u32::MAX,
    ensures
        f.0 matches Some(r) ==> r.status == 500 && r.body@ == Seq::<char>::empty() && f.1 == Some(
            scenario.delay,
        ) && *final(metrics) == old(metrics).with_errors(old(metrics).errors.incremented()),
        f.0 is None ==> f.1 is None && *final(metrics) == *old(metrics),
        scenario.frequency >= FREQUENCY_SCALE ==> f.0 is Some,
        scenario.frequency == 0 ==> f.0 is None,
{
    let sample = draw_sample();
    determine_error_with(scenario, metrics, sample)
}

/// Draws one independent sample and decides a Timeout fault with it. A
/// frequency of `FREQUENCY_SCALE` triggers on every evaluation; a frequency
/// of zero never does.
pub fn determine_timeout(scenario: &Scenario, metrics: &mut Metrics) -> (f: Fault)
    requires
        old(metrics).timeouts.value < u32::MAX,
    ensures
        f.0 matches Some(r) ==> r.status == 504 && r.body@ == Seq::<char>::empty() && f.1 == Some(
            scenario.delay,
        ) && *final(metrics) == old(metrics).with_timeouts(old(metrics).timeouts.incremented()),
        f.0 is None ==> f.1 is None && *final(metrics) == *old(metrics),
        scenario.frequency >= FREQUENCY_SCALE ==> f.0 is Some,
        scenario.frequency == 0 ==> f.0 is None,
{
    let sample = draw_sample();
    determine_timeout_with(scenario, metrics, sample)
}

/// Draws one independent sample and decides a Delay fault with it. A
/// frequency of `FREQUENCY_SCALE` triggers on every evaluation; a frequency
/// of zero never does.
pub fn determine_delay(scenario: &Scenario, metrics: &mut Metrics) -> (f: Fault)
    requires
        old(metrics).delays.value < u32::MAX,
    ensures
        f.0 is None,
        f.1 matches Some(d) ==> d == scenario.delay && *final(metrics) == old(metrics).with_delays(
            old(metrics).delays.incremented(),
        ),
        f.1 is None ==> *final(metrics) == *old(metrics),
        scenario.frequency >= FREQUENCY_SCALE ==> f.1 is Some,
        scenario.frequency == 0 ==> f.1 is None,
{
    let sample = draw_sample();
    determine_delay_with(scenario, metrics, sample)
}

/// The metrics set after the admission slot of a forwarded request is
/// given back.
pub open spec fn spec_release(m: Metrics) -> Metrics {
    m.with_concurrent_requests(m.concurrent_requests.decremented())
}

/// Gives back the admission slot of a forwarded request. Must be called
/// exactly once per `Decision::Forward`, on success and on transport
/// failure alike; every other decision has released its slot already.
pub fn release(metrics: &mut Metrics)
    requires
        old(metrics).concurrent_requests.value >= 1,
    ensures
        *final(metrics) == spec_release(*old(metrics)),
{
    metrics.concurrent_requests.decrement();
}

/// The metrics set after an accepted non-metrics request is counted:
/// `requests` and the in-flight count each rise by one.
pub open spec fn spec_admitted(m: Metrics) -> Metrics {
    let m1 = m.with_requests(m.requests.incremented());
    m1.with_concurrent_requests(m1.concurrent_requests.incremented())
}

/// The injection step on the first matching scenario, applied to admitted
/// metrics: a triggered Error or Timeout counts itself, answers
/// synthetically and releases the admission slot at once; a triggered Delay
/// counts itself and still forwards after the delay; an untriggered fault
/// forwards untouched.
pub open spec fn spec_inject(s: Scenario, sample: u64, m: Metrics) -> (DecisionModel, Metrics) {
    if spec_triggered(s.frequency, sample) {
        match s.failure_type {
            FailureType::Error => {
                let m1 = m.with_errors(m.errors.incremented());
                let m2 = m1.with_concurrent_requests(m1.concurrent_requests.decremented());
                (
                    DecisionModel::Respond {
                        status: 500,
                        body: Seq::empty(),
                        delay: Some(s.delay),
                    },
                    m2,
                )
            },
            FailureType::Timeout => {
                let m1 = m.with_timeouts(m.timeouts.incremented());
                let m2 = m1.with_concurrent_requests(m1.concurrent_requests.decremented());
                (
                    DecisionModel::Respond {
                        status: 504,
                        body: Seq::empty(),
                        delay: Some(s.delay),
                    },
                    m2,
                )
            },
            FailureType::Delay => (
                DecisionModel::Forward { delay: Some(s.delay) },
                m.with_delays(m.delays.incremented()),
            ),
        }
    } else {
        (DecisionModel::Forward { delay: None }, m)
    }
}

/// The whole decision pipeline as a function of the configuration, the
/// metrics before the request, the request path and the drawn sample: the
/// metrics short-circuit, then admission, then first-match scenario lookup,
/// then injection.
pub open spec fn spec_handle(c: Configuration, m: Metrics, path: Seq<char>, sample: u64) -> (
    DecisionModel,
    Metrics,
) {
    if path == c.metrics_path@ {
        (DecisionModel::ServeMetrics { status: 200, body: spec_metrics_json(m) }, m)
    } else {
        let m1 = spec_admitted(m);
        if m1.concurrent_requests.value >= c.max_concurrent_requests {
            let m2 = m1.with_concurrent_requests(m1.concurrent_requests.decremented());
            let m3 = m2.with_shed_requests(m2.shed_requests.incremented());
            (
                DecisionModel::Shed {
                    status: 503,
                    body: spec_overloaded_body(c.max_concurrent_requests),
                },
                m3,
            )
        } else {
            match spec_first_match(c.scenarios@, path) {
                None => (DecisionModel::Forward { delay: None }, m1),
                Some(i) => spec_inject(c.scenarios@[i], sample, m1),
            }
        }
    }
}

/// Decides one request from an already drawn sample. The decision and the
/// new metrics are exactly those of `spec_handle` on the old metrics.
pub fn handle_with_sample(
    config: &Configuration,
    metrics: &mut Metrics,
    path: &str,
    sample: u64,
) -> (d: Decision)
    requires
        config.wf(),
        old(metrics).can_count(),
        sample < FREQUENCY_SCALE,
    ensures
        d@ == spec_handle(*config, *old(metrics), path@, sample).0,
        *final(metrics) == spec_handle(*config, *old(metrics), path@, sample).1,
{
    if str_eq(path, config.metrics_path.as_str()) {
        let response = load_metrics(metrics);
        return Decision::ServeMetrics { response };
    }
    metrics.requests.increment();
    let current = metrics.concurrent_requests.increment();
    if current >= config.max_concurrent_requests {
        metrics.concurrent_requests.decrement();
        metrics.shed_requests.increment();
        let response = load_overloaded(config);
        return Decision::Shed { response };
    }
    match match_scenario(&config.scenarios, path) {
        None => Decision::Forward { delay: None },
        Some(i) => {
            let scenario = &config.scenarios[i];
            let fault = match scenario.failure_type {
                FailureType::Error => determine_error_with(scenario, metrics, sample),
                FailureType::Delay => determine_delay_with(scenario, metrics, sample),
                FailureType::Timeout => determine_timeout_with(scenario, metrics, sample),
            };
            match fault {
                (None, Some(delay)) => Decision::Forward { delay: Some(delay) },
                (Some(response), delay) => {
                    metrics.concurrent_requests.decrement();
                    Decision::Respond { response, delay }
                },
                (None, None) => Decision::Forward { delay: None },
            }
        },
    }
}

/// Decides one request, drawing the one independent sample itself. Whatever
/// was drawn, the outcome is `spec_handle` for some sample in range; a
/// request for the metrics path is answered from the snapshot and touches
/// no counter.
pub fn handle_request(config: &Configuration, metrics: &mut Metrics, path: &str) -> (d: Decision)
    requires
        config.wf(),
        old(metrics).can_count(),
    ensures
        (exists|x: u64|
            x < FREQUENCY_SCALE && d@ == (#[trigger] spec_handle(
                *config,
                *old(metrics),
                path@,
                x,
            )).0 && *final(metrics) == spec_handle(*config, *old(metrics), path@, x).1),
        path@ == config.metrics_path@ ==> (*final(metrics) == *old(metrics) && d@
            == (DecisionModel::ServeMetrics {
            status: 200,
            body: spec_metrics_json(*old(metrics)),
        })),
        path@ != config.metrics_path@ ==> final(metrics).requests.value == old(
            metrics,
        ).requests.value + 1,
{
    let sample = draw_sample();
    let d = handle_with_sample(config, metrics, path, sample);
    proof {
        assert(d@ == spec_handle(*config, *old(metrics), path@, sample).0);
        assert(*metrics == spec_handle(*config, *old(metrics), path@, sample).1);
    }
    d
}

/// Decides one request after checking the configuration: an invalid
/// configuration (a pattern that does not compile, a frequency out of
/// range) is answered with `None` and touches nothing, mirroring the rule
/// that such a configuration is fatal at startup and must not be served.
pub fn try_handle_request(config: &Configuration, metrics: &mut Metrics, path: &str) -> (r:
    Option<Decision>)
    requires
        old(metrics).can_count(),
    ensures
        r is Some <==> config.wf(),
        r is None ==> *final(metrics) == *old(metrics),
        r matches Some(d) ==> (exists|x: u64|
            x < FREQUENCY_SCALE && d@ == (#[trigger] spec_handle(
                *config,
                *old(metrics),
                path@,
                x,
            )).0 && *final(metrics) == spec_handle(*config, *old(metrics), path@, x).1),
{
    if config.validate() {
        Some(handle_request(config, metrics, path))
    } else {
        None
    }
}

/// Law (admission invariant): starting below the concurrency ceiling, no
/// handled request ever drives the in-flight count to or past the ceiling;
/// a shed request leaves the in-flight count as it was and raises
/// `shed_requests` by exactly one, and only shed requests raise it.
pub proof fn lemma_admission_invariant(c: Configuration, m: Metrics, path: Seq<char>, sample: u64)
    requires
        m.can_count(),
        m.concurrent_requests.value < c.max_concurrent_requests,
    ensures
        ({
            let (d, m2) = spec_handle(c, m, path, sample);
            &&& m2.concurrent_requests.value < c.max_concurrent_requests
            &&& (d is Shed ==> m2.shed_requests.value == m.shed_requests.value + 1
                && m2.concurrent_requests.value == m.concurrent_requests.value)
            &&& (!(d is Shed) ==> m2.shed_requests.value == m.shed_requests.value)
        }),
{
}

/// Law (release invariant): every terminal outcome returns the in-flight
/// count to its pre-request value. A metrics read, a shed request and a
/// synthetic fault response release within the pipeline; a forwarded
/// request holds exactly one slot, which `release` then gives back.
pub proof fn lemma_release_invariant(c: Configuration, m: Metrics, path: Seq<char>, sample: u64)
    requires
        m.can_count(),
    ensures
        ({
            let (d, m2) = spec_handle(c, m, path, sample);
            &&& (!(d is Forward) ==> m2.concurrent_requests.value
                == m.concurrent_requests.value)
            &&& (d is Forward ==> m2.concurrent_requests.value >= 1
                && spec_release(m2).concurrent_requests.value == m.concurrent_requests.value)
        }),
{
}

/// Law (metrics endpoint): a request for the metrics path mutates no
/// counter, is not counted itself, and repeated reads of an unchanged
/// registry answer the same body, whatever was sampled.
pub proof fn lemma_metrics_endpoint_idempotent(
    c: Configuration,
    m: Metrics,
    sample1: u64,
    sample2: u64,
)
    ensures
        spec_handle(c, m, c.metrics_path@, sample1).1 == m,
        spec_handle(c, m, c.metrics_path@, sample1).0 == spec_handle(
            c,
            m,
            c.metrics_path@,
            sample2,
        ).0,
        spec_handle(c, spec_handle(c, m, c.metrics_path@, sample1).1, c.metrics_path@, sample2)
            == spec_handle(c, m, c.metrics_path@, sample1),
{
}

/// Law (transparent forwarding): an admitted request whose path matches no
/// configured scenario is forwarded with no synthetic response and no
/// delay, and only `requests` and the in-flight count are raised. What the
/// forwarded request looks like — method, version and headers preserved
/// with one marker header appended — is the contract of
/// `crate::proxy::build_proxy_request`.
pub proof fn lemma_no_match_forwards(c: Configuration, m: Metrics, path: Seq<char>, sample: u64)
    requires
        m.can_count(),
        path != c.metrics_path@,
        m.concurrent_requests.value + 1 < c.max_concurrent_requests,
        spec_first_match(c.scenarios@, path) is None,
    ensures
        ({
            let (d, m2) = spec_handle(c, m, path, sample);
            &&& d == (DecisionModel::Forward { delay: None })
            &&& m2 == spec_admitted(m)
        }),
{
}

} // verus!
