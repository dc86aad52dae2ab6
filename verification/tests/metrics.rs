use trouble_maker::metrics::{Counter, Metrics};

#[test]
fn a_new_counter_is_initialized_to_0() {
    let c = Counter::new(String::from("test"));
    assert_eq!(c.value, 0);
}

#[test]
fn incrementing_a_counter_3_times_has_value_of_3() {
    let mut c = Counter::new(String::from("test"));
    c.increment();
    c.increment();
    c.increment();
    assert_eq!(c.value, 3);
}

#[test]
fn new_metric_counters_are_init_to_0() {
    let m = Metrics::new();
    assert_eq!(m.requests.value, 0);
    assert_eq!(m.delays.value, 0);
    assert_eq!(m.errors.value, 0);
    assert_eq!(m.timeouts.value, 0);
    assert_eq!(m.concurrent_requests.value, 0);
    assert_eq!(m.shed_requests.value, 0);
}

#[test]
fn incrementing_a_count_3_times_and_decrementing_2_times_has_a_value_of_1() {
    let mut c = Counter::new(String::from("test"));
    c.increment();
    c.increment();
    c.increment();
    c.decrement();
    c.decrement();
    assert_eq!(c.value, 1);
}

#[test]
fn a_new_counter_keeps_its_name() {
    let c = Counter::new(String::from("test"));
    assert_eq!(c.name, "test");
}

#[test]
fn increment_and_decrement_return_the_new_value() {
    let mut c = Counter::new(String::from("test"));
    assert_eq!(c.increment(), 1);
    assert_eq!(c.increment(), 2);
    assert_eq!(c.decrement(), 1);
}

#[test]
fn fresh_metrics_serialize_to_the_exchange_format() {
    let mut m = Metrics::new();
    let expected = "{\"requests\":{\"name\":\"Requests\",\"value\":0},\"delays\":{\"name\":\"Delays\",\"value\":0},\"errors\":{\"name\":\"Errors\",\"value\":0},\"timeouts\":{\"name\":\"Timeouts\",\"value\":0},\"concurrent_requests\":{\"name\":\"ConcurrentRequests\",\"value\":0},\"shed_requests\":{\"name\":\"ShedRequests\",\"value\":0}}";
    assert_eq!(m.to_json(), expected);
}

#[test]
fn mutated_metrics_serialize_their_current_values() {
    let mut m = Metrics::new();
    m.requests.increment();
    m.requests.increment();
    m.errors.increment();
    let json = m.to_json();
    assert!(json.contains("{\"name\":\"Requests\",\"value\":2}"));
    assert!(json.contains("{\"name\":\"Errors\",\"value\":1}"));
    assert!(json.contains("{\"name\":\"Delays\",\"value\":0}"));
}

#[test]
fn render_gives_the_human_readable_summary() {
    let mut m = Metrics::new();
    m.requests.increment();
    m.requests.increment();
    m.requests.increment();
    m.delays.increment();
    m.errors.increment();
    m.errors.increment();
    let expected = "Request Count: 3.\nDelayed Requests: 1.\nErrored Requests: 2.\nTimedout Requets: 0.\n";
    assert_eq!(m.render(), expected);
}
