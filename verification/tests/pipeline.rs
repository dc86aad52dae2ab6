use trouble_maker::config::{Configuration, FailureType, Scenario, FREQUENCY_SCALE};
use trouble_maker::metrics::Metrics;
use trouble_maker::pipeline::{
    determine_delay, determine_error, determine_timeout, handle_request, handle_with_sample,
    load_overloaded, release, try_handle_request, Decision,
};

fn config_with(scenarios: Vec<Scenario>, max_concurrent_requests: u32) -> Configuration {
    Configuration {
        scenarios,
        listener_address: String::from("127.0.0.1:8080"),
        proxy_address: String::from("127.0.0.1:9000"),
        metrics_path: String::from("/metrics"),
        max_concurrent_requests,
    }
}

#[test]
fn determine_timeout_with_100_percent_frequency_returns_timeout() {
    let mut metrics = Metrics::new();
    let scenario = Scenario {
        path: String::from("/test"),
        failure_type: FailureType::Timeout,
        frequency: FREQUENCY_SCALE,
        delay: 500,
    };

    let fault = determine_timeout(&scenario, &mut metrics);

    assert_eq!(fault.0.unwrap().status, 504);
    assert_eq!(fault.1.unwrap(), 500);
}

#[test]
fn determine_timeout_with_0_percent_frequency_returns_no_timeout() {
    let mut metrics = Metrics::new();
    let scenario = Scenario {
        path: String::from("/test"),
        failure_type: FailureType::Timeout,
        frequency: 0,
        delay: 500,
    };

    let fault = determine_timeout(&scenario, &mut metrics);

    assert_eq!(fault.0.is_none(), true);
    assert_eq!(fault.1.is_none(), true);
}

#[test]
fn determine_error_with_100_percent_frequency_returns_error() {
    let mut metrics = Metrics::new();
    let scenario = Scenario {
        path: String::from("/test"),
        failure_type: FailureType::Error,
        frequency: FREQUENCY_SCALE,
        delay: 500,
    };

    let fault = determine_error(&scenario, &mut metrics);

    assert_eq!(fault.0.unwrap().status, 500);
    assert_eq!(fault.1.unwrap(), 500);
}

#[test]
fn determine_error_with_0_percent_frequency_returns_no_error() {
    let mut metrics = Metrics::new();
    let scenario = Scenario {
        path: String::from("/test"),
        failure_type: FailureType::Error,
        frequency: 0,
        delay: 500,
    };

    let fault = determine_error(&scenario, &mut metrics);

    assert_eq!(fault.0.is_none(), true);
    assert_eq!(fault.1.is_none(), true);
}

#[test]
fn determine_delay_with_100_percent_frequency_returns_delay() {
    let mut metrics = Metrics::new();
    let scenario = Scenario {
        path: String::from("/test"),
        failure_type: FailureType::Delay,
        frequency: FREQUENCY_SCALE,
        delay: 500,
    };

    let fault = determine_delay(&scenario, &mut metrics);

    assert_eq!(fault.0.is_none(), true);
    assert_eq!(fault.1.unwrap(), 500);
}

#[test]
fn determine_delay_with_0_percent_frequency_returns_no_delay() {
    let mut metrics = Metrics::new();
    let scenario = Scenario {
        path: String::from("/test"),
        failure_type: FailureType::Delay,
        frequency: 0,
        delay: 500,
    };

    let fault = determine_error(&scenario, &mut metrics);

    assert_eq!(fault.0.is_none(), true);
    assert_eq!(fault.1.is_none(), true);
}

#[test]
fn triggered_faults_count_their_kind() {
    let mut metrics = Metrics::new();
    let scenario = Scenario {
        path: String::from("/test"),
        failure_type: FailureType::Timeout,
        frequency: FREQUENCY_SCALE,
        delay: 10,
    };
    determine_timeout(&scenario, &mut metrics);
    assert_eq!(metrics.timeouts.value, 1);
    assert_eq!(metrics.errors.value, 0);
    assert_eq!(metrics.delays.value, 0);
}

#[test]
fn metrics_path_is_served_without_counting() {
    let config = config_with(Vec::new(), 8);
    let mut metrics = Metrics::new();

    let first = handle_request(&config, &mut metrics, "/metrics");
    let first_body = match first {
        Decision::ServeMetrics { response } => {
            assert_eq!(response.status, 200);
            response.body
        }
        _ => panic!("expected the metrics snapshot"),
    };
    assert_eq!(metrics.requests.value, 0);
    assert_eq!(metrics.concurrent_requests.value, 0);

    let second = handle_request(&config, &mut metrics, "/metrics");
    let second_body = match second {
        Decision::ServeMetrics { response } => response.body,
        _ => panic!("expected the metrics snapshot"),
    };
    assert_eq!(first_body, second_body);
    assert_eq!(metrics.requests.value, 0);
}

#[test]
fn unmatched_paths_forward_without_delay() {
    let scenario = Scenario {
        path: String::from("/fault"),
        failure_type: FailureType::Error,
        frequency: FREQUENCY_SCALE,
        delay: 100,
    };
    let config = config_with(vec![scenario], 8);
    let mut metrics = Metrics::new();

    let d = handle_request(&config, &mut metrics, "/healthy");
    assert!(matches!(d, Decision::Forward { delay: None }));
    assert_eq!(metrics.requests.value, 1);
    assert_eq!(metrics.concurrent_requests.value, 1);
    assert_eq!(metrics.errors.value, 0);

    release(&mut metrics);
    assert_eq!(metrics.concurrent_requests.value, 0);
}

#[test]
fn requests_past_the_ceiling_are_shed() {
    let config = config_with(Vec::new(), 2);
    let mut metrics = Metrics::new();

    let first = handle_request(&config, &mut metrics, "/a");
    assert!(matches!(first, Decision::Forward { .. }));
    assert_eq!(metrics.concurrent_requests.value, 1);

    let second = handle_request(&config, &mut metrics, "/b");
    match second {
        Decision::Shed { response } => {
            assert_eq!(response.status, 503);
            assert_eq!(
                response.body,
                "The maximum number of concurrent requests(2) has been exceeded."
            );
        }
        _ => panic!("expected the second in-flight request to be shed"),
    }
    assert_eq!(metrics.shed_requests.value, 1);
    assert_eq!(metrics.concurrent_requests.value, 1);
    assert_eq!(metrics.requests.value, 2);

    release(&mut metrics);
    assert_eq!(metrics.concurrent_requests.value, 0);
}

#[test]
fn a_ceiling_of_zero_sheds_every_request() {
    let config = config_with(Vec::new(), 0);
    let mut metrics = Metrics::new();
    let d = handle_request(&config, &mut metrics, "/anything");
    match d {
        Decision::Shed { response } => {
            assert_eq!(response.status, 503);
            assert_eq!(
                response.body,
                "The maximum number of concurrent requests(0) has been exceeded."
            );
        }
        _ => panic!("expected every request to be shed at a zero ceiling"),
    }
    assert_eq!(metrics.shed_requests.value, 1);
    assert_eq!(metrics.concurrent_requests.value, 0);
}

#[test]
fn a_triggered_error_responds_and_releases_its_slot() {
    let scenario = Scenario {
        path: String::from("/error"),
        failure_type: FailureType::Error,
        frequency: FREQUENCY_SCALE,
        delay: 300,
    };
    let config = config_with(vec![scenario], 8);
    let mut metrics = Metrics::new();

    let d = handle_with_sample(&config, &mut metrics, "/error", 0);
    match d {
        Decision::Respond { response, delay } => {
            assert_eq!(response.status, 500);
            assert_eq!(response.body, "");
            assert_eq!(delay, Some(300));
        }
        _ => panic!("expected a synthetic error response"),
    }
    assert_eq!(metrics.errors.value, 1);
    assert_eq!(metrics.concurrent_requests.value, 0);
    assert_eq!(metrics.requests.value, 1);
}

#[test]
fn a_triggered_delay_still_forwards() {
    let scenario = Scenario {
        path: String::from("/slow"),
        failure_type: FailureType::Delay,
        frequency: FREQUENCY_SCALE,
        delay: 250,
    };
    let config = config_with(vec![scenario], 8);
    let mut metrics = Metrics::new();

    let d = handle_with_sample(&config, &mut metrics, "/slow", 0);
    assert!(matches!(d, Decision::Forward { delay: Some(250) }));
    assert_eq!(metrics.delays.value, 1);
    assert_eq!(metrics.concurrent_requests.value, 1);

    release(&mut metrics);
    assert_eq!(metrics.concurrent_requests.value, 0);
}

#[test]
fn only_the_first_matching_scenario_is_applied() {
    let first = Scenario {
        path: String::from("/dup"),
        failure_type: FailureType::Timeout,
        frequency: FREQUENCY_SCALE,
        delay: 100,
    };
    let second = Scenario {
        path: String::from("/dup"),
        failure_type: FailureType::Error,
        frequency: FREQUENCY_SCALE,
        delay: 200,
    };
    let config = config_with(vec![first, second], 8);
    let mut metrics = Metrics::new();

    let d = handle_with_sample(&config, &mut metrics, "/dup", 0);
    match d {
        Decision::Respond { response, delay } => {
            assert_eq!(response.status, 504);
            assert_eq!(delay, Some(100));
        }
        _ => panic!("expected the first-configured scenario's outcome"),
    }
    assert_eq!(metrics.timeouts.value, 1);
    assert_eq!(metrics.errors.value, 0);
}

#[test]
fn an_invalid_configuration_is_refused() {
    let scenario = Scenario {
        path: String::from("("),
        failure_type: FailureType::Error,
        frequency: FREQUENCY_SCALE,
        delay: 0,
    };
    let config = config_with(vec![scenario], 8);
    assert!(!config.validate());
    let mut metrics = Metrics::new();
    let d = try_handle_request(&config, &mut metrics, "/x");
    assert!(d.is_none());
    assert_eq!(metrics.requests.value, 0);
}

#[test]
fn an_out_of_range_frequency_is_refused() {
    let scenario = Scenario {
        path: String::from("/ok"),
        failure_type: FailureType::Delay,
        frequency: FREQUENCY_SCALE + 1,
        delay: 0,
    };
    let config = config_with(vec![scenario], 8);
    assert!(!config.validate());
}

#[test]
fn a_valid_configuration_is_accepted_and_served() {
    let scenario = Scenario {
        path: String::from("^/err$"),
        failure_type: FailureType::Error,
        frequency: FREQUENCY_SCALE,
        delay: 0,
    };
    let config = config_with(vec![scenario], 8);
    assert!(config.validate());
    let mut metrics = Metrics::new();
    let d = try_handle_request(&config, &mut metrics, "/err");
    match d {
        Some(Decision::Respond { response, .. }) => assert_eq!(response.status, 500),
        _ => panic!("expected the configured error fault"),
    }
}

#[test]
fn patterns_match_anywhere_in_the_path() {
    let scenario = Scenario {
        path: String::from("err"),
        failure_type: FailureType::Timeout,
        frequency: FREQUENCY_SCALE,
        delay: 0,
    };
    let config = config_with(vec![scenario], 8);
    let mut metrics = Metrics::new();
    let d = handle_with_sample(&config, &mut metrics, "/some/error/path", 0);
    assert!(matches!(d, Decision::Respond { .. }));
    assert_eq!(metrics.timeouts.value, 1);
}

#[test]
fn the_overloaded_response_names_the_ceiling() {
    let config = config_with(Vec::new(), 64);
    let r = load_overloaded(&config);
    assert_eq!(r.status, 503);
    assert_eq!(
        r.body,
        "The maximum number of concurrent requests(64) has been exceeded."
    );
}

#[test]
fn a_half_frequency_error_triggers_about_half_the_time() {
    let scenario = Scenario {
        path: String::from("/error"),
        failure_type: FailureType::Error,
        frequency: FREQUENCY_SCALE / 2,
        delay: 300,
    };
    let config = config_with(vec![scenario], 8);
    let mut metrics = Metrics::new();

    let total = 1000;
    let mut errored = 0;
    let mut forwarded = 0;
    for _ in 0..total {
        match handle_request(&config, &mut metrics, "/error") {
            Decision::Respond { response, delay } => {
                assert_eq!(response.status, 500);
                assert_eq!(response.body, "");
                assert_eq!(delay, Some(300));
                errored += 1;
            }
            Decision::Forward { delay } => {
                assert_eq!(delay, None);
                forwarded += 1;
                release(&mut metrics);
            }
            _ => panic!("expected only error responses and forwards"),
        }
    }
    assert_eq!(errored + forwarded, total);
    assert_eq!(metrics.errors.value, errored as u32);
    assert_eq!(metrics.requests.value, total as u32);
    assert_eq!(metrics.concurrent_requests.value, 0);
    let ratio = errored as f64 / total as f64;
    assert!(
        ratio > 0.4 && ratio < 0.6,
        "error ratio {} strayed too far from the configured 0.5",
        ratio
    );
}
