use sentinel_sidecar::sentinel::{
    check_flow, hardcoded_rules, init_sentinel, CalculateStrategy, ControlStrategy,
};

#[test]
fn hardcoded_rule_limits_one_one_one_one() {
    let rules = hardcoded_rules();
    assert_eq!(rules.len(), 1);
    assert_eq!(rules[0].resource, "1.1.1.1");
    assert_eq!(rules[0].threshold, 1);
    assert_eq!(rules[0].calculate_strategy, CalculateStrategy::Direct);
    assert_eq!(rules[0].control_strategy, ControlStrategy::Reject);
}

#[test]
fn one_request_per_second_reaches_one_one_one_one() {
    init_sentinel();
    // Within one second, the first request passes and the next ones are refused.
    let results: Vec<bool> = (0..5).map(|_| check_flow("1.1.1.1")).collect();
    assert_eq!(results.iter().filter(|ok| **ok).count(), 1, "{:?}", results);
    assert!(results[0], "{:?}", results);
}

#[test]
fn unlimited_destinations_pass() {
    init_sentinel();
    for _ in 0..5 {
        assert!(check_flow("8.8.8.8"));
    }
}
