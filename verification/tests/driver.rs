use b2sum::{
    acquire_plan, any_input_failed, effective_inputs, exit_status, is_stdin_sentinel,
    stdin_sentinel, AcquirePlan,
};

#[test]
fn no_inputs_defaults_to_stdin_once() {
    let r = effective_inputs(Vec::new());
    assert_eq!(r.len(), 1);
    assert_eq!(r[0], "-");
}

#[test]
fn given_inputs_kept_in_order() {
    let inputs = vec!["a".to_string(), "-".to_string(), "b".to_string()];
    let r = effective_inputs(inputs.clone());
    assert_eq!(r, inputs);
}

#[test]
fn stdin_sentinel_is_dash() {
    assert_eq!(stdin_sentinel(), "-");
    assert!(is_stdin_sentinel("-"));
    assert!(!is_stdin_sentinel(""));
    assert!(!is_stdin_sentinel("--"));
    assert!(!is_stdin_sentinel("file"));
}

#[test]
fn acquisition_plans() {
    assert_eq!(acquire_plan("-", false), AcquirePlan::ReadStdin);
    assert_eq!(acquire_plan("-", true), AcquirePlan::MapStdin);
    assert_eq!(acquire_plan("some/path", false), AcquirePlan::OpenFile);
    assert_eq!(acquire_plan("some/path", true), AcquirePlan::MapFile);
}

#[test]
fn one_failure_among_three_inputs() {
    // First and third succeed, second fails: the run fails as a whole.
    let successes = vec![true, false, true];
    assert!(any_input_failed(&successes));
    assert_eq!(exit_status(true, true), 1);
}

#[test]
fn all_inputs_succeed() {
    let successes = vec![true, true, true];
    assert!(!any_input_failed(&successes));
    assert_eq!(exit_status(true, false), 0);
}

#[test]
fn no_inputs_is_not_a_failure() {
    assert!(!any_input_failed(&Vec::new()));
    assert_eq!(exit_status(true, false), 0);
}
