use postbox::outcome::{classify, Outcome};

#[test]
fn post_at_boundary_is_not_found() {
    // A two-byte path is exactly at the cutoff: it is not a store path.
    let (outcome, _) = classify(&b"POST".to_vec(), &b"/a".to_vec());
    assert!(matches!(outcome, Outcome::PageNotFound));
}

#[test]
fn post_past_boundary_is_store() {
    let (outcome, _) = classify(&b"POST".to_vec(), &b"/ab".to_vec());
    match outcome {
        Outcome::Store { name } => assert_eq!(name, b"ab".to_vec()),
        _ => panic!("expected a store outcome"),
    }
}

#[test]
fn other_method_is_not_allowed() {
    let (outcome, _) = classify(&b"GET".to_vec(), &b"/ab".to_vec());
    match outcome {
        Outcome::MethodNotAllowed { allow } => assert_eq!(allow, b"POST".to_vec()),
        _ => panic!("expected a method-not-allowed outcome"),
    }
}

#[test]
fn root_and_empty_paths_are_not_found() {
    let (outcome, _) = classify(&b"POST".to_vec(), &b"/".to_vec());
    assert!(matches!(outcome, Outcome::PageNotFound));
    let (outcome, _) = classify(&b"GET".to_vec(), &b"".to_vec());
    assert!(matches!(outcome, Outcome::PageNotFound));
    let (outcome, _) = classify(&b"POST".to_vec(), &b"ab".to_vec());
    assert!(matches!(outcome, Outcome::PageNotFound));
}

#[test]
fn store_name_keeps_path_bytes() {
    // No normalization: the name is the path after the slash, byte for byte.
    let (outcome, _) = classify(&b"POST".to_vec(), &b"/a/b%20c".to_vec());
    match outcome {
        Outcome::Store { name } => assert_eq!(name, b"a/b%20c".to_vec()),
        _ => panic!("expected a store outcome"),
    }
}

#[test]
fn store_budget_is_generous() {
    let (_, budget) = classify(&b"POST".to_vec(), &b"/ab".to_vec());
    assert_eq!(budget.max_body_bytes, 1024 * 1024);
    assert_eq!(budget.timeout_secs, 10);
    assert_eq!(budget.timeout_nanos, 0);
}

#[test]
fn quick_budget_is_minimal() {
    let (_, budget) = classify(&b"GET".to_vec(), &b"/ab".to_vec());
    assert_eq!(budget.max_body_bytes, 1024);
    assert_eq!(budget.timeout_secs, 0);
    assert_eq!(budget.timeout_nanos, 1);
    let (_, budget) = classify(&b"POST".to_vec(), &b"/".to_vec());
    assert_eq!(budget.max_body_bytes, 1024);
    assert_eq!(budget.timeout_secs, 0);
    assert_eq!(budget.timeout_nanos, 1);
}
