use cargo_unmaintained::reporting::Outcome;

#[test]
fn rustsec_advisory_comparison() {
    // The comparison harness classifies one advisory's package by the
    // tool's exit status and reports each class under its kebab-case
    // label, in the order error, not-found, found.
    assert_eq!(Outcome::from_exit_code(0), Some(Outcome::NotFound));
    assert_eq!(Outcome::from_exit_code(1), Some(Outcome::Found));
    assert_eq!(Outcome::from_exit_code(2), Some(Outcome::Error));
    assert_eq!(Outcome::from_exit_code(3), None);
    assert_eq!(Outcome::from_exit_code(-1), None);

    let order = [Outcome::Error, Outcome::NotFound, Outcome::Found];
    let labels: Vec<&str> = order.iter().map(|o| o.label()).collect();
    assert_eq!(labels, vec!["error", "not-found", "found"]);
}
