use license_gen::status::Status;

#[test]
fn a_new_status_has_nothing_to_report() {
    let status = Status::new();
    assert!(status.ok());
    assert!(status.succeeded.is_empty());
    assert!(status.failed.is_empty());
    assert_eq!(status.report(), "\nBuild succeeded for targets:\nBuild failed for targets:\n");
}

#[test]
fn a_success_leaves_the_status_ok() {
    let mut status = Status::new();
    status.success("manpages");
    status.success("completion");
    assert!(status.ok());
    assert_eq!(status.succeeded, ["manpages", "completion"]);
    assert!(status.failed.is_empty());
}

#[test]
fn one_failure_is_enough_to_fail() {
    let mut status = Status::new();
    status.success("manpages");
    status.fail("bundle");
    status.success("clean");
    assert!(!status.ok());
    assert_eq!(status.succeeded, ["manpages", "clean"]);
    assert_eq!(status.failed, ["bundle"]);
}

#[test]
fn the_report_lists_both_kinds_in_their_order() {
    let mut status = Status::new();
    status.fail("x86_64-apple-darwin");
    status.success("manpages");
    status.fail("bundle");
    status.success("manpages");
    assert_eq!(
        status.report(),
        "\nBuild succeeded for targets:\n  manpages\n  manpages\n\
Build failed for targets:\n  x86_64-apple-darwin\n  bundle\n"
    );
}
