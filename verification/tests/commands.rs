use driving_day_app::greet;
use driving_day_app::maximize_outcome;
use driving_day_app::WindowError;

#[test]
fn greet_world() {
    assert_eq!(greet("World"), "Hello, World!");
}

#[test]
fn greet_empty_name() {
    assert_eq!(greet(""), "Hello, !");
}

#[test]
fn greet_keeps_the_name_verbatim() {
    assert_eq!(greet("driving day"), "Hello, driving day!");
    assert_eq!(greet("!"), "Hello, !!");
    assert_eq!(greet("Hello, "), "Hello, Hello, !");
}

#[test]
fn maximize_success_reports_no_value() {
    assert_eq!(maximize_outcome(true), Ok(()));
}

#[test]
fn maximize_failure_is_recoverable() {
    let r = maximize_outcome(false);
    assert_eq!(r, Err(WindowError::MaximizeFailed));
    assert_eq!(
        r.unwrap_err().message(),
        "the window could not be maximized"
    );
}
