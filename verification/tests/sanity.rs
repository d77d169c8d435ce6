use fast_assert::{fast_assert, fast_assert_with, Outcome, SourceLocation};

/// Plays the part of the runtime: ends the test where the library says so.
fn enforce(outcome: Outcome) {
    if let Outcome::Terminate(failure) = outcome {
        panic!("{}", failure.message());
    }
}

fn here(line: u32) -> SourceLocation {
    SourceLocation::new("tests/sanity.rs", line, 5)
}

#[test]
fn lib_holds() {
    let outcome = fast_assert(0 < 100, "0 < 100", here(17));
    assert!(matches!(outcome, Outcome::Continue));
    enforce(outcome);
}

#[test]
#[should_panic(expected = "assertion failed: 100 < 0")]
fn lib_fails() {
    enforce(fast_assert(100 < 0, "100 < 0", here(25)));
}

#[test]
fn lib_holds_custom_message() {
    let x = 0;
    let y = 100;
    let outcome = fast_assert_with(
        x < y,
        || format!("x ({}) should be less than y ({})", x, y),
        here(32),
    );
    assert!(matches!(outcome, Outcome::Continue));
    enforce(outcome);
}

#[test]
#[should_panic(expected = "x (100) should be less than y (0)")]
fn lib_fails_custom_message() {
    let x = 100;
    let y = 0;
    enforce(fast_assert_with(
        x < y,
        || format!("x ({}) should be less than y ({})", x, y),
        here(46),
    ));
}
