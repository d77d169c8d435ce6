//! The two call shapes of an assertion: the small test that every call
//! pays for, and the hand-over to a cold handler when the test fails.
//!
//! Each call is a decision of its own. Nothing is kept between calls, and
//! nothing is retried: a condition that does not hold always ends in
//! [`Outcome::Terminate`].

use vstd::prelude::*;
use crate::cold::{assert_failed_custom, assert_failed_default, custom_failure, default_failure};
use crate::failure::Outcome;
use crate::location::SourceLocation;

verus! {

/// Asserts `condition`, whose source text is `condition_text`, at `at`.
///
/// When the condition holds nothing is built and no handler runs. When it
/// does not, the default handler runs once and its failure is handed back:
/// the diagnostic embeds `condition_text` as it stands, and the location is
/// `at`.
#[inline]
pub fn fast_assert(condition: bool, condition_text: &'static str, at: SourceLocation) -> (outcome:
    Outcome)
    ensures
        condition <==> outcome@ is None,
        !condition ==> outcome@ == Some(default_failure(condition_text@, at@)),
        !condition ==> outcome@->0.location == at@,
{
    if condition {
        Outcome::Continue
    } else {
        Outcome::Terminate(assert_failed_default(condition_text, at))
    }
}

/// Asserts `condition` at `at`, with a diagnostic that `msg_fn` computes.
///
/// `msg_fn` is demanded to be callable only for a condition that does not
/// hold: when the condition holds it is dropped as it came, so whatever it
/// would have evaluated stays unevaluated. When the condition does not
/// hold, the custom handler runs `msg_fn` once and hands its text back as
/// the diagnostic, with `at` as the location.
#[inline]
pub fn fast_assert_with<F: FnOnce() -> String>(
    condition: bool,
    msg_fn: F,
    at: SourceLocation,
) -> (outcome: Outcome)
    requires
        !condition ==> call_requires(msg_fn, ()),
    ensures
        condition <==> outcome@ is None,
        !condition ==> custom_failure(msg_fn, at@, outcome@->0),
        !condition ==> outcome@->0.location == at@,
{
    if condition {
        Outcome::Continue
    } else {
        Outcome::Terminate(assert_failed_custom(msg_fn, at))
    }
}

} // verus!
