//! The failure handlers: the code that runs only when a condition did not
//! hold. They build the diagnostic; they are kept out of line so that the
//! test of the condition stays small.

use vstd::prelude::*;
use vstd::string::StringExecFns;
use crate::failure::{AssertionFailure, FailureModel};
use crate::location::{LocationModel, SourceLocation};

verus! {

/// The words every default diagnostic starts with.
pub open spec fn failure_prefix() -> Seq<char> {
    "assertion failed: "@
}

/// The default diagnostic for a condition written as `condition`.
pub open spec fn default_message(condition: Seq<char>) -> Seq<char> {
    failure_prefix() + condition
}

/// The failure that the default handler reports for `condition` at `at`.
pub open spec fn default_failure(condition: Seq<char>, at: LocationModel) -> FailureModel {
    FailureModel { message: default_message(condition), location: at }
}

/// Whether `failure` is one that the custom handler may report when it is
/// given `msg_fn` at `at`: its message is a result of `msg_fn`, untouched,
/// and its location is `at`.
pub open spec fn custom_failure<F: FnOnce() -> String>(
    msg_fn: F,
    at: LocationModel,
    failure: FailureModel,
) -> bool {
    &&& failure.location == at
    &&& exists|message: String| #[trigger]
        call_ensures(msg_fn, (), message) && message@ == failure.message
}

/// Handler for an assertion without a message of its own.
///
/// `condition` is the source text of the condition that did not hold. The
/// diagnostic is that text behind the fixed prefix, and the location is the
/// caller's, whatever stands between the caller and this function.
#[inline(never)]
pub fn assert_failed_default(condition: &'static str, at: SourceLocation) -> (failure:
    AssertionFailure)
    ensures
        failure@ == default_failure(condition@, at@),
        failure@.message == default_message(condition@),
        failure@.location == at@,
{
    let message = String::from_str("assertion failed: ").concat(condition);
    AssertionFailure::new(message, at)
}

/// Handler for an assertion with a message of its own.
///
/// Runs the deferred computation once and reports what it produced. The
/// handler neither formats nor inspects the message: its shape is the
/// computation's business alone.
#[inline(never)]
pub fn assert_failed_custom<F: FnOnce() -> String>(msg_fn: F, at: SourceLocation) -> (failure:
    AssertionFailure)
    requires
        call_requires(msg_fn, ()),
    ensures
        custom_failure(msg_fn, at@, failure@),
        failure@.location == at@,
{
    let message = msg_fn();
    AssertionFailure::new(message, at)
}

/// The default diagnostic holds the condition's text whole and unchanged,
/// directly behind the fixed prefix.
pub proof fn lemma_default_message_embeds_condition(condition: Seq<char>)
    ensures
        failure_prefix().len() == 18,
        default_message(condition).len() == failure_prefix().len() + condition.len(),
        default_message(condition).subrange(0, failure_prefix().len() as int) == failure_prefix(),
        default_message(condition).subrange(
            failure_prefix().len() as int,
            default_message(condition).len() as int,
        ) == condition,
{
    reveal_strlit("assertion failed: ");
    let prefix = failure_prefix();
    let message = default_message(condition);
    assert(message.subrange(0, prefix.len() as int) =~= prefix);
    assert(message.subrange(prefix.len() as int, message.len() as int) =~= condition);
}

/// Two conditions with the same default diagnostic have the same text: the
/// diagnostic tells which condition did not hold.
pub proof fn lemma_default_message_tells_conditions_apart(first: Seq<char>, second: Seq<char>)
    requires
        default_message(first) == default_message(second),
    ensures
        first == second,
{
    lemma_default_message_embeds_condition(first);
    lemma_default_message_embeds_condition(second);
}

/// Where the deferred computation can produce one text only, the failure
/// that the custom handler reports holds exactly that text, and the location
/// it was given.
pub proof fn lemma_custom_message_is_computed<F: FnOnce() -> String>(
    msg_fn: F,
    at: LocationModel,
    failure: FailureModel,
    expected: Seq<char>,
)
    requires
        custom_failure(msg_fn, at, failure),
        forall|message: String| #[trigger] call_ensures(msg_fn, (), message) ==> message@ == expected,
    ensures
        failure.message == expected,
        failure.location == at,
{
}

/// Both handlers report the location they were given and no other: for one
/// call site the two forms of an assertion name the same place.
pub proof fn lemma_failure_names_call_site<F: FnOnce() -> String>(
    condition: Seq<char>,
    msg_fn: F,
    at: LocationModel,
    custom: FailureModel,
)
    requires
        custom_failure(msg_fn, at, custom),
    ensures
        default_failure(condition, at).location == at,
        custom.location == at,
        custom.location == default_failure(condition, at).location,
{
}

} // verus!
