//! The single error kind of the library and the decision that carries it.

use vstd::prelude::*;
use crate::location::{LocationModel, SourceLocation};

verus! {

/// Mathematical model of an [`AssertionFailure`].
pub struct FailureModel {
    pub message: Seq<char>,
    pub location: LocationModel,
}

/// A condition that did not hold: the diagnostic and the place it is about.
///
/// Only the cold handlers build one, so every value of this type stands for
/// one handler run.
#[derive(Debug, PartialEq, Eq)]
pub struct AssertionFailure {
    message: String,
    location: SourceLocation,
}

impl View for AssertionFailure {
    type V = FailureModel;

    closed spec fn view(&self) -> FailureModel {
        FailureModel { message: self.message@, location: self.location@ }
    }
}

impl AssertionFailure {
    /// Joins a finished message and the place it is about.
    pub(crate) fn new(message: String, location: SourceLocation) -> (failure: AssertionFailure)
        ensures
            failure@ == (FailureModel { message: message@, location: location@ }),
    {
        AssertionFailure { message, location }
    }

    /// The human-readable diagnostic.
    pub fn message(&self) -> (message: &str)
        ensures
            message@ == self@.message,
    {
        self.message.as_str()
    }

    /// The place the failed assertion was written at.
    pub fn location(&self) -> (location: SourceLocation)
        ensures
            location@ == self@.location,
    {
        self.location
    }
}

/// What one assertion decides: go on, or end the execution context.
///
/// There is no third way and no way back: a caller that is handed
/// [`Outcome::Terminate`] has to stop.
#[must_use]
#[derive(Debug, PartialEq, Eq)]
pub enum Outcome {
    /// The condition held; nothing was formatted and no handler ran.
    Continue,
    /// The condition did not hold; the caller has to stop with this failure.
    Terminate(AssertionFailure),
}

impl View for Outcome {
    type V = Option<FailureModel>;

    open spec fn view(&self) -> Option<FailureModel> {
        match self {
            Outcome::Continue => None,
            Outcome::Terminate(failure) => Some(failure@),
        }
    }
}

} // verus!
