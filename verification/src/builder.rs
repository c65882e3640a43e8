//! What every builder offers: a validation of its configuration, and the
//! submission that commits it.

use vstd::prelude::*;
use crate::error::{IDAError, IDAErrorView};
use crate::submission::{Submission, SubmissionView};

verus! {

/// A configuration that can be checked against the rules of its kind.
pub trait TypeValidator {
    /// The first rule that the configuration breaks, if it breaks any.
    spec fn violation(&self) -> Option<IDAErrorView>;

    /// Checks the configuration. Nothing but the builder is looked at.
    fn validate(&self) -> (checked: Result<(), IDAError>)
        ensures
            match checked {
                Ok(_) => self.violation() is None,
                Err(error) => self.violation() == Some(error@),
            },
    ;
}

/// A builder that can be committed to the catalog.
pub trait TypeBuilder: Sized {
    /// The state in which the submission of the builder starts, or the error
    /// that is found before any catalog operation is asked for.
    spec fn submission(&self) -> Result<SubmissionView, IDAErrorView>;

    /// Consumes the builder and starts its submission. An error here means
    /// that the catalog was not touched.
    fn build(self) -> (start: Result<Submission, IDAError>)
        ensures
            match start {
                Ok(submission) => self.submission() == Ok::<SubmissionView, IDAErrorView>(
                    submission@,
                ) && submission@.live(),
                Err(error) => self.submission() == Err::<SubmissionView, IDAErrorView>(error@)
                    && error@.is_local(),
            },
    ;

    /// The check that a builder runs when it has no rules of its own: it
    /// accepts.
    fn validate(&self) -> (checked: Result<(), IDAError>)
        ensures
            checked is Ok,
    {
        Ok(())
    }
}

} // verus!
