//! The one kind of error that an exchange can end in.

use vstd::prelude::*;

verus! {

/// Why an exchange gave no text: the words of whatever went wrong while the
/// request was prepared, sent, or its answer read. Failures are told apart by
/// their message alone.
#[derive(Debug, PartialEq, Eq)]
pub struct Failure {
    pub message: String,
}

impl View for Failure {
    type V = Seq<char>;

    /// A failure is its message.
    open spec fn view(&self) -> Seq<char> {
        self.message@
    }
}

/// How an attempt ended, as plain values: the text it gave, or the message of
/// its failure.
pub open spec fn outcome_view(outcome: Result<String, Failure>) -> Result<Seq<char>, Seq<char>> {
    match outcome {
        Ok(text) => Ok(text@),
        Err(failure) => Err(failure@),
    }
}

} // verus!
