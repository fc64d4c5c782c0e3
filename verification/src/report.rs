//! What the host is told once an exchange has ended.

use crate::failure::{outcome_view, Failure};
use crate::reply::{read_reply, reply_to};
use vstd::prelude::*;
use vstd::string::StringExecFns;

verus! {

/// What a logged failure begins with.
pub const ERROR_PREFIX: &'static str = "Error: ";

/// What the host is told at the end of an exchange: the text to hand to its
/// output callback, if there is one, and the line to log.
#[derive(Debug, PartialEq, Eq)]
pub struct Report {
    pub output: Option<String>,
    pub log: String,
}

/// The mathematical value of a [`Report`].
pub struct ReportView {
    pub output: Option<Seq<char>>,
    pub log: Seq<char>,
}

impl View for Report {
    type V = ReportView;

    open spec fn view(&self) -> ReportView {
        ReportView {
            output: match self.output {
                Some(text) => Some(text@),
                None => None,
            },
            log: self.log@,
        }
    }
}

/// What the host is told about an outcome: a text is handed over and logged
/// as it is; of a failure nothing is handed over, and its message is logged
/// behind [`ERROR_PREFIX`].
pub open spec fn report_for(outcome: Result<Seq<char>, Seq<char>>) -> ReportView {
    match outcome {
        Ok(text) => ReportView { output: Some(text), log: text },
        Err(message) => ReportView { output: None, log: ERROR_PREFIX@ + message },
    }
}

/// How an exchange ends: a body that came back is read, a failure stays what
/// it is.
pub open spec fn outcome_of(exchange: Result<Seq<char>, Seq<char>>) -> Result<
    Seq<char>,
    Seq<char>,
> {
    match exchange {
        Ok(body) => reply_to(body),
        Err(message) => Err(message),
    }
}

/// Decides what the host is told about the outcome of an exchange.
pub fn report(outcome: Result<String, Failure>) -> (told: Report)
    ensures
        told@ == report_for(outcome_view(outcome)),
{
    match outcome {
        Ok(text) => {
            let log = text.clone();
            Report { output: Some(text), log }
        },
        Err(failure) => Report {
            output: None,
            log: String::from_str(ERROR_PREFIX).concat(failure.message.as_str()),
        },
    }
}

/// Ends an exchange, given the body that came back or the reason why none
/// did: reads the body and decides what the host is told.
pub fn conclude(exchange: Result<String, Failure>) -> (told: Report)
    ensures
        told@ == report_for(outcome_of(outcome_view(exchange))),
{
    match exchange {
        Ok(body) => report(read_reply(body.as_str())),
        Err(failure) => report(Err(failure)),
    }
}

} // verus!
