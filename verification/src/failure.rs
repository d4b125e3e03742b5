//! What can go wrong in a worker, and what its supervisor does about it.

use crate::number::{decimal_text, push_decimal};
use crate::text::{chars_of, string_of};
use crate::time_range::TimeError;
use vstd::prelude::*;

verus! {

/// A failure that ends a worker's run.
#[derive(Debug, Clone, PartialEq, Eq)]
pub enum Failure {
    /// The chat gateway closed the connection, with its code and its words.
    GatewayClosed { code: Option<u16>, body: String },
    /// The printer's queue was closed: no producer is left.
    PrinterStopped,
    /// A job could not be handed to the printer's worker.
    PrinterDied,
    /// A time of day in the configuration could not be read.
    Time(TimeError),
    /// Any other failure, in the words of whoever met it.
    Other(String),
}

/// A close code as it is logged: `Some(..)` around the number, or `None`.
pub open spec fn close_code_text(code: Option<u16>) -> Seq<char> {
    match code {
        Some(c) => "Some("@ + decimal_text(c as nat) + ")"@,
        None => "None"@,
    }
}

impl Failure {
    /// The failure in words, as it is logged.
    pub open spec fn message_spec(&self) -> Seq<char> {
        match self {
            Failure::GatewayClosed { code, body } => "Gateway closed on us with code "@
                + close_code_text(*code) + ": "@ + body@,
            Failure::PrinterStopped => "Printer thread stopped, restarting."@,
            Failure::PrinterDied => "Printer thread died"@,
            Failure::Time(e) => e.message_spec(),
            Failure::Other(text) => text@,
        }
    }

    /// The failure in words, as it is logged.
    pub fn message(&self) -> (r: String)
        ensures
            r@ == self.message_spec(),
    {
        match self {
            Failure::GatewayClosed { code, body } => {
                let mut out = chars_of("Gateway closed on us with code ");
                match code {
                    Some(c) => {
                        let mut open = chars_of("Some(");
                        out.append(&mut open);
                        push_decimal(&mut out, *c as u64);
                        let mut close = chars_of(")");
                        out.append(&mut close);
                    },
                    None => {
                        let mut none = chars_of("None");
                        out.append(&mut none);
                    },
                }
                let mut colon = chars_of(": ");
                out.append(&mut colon);
                let mut words = chars_of(body.as_str());
                out.append(&mut words);
                assert(out@ =~= self.message_spec());
                string_of(&out)
            },
            Failure::PrinterStopped => String::from_str("Printer thread stopped, restarting."),
            Failure::PrinterDied => String::from_str("Printer thread died"),
            Failure::Time(e) => e.message(),
            Failure::Other(text) => text.clone(),
        }
    }
}

/// What a supervisor does when a step that must not fail has failed: it logs
/// one line and then stops its thread for the given reason.
#[derive(Debug, Clone, PartialEq, Eq)]
pub struct Abort {
    /// The line to log.
    pub log: String,
    /// The words to stop with.
    pub reason: String,
}

/// The line to log for the result of a worker's run: the failure in words,
/// and nothing for a run that went well.
pub fn log_result(res: Result<(), Failure>) -> (line: Option<String>)
    ensures
        match res {
            Ok(_) => line is None,
            Err(e) => line matches Some(text) && text@ == e.message_spec(),
        },
{
    match res {
        Ok(_) => None,
        Err(e) => Some(e.message()),
    }
}

/// The verdict on a step that must not fail: nothing where it went well;
/// where it failed, the line to log and the words to stop the thread with.
pub fn fatal_error(res: Result<(), Failure>) -> (verdict: Option<Abort>)
    ensures
        match res {
            Ok(_) => verdict is None,
            Err(e) => verdict matches Some(abort) && abort.log@ == e.message_spec()
                && abort.reason@ == "Fatal error"@,
        },
{
    match log_result(res) {
        None => None,
        Some(log) => Some(Abort { log, reason: String::from_str("Fatal error") }),
    }
}

} // verus!
