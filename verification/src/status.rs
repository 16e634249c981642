//! Reading the error flag of the graphics context.
//!
//! After each group of graphics calls the driver queries the error flag and
//! hands the code to [`get_error`], which names it and decides whether the
//! program may go on.

use vstd::prelude::*;
use vstd::string::StringExecFns;
use crate::constants::{
    INVALID_ENUM, INVALID_FRAMEBUFFER_OPERATION, INVALID_OPERATION, INVALID_VALUE, NO_ERROR,
    OUT_OF_MEMORY,
};

verus! {

/// The exit status of a program that stops on a graphics error.
pub const FAILURE_STATUS: i32 = 1;

/// The name under which an error code is reported.
pub open spec fn name_of(error: u32) -> Seq<char> {
    if error == INVALID_ENUM {
        "invalid enum"@
    } else if error == INVALID_VALUE {
        "invalid value"@
    } else if error == INVALID_OPERATION {
        "invalid operation"@
    } else if error == INVALID_FRAMEBUFFER_OPERATION {
        "invalid framebuffer operation"@
    } else if error == OUT_OF_MEMORY {
        "out of memory"@
    } else if error == NO_ERROR {
        "no error"@
    } else {
        "?"@
    }
}

/// The line that reports `error` at the point called `message`: the message,
/// a tab, and the name of the error.
pub open spec fn report_line(message: Seq<char>, error: u32) -> Seq<char> {
    message.push('\t') + name_of(error)
}

/// What a query of the error flag led to.
#[derive(Debug, Clone, PartialEq, Eq)]
pub struct ErrorReport {
    /// The line to print, without a line break.
    pub line: String,
    /// Whether the program has to stop, with [`FAILURE_STATUS`].
    pub fatal: bool,
}

/// Names an error code.
pub fn error_name(error: u32) -> (name: &'static str)
    ensures
        name@ == name_of(error),
{
    if error == INVALID_ENUM {
        "invalid enum"
    } else if error == INVALID_VALUE {
        "invalid value"
    } else if error == INVALID_OPERATION {
        "invalid operation"
    } else if error == INVALID_FRAMEBUFFER_OPERATION {
        "invalid framebuffer operation"
    } else if error == OUT_OF_MEMORY {
        "out of memory"
    } else if error == NO_ERROR {
        "no error"
    } else {
        "?"
    }
}

/// Reports the error code `error`, read from the graphics context at the
/// point called `message`.  Every code but [`NO_ERROR`] is fatal.
pub fn get_error(message: &str, error: u32) -> (report: ErrorReport)
    ensures
        report.line@ == report_line(message@, error),
        report.fatal <==> error != NO_ERROR,
{
    proof {
        reveal_strlit("\t");
    }
    let line = String::from_str(message).concat("\t").concat(error_name(error));
    assert("\t"@ =~= seq!['\t']);
    assert(line@ =~= report_line(message@, error));
    ErrorReport { line, fatal: error != NO_ERROR }
}

} // verus!
