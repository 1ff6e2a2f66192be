//! Classification of the copy tool's numeric exit status.
//!
//! The tool reports its outcome as a small integer: values below eight mean
//! the run succeeded and encode which of three conditions occurred (some
//! files copied, extra entries found, mismatched entries found); values from
//! eight to fifteen add a failure condition to the same three; sixteen is a
//! fatal error with nothing copied; anything else is outside the documented
//! range and is reported as is, never folded into a neighbouring code.

use vstd::prelude::*;

verus! {

/// Success exit codes: the values below eight, one variant per combination
/// of the three success conditions.
#[allow(non_camel_case_types)]
#[derive(Debug, Clone, Copy, PartialEq, Eq, Structural)]
pub enum OkExitCode {
    NO_CHANGE,
    SOME_COPIES,
    EXTRA_FOUND,
    SOME_COPIES_EXTRA_FOUND,
    MISMATCHES,
    SOME_COPIES_MISMATCHES,
    MISMATCHES_EXTRA_FOUND,
    SOME_COPIES_MISMATCHES_EXTRA_FOUND,
}

/// Exit codes that include a failure, the dedicated fatal code, and a
/// catch-all for values outside the documented range.
#[allow(non_camel_case_types)]
#[derive(Debug, Clone, Copy, PartialEq, Eq, Structural)]
pub enum ErrExitCode {
    FAIL,
    SOME_COPIES_FAIL,
    FAIL_EXTRA_FOUND,
    SOME_COPIES_FAIL_EXTRA_FOUND,
    FAIL_MISMATCHES,
    SOME_COPIES_FAIL_MISMATCHES,
    FAIL_MISMATCHES_EXTRA_FOUND,
    SOME_COPIES_FAIL_MISMATCHES_EXTRA_FOUND,
    NO_CHANGE_FATAL_ERROR,
    INVALID_EXIT_CODE(i32),
}

impl OkExitCode {
    /// The documented meaning of each exit status value.
    pub open spec fn spec_classify(n: i32) -> Result<OkExitCode, ErrExitCode> {
        if n == 0 {
            Ok(OkExitCode::NO_CHANGE)
        } else if n == 1 {
            Ok(OkExitCode::SOME_COPIES)
        } else if n == 2 {
            Ok(OkExitCode::EXTRA_FOUND)
        } else if n == 3 {
            Ok(OkExitCode::SOME_COPIES_EXTRA_FOUND)
        } else if n == 4 {
            Ok(OkExitCode::MISMATCHES)
        } else if n == 5 {
            Ok(OkExitCode::SOME_COPIES_MISMATCHES)
        } else if n == 6 {
            Ok(OkExitCode::MISMATCHES_EXTRA_FOUND)
        } else if n == 7 {
            Ok(OkExitCode::SOME_COPIES_MISMATCHES_EXTRA_FOUND)
        } else if n == 8 {
            Err(ErrExitCode::FAIL)
        } else if n == 9 {
            Err(ErrExitCode::SOME_COPIES_FAIL)
        } else if n == 10 {
            Err(ErrExitCode::FAIL_EXTRA_FOUND)
        } else if n == 11 {
            Err(ErrExitCode::SOME_COPIES_FAIL_EXTRA_FOUND)
        } else if n == 12 {
            Err(ErrExitCode::FAIL_MISMATCHES)
        } else if n == 13 {
            Err(ErrExitCode::SOME_COPIES_FAIL_MISMATCHES)
        } else if n == 14 {
            Err(ErrExitCode::FAIL_MISMATCHES_EXTRA_FOUND)
        } else if n == 15 {
            Err(ErrExitCode::SOME_COPIES_FAIL_MISMATCHES_EXTRA_FOUND)
        } else if n == 16 {
            Err(ErrExitCode::NO_CHANGE_FATAL_ERROR)
        } else {
            Err(ErrExitCode::INVALID_EXIT_CODE(n))
        }
    }

    /// Classifies an exit status: `Ok` exactly for the documented success
    /// values zero to seven, the matching failure variant for eight to
    /// sixteen, and the catch-all variant for anything else.
    pub fn try_from(n: i32) -> (r: Result<OkExitCode, ErrExitCode>)
        ensures
            r == OkExitCode::spec_classify(n),
    {
        if n == 0 {
            Ok(OkExitCode::NO_CHANGE)
        } else if n == 1 {
            Ok(OkExitCode::SOME_COPIES)
        } else if n == 2 {
            Ok(OkExitCode::EXTRA_FOUND)
        } else if n == 3 {
            Ok(OkExitCode::SOME_COPIES_EXTRA_FOUND)
        } else if n == 4 {
            Ok(OkExitCode::MISMATCHES)
        } else if n == 5 {
            Ok(OkExitCode::SOME_COPIES_MISMATCHES)
        } else if n == 6 {
            Ok(OkExitCode::MISMATCHES_EXTRA_FOUND)
        } else if n == 7 {
            Ok(OkExitCode::SOME_COPIES_MISMATCHES_EXTRA_FOUND)
        } else if n == 8 {
            Err(ErrExitCode::FAIL)
        } else if n == 9 {
            Err(ErrExitCode::SOME_COPIES_FAIL)
        } else if n == 10 {
            Err(ErrExitCode::FAIL_EXTRA_FOUND)
        } else if n == 11 {
            Err(ErrExitCode::SOME_COPIES_FAIL_EXTRA_FOUND)
        } else if n == 12 {
            Err(ErrExitCode::FAIL_MISMATCHES)
        } else if n == 13 {
            Err(ErrExitCode::SOME_COPIES_FAIL_MISMATCHES)
        } else if n == 14 {
            Err(ErrExitCode::FAIL_MISMATCHES_EXTRA_FOUND)
        } else if n == 15 {
            Err(ErrExitCode::SOME_COPIES_FAIL_MISMATCHES_EXTRA_FOUND)
        } else if n == 16 {
            Err(ErrExitCode::NO_CHANGE_FATAL_ERROR)
        } else {
            Err(ErrExitCode::INVALID_EXIT_CODE(n))
        }
    }
}

} // verus!
