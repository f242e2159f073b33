//! Result codes of the Emscripten HTML5 API, as a Rust enum.

use vstd::prelude::*;
use vstd::string::*;

verus! {

/// Result code returned by Emscripten HTML5 API calls.
#[derive(Clone, Copy, PartialEq, Eq, Structural, Debug)]
pub enum EmscriptenResult {
    /// The call succeeded.
    Success,
    /// The call was deferred.
    Deferred,
    /// The operation is not supported.
    NotSupported,
    /// The call failed and was not deferred.
    FailedNotDeferred,
    /// The target was invalid.
    InvalidTarget,
    /// The target was unknown.
    UnknownTarget,
    /// A parameter was invalid.
    InvalidParam,
    /// The call failed.
    Failed,
    /// No data was available.
    NoData,
    /// The call timed out.
    TimedOut,
}

/// The numeric code of each result, as the Emscripten headers define it.
pub open spec fn spec_result_code(result: EmscriptenResult) -> int {
    match result {
        EmscriptenResult::Success => 0,
        EmscriptenResult::Deferred => 1,
        EmscriptenResult::NotSupported => -1,
        EmscriptenResult::FailedNotDeferred => -2,
        EmscriptenResult::InvalidTarget => -3,
        EmscriptenResult::UnknownTarget => -4,
        EmscriptenResult::InvalidParam => -5,
        EmscriptenResult::Failed => -6,
        EmscriptenResult::NoData => -7,
        EmscriptenResult::TimedOut => -8,
    }
}

impl EmscriptenResult {
    /// Parses a numeric code: the unique result with that code, or an
    /// error when no result carries it.
    pub fn try_from(value: i32) -> (result: Result<EmscriptenResult, ()>)
        ensures
            match result {
                Ok(r) => spec_result_code(r) == value,
                Err(_) => forall|r: EmscriptenResult| #[trigger] spec_result_code(r) != value,
            },
    {
        match value {
            0 => Ok(EmscriptenResult::Success),
            1 => Ok(EmscriptenResult::Deferred),
            -1 => Ok(EmscriptenResult::NotSupported),
            -2 => Ok(EmscriptenResult::FailedNotDeferred),
            -3 => Ok(EmscriptenResult::InvalidTarget),
            -4 => Ok(EmscriptenResult::UnknownTarget),
            -5 => Ok(EmscriptenResult::InvalidParam),
            -6 => Ok(EmscriptenResult::Failed),
            -7 => Ok(EmscriptenResult::NoData),
            -8 => Ok(EmscriptenResult::TimedOut),
            _ => Err(()),
        }
    }
}

/// The name of the result that carries a numeric code, or `Unknown`.
pub open spec fn spec_result_name(value: int) -> Seq<char> {
    if value == 0 {
        "Success"@
    } else if value == 1 {
        "Deferred"@
    } else if value == -1 {
        "NotSupported"@
    } else if value == -2 {
        "FailedNotDeferred"@
    } else if value == -3 {
        "InvalidTarget"@
    } else if value == -4 {
        "UnknownTarget"@
    } else if value == -5 {
        "InvalidParam"@
    } else if value == -6 {
        "Failed"@
    } else if value == -7 {
        "NoData"@
    } else if value == -8 {
        "TimedOut"@
    } else {
        "Unknown"@
    }
}

/// Renders a numeric Emscripten result code as its name.
pub fn read_emscripten_result(value: i32) -> (name: String)
    ensures
        name@ == spec_result_name(value as int),
{
    match EmscriptenResult::try_from(value) {
        Ok(EmscriptenResult::Success) => String::from_str("Success"),
        Ok(EmscriptenResult::Deferred) => String::from_str("Deferred"),
        Ok(EmscriptenResult::NotSupported) => String::from_str("NotSupported"),
        Ok(EmscriptenResult::FailedNotDeferred) => String::from_str("FailedNotDeferred"),
        Ok(EmscriptenResult::InvalidTarget) => String::from_str("InvalidTarget"),
        Ok(EmscriptenResult::UnknownTarget) => String::from_str("UnknownTarget"),
        Ok(EmscriptenResult::InvalidParam) => String::from_str("InvalidParam"),
        Ok(EmscriptenResult::Failed) => String::from_str("Failed"),
        Ok(EmscriptenResult::NoData) => String::from_str("NoData"),
        Ok(EmscriptenResult::TimedOut) => String::from_str("TimedOut"),
        Err(_) => {
            proof {
                assert(spec_result_code(EmscriptenResult::Success) != value);
                assert(spec_result_code(EmscriptenResult::Deferred) != value);
                assert(spec_result_code(EmscriptenResult::NotSupported) != value);
                assert(spec_result_code(EmscriptenResult::FailedNotDeferred) != value);
                assert(spec_result_code(EmscriptenResult::InvalidTarget) != value);
                assert(spec_result_code(EmscriptenResult::UnknownTarget) != value);
                assert(spec_result_code(EmscriptenResult::InvalidParam) != value);
                assert(spec_result_code(EmscriptenResult::Failed) != value);
                assert(spec_result_code(EmscriptenResult::NoData) != value);
                assert(spec_result_code(EmscriptenResult::TimedOut) != value);
            }
            String::from_str("Unknown")
        }
    }
}

} // verus!
