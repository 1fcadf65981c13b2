//! Return values of LimeSuite calls and the crate's error type.
//!
//! Every LimeSuite call reports its outcome as a C `int`: the standard
//! calls answer `0` on success and `-1` on failure, the others answer a
//! non-negative value (a count, an index) or `-1` on failure.

use vstd::prelude::*;
use vstd::string::StringExecFns;

use crate::bindings::LMS_SUCCESS;
use crate::text::decimal;
use crate::text::decimal_string;

verus! {

/// Status code of a standard LimeSuite call.
#[allow(non_camel_case_types)]
pub type LMS_RV = i32;

/// Status code of a LimeSuite call that answers a value.
#[allow(non_camel_case_types)]
pub type LMS_RV_NS = i32;

/// General error for all functions.
pub const LMS_GENERAL_ERROR: i32 = -1;

/// LMS function return values.
#[derive(Debug, Copy, Clone, PartialEq, Eq, Structural)]
pub enum LmsRetVal {
    Success,
    GeneralError,
}

/// LMS function return values of the calls that answer a value.
#[derive(Debug, Copy, Clone, PartialEq, Eq, Structural)]
pub enum LmsRetValNonStandard {
    Value(LMS_RV_NS),
    GeneralError,
}

/// Errors of the crate.
#[derive(Debug)]
pub enum Error {
    Lms(LmsRetVal),
    InvalidValue,
    InvalidInput,
    NotSupported,
    CantDispose,
}

// ---------------------------------------------------------------------
// Specifications
// ---------------------------------------------------------------------

/// What `LmsRetVal::from` makes of a status code: any code but `0` is a
/// general error.
pub open spec fn ret_val_of(code: i32) -> LmsRetVal {
    if code == LMS_SUCCESS {
        LmsRetVal::Success
    } else {
        LmsRetVal::GeneralError
    }
}

/// What `LmsRetVal::into_result` gives.
pub open spec fn ret_val_result(v: LmsRetVal) -> Result<(), Error> {
    match v {
        LmsRetVal::Success => Ok(()),
        LmsRetVal::GeneralError => Err(Error::Lms(LmsRetVal::GeneralError)),
    }
}

/// The `Result` of a standard call that answered `code`.
pub open spec fn status_result(code: i32) -> Result<(), Error> {
    ret_val_result(ret_val_of(code))
}

/// The `Result` of a standard call that answered `code` and, on success,
/// left `value` in its output parameter.
pub open spec fn status_value<T>(code: i32, value: T) -> Result<T, Error> {
    if code == LMS_SUCCESS {
        Ok(value)
    } else {
        Err(Error::Lms(LmsRetVal::GeneralError))
    }
}

/// What `LmsRetValNonStandard::from` makes of a status code: `-1` is the
/// general error, any other code a value.
pub open spec fn ret_val_ns_of(code: i32) -> LmsRetValNonStandard {
    if code == LMS_GENERAL_ERROR {
        LmsRetValNonStandard::GeneralError
    } else {
        LmsRetValNonStandard::Value(code)
    }
}

/// What `LmsRetValNonStandard::into_result` gives.
pub open spec fn ret_val_ns_result(v: LmsRetValNonStandard) -> Result<i32, Error> {
    match v {
        LmsRetValNonStandard::Value(value) => Ok(value),
        LmsRetValNonStandard::GeneralError => Err(Error::Lms(LmsRetVal::GeneralError)),
    }
}

/// The `Result` of a value-answering call that answered `code`.
pub open spec fn value_result(code: i32) -> Result<i32, Error> {
    ret_val_ns_result(ret_val_ns_of(code))
}

/// The text `LmsRetVal` is displayed as.
pub open spec fn ret_val_text(v: LmsRetVal) -> Seq<char> {
    match v {
        LmsRetVal::Success => "Identifier: Success. Description: The function executed successfully."@,
        LmsRetVal::GeneralError => "Identifier: GeneralError. Description: Some horrible error has occurred."@,
    }
}

/// The text `LmsRetValNonStandard` is displayed as.
pub open spec fn ret_val_ns_text(v: LmsRetValNonStandard) -> Seq<char> {
    match v {
        LmsRetValNonStandard::Value(value) => "Identifier: Value. Description: The function executed successfully with value("@
            + decimal(value as int) + ")."@,
        LmsRetValNonStandard::GeneralError => "Identifier: GeneralError. Description: Some horrible error has occurred."@,
    }
}

/// The text `Error` is displayed as.
pub open spec fn error_text(e: Error) -> Seq<char> {
    match e {
        Error::Lms(v) => "LMS error: "@ + ret_val_text(v),
        Error::InvalidValue => "Invalid value"@,
        Error::InvalidInput => "Invalid input"@,
        Error::NotSupported => "Feature not supported"@,
        Error::CantDispose => "Can't dispose"@,
    }
}

// ---------------------------------------------------------------------
// LmsRetVal
// ---------------------------------------------------------------------

impl From<LMS_RV> for LmsRetVal {
    fn from(code: LMS_RV) -> (r: LmsRetVal) {
        if code == LMS_SUCCESS {
            LmsRetVal::Success
        } else {
            LmsRetVal::GeneralError
        }
    }
}

impl vstd::std_specs::convert::FromSpecImpl<LMS_RV> for LmsRetVal {
    open spec fn obeys_from_spec() -> bool {
        true
    }

    open spec fn from_spec(code: LMS_RV) -> LmsRetVal {
        ret_val_of(code)
    }
}

impl LmsRetVal {
    /// Convert the return value into a standard Result type
    pub fn into_result(self) -> (r: Result<(), Error>)
        ensures
            r == ret_val_result(self),
            r is Ok <==> self == LmsRetVal::Success,
    {
        match self {
            LmsRetVal::Success => Ok(()),
            LmsRetVal::GeneralError => Err(Error::Lms(LmsRetVal::GeneralError)),
        }
    }

    /// The text this value is displayed as.
    pub fn to_string(&self) -> (s: String)
        ensures
            s@ == ret_val_text(*self),
    {
        match self {
            LmsRetVal::Success => String::from_str(
                "Identifier: Success. Description: The function executed successfully.",
            ),
            LmsRetVal::GeneralError => String::from_str(
                "Identifier: GeneralError. Description: Some horrible error has occurred.",
            ),
        }
    }
}

/// The `Result` of a standard call from its status code: `Ok(())` exactly
/// when the call answered `0`.
pub fn status_into_result(code: LMS_RV) -> (r: Result<(), Error>)
    ensures
        r == status_result(code),
        r is Ok <==> code == LMS_SUCCESS,
        r matches Err(e) ==> e == Error::Lms(LmsRetVal::GeneralError),
{
    LmsRetVal::from(code).into_result()
}

/// The `Result` of a standard call that fills in an output value: the
/// value when the call answered `0`, the general error otherwise.
pub fn status_with_value<T>(code: LMS_RV, value: T) -> (r: Result<T, Error>)
    ensures
        r == status_value(code, value),
        r is Ok <==> code == 0,
        r matches Ok(v) ==> v == value,
        r matches Err(e) ==> e == Error::Lms(LmsRetVal::GeneralError),
{
    match status_into_result(code) {
        Ok(()) => Ok(value),
        Err(e) => Err(e),
    }
}

// ---------------------------------------------------------------------
// LmsRetValNonStandard
// ---------------------------------------------------------------------

impl From<LMS_RV_NS> for LmsRetValNonStandard {
    fn from(code: LMS_RV_NS) -> (r: LmsRetValNonStandard) {
        if code == LMS_GENERAL_ERROR {
            LmsRetValNonStandard::GeneralError
        } else {
            LmsRetValNonStandard::Value(code)
        }
    }
}

impl vstd::std_specs::convert::FromSpecImpl<LMS_RV_NS> for LmsRetValNonStandard {
    open spec fn obeys_from_spec() -> bool {
        true
    }

    open spec fn from_spec(code: LMS_RV_NS) -> LmsRetValNonStandard {
        ret_val_ns_of(code)
    }
}

impl LmsRetValNonStandard {
    /// Convert the return value into a standard Result type
    pub fn into_result(self) -> (r: Result<i32, Error>)
        ensures
            r == ret_val_ns_result(self),
            r is Ok <==> self != LmsRetValNonStandard::GeneralError,
    {
        match self {
            LmsRetValNonStandard::GeneralError => Err(Error::Lms(LmsRetVal::GeneralError)),
            LmsRetValNonStandard::Value(value) => Ok(value),
        }
    }

    /// The text this value is displayed as.
    pub fn to_string(&self) -> (s: String)
        ensures
            s@ == ret_val_ns_text(*self),
    {
        match self {
            LmsRetValNonStandard::Value(v) => {
                let s = String::from_str(
                    "Identifier: Value. Description: The function executed successfully with value(",
                );
                let digits = decimal_string(*v);
                let s = s.concat(digits.as_str());
                s.concat(").")
            },
            LmsRetValNonStandard::GeneralError => String::from_str(
                "Identifier: GeneralError. Description: Some horrible error has occurred.",
            ),
        }
    }
}

/// The `Result` of a value-answering call from its status code: the value
/// unless the call answered `-1`.
pub fn value_into_result(code: LMS_RV_NS) -> (r: Result<i32, Error>)
    ensures
        r == value_result(code),
        r is Ok <==> code != LMS_GENERAL_ERROR,
        r matches Ok(v) ==> v == code,
        r matches Err(e) ==> e == Error::Lms(LmsRetVal::GeneralError),
{
    LmsRetValNonStandard::from(code).into_result()
}

/// The two readings of a status code agree on failure: when a
/// value-answering call failed, read as a standard call it failed too,
/// with the same error; and a code a standard call succeeds with reads as
/// the value `0`.
pub proof fn lemma_status_readings_agree(code: i32)
    ensures
        value_result(code) is Err ==> status_result(code) == Err::<(), Error>(
            value_result(code)->Err_0,
        ),
        status_result(code) is Ok ==> value_result(code) == Ok::<i32, Error>(0),
{
}

// ---------------------------------------------------------------------
// Error
// ---------------------------------------------------------------------

impl From<LmsRetVal> for Error {
    fn from(lms_rv_error: LmsRetVal) -> (r: Error) {
        Error::Lms(lms_rv_error)
    }
}

impl vstd::std_specs::convert::FromSpecImpl<LmsRetVal> for Error {
    open spec fn obeys_from_spec() -> bool {
        true
    }

    open spec fn from_spec(lms_rv_error: LmsRetVal) -> Error {
        Error::Lms(lms_rv_error)
    }
}

impl Error {
    /// The text this error is displayed as.
    pub fn to_string(&self) -> (s: String)
        ensures
            s@ == error_text(*self),
    {
        match self {
            Error::Lms(e) => {
                let s = String::from_str("LMS error: ");
                let inner = e.to_string();
                s.concat(inner.as_str())
            },
            Error::InvalidValue => String::from_str("Invalid value"),
            Error::InvalidInput => String::from_str("Invalid input"),
            Error::NotSupported => String::from_str("Feature not supported"),
            Error::CantDispose => String::from_str("Can't dispose"),
        }
    }
}

} // verus!
