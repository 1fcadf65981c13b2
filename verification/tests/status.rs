use lime_suite::error::{
    status_into_result, status_with_value, value_into_result, Error, LmsRetVal,
    LmsRetValNonStandard,
};

#[test]
fn success_code_is_success() {
    assert_eq!(LmsRetVal::from(0), LmsRetVal::Success);
    assert!(LmsRetVal::from(0).into_result().is_ok());
}

#[test]
fn nonzero_code_is_general_error() {
    assert_eq!(LmsRetVal::from(-1), LmsRetVal::GeneralError);
    assert_eq!(LmsRetVal::from(7), LmsRetVal::GeneralError);
    assert!(matches!(
        LmsRetVal::from(3).into_result(),
        Err(Error::Lms(LmsRetVal::GeneralError))
    ));
}

#[test]
fn non_standard_values() {
    assert_eq!(LmsRetValNonStandard::from(-1), LmsRetValNonStandard::GeneralError);
    assert_eq!(LmsRetValNonStandard::from(5), LmsRetValNonStandard::Value(5));
    assert_eq!(LmsRetValNonStandard::from(-7), LmsRetValNonStandard::Value(-7));
    assert_eq!(LmsRetValNonStandard::from(5).into_result().unwrap(), 5);
    assert!(matches!(
        LmsRetValNonStandard::from(-1).into_result(),
        Err(Error::Lms(LmsRetVal::GeneralError))
    ));
}

#[test]
fn descriptions() {
    assert_eq!(
        LmsRetValNonStandard::Value(-42).to_string(),
        "Identifier: Value. Description: The function executed successfully with value(-42)."
    );
    assert_eq!(
        Error::Lms(LmsRetVal::GeneralError).to_string(),
        "LMS error: Identifier: GeneralError. Description: Some horrible error has occurred."
    );
    assert_eq!(Error::CantDispose.to_string(), "Can't dispose");
}

#[test]
fn readings_agree_on_failure() {
    assert!(status_into_result(-1).is_err());
    assert!(value_into_result(-1).is_err());
    assert!(status_into_result(0).is_ok());
    assert_eq!(value_into_result(0).unwrap(), 0);
    // A positive code is a value for one reading and a failure for the other.
    assert_eq!(value_into_result(4).unwrap(), 4);
    assert!(status_into_result(4).is_err());
}

#[test]
fn status_with_value_keeps_value_on_success_only() {
    assert_eq!(status_with_value(0, 17u16).unwrap(), 17);
    assert!(matches!(
        status_with_value(-1, 17u16),
        Err(Error::Lms(LmsRetVal::GeneralError))
    ));
}

#[test]
fn error_from_ret_val() {
    let e: Error = Error::from(LmsRetVal::GeneralError);
    assert!(matches!(e, Error::Lms(LmsRetVal::GeneralError)));
    assert_eq!(Error::InvalidValue.to_string(), "Invalid value");
    assert_eq!(Error::InvalidInput.to_string(), "Invalid input");
    assert_eq!(Error::NotSupported.to_string(), "Feature not supported");
    assert_eq!(
        LmsRetVal::Success.to_string(),
        "Identifier: Success. Description: The function executed successfully."
    );
    assert_eq!(
        LmsRetValNonStandard::GeneralError.to_string(),
        "Identifier: GeneralError. Description: Some horrible error has occurred."
    );
    assert_eq!(
        LmsRetValNonStandard::Value(0).to_string(),
        "Identifier: Value. Description: The function executed successfully with value(0)."
    );
}
