use openvino_genai::error::{InferenceError, SetupError};

#[test]
fn status_zero_is_success() {
    assert_eq!(InferenceError::convert(0), Ok(()));
    assert_eq!(SetupError::from_status(0), Ok(()));
}

#[test]
fn documented_statuses_have_names() {
    let expected = [
        InferenceError::GeneralError,
        InferenceError::NotImplemented,
        InferenceError::NetworkNotLoaded,
        InferenceError::ParameterMismatch,
        InferenceError::NotFound,
        InferenceError::OutOfBounds,
        InferenceError::Unexpected,
        InferenceError::RequestBusy,
        InferenceError::ResultNotReady,
        InferenceError::NotAllocated,
        InferenceError::InferNotStarted,
        InferenceError::NetworkNotRead,
        InferenceError::InferCancelled,
        InferenceError::InvalidCParam,
        InferenceError::UnknownCError,
        InferenceError::NotImplementCMethod,
        InferenceError::UnknownException,
    ];
    for (i, e) in expected.iter().enumerate() {
        let status = -(i as i32) - 1;
        assert_eq!(InferenceError::convert(status), Err(*e));
    }
}

#[test]
fn undocumented_statuses_are_undefined() {
    assert_eq!(InferenceError::convert(-18), Err(InferenceError::Undefined(-18)));
    assert_eq!(InferenceError::convert(3), Err(InferenceError::Undefined(3)));
    assert_eq!(
        InferenceError::convert(i32::MIN),
        Err(InferenceError::Undefined(i32::MIN))
    );
}

#[test]
fn setup_errors_wrap_inference_errors() {
    assert_eq!(
        SetupError::from_status(-14),
        Err(SetupError::Inference(InferenceError::InvalidCParam))
    );
    assert_eq!(
        SetupError::from_status(42),
        Err(SetupError::Inference(InferenceError::Undefined(42)))
    );
}
