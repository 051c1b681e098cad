use openvino_genai::error::InferenceError;
use openvino_genai::SpeculativeGenerationConfig;

#[test]
fn config_from_native_status() {
    let cfg = SpeculativeGenerationConfig::new(0, 0x40).unwrap();
    assert_eq!(cfg.handle(), 0x40);
    assert!(matches!(
        SpeculativeGenerationConfig::new(-10, 0x40),
        Err(InferenceError::NotAllocated)
    ));
}

#[test]
fn setter_reports_native_status() {
    let mut cfg = SpeculativeGenerationConfig::new(0, 1).unwrap();
    assert_eq!(cfg.set_max_new_tokens(8, 0), Ok(()));
    assert_eq!(cfg.set_max_length(512, -4), Err(InferenceError::ParameterMismatch));
    assert_eq!(cfg.set_rng_seed(7, 9), Err(InferenceError::Undefined(9)));
    assert_eq!(cfg.set_num_assistant_tokens(4, 0), Ok(()));
    assert_eq!(cfg.handle(), 1);
}

#[test]
fn every_setter_accepts_success() {
    let mut cfg = SpeculativeGenerationConfig::new(0, 2).unwrap();
    assert_eq!(cfg.set_max_new_tokens(8, 0), Ok(()));
    assert_eq!(cfg.set_max_length(512, 0), Ok(()));
    assert_eq!(cfg.set_top_k(40, 0), Ok(()));
    assert_eq!(cfg.set_do_sample(false, 0), Ok(()));
    assert_eq!(cfg.set_num_beams(1, 0), Ok(()));
    assert_eq!(cfg.set_rng_seed(7, 0), Ok(()));
    assert_eq!(cfg.set_num_assistant_tokens(5, 0), Ok(()));
    assert_eq!(cfg.set_top_k(40, -1), Err(InferenceError::GeneralError));
}

#[test]
fn sampling_flag_is_one_or_zero() {
    assert_eq!(SpeculativeGenerationConfig::native_flag(true), 1);
    assert_eq!(SpeculativeGenerationConfig::native_flag(false), 0);
}

#[test]
fn config_records_assistant_tokens() {
    let mut config = SpeculativeGenerationConfig::new(0, 3).unwrap();
    config.set_max_new_tokens(8, 0).unwrap();
    config.set_num_assistant_tokens(4, 0).unwrap();
}
