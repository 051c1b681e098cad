use openvino_genai::error::InferenceError;
use openvino_genai::results::{SpeculativeDecodedResults, DRAFT_SIDE, MAIN_SIDE};

#[test]
fn results_from_native_status() {
    let r = SpeculativeDecodedResults::from_native(0, 0xabc).unwrap();
    assert_eq!(r.handle(), 0xabc);
    assert!(matches!(
        SpeculativeDecodedResults::from_native(-9, 0xabc),
        Err(InferenceError::ResultNotReady)
    ));
}

#[test]
fn null_metrics_are_absent() {
    let r = SpeculativeDecodedResults::from_native(0, 1).unwrap();
    assert!(matches!(r.get_sd_perf_metrics(0, 0), Ok(None)));
    let m = r.get_sd_perf_metrics(0, 0x55).unwrap().expect("a non-null handle gives metrics");
    assert_eq!(m.handle(), 0x55);
    assert!(matches!(r.get_sd_perf_metrics(-6, 0x55), Err(InferenceError::OutOfBounds)));
}

#[test]
fn metric_queries_report_native_values() {
    let r = SpeculativeDecodedResults::from_native(0, 1).unwrap();
    let m = r.get_sd_perf_metrics(0, 2).unwrap().unwrap();
    assert_eq!(m.num_accepted_tokens(0, 12), Ok(12));
    assert_eq!(m.num_accepted_tokens(-7, 12), Err(InferenceError::Unexpected));
    let main = m.main_model_metrics();
    let draft = m.draft_model_metrics();
    assert_eq!(main.side_index(), MAIN_SIDE);
    assert_eq!(main.side_index(), 0);
    assert_eq!(draft.side_index(), DRAFT_SIDE);
    assert_eq!(draft.side_index(), 1);
    assert_eq!(main.metrics().handle(), 2);
    assert_eq!(draft.metrics().handle(), 2);
    assert_eq!(main.num_generated_tokens(0, 9), Ok(9));
    assert_eq!(draft.num_generated_tokens(-100, 9), Err(InferenceError::Undefined(-100)));
}
