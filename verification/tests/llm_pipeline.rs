use openvino_genai::error::{InferenceError, LoadingError, SetupError};
use openvino_genai::pipeline::LlmPipeline;
use openvino_genai::properties::{are_c_strings, flatten_properties, is_c_string};
use openvino_genai::DecodedResults;

#[test]
fn flatten_interleaves_keys_and_values() {
    let props = [("CACHE_DIR", "/path/to/cache"), ("MAX_PROMPT_LEN", "128")];
    assert_eq!(
        flatten_properties(&props),
        vec!["CACHE_DIR", "/path/to/cache", "MAX_PROMPT_LEN", "128"]
    );
    assert!(flatten_properties(&[]).is_empty());
}

#[test]
fn new_has_no_properties() {
    let args = LlmPipeline::new("models/llm", "CPU", Ok(())).unwrap();
    assert_eq!(args.models_path, "models/llm");
    assert_eq!(args.device, "CPU");
    assert_eq!(args.property_count, 0);
    assert!(args.properties.is_empty());
}

#[test]
fn with_properties_counts_flat_entries() {
    let props = [
        ("CACHE_DIR", "/path/to/cache"),
        ("MAX_PROMPT_LEN", "128"),
        ("MIN_RESPONSE_LEN", "64"),
    ];
    let args = LlmPipeline::with_properties("models/llm", "NPU", &props, Ok(())).unwrap();
    assert_eq!(args.property_count, 6);
    assert_eq!(
        args.properties,
        vec![
            "CACHE_DIR",
            "/path/to/cache",
            "MAX_PROMPT_LEN",
            "128",
            "MIN_RESPONSE_LEN",
            "64"
        ]
    );
}

#[test]
fn with_draft_and_properties_counts_pairs() {
    let main = [("CACHE_DIR", "/c")];
    let draft = [("A", "1"), ("B", "2")];
    let args =
        LlmPipeline::with_draft_and_properties("main", "GPU", &main, "draft", "CPU", &draft, Ok(()))
            .unwrap();
    assert_eq!(args.main_property_count, 1);
    assert_eq!(args.main_properties, vec!["CACHE_DIR", "/c"]);
    assert_eq!(args.draft_property_count, 2);
    assert_eq!(args.draft_properties, vec!["A", "1", "B", "2"]);
    assert_eq!(args.main_path, "main");
    assert_eq!(args.draft_device, "CPU");
}

#[test]
fn with_draft_has_no_properties() {
    let args = LlmPipeline::with_draft("main", "CPU", "draft", "GPU", Ok(())).unwrap();
    assert_eq!(args.main_path, "main");
    assert_eq!(args.main_device, "CPU");
    assert_eq!(args.draft_path, "draft");
    assert_eq!(args.draft_device, "GPU");
    assert_eq!(args.main_property_count, 0);
    assert_eq!(args.draft_property_count, 0);
    assert!(args.main_properties.is_empty() && args.draft_properties.is_empty());
}

#[test]
fn llm_pipeline_from_native_status() {
    assert_eq!(LlmPipeline::from_native(0, 77).unwrap().handle(), 77);
    match LlmPipeline::from_native(-1, 77) {
        Err(e) => assert_eq!(e, SetupError::Inference(InferenceError::GeneralError)),
        Ok(_) => panic!("a failing status must not give a pipeline"),
    }
}

#[test]
fn constructors_report_load_failure() {
    let failure = || SetupError::Loading(LoadingError::SystemFailure(String::from("missing")));
    assert!(matches!(
        LlmPipeline::new("m\0", "CPU", Err(String::from("missing"))),
        Err(e) if e == failure()
    ));
    assert!(matches!(
        LlmPipeline::with_properties("m", "CPU", &[("k", "v")], Err(String::from("missing"))),
        Err(e) if e == failure()
    ));
    assert!(matches!(
        LlmPipeline::with_draft("m", "CPU", "d", "CPU", Err(String::from("missing"))),
        Err(e) if e == failure()
    ));
    assert!(matches!(
        LlmPipeline::with_draft_and_properties("m", "CPU", &[], "d", "CPU", &[], Err(String::from("missing"))),
        Err(e) if e == failure()
    ));
}

#[test]
fn nul_characters_are_detected() {
    assert!(is_c_string("CACHE_DIR"));
    assert!(is_c_string(""));
    assert!(!is_c_string("a\0b"));
    assert!(!is_c_string("\0"));
    assert!(are_c_strings(&[("a", "b"), ("c", "d")]));
    assert!(!are_c_strings(&[("a", "b"), ("c", "\0")]));
    assert!(are_c_strings(&[]));
}

#[test]
fn decoded_results_from_native_status() {
    assert_eq!(DecodedResults::from_native(0, 5).unwrap().handle(), 5);
    assert!(matches!(DecodedResults::from_native(-13, 5), Err(InferenceError::InferCancelled)));
}
