use openvino_genai::error::{LoadingError, SetupError};
use openvino_genai::pipeline::SpeculativeLlmPipeline;

#[test]
fn builder_with_draft_gives_constructor_arguments() {
    let model_path = String::from("tests/fixtures/qwen3");
    let result = SpeculativeLlmPipeline::builder(&model_path, "CPU")
        .draft(&model_path, "CPU")
        .build(Ok(()));
    let args = match result {
        Ok(a) => a,
        Err(e) => panic!("a builder with a draft model must build: {e:?}"),
    };
    assert_eq!(args.main_path, model_path);
    assert_eq!(args.main_device, "CPU");
    assert_eq!(args.draft_path, model_path);
    assert_eq!(args.draft_device, "CPU");
    assert_eq!(args.main_property_count, 0);
    assert!(args.main_properties.is_empty());
    assert_eq!(args.draft_property_count, 0);
    assert!(args.draft_properties.is_empty());
}

#[test]
fn build_without_draft_is_refused() {
    let result = SpeculativeLlmPipeline::builder("main", "CPU")
        .main_property("CACHE_DIR", "/tmp/cache")
        .build(Ok(()));
    match result {
        Err(e) => assert_eq!(e, SetupError::Loading(LoadingError::CannotFindLibraryPath)),
        Ok(_) => panic!("a builder without a draft model must not build"),
    }
}

#[test]
fn build_keeps_properties_in_order() {
    let args = SpeculativeLlmPipeline::builder("main", "NPU")
        .main_property("MAX_PROMPT_LEN", "128")
        .draft_property("CACHE_DIR", "/cache/draft")
        .draft("draft", "CPU")
        .main_property("MIN_RESPONSE_LEN", "64")
        .build(Ok(()))
        .unwrap();
    assert_eq!(args.main_property_count, 2);
    assert_eq!(
        args.main_properties,
        vec!["MAX_PROMPT_LEN", "128", "MIN_RESPONSE_LEN", "64"]
    );
    assert_eq!(args.draft_property_count, 1);
    assert_eq!(args.draft_properties, vec!["CACHE_DIR", "/cache/draft"]);
    assert_eq!(args.main_device, "NPU");
}

#[test]
fn last_draft_wins() {
    let args = SpeculativeLlmPipeline::builder("main", "CPU")
        .draft("first", "GPU")
        .draft("second", "NPU")
        .build(Ok(()))
        .unwrap();
    assert_eq!(args.draft_path, "second");
    assert_eq!(args.draft_device, "NPU");
}

#[test]
fn builder_steps_commute() {
    let a = SpeculativeLlmPipeline::builder("m", "CPU")
        .draft("d", "CPU")
        .main_property("k", "v")
        .draft_property("x", "y")
        .build(Ok(()))
        .unwrap();
    let b = SpeculativeLlmPipeline::builder("m", "CPU")
        .draft_property("x", "y")
        .main_property("k", "v")
        .draft("d", "CPU")
        .build(Ok(()))
        .unwrap();
    assert_eq!(a.main_properties, b.main_properties);
    assert_eq!(a.draft_properties, b.draft_properties);
    assert_eq!(a.draft_path, b.draft_path);
    assert_eq!(a.main_property_count, b.main_property_count);
}

#[test]
fn speculative_pipeline_from_native_status() {
    let p = SpeculativeLlmPipeline::from_native(0, 0x1000).unwrap();
    assert_eq!(p.handle(), 0x1000);
    match SpeculativeLlmPipeline::from_native(-5, 0x1000) {
        Err(SetupError::Inference(e)) => {
            assert_eq!(e, openvino_genai::error::InferenceError::NotFound)
        }
        _ => panic!("a failing status must give an inference error"),
    }
}

#[test]
fn load_failure_comes_first() {
    let result = SpeculativeLlmPipeline::builder("main", "CPU").build(Err(String::from("no runtime")));
    match result {
        Err(e) => assert_eq!(
            e,
            SetupError::Loading(LoadingError::SystemFailure(String::from("no runtime")))
        ),
        Ok(_) => panic!("a failed load must not build"),
    }
    let with_nul = SpeculativeLlmPipeline::builder("ma\0in", "CPU")
        .draft("draft", "CPU")
        .build(Err(String::from("gone")));
    assert!(matches!(with_nul, Err(SetupError::Loading(LoadingError::SystemFailure(_)))));
}

#[test]
fn builder_reports_draft_and_c_strings() {
    let b = SpeculativeLlmPipeline::builder("main", "CPU");
    assert!(!b.has_draft());
    assert!(b.has_only_c_strings());
    let b = b.draft("draft", "GPU").main_property("K", "v\0");
    assert!(b.has_draft());
    assert!(!b.has_only_c_strings());
}
