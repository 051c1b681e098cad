//! LLM pipelines, plain and with a draft model, and the builder of the
//! draft-model pipeline.
//!
//! Creating a pipeline takes two steps. A constructor here takes the outcome of
//! loading the runtime, checks its inputs and lays out the arguments of the
//! native constructor ([`PipelineArgs`], [`DraftPipelineArgs`]); the caller
//! makes that native call and hands its status and handle to `from_native`,
//! which gives the pipeline or the error. Strings go to the C interface, so
//! none may hold a NUL character.
use crate::error::{LoadingError, SetupError};
use crate::properties::{
    flatten_properties, flattened, is_c_compatible, is_c_string, lemma_flatten_layout,
    lemma_flatten_roundtrip, paired,
    properties_c_compatible, are_c_strings,
};
use vstd::prelude::*;

verus! {

/// Arguments of the native constructor of a plain LLM pipeline.
pub struct PipelineArgs<'a> {
    pub models_path: &'a str,
    pub device: &'a str,
    /// The number passed to the native constructor as the property count: the
    /// length of the flat list, two per property.
    pub property_count: usize,
    /// The properties as the flat list `key0, value0, key1, value1, ...`.
    pub properties: Vec<&'a str>,
}

/// Arguments of the native constructor of a pipeline with a draft model.
pub struct DraftPipelineArgs<'a> {
    pub main_path: &'a str,
    pub main_device: &'a str,
    /// The number of main-model properties (pairs, not flat entries).
    pub main_property_count: usize,
    /// The main-model properties as the flat list `key0, value0, ...`.
    pub main_properties: Vec<&'a str>,
    pub draft_path: &'a str,
    pub draft_device: &'a str,
    /// The number of draft-model properties (pairs, not flat entries).
    pub draft_property_count: usize,
    /// The draft-model properties as the flat list `key0, value0, ...`.
    pub draft_properties: Vec<&'a str>,
}

/// The arguments of the draft-model constructor for the given models and
/// properties: each property list laid out flat and counted in pairs.
pub open spec fn draft_args_match<'a>(
    args: DraftPipelineArgs<'a>,
    main_path: &'a str,
    main_device: &'a str,
    main_properties: Seq<(&'a str, &'a str)>,
    draft_path: &'a str,
    draft_device: &'a str,
    draft_properties: Seq<(&'a str, &'a str)>,
) -> bool {
    &&& args.main_path == main_path
    &&& args.main_device == main_device
    &&& args.main_property_count == main_properties.len()
    &&& args.main_properties@ == flattened(main_properties)
    &&& args.draft_path == draft_path
    &&& args.draft_device == draft_device
    &&& args.draft_property_count == draft_properties.len()
    &&& args.draft_properties@ == flattened(draft_properties)
}

/// Whether every string of a draft-model constructor can go to the C
/// interface.
pub open spec fn draft_strings_c_compatible<'a>(
    main_path: &'a str,
    main_device: &'a str,
    main_properties: Seq<(&'a str, &'a str)>,
    draft_path: &'a str,
    draft_device: &'a str,
    draft_properties: Seq<(&'a str, &'a str)>,
) -> bool {
    &&& is_c_compatible(main_path)
    &&& is_c_compatible(main_device)
    &&& properties_c_compatible(main_properties)
    &&& is_c_compatible(draft_path)
    &&& is_c_compatible(draft_device)
    &&& properties_c_compatible(draft_properties)
}

fn lay_out_draft_args<'a>(
    main_path: &'a str,
    main_device: &'a str,
    main_properties: &[(&'a str, &'a str)],
    draft_path: &'a str,
    draft_device: &'a str,
    draft_properties: &[(&'a str, &'a str)],
) -> (args: DraftPipelineArgs<'a>)
    requires
        draft_strings_c_compatible(
            main_path,
            main_device,
            main_properties@,
            draft_path,
            draft_device,
            draft_properties@,
        ),
    ensures
        draft_args_match(
            args,
            main_path,
            main_device,
            main_properties@,
            draft_path,
            draft_device,
            draft_properties@,
        ),
        args.main_path == main_path,
        args.main_device == main_device,
        args.draft_path == draft_path,
        args.draft_device == draft_device,
{
    let main_flat = flatten_properties(main_properties);
    let draft_flat = flatten_properties(draft_properties);
    DraftPipelineArgs {
        main_path,
        main_device,
        main_property_count: main_properties.len(),
        main_properties: main_flat,
        draft_path,
        draft_device,
        draft_property_count: draft_properties.len(),
        draft_properties: draft_flat,
    }
}

/// A pipeline for generating text with a large language model, identified by
/// the handle of its native object.
pub struct LlmPipeline {
    handle: usize,
}

impl LlmPipeline {
    /// The handle of the native pipeline.
    pub closed spec fn native(&self) -> usize {
        self.handle
    }

    /// The handle of the native pipeline.
    pub fn handle(&self) -> (h: usize)
        ensures
            h == self.native(),
    {
        self.handle
    }

    /// Constructor arguments for a pipeline on the model directory
    /// `models_path` and the device `device`, without properties, once the
    /// runtime is loaded (`loaded` is the outcome of loading it).
    pub fn new<'a>(models_path: &'a str, device: &'a str, loaded: Result<(), String>) -> (r: Result<
        PipelineArgs<'a>,
        SetupError,
    >)
        requires
            loaded is Ok ==> is_c_compatible(models_path) && is_c_compatible(device),
        ensures
            loaded matches Err(m) ==> r matches Err(e) && e == SetupError::Loading(
                LoadingError::SystemFailure(m),
            ),
            loaded is Ok ==> (r matches Ok(args) && args.models_path == models_path && args.device
                == device && args.property_count == 0 && args.properties@.len() == 0),
    {
        let none: Vec<(&'a str, &'a str)> = Vec::new();
        Self::with_properties(models_path, device, none.as_slice(), loaded)
    }

    /// Constructor arguments for a pipeline with device properties, passed to
    /// the runtime as key/value strings, once the runtime is loaded (`loaded`
    /// is the outcome of loading it; a failure is reported before anything
    /// else). Every string must be able to go to the C interface.
    pub fn with_properties<'a>(
        models_path: &'a str,
        device: &'a str,
        properties: &[(&'a str, &'a str)],
        loaded: Result<(), String>,
    ) -> (r: Result<PipelineArgs<'a>, SetupError>)
        requires
            loaded is Ok ==> is_c_compatible(models_path) && is_c_compatible(device)
                && properties_c_compatible(properties@),
        ensures
            loaded matches Err(m) ==> r matches Err(e) && e == SetupError::Loading(
                LoadingError::SystemFailure(m),
            ),
            loaded is Ok ==> (r matches Ok(args) && args.models_path == models_path && args.device
                == device && args.properties@ == flattened(properties@) && args.property_count == 2
                * properties@.len()),
    {
        match loaded {
            Err(m) => Err(SetupError::Loading(LoadingError::SystemFailure(m))),
            Ok(()) => {
                let flat = flatten_properties(properties);
                Ok(PipelineArgs { models_path, device, property_count: flat.len(), properties: flat })
            },
        }
    }

    /// Constructor arguments for a pipeline with a draft (assistant) model for
    /// speculative decoding, without properties, once the runtime is loaded.
    pub fn with_draft<'a>(
        main_path: &'a str,
        main_device: &'a str,
        draft_path: &'a str,
        draft_device: &'a str,
        loaded: Result<(), String>,
    ) -> (r: Result<DraftPipelineArgs<'a>, SetupError>)
        requires
            loaded is Ok ==> is_c_compatible(main_path) && is_c_compatible(main_device)
                && is_c_compatible(draft_path) && is_c_compatible(draft_device),
        ensures
            loaded matches Err(m) ==> r matches Err(e) && e == SetupError::Loading(
                LoadingError::SystemFailure(m),
            ),
            loaded is Ok ==> (r matches Ok(args) && draft_args_match(
                args,
                main_path,
                main_device,
                Seq::empty(),
                draft_path,
                draft_device,
                Seq::empty(),
            )),
            loaded is Ok ==> (r matches Ok(args) && args.main_path == main_path && args.main_device
                == main_device && args.draft_path == draft_path && args.draft_device == draft_device
                && args.main_property_count == 0 && args.draft_property_count == 0
                && args.main_properties@.len() == 0 && args.draft_properties@.len() == 0),
    {
        let none: Vec<(&'a str, &'a str)> = Vec::new();
        assert(none@ =~= Seq::<(&'a str, &'a str)>::empty());
        Self::with_draft_and_properties(
            main_path,
            main_device,
            none.as_slice(),
            draft_path,
            draft_device,
            none.as_slice(),
            loaded,
        )
    }

    /// Constructor arguments for a pipeline with a draft model, with device
    /// properties for each model, once the runtime is loaded (`loaded` is the
    /// outcome of loading it; a failure is reported before anything else).
    /// Every string must be able to go to the C interface.
    pub fn with_draft_and_properties<'a>(
        main_path: &'a str,
        main_device: &'a str,
        main_properties: &[(&'a str, &'a str)],
        draft_path: &'a str,
        draft_device: &'a str,
        draft_properties: &[(&'a str, &'a str)],
        loaded: Result<(), String>,
    ) -> (r: Result<DraftPipelineArgs<'a>, SetupError>)
        requires
            loaded is Ok ==> draft_strings_c_compatible(
                main_path,
                main_device,
                main_properties@,
                draft_path,
                draft_device,
                draft_properties@,
            ),
        ensures
            loaded matches Err(m) ==> r matches Err(e) && e == SetupError::Loading(
                LoadingError::SystemFailure(m),
            ),
            loaded is Ok ==> (r matches Ok(args) && draft_args_match(
                args,
                main_path,
                main_device,
                main_properties@,
                draft_path,
                draft_device,
                draft_properties@,
            )),
            loaded is Ok ==> (r matches Ok(args) && args.main_path == main_path && args.main_device
                == main_device && args.draft_path == draft_path && args.draft_device == draft_device
                && args.main_property_count == main_properties@.len() && args.draft_property_count
                == draft_properties@.len()),
    {
        match loaded {
            Err(m) => Err(SetupError::Loading(LoadingError::SystemFailure(m))),
            Ok(()) => Ok(
                lay_out_draft_args(
                    main_path,
                    main_device,
                    main_properties,
                    draft_path,
                    draft_device,
                    draft_properties,
                ),
            ),
        }
    }

    /// The pipeline that a native constructor gave, or the error its status
    /// reports.
    pub fn from_native(status: i32, handle: usize) -> (r: Result<LlmPipeline, SetupError>)
        ensures
            r is Ok <==> status == 0,
            r matches Ok(p) ==> p.native() == handle,
            r matches Err(e) ==> e is Inference,
            r matches Err(SetupError::Inference(e)) ==> e.reports(status),
    {
        match SetupError::from_status(status) {
            Ok(()) => Ok(LlmPipeline { handle }),
            Err(e) => Err(e),
        }
    }
}

/// What a [`SpeculativeLlmPipelineBuilder`] has gathered.
pub struct BuilderView<'a> {
    pub main_path: &'a str,
    pub main_device: &'a str,
    pub draft_path: Option<&'a str>,
    pub draft_device: &'a str,
    pub main_properties: Seq<(&'a str, &'a str)>,
    pub draft_properties: Seq<(&'a str, &'a str)>,
}

impl<'a> BuilderView<'a> {
    /// A builder for the main model `main_path` on `main_device`, with no
    /// draft model and no properties yet.
    pub open spec fn start(main_path: &'a str, main_device: &'a str) -> BuilderView<'a> {
        BuilderView {
            main_path,
            main_device,
            draft_path: None,
            draft_device: "",
            main_properties: Seq::empty(),
            draft_properties: Seq::empty(),
        }
    }

    pub open spec fn with_draft(self, path: &'a str, device: &'a str) -> BuilderView<'a> {
        BuilderView { draft_path: Some(path), draft_device: device, ..self }
    }

    pub open spec fn with_main_property(self, key: &'a str, value: &'a str) -> BuilderView<'a> {
        BuilderView { main_properties: self.main_properties.push((key, value)), ..self }
    }

    pub open spec fn with_draft_property(self, key: &'a str, value: &'a str) -> BuilderView<'a> {
        BuilderView { draft_properties: self.draft_properties.push((key, value)), ..self }
    }

    /// Whether every string gathered (with the draft model's, when one is
    /// set) can go to the C interface.
    pub open spec fn c_compatible(self) -> bool {
        &&& is_c_compatible(self.main_path)
        &&& is_c_compatible(self.main_device)
        &&& properties_c_compatible(self.main_properties)
        &&& (self.draft_path matches Some(p) ==> is_c_compatible(p))
        &&& is_c_compatible(self.draft_device)
        &&& properties_c_compatible(self.draft_properties)
    }

    /// Whether `args` are the draft-model constructor arguments that this
    /// builder describes (it must have a draft model).
    pub open spec fn describes(self, args: DraftPipelineArgs<'a>) -> bool {
        &&& self.draft_path is Some
        &&& draft_args_match(
            args,
            self.main_path,
            self.main_device,
            self.main_properties,
            self.draft_path.unwrap(),
            self.draft_device,
            self.draft_properties,
        )
    }
}

/// Builder for a [`SpeculativeLlmPipeline`].
pub struct SpeculativeLlmPipelineBuilder<'a> {
    main_path: &'a str,
    main_device: &'a str,
    draft_path: Option<&'a str>,
    draft_device: &'a str,
    main_properties: Vec<(&'a str, &'a str)>,
    draft_properties: Vec<(&'a str, &'a str)>,
}

impl<'a> View for SpeculativeLlmPipelineBuilder<'a> {
    type V = BuilderView<'a>;

    closed spec fn view(&self) -> BuilderView<'a> {
        BuilderView {
            main_path: self.main_path,
            main_device: self.main_device,
            draft_path: self.draft_path,
            draft_device: self.draft_device,
            main_properties: self.main_properties@,
            draft_properties: self.draft_properties@,
        }
    }
}

impl<'a> SpeculativeLlmPipelineBuilder<'a> {
    /// Sets the draft model directory and device; a draft model must be set
    /// before [`build`](Self::build).
    pub fn draft(self, path: &'a str, device: &'a str) -> (r: Self)
        ensures
            r@ == self@.with_draft(path, device),
            r@.draft_path == Some(path),
            r@.draft_device == device,
            r@.main_path == self@.main_path,
            r@.main_device == self@.main_device,
            r@.main_properties == self@.main_properties,
            r@.draft_properties == self@.draft_properties,
    {
        let mut b = self;
        b.draft_path = Some(path);
        b.draft_device = device;
        b
    }

    /// Appends a property for the main model.
    pub fn main_property(self, key: &'a str, value: &'a str) -> (r: Self)
        ensures
            r@ == self@.with_main_property(key, value),
            r@.main_properties == self@.main_properties.push((key, value)),
            r@.draft_properties == self@.draft_properties,
            r@.main_path == self@.main_path,
            r@.main_device == self@.main_device,
            r@.draft_path == self@.draft_path,
            r@.draft_device == self@.draft_device,
    {
        let mut b = self;
        b.main_properties.push((key, value));
        b
    }

    /// Appends a property for the draft model.
    pub fn draft_property(self, key: &'a str, value: &'a str) -> (r: Self)
        ensures
            r@ == self@.with_draft_property(key, value),
            r@.draft_properties == self@.draft_properties.push((key, value)),
            r@.main_properties == self@.main_properties,
            r@.main_path == self@.main_path,
            r@.main_device == self@.main_device,
            r@.draft_path == self@.draft_path,
            r@.draft_device == self@.draft_device,
    {
        let mut b = self;
        b.draft_properties.push((key, value));
        b
    }

    /// Whether a draft model has been set.
    pub fn has_draft(&self) -> (b: bool)
        ensures
            b == self@.draft_path is Some,
    {
        self.draft_path.is_some()
    }

    /// Whether every string gathered so far can go to the C interface.
    pub fn has_only_c_strings(&self) -> (b: bool)
        ensures
            b == self@.c_compatible(),
    {
        let draft_ok = match self.draft_path {
            Some(p) => is_c_string(p),
            None => true,
        };
        is_c_string(self.main_path) && is_c_string(self.main_device) && are_c_strings(
            self.main_properties.as_slice(),
        ) && draft_ok && is_c_string(self.draft_device) && are_c_strings(
            self.draft_properties.as_slice(),
        )
    }

    /// The constructor arguments of the pipeline described so far, once the
    /// runtime is loaded (`loaded` is the outcome of loading it). A load
    /// failure is reported first; then a missing draft model is an error,
    /// since the pipeline needs one. With a draft model, every string must be
    /// able to go to the C interface.
    pub fn build(self, loaded: Result<(), String>) -> (r: Result<DraftPipelineArgs<'a>, SetupError>)
        requires
            loaded is Ok && self@.draft_path is Some ==> self@.c_compatible(),
        ensures
            loaded matches Err(m) ==> r matches Err(e) && e == SetupError::Loading(
                LoadingError::SystemFailure(m),
            ),
            loaded is Ok ==> (r is Ok <==> self@.draft_path is Some),
            r matches Ok(args) ==> self@.describes(args),
            r matches Ok(args) ==> self@.draft_path == Some(args.draft_path)
                && args.draft_device == self@.draft_device && args.main_path == self@.main_path
                && args.main_device == self@.main_device && args.main_property_count
                == self@.main_properties.len() && args.draft_property_count
                == self@.draft_properties.len(),
            loaded is Ok && r is Err ==> (r matches Err(e) && e == SetupError::Loading(
                LoadingError::CannotFindLibraryPath,
            )),
    {
        if let Err(m) = loaded {
            return Err(SetupError::Loading(LoadingError::SystemFailure(m)));
        }
        match self.draft_path {
            None => Err(SetupError::Loading(LoadingError::CannotFindLibraryPath)),
            Some(draft_path) => Ok(
                lay_out_draft_args(
                    self.main_path,
                    self.main_device,
                    self.main_properties.as_slice(),
                    draft_path,
                    self.draft_device,
                    self.draft_properties.as_slice(),
                ),
            ),
        }
    }
}

/// A draft-model speculative-decoding pipeline, identified by the handle of
/// its native object.
pub struct SpeculativeLlmPipeline {
    handle: usize,
}

impl SpeculativeLlmPipeline {
    /// The handle of the native pipeline.
    pub closed spec fn native(&self) -> usize {
        self.handle
    }

    /// The handle of the native pipeline.
    pub fn handle(&self) -> (h: usize)
        ensures
            h == self.native(),
    {
        self.handle
    }

    /// Starts building a pipeline with the main model path and device.
    pub fn builder<'a>(main_path: &'a str, main_device: &'a str) -> (b: SpeculativeLlmPipelineBuilder<'a>)
        ensures
            b@ == BuilderView::start(main_path, main_device),
    {
        SpeculativeLlmPipelineBuilder {
            main_path,
            main_device,
            draft_path: None,
            draft_device: "",
            main_properties: Vec::new(),
            draft_properties: Vec::new(),
        }
    }

    /// The pipeline that the native constructor gave, or the error its status
    /// reports.
    pub fn from_native(status: i32, handle: usize) -> (r: Result<SpeculativeLlmPipeline, SetupError>)
        ensures
            r is Ok <==> status == 0,
            r matches Ok(p) ==> p.native() == handle,
            r matches Err(e) ==> e is Inference,
            r matches Err(SetupError::Inference(e)) ==> e.reports(status),
    {
        match SetupError::from_status(status) {
            Ok(()) => Ok(SpeculativeLlmPipeline { handle }),
            Err(e) => Err(e),
        }
    }
}

/// The draft model that a builder uses is the one set last.
pub proof fn lemma_last_draft_wins<'a>(
    b: BuilderView<'a>,
    p1: &'a str,
    d1: &'a str,
    p2: &'a str,
    d2: &'a str,
)
    ensures
        b.with_draft(p1, d1).with_draft(p2, d2) == b.with_draft(p2, d2),
{
}

/// Builder calls on different parts of the description may come in any
/// order: setting the draft model, adding a main-model property and adding a
/// draft-model property commute with one another.
pub proof fn lemma_builder_steps_commute<'a>(
    b: BuilderView<'a>,
    path: &'a str,
    device: &'a str,
    k1: &'a str,
    v1: &'a str,
    k2: &'a str,
    v2: &'a str,
)
    ensures
        b.with_draft(path, device).with_main_property(k1, v1)
            == b.with_main_property(k1, v1).with_draft(path, device),
        b.with_draft(path, device).with_draft_property(k2, v2)
            == b.with_draft_property(k2, v2).with_draft(path, device),
        b.with_main_property(k1, v1).with_draft_property(k2, v2)
            == b.with_draft_property(k2, v2).with_main_property(k1, v1),
{
}

/// Building succeeds exactly when a draft model was set: a fresh builder
/// cannot build, and one with a draft model can, whatever else was added.
pub proof fn lemma_build_needs_draft<'a>(
    main_path: &'a str,
    main_device: &'a str,
    b: BuilderView<'a>,
    path: &'a str,
    device: &'a str,
)
    ensures
        BuilderView::start(main_path, main_device).draft_path is None,
        b.with_draft(path, device).draft_path == Some(path),
{
}

/// The constructor arguments of a builder carry every property it was given,
/// in the order given, and nothing else.
pub proof fn lemma_args_keep_properties<'a>(b: BuilderView<'a>, args: DraftPipelineArgs<'a>)
    requires
        b.describes(args),
    ensures
        paired(args.main_properties@) == b.main_properties,
        paired(args.draft_properties@) == b.draft_properties,
        args.main_properties@.len() == 2 * args.main_property_count,
        args.draft_properties@.len() == 2 * args.draft_property_count,
{
    lemma_flatten_roundtrip(b.main_properties);
    lemma_flatten_roundtrip(b.draft_properties);
}

/// The draft-model constructor arguments carry each input where it belongs:
/// the main model's path and device, the draft model's path and device, and
/// each property list with the key of its `i`-th property at `2 * i`, the
/// value at `2 * i + 1`, and its count of pairs. No input takes the place of
/// another, whatever the property lists hold.
pub proof fn lemma_draft_args_fields<'a>(
    args: DraftPipelineArgs<'a>,
    main_path: &'a str,
    main_device: &'a str,
    main_properties: Seq<(&'a str, &'a str)>,
    draft_path: &'a str,
    draft_device: &'a str,
    draft_properties: Seq<(&'a str, &'a str)>,
)
    requires
        draft_args_match(
            args,
            main_path,
            main_device,
            main_properties,
            draft_path,
            draft_device,
            draft_properties,
        ),
    ensures
        args.main_path == main_path,
        args.main_device == main_device,
        args.draft_path == draft_path,
        args.draft_device == draft_device,
        args.main_property_count == main_properties.len(),
        args.draft_property_count == draft_properties.len(),
        args.main_properties@.len() == 2 * main_properties.len(),
        args.draft_properties@.len() == 2 * draft_properties.len(),
        forall|i: int| 0 <= i < main_properties.len() ==> args.main_properties@[2 * i]
            == (#[trigger] main_properties[i]).0 && args.main_properties@[2 * i + 1]
            == main_properties[i].1,
        forall|i: int| 0 <= i < draft_properties.len() ==> args.draft_properties@[2 * i]
            == (#[trigger] draft_properties[i]).0 && args.draft_properties@[2 * i + 1]
            == draft_properties[i].1,
{
    lemma_flatten_layout(main_properties);
    lemma_flatten_layout(draft_properties);
}

/// The arguments that a builder builds carry what it was given: the main
/// model's path and device, the draft model's path and device as `draft` last
/// set them, and every property added, in order, under its own model.
pub proof fn lemma_builder_args_fields<'a>(b: BuilderView<'a>, args: DraftPipelineArgs<'a>)
    requires
        b.describes(args),
    ensures
        args.main_path == b.main_path,
        args.main_device == b.main_device,
        b.draft_path == Some(args.draft_path),
        args.draft_device == b.draft_device,
        args.main_property_count == b.main_properties.len(),
        args.draft_property_count == b.draft_properties.len(),
        args.main_properties@.len() == 2 * b.main_properties.len(),
        args.draft_properties@.len() == 2 * b.draft_properties.len(),
        forall|i: int| 0 <= i < b.main_properties.len() ==> args.main_properties@[2 * i]
            == (#[trigger] b.main_properties[i]).0 && args.main_properties@[2 * i + 1]
            == b.main_properties[i].1,
        forall|i: int| 0 <= i < b.draft_properties.len() ==> args.draft_properties@[2 * i]
            == (#[trigger] b.draft_properties[i]).0 && args.draft_properties@[2 * i + 1]
            == b.draft_properties[i].1,
{
    lemma_draft_args_fields(
        args,
        b.main_path,
        b.main_device,
        b.main_properties,
        b.draft_path.unwrap(),
        b.draft_device,
        b.draft_properties,
    );
}

/// Each builder step changes only its own part: `draft` sets the draft path
/// and device; adding a property keeps every earlier property of that model,
/// puts the new one last (one more than before), and leaves the other model's
/// properties alone.
pub proof fn lemma_builder_steps<'a>(
    b: BuilderView<'a>,
    path: &'a str,
    device: &'a str,
    key: &'a str,
    value: &'a str,
)
    ensures
        b.with_draft(path, device).draft_path == Some(path),
        b.with_draft(path, device).draft_device == device,
        b.with_draft(path, device).main_path == b.main_path,
        b.with_draft(path, device).main_device == b.main_device,
        b.with_draft(path, device).main_properties == b.main_properties,
        b.with_draft(path, device).draft_properties == b.draft_properties,
        b.with_main_property(key, value).main_properties.len() == b.main_properties.len() + 1,
        forall|i: int| 0 <= i < b.main_properties.len() ==> (#[trigger] b.with_main_property(key, value).main_properties[i])
            == b.main_properties[i],
        b.with_main_property(key, value).main_properties[b.main_properties.len() as int] == (key, value),
        b.with_main_property(key, value).draft_properties == b.draft_properties,
        b.with_main_property(key, value).draft_path == b.draft_path,
        b.with_main_property(key, value).draft_device == b.draft_device,
        b.with_main_property(key, value).main_path == b.main_path,
        b.with_main_property(key, value).main_device == b.main_device,
        b.with_draft_property(key, value).draft_properties.len() == b.draft_properties.len() + 1,
        forall|i: int| 0 <= i < b.draft_properties.len() ==> (#[trigger] b.with_draft_property(key, value).draft_properties[i])
            == b.draft_properties[i],
        b.with_draft_property(key, value).draft_properties[b.draft_properties.len() as int] == (key, value),
        b.with_draft_property(key, value).main_properties == b.main_properties,
        b.with_draft_property(key, value).draft_path == b.draft_path,
        b.with_draft_property(key, value).draft_device == b.draft_device,
        b.with_draft_property(key, value).main_path == b.main_path,
        b.with_draft_property(key, value).main_device == b.main_device,
{
}

} // verus!
