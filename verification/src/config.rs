//! Generation parameters for the draft-model pipeline.
//!
//! A [`SpeculativeGenerationConfig`] is identified by the handle of its native
//! config and records the parameters that were set on it. Each change is sent
//! to the native config at once; the setter here takes the status of that
//! native call and records the value only when the call succeeded.
use crate::error::InferenceError;
use vstd::prelude::*;

verus! {

/// The parameters recorded in a [`SpeculativeGenerationConfig`]; `None` means
/// "not set", so the runtime's default applies.
pub struct GenerationConfigView {
    pub max_new_tokens: Option<usize>,
    pub max_length: Option<usize>,
    pub top_k: Option<usize>,
    pub do_sample: Option<bool>,
    pub num_beams: Option<usize>,
    pub rng_seed: Option<usize>,
    pub num_assistant_tokens: Option<usize>,
}

impl GenerationConfigView {
    /// A configuration in which nothing has been set.
    pub open spec fn unset() -> GenerationConfigView {
        GenerationConfigView {
            max_new_tokens: None,
            max_length: None,
            top_k: None,
            do_sample: None,
            num_beams: None,
            rng_seed: None,
            num_assistant_tokens: None,
        }
    }

    pub open spec fn with_max_new_tokens(self, value: usize) -> GenerationConfigView {
        GenerationConfigView { max_new_tokens: Some(value), ..self }
    }

    pub open spec fn with_max_length(self, value: usize) -> GenerationConfigView {
        GenerationConfigView { max_length: Some(value), ..self }
    }

    pub open spec fn with_top_k(self, value: usize) -> GenerationConfigView {
        GenerationConfigView { top_k: Some(value), ..self }
    }

    pub open spec fn with_do_sample(self, value: bool) -> GenerationConfigView {
        GenerationConfigView { do_sample: Some(value), ..self }
    }

    pub open spec fn with_num_beams(self, value: usize) -> GenerationConfigView {
        GenerationConfigView { num_beams: Some(value), ..self }
    }

    pub open spec fn with_rng_seed(self, value: usize) -> GenerationConfigView {
        GenerationConfigView { rng_seed: Some(value), ..self }
    }

    pub open spec fn with_num_assistant_tokens(self, value: usize) -> GenerationConfigView {
        GenerationConfigView { num_assistant_tokens: Some(value), ..self }
    }

}

/// How the native interface encodes a flag: `1` for true, `0` for false.
pub open spec fn native_bool(b: bool) -> i32 {
    if b { 1 } else { 0 }
}

/// Generation parameters for the draft-model pipeline: the handle of the
/// native config, and the parameters set on it, each with its last value.
pub struct SpeculativeGenerationConfig {
    handle: usize,
    max_new_tokens: Option<usize>,
    max_length: Option<usize>,
    top_k: Option<usize>,
    do_sample: Option<bool>,
    num_beams: Option<usize>,
    rng_seed: Option<usize>,
    num_assistant_tokens: Option<usize>,
}

impl View for SpeculativeGenerationConfig {
    type V = GenerationConfigView;

    closed spec fn view(&self) -> GenerationConfigView {
        GenerationConfigView {
            max_new_tokens: self.max_new_tokens,
            max_length: self.max_length,
            top_k: self.top_k,
            do_sample: self.do_sample,
            num_beams: self.num_beams,
            rng_seed: self.rng_seed,
            num_assistant_tokens: self.num_assistant_tokens,
        }
    }
}

impl SpeculativeGenerationConfig {
    /// The handle of the native config.
    pub closed spec fn native(&self) -> usize {
        self.handle
    }

    /// The handle of the native config.
    pub fn handle(&self) -> (h: usize)
        ensures
            h == self.native(),
    {
        self.handle
    }

    /// The configuration that the native constructor gave, with every
    /// parameter left at the runtime's default, or the error its status
    /// reports.
    pub fn new(status: i32, handle: usize) -> (r: Result<Self, InferenceError>)
        ensures
            r is Ok <==> status == 0,
            r matches Ok(c) ==> c@ == GenerationConfigView::unset() && c.native() == handle,
            r matches Err(e) ==> e.reports(status),
    {
        match InferenceError::convert(status) {
            Err(e) => Err(e),
            Ok(()) => Ok(SpeculativeGenerationConfig {
                handle,
                max_new_tokens: None,
                max_length: None,
                top_k: None,
                do_sample: None,
                num_beams: None,
                rng_seed: None,
                num_assistant_tokens: None,
            }),
        }
    }

    /// How the native setter of the sampling flag takes it: `1` for true,
    /// `0` for false.
    pub fn native_flag(value: bool) -> (f: i32)
        ensures
            f == native_bool(value),
    {
        if value { 1 } else { 0 }
    }

    /// Sets the maximum number of new tokens to generate.
    /// `status` is what the native setter returned: the value is recorded
    /// when it succeeded, and the configuration is left as it was otherwise.
    pub fn set_max_new_tokens(&mut self, value: usize, status: i32) -> (r: Result<(), InferenceError>)
        ensures
            r is Ok <==> status == 0,
            r matches Err(e) ==> e.reports(status),
            final(self)@ == (if status == 0 { old(self)@.with_max_new_tokens(value) } else { old(self)@ }),
            final(self).native() == old(self).native(),
    {
        let r = InferenceError::convert(status);
        if r.is_ok() {
            self.max_new_tokens = Some(value);
        }
        r
    }

    /// Sets the maximum total length (prompt and generated tokens).
    /// `status` is what the native setter returned: the value is recorded
    /// when it succeeded, and the configuration is left as it was otherwise.
    pub fn set_max_length(&mut self, value: usize, status: i32) -> (r: Result<(), InferenceError>)
        ensures
            r is Ok <==> status == 0,
            r matches Err(e) ==> e.reports(status),
            final(self)@ == (if status == 0 { old(self)@.with_max_length(value) } else { old(self)@ }),
            final(self).native() == old(self).native(),
    {
        let r = InferenceError::convert(status);
        if r.is_ok() {
            self.max_length = Some(value);
        }
        r
    }

    /// Sets the top-k filtering value.
    /// `status` is what the native setter returned: the value is recorded
    /// when it succeeded, and the configuration is left as it was otherwise.
    pub fn set_top_k(&mut self, value: usize, status: i32) -> (r: Result<(), InferenceError>)
        ensures
            r is Ok <==> status == 0,
            r matches Err(e) ==> e.reports(status),
            final(self)@ == (if status == 0 { old(self)@.with_top_k(value) } else { old(self)@ }),
            final(self).native() == old(self).native(),
    {
        let r = InferenceError::convert(status);
        if r.is_ok() {
            self.top_k = Some(value);
        }
        r
    }

    /// Turns multinomial random sampling on or off; the native setter takes
    /// the flag as [`Self::native_flag`] gives it.
    /// `status` is what the native setter returned: the value is recorded
    /// when it succeeded, and the configuration is left as it was otherwise.
    pub fn set_do_sample(&mut self, value: bool, status: i32) -> (r: Result<(), InferenceError>)
        ensures
            r is Ok <==> status == 0,
            r matches Err(e) ==> e.reports(status),
            final(self)@ == (if status == 0 { old(self)@.with_do_sample(value) } else { old(self)@ }),
            final(self).native() == old(self).native(),
    {
        let r = InferenceError::convert(status);
        if r.is_ok() {
            self.do_sample = Some(value);
        }
        r
    }

    /// Sets the number of beams for beam search; `1` disables beam search.
    /// `status` is what the native setter returned: the value is recorded
    /// when it succeeded, and the configuration is left as it was otherwise.
    pub fn set_num_beams(&mut self, value: usize, status: i32) -> (r: Result<(), InferenceError>)
        ensures
            r is Ok <==> status == 0,
            r matches Err(e) ==> e.reports(status),
            final(self)@ == (if status == 0 { old(self)@.with_num_beams(value) } else { old(self)@ }),
            final(self).native() == old(self).native(),
    {
        let r = InferenceError::convert(status);
        if r.is_ok() {
            self.num_beams = Some(value);
        }
        r
    }

    /// Sets the random number generator seed.
    /// `status` is what the native setter returned: the value is recorded
    /// when it succeeded, and the configuration is left as it was otherwise.
    pub fn set_rng_seed(&mut self, value: usize, status: i32) -> (r: Result<(), InferenceError>)
        ensures
            r is Ok <==> status == 0,
            r matches Err(e) ==> e.reports(status),
            final(self)@ == (if status == 0 { old(self)@.with_rng_seed(value) } else { old(self)@ }),
            final(self).native() == old(self).native(),
    {
        let r = InferenceError::convert(status);
        if r.is_ok() {
            self.rng_seed = Some(value);
        }
        r
    }

    /// Sets the number of candidate tokens the draft model proposes per step.
    /// `status` is what the native setter returned: the value is recorded
    /// when it succeeded, and the configuration is left as it was otherwise.
    pub fn set_num_assistant_tokens(&mut self, value: usize, status: i32) -> (r: Result<(), InferenceError>)
        ensures
            r is Ok <==> status == 0,
            r matches Err(e) ==> e.reports(status),
            final(self)@ == (if status == 0 { old(self)@.with_num_assistant_tokens(value) } else { old(self)@ }),
            final(self).native() == old(self).native(),
    {
        let r = InferenceError::convert(status);
        if r.is_ok() {
            self.num_assistant_tokens = Some(value);
        }
        r
    }
}

/// Setting a parameter twice keeps only the second value.
pub proof fn lemma_last_setting_wins(v: GenerationConfigView, a: usize, b: usize, p: bool, q: bool)
    ensures
        v.with_max_new_tokens(a).with_max_new_tokens(b) == v.with_max_new_tokens(b),
        v.with_max_length(a).with_max_length(b) == v.with_max_length(b),
        v.with_top_k(a).with_top_k(b) == v.with_top_k(b),
        v.with_do_sample(p).with_do_sample(q) == v.with_do_sample(q),
        v.with_num_beams(a).with_num_beams(b) == v.with_num_beams(b),
        v.with_rng_seed(a).with_rng_seed(b) == v.with_rng_seed(b),
        v.with_num_assistant_tokens(a).with_num_assistant_tokens(b) == v.with_num_assistant_tokens(b),
{
}

/// Each setter records its own parameter with the value given and leaves
/// every other parameter as it was; a fresh configuration has none set, and
/// the sampling flag goes to the runtime as `1` for true and `0` for false.
pub proof fn lemma_each_setter_sets_its_parameter(v: GenerationConfigView, x: usize, f: bool)
    ensures
        v.with_max_new_tokens(x).max_new_tokens == Some(x),
        v.with_max_new_tokens(x).max_length == v.max_length,
        v.with_max_new_tokens(x).top_k == v.top_k,
        v.with_max_new_tokens(x).do_sample == v.do_sample,
        v.with_max_new_tokens(x).num_beams == v.num_beams,
        v.with_max_new_tokens(x).rng_seed == v.rng_seed,
        v.with_max_new_tokens(x).num_assistant_tokens == v.num_assistant_tokens,
        v.with_max_length(x).max_new_tokens == v.max_new_tokens,
        v.with_max_length(x).max_length == Some(x),
        v.with_max_length(x).top_k == v.top_k,
        v.with_max_length(x).do_sample == v.do_sample,
        v.with_max_length(x).num_beams == v.num_beams,
        v.with_max_length(x).rng_seed == v.rng_seed,
        v.with_max_length(x).num_assistant_tokens == v.num_assistant_tokens,
        v.with_top_k(x).max_new_tokens == v.max_new_tokens,
        v.with_top_k(x).max_length == v.max_length,
        v.with_top_k(x).top_k == Some(x),
        v.with_top_k(x).do_sample == v.do_sample,
        v.with_top_k(x).num_beams == v.num_beams,
        v.with_top_k(x).rng_seed == v.rng_seed,
        v.with_top_k(x).num_assistant_tokens == v.num_assistant_tokens,
        v.with_do_sample(f).max_new_tokens == v.max_new_tokens,
        v.with_do_sample(f).max_length == v.max_length,
        v.with_do_sample(f).top_k == v.top_k,
        v.with_do_sample(f).do_sample == Some(f),
        v.with_do_sample(f).num_beams == v.num_beams,
        v.with_do_sample(f).rng_seed == v.rng_seed,
        v.with_do_sample(f).num_assistant_tokens == v.num_assistant_tokens,
        v.with_num_beams(x).max_new_tokens == v.max_new_tokens,
        v.with_num_beams(x).max_length == v.max_length,
        v.with_num_beams(x).top_k == v.top_k,
        v.with_num_beams(x).do_sample == v.do_sample,
        v.with_num_beams(x).num_beams == Some(x),
        v.with_num_beams(x).rng_seed == v.rng_seed,
        v.with_num_beams(x).num_assistant_tokens == v.num_assistant_tokens,
        v.with_rng_seed(x).max_new_tokens == v.max_new_tokens,
        v.with_rng_seed(x).max_length == v.max_length,
        v.with_rng_seed(x).top_k == v.top_k,
        v.with_rng_seed(x).do_sample == v.do_sample,
        v.with_rng_seed(x).num_beams == v.num_beams,
        v.with_rng_seed(x).rng_seed == Some(x),
        v.with_rng_seed(x).num_assistant_tokens == v.num_assistant_tokens,
        v.with_num_assistant_tokens(x).max_new_tokens == v.max_new_tokens,
        v.with_num_assistant_tokens(x).max_length == v.max_length,
        v.with_num_assistant_tokens(x).top_k == v.top_k,
        v.with_num_assistant_tokens(x).do_sample == v.do_sample,
        v.with_num_assistant_tokens(x).num_beams == v.num_beams,
        v.with_num_assistant_tokens(x).rng_seed == v.rng_seed,
        v.with_num_assistant_tokens(x).num_assistant_tokens == Some(x),
        GenerationConfigView::unset().max_new_tokens is None,
        GenerationConfigView::unset().max_length is None,
        GenerationConfigView::unset().top_k is None,
        GenerationConfigView::unset().do_sample is None,
        GenerationConfigView::unset().num_beams is None,
        GenerationConfigView::unset().rng_seed is None,
        GenerationConfigView::unset().num_assistant_tokens is None,
        native_bool(true) == 1,
        native_bool(false) == 0,
{
}

} // verus!
