//! Results of generate calls, and the performance metrics of a draft-model
//! generate call.
//!
//! Each query of the native runtime returns a status code and an out-value;
//! the functions here take both and give what the query means.
use crate::error::InferenceError;
use vstd::prelude::*;

verus! {

/// The value a native query reported, or the error its status reports.
pub open spec fn reported<T>(status: i32, value: T, r: Result<T, InferenceError>) -> bool {
    &&& (r is Ok <==> status == 0)
    &&& (r matches Ok(v) ==> v == value)
    &&& (r matches Err(e) ==> e.reports(status))
}

/// The side of the metrics that describes the main model.
pub const MAIN_SIDE: i32 = 0;

/// The side of the metrics that describes the draft model.
pub const DRAFT_SIDE: i32 = 1;

/// Results from a plain pipeline's generate call, identified by the handle of
/// their native object.
pub struct DecodedResults {
    handle: usize,
}

impl DecodedResults {
    /// The handle of the native results.
    pub closed spec fn native(&self) -> usize {
        self.handle
    }

    /// The handle of the native results.
    pub fn handle(&self) -> (h: usize)
        ensures
            h == self.native(),
    {
        self.handle
    }

    /// The results that a native generate call gave, or the error its status
    /// reports.
    pub fn from_native(status: i32, handle: usize) -> (r: Result<DecodedResults, InferenceError>)
        ensures
            r is Ok <==> status == 0,
            r matches Ok(res) ==> res.native() == handle,
            r matches Err(e) ==> e.reports(status),
    {
        match InferenceError::convert(status) {
            Ok(()) => Ok(DecodedResults { handle }),
            Err(e) => Err(e),
        }
    }
}

/// Results from a draft-model generate call, identified by the handle of
/// their native object.
pub struct SpeculativeDecodedResults {
    handle: usize,
}

impl SpeculativeDecodedResults {
    /// The handle of the native results.
    pub closed spec fn native(&self) -> usize {
        self.handle
    }

    /// The handle of the native results.
    pub fn handle(&self) -> (h: usize)
        ensures
            h == self.native(),
    {
        self.handle
    }

    /// The results that a native generate call gave, or the error its status
    /// reports.
    pub fn from_native(status: i32, handle: usize) -> (r: Result<SpeculativeDecodedResults, InferenceError>)
        ensures
            r is Ok <==> status == 0,
            r matches Ok(res) ==> res.native() == handle,
            r matches Err(e) ==> e.reports(status),
    {
        match InferenceError::convert(status) {
            Ok(()) => Ok(SpeculativeDecodedResults { handle }),
            Err(e) => Err(e),
        }
    }

    /// The speculative-decoding metrics that the native query returned: none
    /// when it returned a null handle, which it does only when the results
    /// carry no such metrics.
    pub fn get_sd_perf_metrics(&self, status: i32, metrics: usize) -> (r: Result<Option<SdPerfMetrics>, InferenceError>)
        ensures
            r is Ok <==> status == 0,
            r matches Ok(None) ==> metrics == 0,
            r matches Ok(Some(m)) ==> metrics != 0 && m.native() == metrics,
            r matches Err(e) ==> e.reports(status),
    {
        match InferenceError::convert(status) {
            Err(e) => Err(e),
            Ok(()) => {
                if metrics == 0 {
                    Ok(None)
                } else {
                    Ok(Some(SdPerfMetrics { handle: metrics }))
                }
            },
        }
    }
}

/// Speculative-decoding performance metrics for the main and the draft
/// model, identified by the (never null) handle of their native object.
pub struct SdPerfMetrics {
    handle: usize,
}

impl SdPerfMetrics {
    #[verifier::type_invariant]
    spec fn handle_not_null(&self) -> bool {
        self.handle != 0
    }

    /// The handle of the native metrics.
    pub closed spec fn native(&self) -> usize {
        self.handle
    }

    /// The handle of the native metrics, which is never null.
    pub fn handle(&self) -> (h: usize)
        ensures
            h == self.native(),
            h != 0,
    {
        proof {
            use_type_invariant(self);
        }
        self.handle
    }

    /// The number of draft-proposed tokens that the main model accepted, as
    /// the native query reported it.
    pub fn num_accepted_tokens(&self, status: i32, out: usize) -> (r: Result<usize, InferenceError>)
        ensures
            reported(status, out, r),
    {
        match InferenceError::convert(status) {
            Ok(()) => Ok(out),
            Err(e) => Err(e),
        }
    }

    /// The metrics of the main model.
    pub fn main_model_metrics(&self) -> (m: SdModelMetrics<'_>)
        ensures
            m.parent() == self,
            m.side() == MAIN_SIDE,
    {
        SdModelMetrics { parent: self, side: MAIN_SIDE }
    }

    /// The metrics of the draft model.
    pub fn draft_model_metrics(&self) -> (m: SdModelMetrics<'_>)
        ensures
            m.parent() == self,
            m.side() == DRAFT_SIDE,
    {
        SdModelMetrics { parent: self, side: DRAFT_SIDE }
    }
}

/// One side (main or draft model) of an [`SdPerfMetrics`].
pub struct SdModelMetrics<'a> {
    parent: &'a SdPerfMetrics,
    side: i32,
}

impl<'a> SdModelMetrics<'a> {
    /// The metrics this is a side of.
    pub closed spec fn parent(&self) -> &'a SdPerfMetrics {
        self.parent
    }

    /// The side, as the native interface numbers it.
    pub closed spec fn side(&self) -> i32 {
        self.side
    }

    /// The metrics this is a side of.
    pub fn metrics(&self) -> (p: &'a SdPerfMetrics)
        ensures
            p == self.parent(),
    {
        self.parent
    }

    /// The side, as the native interface numbers it.
    pub fn side_index(&self) -> (s: i32)
        ensures
            s == self.side(),
    {
        self.side
    }

    /// The number of tokens this side generated, as the native query
    /// reported it.
    pub fn num_generated_tokens(&self, status: i32, out: usize) -> (r: Result<usize, InferenceError>)
        ensures
            reported(status, out, r),
    {
        match InferenceError::convert(status) {
            Ok(()) => Ok(out),
            Err(e) => Err(e),
        }
    }
}

/// The two sides of the metrics are told apart: the native interface numbers
/// the main model 0 and the draft model 1, which
/// are different numbers.
pub proof fn lemma_sides_are_distinct()
    ensures
        MAIN_SIDE == 0,
        DRAFT_SIDE == 1,
        MAIN_SIDE != DRAFT_SIDE,
{
}

} // verus!
