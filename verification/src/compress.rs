//! The whole pipeline for one invocation: probe the source format, decode,
//! take the passthrough or unscaled-re-encode shortcut where it applies, and
//! otherwise run the bounded search. The result is pinned to a function of
//! the source bytes and the budget alone.

use vstd::prelude::*;
use crate::codec::{decode_rgb, decoded_raster, jpeg_probe, probe_jpeg, spec_trial,
    try_compress_size};
use crate::raster::{RasterView, SCALE_MIN, SCALE_ONE};
use crate::search::{lemma_search_exhaustion, run_search, spec_search, SEARCH_STEPS};

verus! {

/// A successful invocation: either the source bytes already satisfy the
/// caller and are reused verbatim, or a fresh encoding fitting the budget.
pub enum CompressOutcome {
    Passthrough,
    Encoded(Vec<u8>),
}

/// The mathematical value of a `CompressOutcome`.
pub enum OutcomeView {
    Passthrough,
    Encoded(Seq<u8>),
}

impl View for CompressOutcome {
    type V = OutcomeView;

    open spec fn view(&self) -> OutcomeView {
        match self {
            CompressOutcome::Passthrough => OutcomeView::Passthrough,
            CompressOutcome::Encoded(bytes) => OutcomeView::Encoded(bytes@),
        }
    }
}

/// Why an invocation failed: the stage that failed, with its diagnostic.
/// `SizeLimit` is the expected exhaustion outcome — no trial within the
/// step bound ever fit the budget.
pub enum CompressError {
    UnknownFormat(String),
    Decode(String),
    Trial(String),
    SizeLimit,
}

/// The mathematical value of a `CompressError`.
pub enum ErrorView {
    UnknownFormat(Seq<char>),
    Decode(Seq<char>),
    Trial(Seq<char>),
    SizeLimit,
}

impl View for CompressError {
    type V = ErrorView;

    open spec fn view(&self) -> ErrorView {
        match self {
            CompressError::UnknownFormat(m) => ErrorView::UnknownFormat(m@),
            CompressError::Decode(m) => ErrorView::Decode(m@),
            CompressError::Trial(m) => ErrorView::Trial(m@),
            CompressError::SizeLimit => ErrorView::SizeLimit,
        }
    }
}

/// The diagnostic text of an error.
pub open spec fn spec_message(e: ErrorView) -> Seq<char> {
    match e {
        ErrorView::UnknownFormat(m) => m,
        ErrorView::Decode(m) => m,
        ErrorView::Trial(m) => m,
        ErrorView::SizeLimit => "Unable to compress within size limit"@,
    }
}

impl CompressError {
    /// A human-readable diagnostic identifying what failed.
    pub fn message(&self) -> (r: String)
        ensures
            r@ == spec_message(self@),
    {
        match self {
            CompressError::UnknownFormat(m) => m.clone(),
            CompressError::Decode(m) => m.clone(),
            CompressError::Trial(m) => m.clone(),
            CompressError::SizeLimit => "Unable to compress within size limit".to_owned(),
        }
    }
}

/// The raster that the source bytes decode to, where they decode at all.
pub open spec fn decoded_view(src: Seq<u8>) -> RasterView {
    let t = decoded_raster(src)->Ok_0;
    RasterView { width: t.0, height: t.1, pixels: t.2 }
}

/// What one invocation computes, as a function of the source bytes and the
/// byte budget alone: probe the format, decode, reuse the source verbatim
/// when it is already JPEG and under budget, otherwise re-encode unscaled
/// and accept that when it fits, and otherwise search over scale factors.
pub open spec fn spec_compress(src: Seq<u8>, budget: int) -> Result<OutcomeView, ErrorView> {
    match jpeg_probe(src) {
        Err(e) => Err(ErrorView::UnknownFormat(e)),
        Ok(is_jpeg) => match decoded_raster(src) {
            Err(e) => Err(ErrorView::Decode(e)),
            Ok(_) => if is_jpeg && src.len() < budget {
                Ok(OutcomeView::Passthrough)
            } else {
                match spec_trial(decoded_view(src), SCALE_ONE) {
                    Err(e) => Err(ErrorView::Trial(e)),
                    Ok(unscaled) => if unscaled.len() < budget {
                        Ok(OutcomeView::Encoded(unscaled))
                    } else {
                        match spec_search(
                            decoded_view(src),
                            budget,
                            SCALE_MIN,
                            SCALE_ONE,
                            None,
                            SEARCH_STEPS as nat,
                        ) {
                            Err(e) => Err(ErrorView::Trial(e)),
                            Ok(None) => Err(ErrorView::SizeLimit),
                            Ok(Some(bytes)) => Ok(OutcomeView::Encoded(bytes)),
                        }
                    },
                }
            },
        },
    }
}

/// The mathematical value of a finished invocation.
pub open spec fn compress_view(r: Result<CompressOutcome, CompressError>) -> Result<
    OutcomeView,
    ErrorView,
> {
    match r {
        Ok(o) => Ok(o@),
        Err(e) => Err(e@),
    }
}

/// Runs one invocation on in-memory source bytes: the caller reads the
/// source beforehand and writes (or copies) afterwards. The result is
/// exactly `spec_compress` of the input, so the computation is
/// deterministic; `Ok(Passthrough)` asks the caller to copy the source
/// verbatim, `Ok(Encoded(bytes))` carries a buffer whose length is under
/// the budget.
pub fn compress_source(original: &Vec<u8>, budget: usize) -> (r: Result<
    CompressOutcome,
    CompressError,
>)
    ensures
        compress_view(r) == spec_compress(original@, budget as int),
        r matches Ok(CompressOutcome::Encoded(bytes)) ==> bytes@.len() < budget,
{
    let is_jpeg = match probe_jpeg(original) {
        Ok(b) => b,
        Err(e) => {
            return Err(CompressError::UnknownFormat(e));
        },
    };
    let img = match decode_rgb(original) {
        Ok(img) => img,
        Err(e) => {
            return Err(CompressError::Decode(e));
        },
    };
    proof {
        assert(img@ == decoded_view(original@));
    }
    if is_jpeg && original.len() < budget {
        return Ok(CompressOutcome::Passthrough);
    }
    let unscaled = match try_compress_size(&img, SCALE_ONE) {
        Ok(v) => v,
        Err(e) => {
            return Err(CompressError::Trial(e));
        },
    };
    if unscaled.len() < budget {
        return Ok(CompressOutcome::Encoded(unscaled));
    }
    proof {
        crate::search::lemma_search_result_fits(
            img@,
            budget as int,
            SCALE_MIN,
            SCALE_ONE,
            None,
            SEARCH_STEPS as nat,
        );
    }
    match run_search(&img, budget) {
        Ok(Some(bytes)) => Ok(CompressOutcome::Encoded(bytes)),
        Ok(None) => Err(CompressError::SizeLimit),
        Err(e) => Err(CompressError::Trial(e)),
    }
}

/// A source that is already JPEG and under budget is passed through
/// verbatim: the outcome asks for an exact copy of the source bytes, and
/// neither the unscaled re-encode nor the search contributes to it.
pub proof fn lemma_passthrough(src: Seq<u8>, budget: int)
    requires
        jpeg_probe(src) == Ok::<bool, Seq<char>>(true),
        decoded_raster(src) is Ok,
        src.len() < budget,
    ensures
        spec_compress(src, budget) == Ok::<OutcomeView, ErrorView>(OutcomeView::Passthrough),
{
}

/// When the passthrough does not resolve the case and the unscaled
/// re-encode at the fixed quality fits the budget, that re-encode is the
/// output, and the search contributes nothing to it.
pub proof fn lemma_unscaled_shortcut(src: Seq<u8>, budget: int)
    requires
        jpeg_probe(src) is Ok,
        decoded_raster(src) is Ok,
        !(jpeg_probe(src)->Ok_0 && src.len() < budget),
        spec_trial(decoded_view(src), SCALE_ONE) is Ok,
        spec_trial(decoded_view(src), SCALE_ONE)->Ok_0.len() < budget,
    ensures
        spec_compress(src, budget) == Ok::<OutcomeView, ErrorView>(
            OutcomeView::Encoded(spec_trial(decoded_view(src), SCALE_ONE)->Ok_0),
        ),
{
}

/// When the passthrough does not apply and every scale factor in the probe
/// range — the identity included — encodes to at least the budget, the
/// invocation fails with the size-limit error: no output bytes exist, so a
/// caller writes nothing.
pub proof fn lemma_compress_exhaustion(src: Seq<u8>, budget: int)
    requires
        jpeg_probe(src) is Ok,
        decoded_raster(src) is Ok,
        !(jpeg_probe(src)->Ok_0 && src.len() < budget),
        forall|s: u32|
            SCALE_MIN <= s <= SCALE_ONE ==> ((#[trigger] spec_trial(decoded_view(src), s))
                matches Ok(b) && b.len() >= budget),
    ensures
        spec_compress(src, budget) == Err::<OutcomeView, ErrorView>(ErrorView::SizeLimit),
{
    assert(spec_trial(decoded_view(src), SCALE_ONE) matches Ok(b) && b.len() >= budget);
    lemma_search_exhaustion(decoded_view(src), budget, SCALE_MIN, SCALE_ONE, SEARCH_STEPS as nat);
}

/// Re-running the same invocation — the same source bytes against the same
/// budget — yields the same outcome, byte for byte: any two results that
/// satisfy `compress_source`'s contract on equal inputs are equal.
pub proof fn lemma_rerun_identical(
    r1: Result<OutcomeView, ErrorView>,
    r2: Result<OutcomeView, ErrorView>,
    src: Seq<u8>,
    budget: int,
)
    requires
        r1 == spec_compress(src, budget),
        r2 == spec_compress(src, budget),
    ensures
        r1 == r2,
{
}

} // verus!
