//! The one-shot event reported to the host after an invocation: the
//! transport schema, and the mapping from a finished invocation to the
//! single event a caller sees.

use vstd::prelude::*;
use crate::compress::{spec_message, CompressError, CompressOutcome};

verus! {

/// The events the host transport accepts. Exactly one is reported per
/// invocation; `Inlined` exists in the schema for callers that return a
/// result in place of a destination file, and is not produced by the
/// compression path.
pub enum BackendEvent {
    Done,
    Inlined { result: String },
    Failed { msg: String },
}

/// Maps a finished invocation to the single event reported for it: success
/// becomes `Done`, failure becomes `Failed` carrying the stage's
/// diagnostic.
pub fn event_of(result: &Result<CompressOutcome, CompressError>) -> (ev: BackendEvent)
    ensures
        result is Ok <==> ev is Done,
        result matches Err(e) ==> ev matches BackendEvent::Failed { msg } && msg@ == spec_message(
            e@,
        ),
{
    match result {
        Ok(_) => BackendEvent::Done,
        Err(e) => BackendEvent::Failed { msg: e.message() },
    }
}

} // verus!
