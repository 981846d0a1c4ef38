//! What the search engine reports back, as plain values.

use vstd::prelude::*;

verus! {

/// Name of the index that holds the catalog.
pub open spec fn index_uid() -> Seq<char> {
    "mods"@
}

/// Name of the index that holds the catalog.
pub fn index_name() -> (r: String)
    ensures
        r@ == index_uid(),
{
    "mods".to_owned()
}

/// A request that the search engine did not carry out.
#[derive(Debug, PartialEq, Eq)]
pub struct EngineFailure {
    /// The engine's own description of what went wrong.
    pub detail: String,
}

/// The outcome of a request that changes the index: accepted, or refused
/// with the engine's reason.
pub type Acceptance = Result<(), EngineFailure>;

/// The content of an [`Acceptance`]: the refusal's text, if it is one.
pub open spec fn acceptance_view(outcome: Acceptance) -> Result<(), Seq<char>> {
    match outcome {
        Ok(_) => Ok(()),
        Err(failure) => Err(failure.detail@),
    }
}

} // verus!
