use vstd::prelude::*;

verus! {

/// The fatal conditions the library itself decides. Reading the source
/// and writing the artifact happen outside the library, so their
/// failures are reported by the caller directly.
#[derive(Clone, Copy, Debug, PartialEq, Eq)]
pub enum HeatmapError {
    /// The source text is not a well-formed document, or its top-level
    /// records field is missing or not a collection.
    InputMalformed,
    /// No record survived admission, so there is no first point for the
    /// initial viewport to center on.
    EmptyResult,
}

impl HeatmapError {
    /// The diagnostic each failing stage owes, one per variant.
    pub open spec fn spec_message(self) -> Seq<char> {
        match self {
            HeatmapError::InputMalformed => "input is not a document with a locations collection"@,
            HeatmapError::EmptyResult => "no admitted records: nothing to center the viewport on"@,
        }
    }

    /// A diagnostic naming the stage that failed.
    pub fn message(&self) -> (r: &'static str)
        ensures
            r@ == self.spec_message(),
    {
        match self {
            HeatmapError::InputMalformed => "input is not a document with a locations collection",
            HeatmapError::EmptyResult => "no admitted records: nothing to center the viewport on",
        }
    }
}

} // verus!
