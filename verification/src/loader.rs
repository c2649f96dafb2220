use vstd::prelude::*;
use crate::error::HeatmapError;
use crate::record::RawRecord;

verus! {

/// Whether the text is a well-formed source document: it parses as a
/// document tree whose top-level `locations` field is an array. Named
/// here because stating it in full would mean writing out the whole
/// grammar; what it holds is pinned only by `extract_records`.
pub uninterp spec fn spec_doc_wf(text: Seq<char>) -> bool;

/// The raw records a well-formed document carries, in document order:
/// one per array element, each optional field present exactly when the
/// element carries that key with an integer value.
pub uninterp spec fn spec_doc_records(text: Seq<char>) -> Seq<RawRecord>;

/// Relies on serde_json::from_str, Value::get, Value::as_array and
/// Value::as_i64: the text either fails to parse as a document with a
/// `locations` array, or yields one record per array element, reading
/// each of the three keys as an i64 where it is an integer that fits
/// and as absent where it is missing or of another type (a fractional
/// number included). All four are functions of their input alone, so
/// the whole extraction is a function of the text.
#[verifier::external_body]
fn extract_records(text: &str) -> (r: Option<Vec<RawRecord>>)
    ensures
        r is Some <==> spec_doc_wf(text@),
        r is Some ==> r->0@ == spec_doc_records(text@),
{
    let document: serde_json::Value = serde_json::from_str(text).ok()?;
    let nodes = document.get("locations")?.as_array()?;
    Some(nodes.iter().map(|node| RawRecord {
        latitude_e7: node.get("latitudeE7").and_then(serde_json::Value::as_i64),
        longitude_e7: node.get("longitudeE7").and_then(serde_json::Value::as_i64),
        accuracy: node.get("accuracy").and_then(serde_json::Value::as_i64),
    }).collect())
}

/// Read the raw records out of the source text. Fails exactly when the
/// document is malformed: text that does not parse, or whose top-level
/// records field is missing or not a collection. No record is dropped
/// here; admission is a separate step.
pub fn load_document(text: &str) -> (r: Result<Vec<RawRecord>, HeatmapError>)
    ensures
        r is Err <==> !spec_doc_wf(text@),
        r is Err ==> r->Err_0 == HeatmapError::InputMalformed,
        r is Ok ==> r->Ok_0@ == spec_doc_records(text@),
{
    match extract_records(text) {
        Some(records) => Ok(records),
        None => Err(HeatmapError::InputMalformed),
    }
}

} // verus!
