use vstd::prelude::*;
use crate::assemble::assemble_artifact;
use crate::assemble::spec_artifact;
use crate::error::HeatmapError;
use crate::loader::load_document;
use crate::loader::spec_doc_records;
use crate::loader::spec_doc_wf;
use crate::record::RawRecord;
use crate::record::admit_records;
use crate::record::spec_admit;
use crate::transform::spec_points_of;
use crate::transform::transform_records;

verus! {

/// The whole run from raw records to artifact text: admission drops the
/// records without accuracy, every survivor becomes one point, and the
/// points are embedded in the artifact. The run fails exactly when no
/// record survives admission.
pub fn build_from_records(records: &Vec<RawRecord>) -> (r: Result<String, HeatmapError>)
    ensures
        r is Err <==> spec_admit(records@).len() == 0,
        r is Err ==> r->Err_0 == HeatmapError::EmptyResult,
        r is Ok ==> r->Ok_0@ == spec_artifact(spec_points_of(spec_admit(records@))),
{
    let admitted = admit_records(records);
    let points = transform_records(&admitted);
    assemble_artifact(&points)
}

/// The whole run from source text to artifact text: it succeeds exactly
/// when the text is a well-formed document at least one of whose
/// records is admitted, and then returns the artifact of the admitted
/// records' points; a malformed document and an empty admitted sequence
/// each fail with their own diagnostic.
pub fn generate_heatmap(text: &str) -> (r: Result<String, HeatmapError>)
    ensures
        r is Ok <==> spec_doc_wf(text@) && spec_admit(spec_doc_records(text@)).len() > 0,
        r is Ok ==> r->Ok_0@ == spec_artifact(
            spec_points_of(spec_admit(spec_doc_records(text@))),
        ),
        r is Err ==> r->Err_0 == (if spec_doc_wf(text@) {
            HeatmapError::EmptyResult
        } else {
            HeatmapError::InputMalformed
        }),
{
    let records = match load_document(text) {
        Ok(records) => records,
        Err(e) => {
            return Err(e);
        },
    };
    build_from_records(&records)
}

} // verus!
