use vstd::prelude::*;

verus! {

/// One raw fix from a location-history export. Every field is optional
/// and no invariant is enforced on a raw record.
#[derive(Clone, Copy, Debug, PartialEq, Eq)]
pub struct RawRecord {
    /// Latitude in degrees, scaled by ten million.
    pub latitude_e7: Option<i64>,
    /// Longitude in degrees, scaled by ten million.
    pub longitude_e7: Option<i64>,
    /// Measurement uncertainty of the fix, read as an integer: a source
    /// field holding a non-integer number reads as absent, like every
    /// wrongly typed field. Its presence alone decides whether the
    /// record is admitted.
    pub accuracy: Option<i64>,
}

impl RawRecord {
    /// A record is admitted exactly when its accuracy field is present;
    /// missing coordinates are tolerated.
    pub open spec fn spec_admitted(self) -> bool {
        self.accuracy is Some
    }

    /// Executable admission test.
    pub fn admitted(&self) -> (r: bool)
        ensures
            r == self.spec_admitted(),
    {
        self.accuracy.is_some()
    }
}

/// The admitted subsequence of a raw collection.
pub open spec fn spec_admit(records: Seq<RawRecord>) -> Seq<RawRecord> {
    records.filter(|r: RawRecord| r.spec_admitted())
}

/// Keep exactly the records whose accuracy field is present, in their
/// original order.
pub fn admit_records(records: &Vec<RawRecord>) -> (kept: Vec<RawRecord>)
    ensures
        kept@ == spec_admit(records@),
{
    let ghost pred = |r: RawRecord| r.spec_admitted();
    let mut kept: Vec<RawRecord> = Vec::new();
    let ghost all = records@;
    let mut i: usize = 0;
    while i < records.len()
        invariant
            i <= records@.len(),
            kept@ == all.take(i as int).filter(pred),
            all == records@,
            pred == (|r: RawRecord| r.spec_admitted()),
        decreases records@.len() - i,
    {
        proof {
            reveal(Seq::filter);
            let s = all.take(i + 1);
            assert(s.drop_last() =~= all.take(i as int));
            assert(s.last() == all[i as int]);
            assert(s.filter(pred) == if pred(all[i as int]) {
                all.take(i as int).filter(pred).push(all[i as int])
            } else {
                all.take(i as int).filter(pred)
            });
        }
        if records[i].admitted() {
            kept.push(records[i]);
        }
        i = i + 1;
    }
    proof {
        assert(all.take(records@.len() as int) =~= all);
    }
    kept
}

/// Admission is accuracy-gated: a record whose accuracy field is absent
/// is absent from the admitted sequence of every collection.
pub proof fn lemma_unadmitted_absent(records: Seq<RawRecord>, r: RawRecord)
    requires
        !r.spec_admitted(),
    ensures
        !spec_admit(records).contains(r),
{
    broadcast use vstd::seq_lib::group_filter_ensures;

    if spec_admit(records).contains(r) {
        let i = choose|i: int| 0 <= i < spec_admit(records).len() && spec_admit(records)[i] == r;
        assert(r.spec_admitted());
    }
}

} // verus!
