use vstd::prelude::*;
use crate::record::RawRecord;
use rayon::iter::IndexedParallelIterator;
use rayon::iter::IntoParallelRefIterator;
use rayon::iter::ParallelIterator;

verus! {

/// Weight marking a point whose positional data was incomplete at
/// admission time. In the rendered artifact it appears as `-100.0`.
pub const SENTINEL_WEIGHT: i128 = -100;

/// One normalized heatmap point. The coordinates keep the raw
/// degrees-times-ten-million scale; the renderer divides by ten million
/// when the artifact is written out.
#[derive(Clone, Copy, Debug, PartialEq, Eq, Hash)]
pub struct HeatmapPoint {
    /// Latitude in degrees, scaled by ten million.
    pub latitude_e7: i64,
    /// Longitude in degrees, scaled by ten million.
    pub longitude_e7: i64,
    /// Squared accuracy when the record was complete, `SENTINEL_WEIGHT`
    /// when at least one coordinate was absent.
    pub weight: i128,
}

impl HeatmapPoint {
    /// Every point produced by the transformer carries either a squared
    /// (hence non-negative) accuracy or the sentinel weight.
    pub open spec fn well_formed(self) -> bool {
        self.weight == SENTINEL_WEIGHT || self.weight >= 0
    }
}

/// The point an admitted record maps to: when all three fields are
/// present, the coordinates pass through and the weight is the squared
/// accuracy; otherwise a missing coordinate is replaced by zero and the
/// weight is the sentinel.
pub open spec fn spec_point_of(r: RawRecord) -> HeatmapPoint {
    if r.latitude_e7 is Some && r.longitude_e7 is Some && r.accuracy is Some {
        HeatmapPoint {
            latitude_e7: r.latitude_e7->0,
            longitude_e7: r.longitude_e7->0,
            weight: ((r.accuracy->0 as i128) * (r.accuracy->0 as i128)) as i128,
        }
    } else {
        HeatmapPoint {
            latitude_e7: if r.latitude_e7 is Some { r.latitude_e7->0 } else { 0 },
            longitude_e7: if r.longitude_e7 is Some { r.longitude_e7->0 } else { 0 },
            weight: SENTINEL_WEIGHT,
        }
    }
}

/// The whole transformed sequence, record by record.
pub open spec fn spec_points_of(records: Seq<RawRecord>) -> Seq<HeatmapPoint> {
    records.map_values(|r: RawRecord| spec_point_of(r))
}

/// Transform one record. Pure: the result depends on this record alone.
pub fn transform_record(r: &RawRecord) -> (p: HeatmapPoint)
    ensures
        p == spec_point_of(*r),
        p.well_formed(),
{
    match (r.latitude_e7, r.longitude_e7, r.accuracy) {
        (Some(lat), Some(lon), Some(acc)) => {
            let a = acc as i128;
            proof {
                assert(a * a >= 0 && a * a <= i128::MAX) by (nonlinear_arith)
                    requires
                        -0x8000_0000_0000_0000 <= a <= 0x7fff_ffff_ffff_ffff,
                ;
            }
            HeatmapPoint { latitude_e7: lat, longitude_e7: lon, weight: a * a }
        },
        _ => {
            let lat = match r.latitude_e7 {
                Some(v) => v,
                None => 0,
            };
            let lon = match r.longitude_e7 {
                Some(v) => v,
                None => 0,
            };
            HeatmapPoint { latitude_e7: lat, longitude_e7: lon, weight: SENTINEL_WEIGHT }
        },
    }
}

/// Relies on rayon: `par_iter().map(..)` on a vector is an indexed
/// parallel iterator that keeps each item's position, and
/// `collect_into_vec` writes each mapped result at its item's position,
/// so the output vector holds the mapped items in input order.
#[verifier::external_body]
fn par_map_points(records: &Vec<RawRecord>) -> (out: Vec<HeatmapPoint>)
    ensures
        out@.len() == records@.len(),
        forall|i: int| 0 <= i < records@.len() ==> out@[i] == spec_point_of(records@[i]),
{
    let mut out: Vec<HeatmapPoint> = Vec::new();
    records.par_iter().map(|r| transform_record(r)).collect_into_vec(&mut out);
    out
}

/// Map every record to its point. The work is dispatched across
/// parallel workers; no record's output depends on any other record.
pub fn transform_records(records: &Vec<RawRecord>) -> (points: Vec<HeatmapPoint>)
    ensures
        points@ == spec_points_of(records@),
        forall|i: int| 0 <= i < points@.len() ==> #[trigger] points@[i].well_formed(),
{
    let points = par_map_points(records);
    proof {
        assert(points@ =~= spec_points_of(records@));
        assert forall|i: int| 0 <= i < points@.len() implies #[trigger] points@[i].well_formed() by {
            lemma_point_well_formed(records@[i]);
        }
    }
    points
}

/// Every transformed point is well formed: its weight is the sentinel
/// or a square, never any other negative value.
pub proof fn lemma_point_well_formed(r: RawRecord)
    ensures
        spec_point_of(r).well_formed(),
{
    if r.latitude_e7 is Some && r.longitude_e7 is Some && r.accuracy is Some {
        let a = r.accuracy->0 as i128;
        assert(a * a >= 0 && a * a <= i128::MAX) by (nonlinear_arith)
            requires
                -0x8000_0000_0000_0000 <= a <= 0x7fff_ffff_ffff_ffff,
        ;
    }
}

/// A complete record passes its coordinates through unchanged and is
/// weighted with its squared accuracy, exactly and without clamping.
pub proof fn lemma_complete_record_point(r: RawRecord)
    requires
        r.latitude_e7 is Some,
        r.longitude_e7 is Some,
        r.accuracy is Some,
    ensures
        spec_point_of(r).latitude_e7 == r.latitude_e7->0,
        spec_point_of(r).longitude_e7 == r.longitude_e7->0,
        spec_point_of(r).weight == (r.accuracy->0 as int) * (r.accuracy->0 as int),
{
    let a = r.accuracy->0 as int;
    assert(a * a >= 0 && a * a <= i128::MAX) by (nonlinear_arith)
        requires
            -0x8000_0000_0000_0000 <= a <= 0x7fff_ffff_ffff_ffff,
    ;
}

/// An admitted record missing at least one coordinate carries the
/// sentinel weight, and each missing coordinate becomes zero.
pub proof fn lemma_incomplete_record_point(r: RawRecord)
    requires
        r.spec_admitted(),
        r.latitude_e7 is None || r.longitude_e7 is None,
    ensures
        spec_point_of(r).weight == SENTINEL_WEIGHT,
        r.latitude_e7 is None ==> spec_point_of(r).latitude_e7 == 0,
        r.longitude_e7 is None ==> spec_point_of(r).longitude_e7 == 0,
{
}

/// Order independence of the transformation: two record collections
/// that are equal as multisets transform to point collections that are
/// equal as multisets, whatever order either is in.
pub proof fn lemma_transform_order_independent(s1: Seq<RawRecord>, s2: Seq<RawRecord>)
    requires
        s1.to_multiset() == s2.to_multiset(),
    ensures
        spec_points_of(s1).to_multiset() == spec_points_of(s2).to_multiset(),
    decreases s1.len(),
{
    broadcast use vstd::seq_lib::group_to_multiset_ensures;

    if s1.len() == 0 {
        assert(s1.to_multiset().len() == s1.len());
        assert(s2.to_multiset().len() == s2.len());
        assert(s2.len() == 0);
        assert(spec_points_of(s1) =~= spec_points_of(s2));
    } else {
        let a = s1.last();
        let i1 = s1.len() - 1;
        assert(s1.to_multiset().count(a) > 0);
        assert(s2.contains(a));
        let j = choose|j: int| 0 <= j < s2.len() && s2[j] == a;
        let t1 = s1.remove(i1);
        let t2 = s2.remove(j);
        assert(t1.to_multiset() == t2.to_multiset());
        lemma_transform_order_independent(t1, t2);

        let p1 = spec_points_of(s1);
        let p2 = spec_points_of(s2);
        let pa = spec_point_of(a);
        assert(spec_points_of(t1) =~= p1.remove(i1));
        assert(spec_points_of(t2) =~= p2.remove(j));
        assert(p1[i1] == pa);
        assert(p2[j] == pa);
        assert(p1.remove(i1).to_multiset() == p1.to_multiset().remove(pa));
        assert(p2.remove(j).to_multiset() == p2.to_multiset().remove(pa));
        assert(p1.to_multiset().count(pa) > 0);
        assert(p2.to_multiset().count(pa) > 0);
        assert(p1.to_multiset() =~= p2.to_multiset()) by {
            assert forall|x: HeatmapPoint| p1.to_multiset().count(x) == p2.to_multiset().count(
                x,
            ) by {
                assert(p1.to_multiset().remove(pa).count(x) == p2.to_multiset().remove(pa).count(
                    x,
                ));
            }
        }
    }
}

} // verus!
