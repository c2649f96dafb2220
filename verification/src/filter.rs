use vstd::prelude::*;
use crate::transform::HeatmapPoint;
use crate::transform::SENTINEL_WEIGHT;

verus! {

/// Lower bound of the threshold slider.
pub const THRESHOLD_MIN: i64 = 0;

/// Upper bound and default of the threshold slider.
pub const THRESHOLD_MAX: i64 = 4_000_000;

/// Step of the threshold slider.
pub const THRESHOLD_STEP: i64 = 100_000;

/// The adjustable view-time state: a numeric weight threshold and a
/// toggle that opts sentinel-weighted points in. Neither is persisted;
/// a renderer starts from `FilterParams::default()` every time the
/// artifact is opened.
#[derive(Clone, Copy, Debug, PartialEq, Eq)]
pub struct FilterParams {
    /// A point's weight must lie strictly below this to be displayed.
    pub min_accuracy_threshold: i64,
    /// When set, points with the sentinel weight are no longer excluded
    /// by the positivity requirement.
    pub include_unweighted: bool,
}

impl Default for FilterParams {
    /// The freshly opened artifact shows everything the slider can
    /// admit, with unweighted points opted out.
    fn default() -> (params: FilterParams)
        ensures
            params.min_accuracy_threshold == THRESHOLD_MAX,
            params.include_unweighted == false,
    {
        FilterParams { min_accuracy_threshold: THRESHOLD_MAX, include_unweighted: false }
    }
}

/// The live-update rule: with the toggle off a weight is displayed iff
/// it is strictly positive and strictly below the threshold, which
/// excludes sentinel-weighted points; with the toggle on only the upper
/// bound applies, so sentinel-weighted points pass whenever the
/// threshold exceeds the sentinel.
pub open spec fn spec_displayed(weight: int, threshold: int, include_unweighted: bool) -> bool {
    if include_unweighted {
        weight < threshold
    } else {
        0 < weight && weight < threshold
    }
}

/// Executable form of the live-update rule.
pub fn is_displayed(weight: i128, threshold: i64, include_unweighted: bool) -> (r: bool)
    ensures
        r == spec_displayed(weight as int, threshold as int, include_unweighted),
{
    if include_unweighted {
        weight < threshold as i128
    } else {
        0 < weight && weight < threshold as i128
    }
}

impl FilterParams {
    /// Whether this parameter set displays the given point.
    pub open spec fn spec_displays(self, p: HeatmapPoint) -> bool {
        spec_displayed(p.weight as int, self.min_accuracy_threshold as int, self.include_unweighted)
    }

    /// Executable form of `spec_displays`.
    pub fn displays(&self, p: &HeatmapPoint) -> (r: bool)
        ensures
            r == self.spec_displays(*p),
    {
        is_displayed(p.weight, self.min_accuracy_threshold, self.include_unweighted)
    }
}

/// What the artifact shows for a given parameter set: exactly the
/// displayed points, in their stored order. The embedded view evaluates
/// this same rule at view time; nothing of the original records is
/// consulted again.
pub fn filter_points(points: &Vec<HeatmapPoint>, params: &FilterParams) -> (shown: Vec<
    HeatmapPoint,
>)
    ensures
        shown@ == points@.filter(|p: HeatmapPoint| params.spec_displays(p)),
{
    let ghost pred = |p: HeatmapPoint| params.spec_displays(p);
    let mut shown: Vec<HeatmapPoint> = Vec::new();
    let ghost all = points@;
    let mut i: usize = 0;
    while i < points.len()
        invariant
            i <= all.len(),
            shown@ == all.take(i as int).filter(pred),
            all == points@,
            pred == (|p: HeatmapPoint| params.spec_displays(p)),
        decreases all.len() - i,
    {
        proof {
            reveal(Seq::filter);
            let s = all.take(i + 1);
            assert(s.drop_last() =~= all.take(i as int));
            assert(s.last() == all[i as int]);
            assert(s.filter(pred) == if pred(all[i as int]) {
                all.take(i as int).filter(pred).push(all[i as int])
            } else {
                all.take(i as int).filter(pred)
            });
        }
        if params.displays(&points[i]) {
            shown.push(points[i]);
        }
        i = i + 1;
    }
    proof {
        assert(all.take(all.len() as int) =~= all);
    }
    shown
}

/// With the toggle off, a sentinel-weighted point is never displayed,
/// whatever the threshold is set to.
pub proof fn lemma_sentinel_hidden_without_toggle(threshold: int)
    ensures
        !spec_displayed(SENTINEL_WEIGHT as int, threshold, false),
{
}

} // verus!
