use vstd::prelude::*;
use vstd::math::abs;
use vstd::string::StringExecFns;
use crate::transform::HeatmapPoint;

verus! {

/// The E7 scale: one degree is this many stored units.
pub const E7_SCALE: u128 = 10_000_000;

/// The character of a single decimal digit.
pub open spec fn digit_char(d: int) -> char {
    if d == 0 {
        '0'
    } else if d == 1 {
        '1'
    } else if d == 2 {
        '2'
    } else if d == 3 {
        '3'
    } else if d == 4 {
        '4'
    } else if d == 5 {
        '5'
    } else if d == 6 {
        '6'
    } else if d == 7 {
        '7'
    } else if d == 8 {
        '8'
    } else {
        '9'
    }
}

/// The decimal digits of `n`, most significant first, without leading
/// zeros (a single zero digit for zero).
pub open spec fn spec_digits(n: nat) -> Seq<char>
    decreases n,
{
    if n < 10 {
        seq![digit_char(n as int)]
    } else {
        spec_digits(n / 10) + seq![digit_char((n % 10) as int)]
    }
}

/// The lowest `width` decimal digits of `n`, zero padded on the left.
pub open spec fn spec_fixed_digits(n: nat, width: nat) -> Seq<char>
    decreases width,
{
    if width == 0 {
        Seq::<char>::empty()
    } else {
        spec_fixed_digits(n / 10, (width - 1) as nat) + seq![digit_char((n % 10) as int)]
    }
}

/// One decimal digit as a string slice.
fn digit_str(d: u128) -> (s: &'static str)
    requires
        d < 10,
    ensures
        s@ == seq![digit_char(d as int)],
{
    proof {
        reveal_strlit("0");
        reveal_strlit("1");
        reveal_strlit("2");
        reveal_strlit("3");
        reveal_strlit("4");
        reveal_strlit("5");
        reveal_strlit("6");
        reveal_strlit("7");
        reveal_strlit("8");
        reveal_strlit("9");
    }
    let s = if d == 0 {
        "0"
    } else if d == 1 {
        "1"
    } else if d == 2 {
        "2"
    } else if d == 3 {
        "3"
    } else if d == 4 {
        "4"
    } else if d == 5 {
        "5"
    } else if d == 6 {
        "6"
    } else if d == 7 {
        "7"
    } else if d == 8 {
        "8"
    } else {
        "9"
    };
    proof {
        assert(s@ =~= seq![digit_char(d as int)]);
    }
    s
}

/// The decimal digits of `n` as a string.
pub fn u128_digits(n: u128) -> (s: String)
    ensures
        s@ == spec_digits(n as nat),
    decreases n,
{
    if n < 10 {
        digit_str(n).to_owned()
    } else {
        let mut s = u128_digits(n / 10);
        s.append(digit_str(n % 10));
        s
    }
}

/// The lowest `width` decimal digits of `n`, zero padded, as a string.
pub fn u128_fixed_digits(n: u128, width: usize) -> (s: String)
    ensures
        s@ == spec_fixed_digits(n as nat, width as nat),
    decreases width,
{
    if width == 0 {
        String::new()
    } else {
        let mut s = u128_fixed_digits(n / 10, width - 1);
        s.append(digit_str(n % 10));
        s
    }
}

/// The E7-scaled value `v` written as plain decimal degrees: an
/// optional sign, the whole degrees, a point, and exactly seven
/// fractional digits.
pub open spec fn spec_e7_decimal(v: int) -> Seq<char> {
    (if v < 0 {
        seq!['-']
    } else {
        Seq::<char>::empty()
    }) + spec_digits(abs(v) / 10_000_000) + seq!['.'] + spec_fixed_digits(
        abs(v) % 10_000_000,
        7,
    )
}

/// Decode an E7-scaled coordinate into its decimal-degree string.
pub fn e7_decimal(v: i64) -> (s: String)
    ensures
        s@ == spec_e7_decimal(v as int),
{
    proof {
        reveal_strlit("-");
        reveal_strlit("");
        reveal_strlit(".");
    }
    let wide: i128 = v as i128;
    let mag: u128 = if wide < 0 {
        (-wide) as u128
    } else {
        wide as u128
    };
    proof {
        assert(mag as int == abs(v as int));
    }
    let mut s = if wide < 0 {
        "-".to_owned()
    } else {
        "".to_owned()
    };
    proof {
        assert(s@ =~= if (v as int) < 0 { seq!['-'] } else { Seq::<char>::empty() });
        assert("."@ =~= seq!['.']);
    }
    let whole = u128_digits(mag / E7_SCALE);
    s.append(whole.as_str());
    s.append(".");
    let frac = u128_fixed_digits(mag % E7_SCALE, 7);
    s.append(frac.as_str());
    s
}

/// The viewport form of a coordinate: the same decimal degrees with an
/// eighth, always-zero fractional digit.
pub open spec fn spec_e7_viewport(v: int) -> Seq<char> {
    spec_e7_decimal(v) + seq!['0']
}

/// Decode an E7-scaled coordinate for the initial viewport.
pub fn e7_viewport(v: i64) -> (s: String)
    ensures
        s@ == spec_e7_viewport(v as int),
{
    proof {
        reveal_strlit("0");
        assert("0"@ =~= seq!['0']);
    }
    let mut s = e7_decimal(v);
    s.append("0");
    s
}

/// A weight written the way the artifact stores it: an integer with a
/// single zero fractional digit.
pub open spec fn spec_weight_decimal(w: int) -> Seq<char> {
    (if w < 0 {
        seq!['-']
    } else {
        Seq::<char>::empty()
    }) + spec_digits(abs(w)) + seq!['.', '0']
}

/// Render a weight. Every weight the transformer produces is either a
/// square or the sentinel, so the excluded extreme value never occurs.
pub fn weight_decimal(w: i128) -> (s: String)
    requires
        w > i128::MIN,
    ensures
        s@ == spec_weight_decimal(w as int),
{
    proof {
        reveal_strlit("-");
        reveal_strlit("");
        reveal_strlit(".0");
    }
    let mag: u128 = if w < 0 {
        (-w) as u128
    } else {
        w as u128
    };
    proof {
        assert(mag as int == abs(w as int));
    }
    let mut s = if w < 0 {
        "-".to_owned()
    } else {
        "".to_owned()
    };
    proof {
        assert(s@ =~= if (w as int) < 0 { seq!['-'] } else { Seq::<char>::empty() });
        assert(".0"@ =~= seq!['.', '0']);
    }
    let digits = u128_digits(mag);
    s.append(digits.as_str());
    s.append(".0");
    s
}

/// One point as a three-element array of decimal numbers.
pub open spec fn spec_point_json(p: HeatmapPoint) -> Seq<char> {
    seq!['['] + spec_e7_decimal(p.latitude_e7 as int) + seq![','] + spec_e7_decimal(
        p.longitude_e7 as int,
    ) + seq![','] + spec_weight_decimal(p.weight as int) + seq![']']
}

/// The comma-separated point bodies of a non-empty sequence.
pub open spec fn spec_points_json_inner(ps: Seq<HeatmapPoint>) -> Seq<char>
    decreases ps.len(),
{
    if ps.len() <= 1 {
        if ps.len() == 0 {
            Seq::<char>::empty()
        } else {
            spec_point_json(ps[0])
        }
    } else {
        spec_points_json_inner(ps.drop_last()) + seq![','] + spec_point_json(ps.last())
    }
}

/// The full point sequence as a JSON-style array of arrays.
pub open spec fn spec_points_json(ps: Seq<HeatmapPoint>) -> Seq<char> {
    seq!['['] + spec_points_json_inner(ps) + seq![']']
}

/// Render one point.
pub fn point_json(p: &HeatmapPoint) -> (s: String)
    requires
        p.well_formed(),
    ensures
        s@ == spec_point_json(*p),
{
    proof {
        reveal_strlit("[");
        reveal_strlit(",");
        reveal_strlit("]");
        assert("["@ =~= seq!['[']);
        assert(","@ =~= seq![',']);
        assert("]"@ =~= seq![']']);
    }
    let mut s = "[".to_owned();
    let lat = e7_decimal(p.latitude_e7);
    s.append(lat.as_str());
    s.append(",");
    let lon = e7_decimal(p.longitude_e7);
    s.append(lon.as_str());
    s.append(",");
    let w = weight_decimal(p.weight);
    s.append(w.as_str());
    s.append("]");
    s
}

/// Render the whole point sequence.
pub fn points_json(ps: &Vec<HeatmapPoint>) -> (s: String)
    requires
        forall|i: int| 0 <= i < ps@.len() ==> #[trigger] ps@[i].well_formed(),
    ensures
        s@ == spec_points_json(ps@),
{
    proof {
        reveal_strlit("[");
        reveal_strlit(",");
        reveal_strlit("]");
        assert("["@ =~= seq!['[']);
        assert(","@ =~= seq![',']);
        assert("]"@ =~= seq![']']);
    }
    let ghost all = ps@;
    let mut s = "[".to_owned();
    let mut i: usize = 0;
    while i < ps.len()
        invariant
            i <= all.len(),
            all == ps@,
            forall|k: int| 0 <= k < all.len() ==> #[trigger] all[k].well_formed(),
            s@ == seq!['['] + spec_points_json_inner(all.take(i as int)),
            ","@ =~= seq![','],
        decreases all.len() - i,
    {
        proof {
            let t = all.take(i + 1);
            assert(t.drop_last() =~= all.take(i as int));
            assert(t.last() == all[i as int]);
            if i == 0 {
                assert(spec_points_json_inner(t) == spec_point_json(all[0]));
            } else {
                assert(spec_points_json_inner(t) == spec_points_json_inner(all.take(i as int))
                    + seq![','] + spec_point_json(all[i as int]));
            }
        }
        if i > 0 {
            s.append(",");
        }
        let pj = point_json(&ps[i]);
        s.append(pj.as_str());
        i = i + 1;
    }
    proof {
        assert(all.take(all.len() as int) =~= all);
    }
    s.append("]");
    s
}

} // verus!
