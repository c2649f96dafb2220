use vstd::prelude::*;
use vstd::string::StringExecFns;
use crate::error::HeatmapError;
use crate::render::spec_e7_viewport;
use crate::render::spec_points_json;
use crate::render::e7_viewport;
use crate::render::points_json;
use crate::transform::HeatmapPoint;

verus! {

/// Everything before the embedded coordinate array: document head, the
/// two filter controls (threshold slider over 0 to 4000000 in steps of
/// 100000, defaulting to the maximum, and the opt-in toggle for
/// unweighted points, defaulting to off), and the start of the script.
pub open spec fn spec_head_segment() -> Seq<char> {
    "<!DOCTYPE html>
<html>
<head>
<title>Heatmap</title>
<meta charset=\"utf-8\" />
<meta name=\"viewport\" content=\"width=device-width, initial-scale=1.0\">
<link rel=\"stylesheet\" href=\"https://unpkg.com/leaflet@1.7.1/dist/leaflet.css\" />
<script src=\"https://unpkg.com/leaflet@1.7.1/dist/leaflet.js\"></script>
<script src=\"https://cdnjs.cloudflare.com/ajax/libs/leaflet.heat/0.2.0/leaflet-heat.js\"></script>
</head>
<body>
<div>
<h3>Filters</h3>
<form>
<label id=\"acclabl\" for=\"filter_accuracy\">Accuracy:</label>
<input type=\"range\" style=\"width: 100%;\" id=\"filter_accuracy\" name=\"filter_accuracy\" min=\"0\" max=\"4000000\" step=\"100000\" value=\"4000000\">
<br>
<input type=\"checkbox\" id=\"include_no_accuracy\" name=\"include_no_accuracy\">
<label for=\"include_no_accuracy\">Include entries with no accuracy value</label>
</form>
</div>
<div id=\"map\" style=\"width: 100%; height: 100vh;\"></div>
<script>
let coordinates = "@
}

/// Between the coordinate array and the viewport latitude: the filter
/// state defaults and the start of the map setup.
pub open spec fn spec_viewport_segment() -> Seq<char> {
    ";
let min_accuracy = 4000000;
let include_no_accuracy = false;
const map = L.map('map').setView(["@
}

/// Between the viewport latitude and longitude.
pub open spec fn spec_separator_segment() -> Seq<char> {
    ", "@
}

/// Everything after the viewport longitude: the tile layer, the heat
/// layer, and the live-update rule bound to both controls' events. The
/// rule is the one `spec_displayed` states: with the toggle off a
/// weight is shown iff it is strictly positive and strictly below the
/// threshold; with the toggle on only the upper bound applies.
pub open spec fn spec_tail_segment() -> Seq<char> {
    "], 13);
L.tileLayer(\"https://{s}.tile.openstreetmap.org/{z}/{x}/{y}.png\", {
    attribution: '&copy; <a href=\"https://www.openstreetmap.org/copyright\">OpenStreetMap</a> contributors'
}).addTo(map);
let heat = L.heatLayer(coordinates).addTo(map);
document.getElementById('filter_accuracy').addEventListener('input', function(event) {
    min_accuracy = parseFloat(event.target.value);
    update_heatmap();
});
document.getElementById('include_no_accuracy').addEventListener('change', function(event) {
    include_no_accuracy = event.target.checked;
    update_heatmap();
});
function update_heatmap() {
    const filtered_coordinates = coordinates.filter(function(coord) {
        if (include_no_accuracy) {
            return coord[2] < min_accuracy;
        } else {
            return coord[2] < min_accuracy && coord[2] > 0;
        }
    });
    document.getElementById('acclabl').innerHTML = \"Accuracy: \" + min_accuracy;
    map.removeLayer(heat);
    heat = L.heatLayer(filtered_coordinates).addTo(map);
}
</script>
</body>
</html>
"@
}

/// The whole artifact for a non-empty point sequence: the template
/// segments around the serialized points and the viewport center, which
/// is the first point's coordinates.
pub open spec fn spec_artifact(ps: Seq<HeatmapPoint>) -> Seq<char> {
    spec_head_segment() + spec_points_json(ps) + spec_viewport_segment() + spec_e7_viewport(
        ps[0].latitude_e7 as int,
    ) + spec_separator_segment() + spec_e7_viewport(ps[0].longitude_e7 as int)
        + spec_tail_segment()
}

fn head_segment() -> (s: &'static str)
    ensures
        s@ == spec_head_segment(),
{
    "<!DOCTYPE html>
<html>
<head>
<title>Heatmap</title>
<meta charset=\"utf-8\" />
<meta name=\"viewport\" content=\"width=device-width, initial-scale=1.0\">
<link rel=\"stylesheet\" href=\"https://unpkg.com/leaflet@1.7.1/dist/leaflet.css\" />
<script src=\"https://unpkg.com/leaflet@1.7.1/dist/leaflet.js\"></script>
<script src=\"https://cdnjs.cloudflare.com/ajax/libs/leaflet.heat/0.2.0/leaflet-heat.js\"></script>
</head>
<body>
<div>
<h3>Filters</h3>
<form>
<label id=\"acclabl\" for=\"filter_accuracy\">Accuracy:</label>
<input type=\"range\" style=\"width: 100%;\" id=\"filter_accuracy\" name=\"filter_accuracy\" min=\"0\" max=\"4000000\" step=\"100000\" value=\"4000000\">
<br>
<input type=\"checkbox\" id=\"include_no_accuracy\" name=\"include_no_accuracy\">
<label for=\"include_no_accuracy\">Include entries with no accuracy value</label>
</form>
</div>
<div id=\"map\" style=\"width: 100%; height: 100vh;\"></div>
<script>
let coordinates = "
}

fn viewport_segment() -> (s: &'static str)
    ensures
        s@ == spec_viewport_segment(),
{
    ";
let min_accuracy = 4000000;
let include_no_accuracy = false;
const map = L.map('map').setView(["
}

fn separator_segment() -> (s: &'static str)
    ensures
        s@ == spec_separator_segment(),
{
    ", "
}

fn tail_segment() -> (s: &'static str)
    ensures
        s@ == spec_tail_segment(),
{
    "], 13);
L.tileLayer(\"https://{s}.tile.openstreetmap.org/{z}/{x}/{y}.png\", {
    attribution: '&copy; <a href=\"https://www.openstreetmap.org/copyright\">OpenStreetMap</a> contributors'
}).addTo(map);
let heat = L.heatLayer(coordinates).addTo(map);
document.getElementById('filter_accuracy').addEventListener('input', function(event) {
    min_accuracy = parseFloat(event.target.value);
    update_heatmap();
});
document.getElementById('include_no_accuracy').addEventListener('change', function(event) {
    include_no_accuracy = event.target.checked;
    update_heatmap();
});
function update_heatmap() {
    const filtered_coordinates = coordinates.filter(function(coord) {
        if (include_no_accuracy) {
            return coord[2] < min_accuracy;
        } else {
            return coord[2] < min_accuracy && coord[2] > 0;
        }
    });
    document.getElementById('acclabl').innerHTML = \"Accuracy: \" + min_accuracy;
    map.removeLayer(heat);
    heat = L.heatLayer(filtered_coordinates).addTo(map);
}
</script>
</body>
</html>
"
}

/// Assemble the render-ready artifact. The empty point sequence is the
/// one failure: the initial viewport needs a first point to center on,
/// and that case is surfaced as its own error rather than an
/// out-of-bounds access.
pub fn assemble_artifact(points: &Vec<HeatmapPoint>) -> (r: Result<String, HeatmapError>)
    requires
        forall|i: int| 0 <= i < points@.len() ==> #[trigger] points@[i].well_formed(),
    ensures
        r is Err <==> points@.len() == 0,
        r is Err ==> r->Err_0 == HeatmapError::EmptyResult,
        r is Ok ==> r->Ok_0@ == spec_artifact(points@),
{
    if points.len() == 0 {
        return Err(HeatmapError::EmptyResult);
    }
    let mut html = head_segment().to_owned();
    let coords = points_json(points);
    html.append(coords.as_str());
    html.append(viewport_segment());
    let lat = e7_viewport(points[0].latitude_e7);
    html.append(lat.as_str());
    html.append(separator_segment());
    let lon = e7_viewport(points[0].longitude_e7);
    html.append(lon.as_str());
    html.append(tail_segment());
    Ok(html)
}

} // verus!
