//! `torizon metrics`: read device and fleet metrics.

use vstd::prelude::*;

use super::{
    call_plan, get_call, get_plan, make_call, no_query, obj3, pairs_view, push_pair,
    push_repeated, repeated, Body, BodyV, CliError, Plan, PlanV, Render, RenderV,
};
use super::updates::str_array;
use crate::client::{encode_segment, percent_encode, Method};
use crate::json::{Json, JsonV};
use crate::text::{concat3, decimal_i64, owned, signed_decimal};

verus! {

/// `torizon metrics` subcommands.
pub enum MetricsCmd {
    /// List the metric names available in your repository.
    Names,
    /// Get metrics time series for a single device.
    Device { device_uuid: String, range: RangeArgs },
    /// Get detailed metrics for a single device.
    Detailed { device_uuid: String, range: RangeArgs },
    /// Get aggregated metrics for a fleet.
    Fleet { fleet_id: String, range: RangeArgs },
    /// Get outlier metrics for a fleet.
    Outliers { fleet_id: String, range: RangeArgs },
    /// Get a metrics report for a fleet.
    Report { fleet_id: String, range: RangeArgs },
}

pub struct RangeArgs {
    /// Metric names to fetch.
    pub metrics: Vec<String>,
    /// Range start, UNIX epoch seconds.
    pub from: i64,
    /// Range end, UNIX epoch seconds.
    pub to: i64,
    /// Resolution in seconds (time-series queries only).
    pub resolution: Option<i64>,
}

/// The query of a time-series request.
pub open spec fn range_query(r: RangeArgs) -> Seq<(Seq<char>, Seq<char>)> {
    seq![("from"@, signed_decimal(r.from as int)), ("to"@, signed_decimal(r.to as int))] + (match r.resolution {
        Some(x) => seq![("resolution"@, signed_decimal(x as int))],
        None => Seq::empty(),
    }) + repeated("metric"@, r.metrics@)
}

/// The query of a detailed-metrics request.
pub open spec fn detailed_query(r: RangeArgs) -> Seq<(Seq<char>, Seq<char>)> {
    seq![("from"@, signed_decimal(r.from as int)), ("to"@, signed_decimal(r.to as int))] + repeated(
        "metrics"@,
        r.metrics@,
    )
}

/// The body of an outliers or report request.
pub open spec fn range_body(r: RangeArgs) -> JsonV {
    JsonV::Object(
        seq![
            ("metrics"@, str_array(r.metrics@)),
            ("from"@, JsonV::Number(signed_decimal(r.from as int), signed_decimal(r.from as int))),
            ("to"@, JsonV::Number(signed_decimal(r.to as int), signed_decimal(r.to as int))),
        ],
    )
}

impl RangeArgs {
    /// The query of a time-series request: range, resolution, metric names.
    pub fn to_query(&self) -> (r: Vec<(String, String)>)
        ensures
            pairs_view(r@) == range_query(*self),
    {
        let mut q: Vec<(String, String)> = Vec::new();
        assert(pairs_view(q@) =~= Seq::<(Seq<char>, Seq<char>)>::empty());
        push_pair(&mut q, "from", decimal_i64(self.from));
        push_pair(&mut q, "to", decimal_i64(self.to));
        let ghost before = pairs_view(q@);
        if let Some(x) = self.resolution {
            push_pair(&mut q, "resolution", decimal_i64(x));
        }
        let ghost mid = pairs_view(q@);
        push_repeated(&mut q, "metric", &self.metrics);
        assert(pairs_view(q@) =~= range_query(*self));
        q
    }
}

/// The path-segment encoding of a text.
pub open spec fn seg(s: Seq<char>) -> Seq<char> {
    percent_encode(vstd::utf8::encode_utf8(s))
}

/// The plan of each `metrics` subcommand.
pub open spec fn metrics_plan(cmd: MetricsCmd) -> Result<PlanV, CliError> {
    match cmd {
        MetricsCmd::Names => Ok(get_plan("/device-data/metric-names"@, RenderV::List)),
        MetricsCmd::Device { device_uuid, range } => Ok(
            call_plan(
                None,
                Method::Get,
                "/device-data/devices/"@ + seg(device_uuid@) + "/metrics"@,
                range_query(range),
                BodyV::Empty,
                RenderV::Json,
            ),
        ),
        MetricsCmd::Detailed { device_uuid, range } => Ok(
            call_plan(
                None,
                Method::Get,
                "/device-data/devices/"@ + seg(device_uuid@) + "/detailed-metrics"@,
                detailed_query(range),
                BodyV::Empty,
                RenderV::Json,
            ),
        ),
        MetricsCmd::Fleet { fleet_id, range } => Ok(
            call_plan(
                None,
                Method::Get,
                "/device-data/fleets/"@ + seg(fleet_id@) + "/metrics"@,
                range_query(range),
                BodyV::Empty,
                RenderV::Json,
            ),
        ),
        MetricsCmd::Outliers { fleet_id, range } => Ok(
            call_plan(
                None,
                Method::Post,
                "/device-data/fleets/"@ + seg(fleet_id@) + "/metrics/outliers"@,
                Seq::empty(),
                BodyV::Json(range_body(range)),
                RenderV::Json,
            ),
        ),
        MetricsCmd::Report { fleet_id, range } => Ok(
            call_plan(
                None,
                Method::Post,
                "/device-data/fleets/"@ + seg(fleet_id@) + "/metrics/report"@,
                Seq::empty(),
                BodyV::Json(range_body(range)),
                RenderV::Json,
            ),
        ),
    }
}

/// A time-series query carries the range as `from` and `to` in decimal, the
/// resolution when given, and one `metric` pair per metric name, in order;
/// a detailed query names the metrics under `metrics` instead.
pub proof fn law_range_queries(r: RangeArgs)
    ensures
        range_query(r)[0] == ("from"@, signed_decimal(r.from as int)),
        range_query(r)[1] == ("to"@, signed_decimal(r.to as int)),
        forall|x: i64| r.resolution == Some(x) ==> range_query(r).contains(("resolution"@, signed_decimal(x as int))),
        r.resolution is None ==> range_query(r).len() == 2 + r.metrics@.len(),
        forall|i: int| 0 <= i < r.metrics@.len() ==> range_query(r).contains(("metric"@, (#[trigger] r.metrics@[i])@)),
        detailed_query(r)[0] == ("from"@, signed_decimal(r.from as int)),
        detailed_query(r)[1] == ("to"@, signed_decimal(r.to as int)),
        detailed_query(r).len() == 2 + r.metrics@.len(),
        forall|i: int| 0 <= i < r.metrics@.len() ==> detailed_query(r)[2 + i] == ("metrics"@, (#[trigger] r.metrics@[i])@),
{
    let k: int = if r.resolution is Some { 3 } else { 2 };
    if let Some(x) = r.resolution {
        assert(range_query(r)[2] == ("resolution"@, signed_decimal(x as int)));
    }
    assert forall|i: int| 0 <= i < r.metrics@.len() implies range_query(r).contains(("metric"@, (#[trigger] r.metrics@[i])@)) by {
        assert(range_query(r)[k + i] == ("metric"@, r.metrics@[i]@));
    }
}

/// Outliers and reports are POSTs of the fleet's metrics endpoint whose body
/// carries the metric names and the range as JSON numbers.
pub proof fn law_fleet_metric_posts(fleet_id: String, r: RangeArgs)
    ensures
        ({
            let body = BodyV::Json(
                JsonV::Object(
                    seq![
                        ("metrics"@, JsonV::Array(Seq::new(r.metrics@.len(), |i: int| JsonV::Str(r.metrics@[i]@)))),
                        ("from"@, JsonV::Number(signed_decimal(r.from as int), signed_decimal(r.from as int))),
                        ("to"@, JsonV::Number(signed_decimal(r.to as int), signed_decimal(r.to as int))),
                    ],
                ),
            );
            &&& metrics_plan(MetricsCmd::Outliers { fleet_id, range: r }) matches Ok(PlanV::Call(c))
                && c.request.method == Method::Post && c.request.path == "/device-data/fleets/"@ + seg(fleet_id@)
                + "/metrics/outliers"@ && c.request.body == body
            &&& metrics_plan(MetricsCmd::Report { fleet_id, range: r }) matches Ok(PlanV::Call(c))
                && c.request.method == Method::Post && c.request.path == "/device-data/fleets/"@ + seg(fleet_id@)
                + "/metrics/report"@ && c.request.body == body
        }),
{
    assert(str_array(r.metrics@) == JsonV::Array(Seq::new(r.metrics@.len(), |i: int| JsonV::Str(r.metrics@[i]@))));
}

fn range_body_of(range: &RangeArgs) -> (r: Json)
    ensures
        r@ == range_body(*range),
{
    obj3(
        "metrics",
        Json::strings(&range.metrics),
        "from",
        Json::integer(range.from),
        "to",
        Json::integer(range.to),
    )
}

fn seg_path(prefix: &str, s: &str, suffix: &str) -> (r: String)
    ensures
        r@ == prefix@ + seg(s@) + suffix@,
{
    let e = encode_segment(s);
    concat3(prefix, e.as_str(), suffix)
}

/// Plans a `metrics` subcommand.
pub fn run(cmd: MetricsCmd) -> (r: Result<Plan, CliError>)
    ensures
        match metrics_plan(cmd) {
            Ok(p) => r matches Ok(q) && q@ == p,
            Err(e) => r == Err::<Plan, CliError>(e),
        },
{
    match cmd {
        MetricsCmd::Names => Ok(get_call(owned("/device-data/metric-names"), Render::List)),
        MetricsCmd::Device { device_uuid, range } => Ok(
            make_call(
                None,
                Method::Get,
                seg_path("/device-data/devices/", device_uuid.as_str(), "/metrics"),
                range.to_query(),
                Body::Empty,
                Render::Json,
            ),
        ),
        MetricsCmd::Detailed { device_uuid, range } => {
            let mut q: Vec<(String, String)> = Vec::new();
            assert(pairs_view(q@) =~= Seq::<(Seq<char>, Seq<char>)>::empty());
            push_pair(&mut q, "from", decimal_i64(range.from));
            push_pair(&mut q, "to", decimal_i64(range.to));
            push_repeated(&mut q, "metrics", &range.metrics);
            assert(pairs_view(q@) =~= detailed_query(range));
            Ok(
                make_call(
                    None,
                    Method::Get,
                    seg_path("/device-data/devices/", device_uuid.as_str(), "/detailed-metrics"),
                    q,
                    Body::Empty,
                    Render::Json,
                ),
            )
        },
        MetricsCmd::Fleet { fleet_id, range } => Ok(
            make_call(
                None,
                Method::Get,
                seg_path("/device-data/fleets/", fleet_id.as_str(), "/metrics"),
                range.to_query(),
                Body::Empty,
                Render::Json,
            ),
        ),
        MetricsCmd::Outliers { fleet_id, range } => Ok(
            make_call(
                None,
                Method::Post,
                seg_path("/device-data/fleets/", fleet_id.as_str(), "/metrics/outliers"),
                no_query(),
                Body::Json(range_body_of(&range)),
                Render::Json,
            ),
        ),
        MetricsCmd::Report { fleet_id, range } => Ok(
            make_call(
                None,
                Method::Post,
                seg_path("/device-data/fleets/", fleet_id.as_str(), "/metrics/report"),
                no_query(),
                Body::Json(range_body_of(&range)),
                Render::Json,
            ),
        ),
    }
}

} // verus!
