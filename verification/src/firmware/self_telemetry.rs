//! The data points the telemetry module reports about itself: two on boot,
//! and a set every minute.
use vstd::prelude::*;

verus! {

/// The value of a data point.
pub enum TelemetryValue {
    StaticString(String),
    U64(u64),
    Usize(usize),
}

/// One data point: measurement (with its tags), field and value.
pub struct DataPoint {
    pub measurement: &'static str,
    pub field: &'static str,
    pub value: TelemetryValue,
}

pub enum TelemetryValueView {
    StaticString(Seq<char>),
    U64(u64),
    Usize(usize),
}

pub struct DataPointView {
    pub measurement: Seq<char>,
    pub field: Seq<char>,
    pub value: TelemetryValueView,
}

impl View for DataPoint {
    type V = DataPointView;

    open spec fn view(&self) -> DataPointView {
        DataPointView {
            measurement: self.measurement@,
            field: self.field@,
            value: match self.value {
                TelemetryValue::StaticString(s) => TelemetryValueView::StaticString(s@),
                TelemetryValue::U64(v) => TelemetryValueView::U64(v),
                TelemetryValue::Usize(v) => TelemetryValueView::Usize(v),
            },
        }
    }
}

pub open spec fn point_views(v: Seq<DataPoint>) -> Seq<DataPointView> {
    v.map_values(|p: DataPoint| p@)
}

pub open spec fn point(measurement: Seq<char>, field: Seq<char>, value: TelemetryValueView) -> DataPointView {
    DataPointView { measurement, field, value }
}

fn push_point(v: &mut Vec<DataPoint>, p: DataPoint)
    ensures
        point_views(final(v)@) == point_views(old(v)@).push(p@),
{
    let ghost pv = p@;
    v.push(p);
    proof {
        assert(point_views(v@) =~= point_views(old(v)@).push(pv));
    }
}

/// The data points sent once on boot: the firmware revision and the text of
/// the boot reason.
pub fn boot_data_points(git_revision: &str, boot_reason: &str) -> (r: Vec<DataPoint>)
    ensures
        point_views(r@) == seq![
            point(
                "telemetry_module_git_revision"@,
                "value"@,
                TelemetryValueView::StaticString(git_revision@),
            ),
            point(
                "telemetry_module_boot_reason"@,
                "value"@,
                TelemetryValueView::StaticString(boot_reason@),
            ),
        ],
{
    let mut v: Vec<DataPoint> = Vec::new();
    push_point(
        &mut v,
        DataPoint {
            measurement: "telemetry_module_git_revision",
            field: "value",
            value: TelemetryValue::StaticString(String::from_str(git_revision)),
        },
    );
    push_point(
        &mut v,
        DataPoint {
            measurement: "telemetry_module_boot_reason",
            field: "value",
            value: TelemetryValue::StaticString(String::from_str(boot_reason)),
        },
    );
    proof {
        let ghost expected = seq![
            point(
                "telemetry_module_git_revision"@,
                "value"@,
                TelemetryValueView::StaticString(git_revision@),
            ),
            point(
                "telemetry_module_boot_reason"@,
                "value"@,
                TelemetryValueView::StaticString(boot_reason@),
            ),
        ];
        assert(point_views(v@) =~= expected);
    }
    v
}

/// The counters the module keeps of its own work.
#[derive(Clone, Copy, Debug)]
pub struct SelfCounters {
    pub rpc_is_ready: usize,
    pub rpc_get_time: usize,
    pub rpc_strings_metadata: usize,
    pub rpc_clear_strings: usize,
    pub rpc_push_string: usize,
    pub rpc_data_point: usize,
    pub rpc_data_point_fail_to_line: usize,
    pub rpc_data_point_fail_render: usize,
    pub data_points_accepted: usize,
    pub data_points_discarded: usize,
    pub telegraf_submit_success: usize,
    pub telegraf_submit_fail: usize,
    pub string_registry_size: usize,
}

/// The data points sent every minute.
pub open spec fn periodic_points(
    uptime_ms: u64,
    link_age_ms: u64,
    c: SelfCounters,
    registry_age_ms: u64,
) -> Seq<DataPointView> {
    seq![
        point("telemetry_module_uptime"@, "value"@, TelemetryValueView::U64(uptime_ms)),
        point("telemetry_module_network"@, "config_age"@, TelemetryValueView::U64(link_age_ms)),
        point(
            "telemetry_module_rpc,request=is_ready"@,
            "count"@,
            TelemetryValueView::Usize(c.rpc_is_ready),
        ),
        point(
            "telemetry_module_rpc,request=get_time"@,
            "count"@,
            TelemetryValueView::Usize(c.rpc_get_time),
        ),
        point(
            "telemetry_module_rpc,request=strings_metadata"@,
            "count"@,
            TelemetryValueView::Usize(c.rpc_strings_metadata),
        ),
        point(
            "telemetry_module_rpc,request=clear_strings"@,
            "count"@,
            TelemetryValueView::Usize(c.rpc_clear_strings),
        ),
        point(
            "telemetry_module_rpc,request=push_string"@,
            "count"@,
            TelemetryValueView::Usize(c.rpc_push_string),
        ),
        point(
            "telemetry_module_rpc,request=data_point"@,
            "count"@,
            TelemetryValueView::Usize(c.rpc_data_point),
        ),
        point(
            "telemetry_module_rpc,request=data_point,result=fail,reason=to_line"@,
            "count"@,
            TelemetryValueView::Usize(c.rpc_data_point_fail_to_line),
        ),
        point(
            "telemetry_module_rpc,request=data_point,result=fail,reason=render"@,
            "count"@,
            TelemetryValueView::Usize(c.rpc_data_point_fail_render),
        ),
        point(
            "telemetry_module_data_points,state=accepted"@,
            "count"@,
            TelemetryValueView::Usize(c.data_points_accepted),
        ),
        point(
            "telemetry_module_data_points,state=discarded"@,
            "count"@,
            TelemetryValueView::Usize(c.data_points_discarded),
        ),
        point(
            "telemetry_module_data_submissions,result=success"@,
            "count"@,
            TelemetryValueView::Usize(c.telegraf_submit_success),
        ),
        point(
            "telemetry_module_data_submissions,result=fail"@,
            "count"@,
            TelemetryValueView::Usize(c.telegraf_submit_fail),
        ),
        point(
            "telemetry_module_string_registry"@,
            "size"@,
            TelemetryValueView::Usize(c.string_registry_size),
        ),
        point(
            "telemetry_module_string_registry"@,
            "last_modify_age"@,
            TelemetryValueView::U64(registry_age_ms),
        ),
    ]
}

fn push_count(v: &mut Vec<DataPoint>, measurement: &'static str, n: usize)
    ensures
        point_views(final(v)@) == point_views(old(v)@).push(
            point(measurement@, "count"@, TelemetryValueView::Usize(n)),
        ),
{
    push_point(v, DataPoint { measurement, field: "count", value: TelemetryValue::Usize(n) });
}

/// The data points sent every minute.
pub fn periodic_data_points(
    uptime_ms: u64,
    link_age_ms: u64,
    c: &SelfCounters,
    registry_age_ms: u64,
) -> (r: Vec<DataPoint>)
    ensures
        point_views(r@) == periodic_points(uptime_ms, link_age_ms, *c, registry_age_ms),
{
    let mut v: Vec<DataPoint> = Vec::new();
    push_point(
        &mut v,
        DataPoint {
            measurement: "telemetry_module_uptime",
            field: "value",
            value: TelemetryValue::U64(uptime_ms),
        },
    );
    push_point(
        &mut v,
        DataPoint {
            measurement: "telemetry_module_network",
            field: "config_age",
            value: TelemetryValue::U64(link_age_ms),
        },
    );
    push_count(&mut v, "telemetry_module_rpc,request=is_ready", c.rpc_is_ready);
    push_count(&mut v, "telemetry_module_rpc,request=get_time", c.rpc_get_time);
    push_count(&mut v, "telemetry_module_rpc,request=strings_metadata", c.rpc_strings_metadata);
    push_count(&mut v, "telemetry_module_rpc,request=clear_strings", c.rpc_clear_strings);
    push_count(&mut v, "telemetry_module_rpc,request=push_string", c.rpc_push_string);
    push_count(&mut v, "telemetry_module_rpc,request=data_point", c.rpc_data_point);
    push_count(
        &mut v,
        "telemetry_module_rpc,request=data_point,result=fail,reason=to_line",
        c.rpc_data_point_fail_to_line,
    );
    push_count(
        &mut v,
        "telemetry_module_rpc,request=data_point,result=fail,reason=render",
        c.rpc_data_point_fail_render,
    );
    push_count(&mut v, "telemetry_module_data_points,state=accepted", c.data_points_accepted);
    push_count(&mut v, "telemetry_module_data_points,state=discarded", c.data_points_discarded);
    push_count(
        &mut v,
        "telemetry_module_data_submissions,result=success",
        c.telegraf_submit_success,
    );
    push_count(&mut v, "telemetry_module_data_submissions,result=fail", c.telegraf_submit_fail);
    push_point(
        &mut v,
        DataPoint {
            measurement: "telemetry_module_string_registry",
            field: "size",
            value: TelemetryValue::Usize(c.string_registry_size),
        },
    );
    push_point(
        &mut v,
        DataPoint {
            measurement: "telemetry_module_string_registry",
            field: "last_modify_age",
            value: TelemetryValue::U64(registry_age_ms),
        },
    );
    proof {
        assert(point_views(v@) =~= periodic_points(uptime_ms, link_age_ms, *c, registry_age_ms));
    }
    v
}

/// Whether `ps` holds a point of `measurement` whose `field` is `value`.
pub open spec fn reports(
    ps: Seq<DataPointView>,
    measurement: Seq<char>,
    field: Seq<char>,
    value: TelemetryValueView,
) -> bool {
    exists|i: int| 0 <= i < ps.len() && #[trigger] ps[i] == point(measurement, field, value)
}

/// Every minute's data points carry each figure under its own name: the
/// uptime and link age, each RPC request count under its request, the
/// accepted and discarded data point counts under `state=accepted` and
/// `state=discarded`, the submission counts under their results, and the
/// string registry's size and age; sixteen points in all.
pub proof fn lemma_periodic_points_named(
    uptime_ms: u64,
    link_age_ms: u64,
    c: SelfCounters,
    registry_age_ms: u64,
)
    ensures
        ({
            let ps = periodic_points(uptime_ms, link_age_ms, c, registry_age_ms);
            &&& ps.len() == 16
            &&& reports(ps, "telemetry_module_uptime"@, "value"@, TelemetryValueView::U64(uptime_ms))
            &&& reports(ps, "telemetry_module_network"@, "config_age"@, TelemetryValueView::U64(link_age_ms))
            &&& reports(ps, "telemetry_module_rpc,request=is_ready"@, "count"@, TelemetryValueView::Usize(c.rpc_is_ready))
            &&& reports(ps, "telemetry_module_rpc,request=get_time"@, "count"@, TelemetryValueView::Usize(c.rpc_get_time))
            &&& reports(ps, "telemetry_module_rpc,request=strings_metadata"@, "count"@, TelemetryValueView::Usize(c.rpc_strings_metadata))
            &&& reports(ps, "telemetry_module_rpc,request=clear_strings"@, "count"@, TelemetryValueView::Usize(c.rpc_clear_strings))
            &&& reports(ps, "telemetry_module_rpc,request=push_string"@, "count"@, TelemetryValueView::Usize(c.rpc_push_string))
            &&& reports(ps, "telemetry_module_rpc,request=data_point"@, "count"@, TelemetryValueView::Usize(c.rpc_data_point))
            &&& reports(ps, "telemetry_module_rpc,request=data_point,result=fail,reason=to_line"@, "count"@, TelemetryValueView::Usize(c.rpc_data_point_fail_to_line))
            &&& reports(ps, "telemetry_module_rpc,request=data_point,result=fail,reason=render"@, "count"@, TelemetryValueView::Usize(c.rpc_data_point_fail_render))
            &&& reports(ps, "telemetry_module_data_points,state=accepted"@, "count"@, TelemetryValueView::Usize(c.data_points_accepted))
            &&& reports(ps, "telemetry_module_data_points,state=discarded"@, "count"@, TelemetryValueView::Usize(c.data_points_discarded))
            &&& reports(ps, "telemetry_module_data_submissions,result=success"@, "count"@, TelemetryValueView::Usize(c.telegraf_submit_success))
            &&& reports(ps, "telemetry_module_data_submissions,result=fail"@, "count"@, TelemetryValueView::Usize(c.telegraf_submit_fail))
            &&& reports(ps, "telemetry_module_string_registry"@, "size"@, TelemetryValueView::Usize(c.string_registry_size))
            &&& reports(ps, "telemetry_module_string_registry"@, "last_modify_age"@, TelemetryValueView::U64(registry_age_ms))
        }),
{
    let ps = periodic_points(uptime_ms, link_age_ms, c, registry_age_ms);
    assert(ps[0] == point("telemetry_module_uptime"@, "value"@, TelemetryValueView::U64(uptime_ms)));
    assert(ps[1] == point("telemetry_module_network"@, "config_age"@, TelemetryValueView::U64(link_age_ms)));
    assert(ps[2] == point("telemetry_module_rpc,request=is_ready"@, "count"@, TelemetryValueView::Usize(c.rpc_is_ready)));
    assert(ps[3] == point("telemetry_module_rpc,request=get_time"@, "count"@, TelemetryValueView::Usize(c.rpc_get_time)));
    assert(ps[4] == point("telemetry_module_rpc,request=strings_metadata"@, "count"@, TelemetryValueView::Usize(c.rpc_strings_metadata)));
    assert(ps[5] == point("telemetry_module_rpc,request=clear_strings"@, "count"@, TelemetryValueView::Usize(c.rpc_clear_strings)));
    assert(ps[6] == point("telemetry_module_rpc,request=push_string"@, "count"@, TelemetryValueView::Usize(c.rpc_push_string)));
    assert(ps[7] == point("telemetry_module_rpc,request=data_point"@, "count"@, TelemetryValueView::Usize(c.rpc_data_point)));
    assert(ps[8] == point("telemetry_module_rpc,request=data_point,result=fail,reason=to_line"@, "count"@, TelemetryValueView::Usize(c.rpc_data_point_fail_to_line)));
    assert(ps[9] == point("telemetry_module_rpc,request=data_point,result=fail,reason=render"@, "count"@, TelemetryValueView::Usize(c.rpc_data_point_fail_render)));
    assert(ps[10] == point("telemetry_module_data_points,state=accepted"@, "count"@, TelemetryValueView::Usize(c.data_points_accepted)));
    assert(ps[11] == point("telemetry_module_data_points,state=discarded"@, "count"@, TelemetryValueView::Usize(c.data_points_discarded)));
    assert(ps[12] == point("telemetry_module_data_submissions,result=success"@, "count"@, TelemetryValueView::Usize(c.telegraf_submit_success)));
    assert(ps[13] == point("telemetry_module_data_submissions,result=fail"@, "count"@, TelemetryValueView::Usize(c.telegraf_submit_fail)));
    assert(ps[14] == point("telemetry_module_string_registry"@, "size"@, TelemetryValueView::Usize(c.string_registry_size)));
    assert(ps[15] == point("telemetry_module_string_registry"@, "last_modify_age"@, TelemetryValueView::U64(registry_age_ms)));
}

} // verus!
