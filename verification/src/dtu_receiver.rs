//! The checks a sensor reading must pass before it enters the pipeline.
use vstd::prelude::*;

use crate::metrics::{record_validation_error, ClepsydraMetrics};
use crate::models::{ClepsydraConfig, SensorData};
use crate::text::{micro_string, micro_text, str_eq};

verus! {

/// Why a reading was turned away.
#[derive(Debug, Clone, Copy, PartialEq, Eq)]
pub enum SensorRejection {
    EmptyId,
    UnknownId,
    WaterLevelOutOfRange,
    FlowRateOutOfRange,
    TempOutOfRange,
    HumidityOutOfRange,
    QualityOutOfRange,
    PressureOutOfRange,
}

/// Unicode white space, as `char::is_whitespace` recognises it.
pub open spec fn is_white_space(c: char) -> bool {
    ||| '\t' <= c <= '\r'
    ||| c == ' '
    ||| c == '\u{85}'
    ||| c == '\u{A0}'
    ||| c == '\u{1680}'
    ||| '\u{2000}' <= c <= '\u{200A}'
    ||| c == '\u{2028}'
    ||| c == '\u{2029}'
    ||| c == '\u{202F}'
    ||| c == '\u{205F}'
    ||| c == '\u{3000}'
}

/// `s` holds nothing but white space.
pub open spec fn is_blank(s: Seq<char>) -> bool {
    forall|i: int| 0 <= i < s.len() ==> is_white_space(#[trigger] s[i])
}

/// Why `sensor` is turned away given the vessels `vessels`; `None` when it
/// passes. The checks run in order and the first that fails decides.
pub open spec fn rejection_of(sensor: SensorData, vessels: Seq<ClepsydraConfig>) -> Option<SensorRejection> {
    if is_blank(sensor.clepsydra_id@) {
        Some(SensorRejection::EmptyId)
    } else if !(exists|i: int| 0 <= i < vessels.len() && #[trigger] vessels[i].clepsydra_id@ == sensor.clepsydra_id@) {
        Some(SensorRejection::UnknownId)
    } else if sensor.water_level < 0 || sensor.water_level > 500_000_000 {
        Some(SensorRejection::WaterLevelOutOfRange)
    } else if sensor.flow_rate < -10_000_000 || sensor.flow_rate > 100_000_000 {
        Some(SensorRejection::FlowRateOutOfRange)
    } else if sensor.water_temp < -50_000_000 || sensor.water_temp > 100_000_000 {
        Some(SensorRejection::TempOutOfRange)
    } else if sensor.humidity < 0 || sensor.humidity > 100_000_000 {
        Some(SensorRejection::HumidityOutOfRange)
    } else if sensor.quality < 0 || sensor.quality > 2_000_000 {
        Some(SensorRejection::QualityOutOfRange)
    } else if sensor.pressure < 50_000_000 || sensor.pressure > 150_000_000 {
        Some(SensorRejection::PressureOutOfRange)
    } else {
        None
    }
}

/// The label under which a rejection is counted.
pub open spec fn rejection_label(r: SensorRejection) -> Seq<char> {
    match r {
        SensorRejection::EmptyId => "empty_id"@,
        SensorRejection::UnknownId => "unknown_id"@,
        SensorRejection::WaterLevelOutOfRange => "water_level_out_of_range"@,
        SensorRejection::FlowRateOutOfRange => "flow_rate_out_of_range"@,
        SensorRejection::TempOutOfRange => "temp_out_of_range"@,
        SensorRejection::HumidityOutOfRange => "humidity_out_of_range"@,
        SensorRejection::QualityOutOfRange => "quality_out_of_range"@,
        SensorRejection::PressureOutOfRange => "pressure_out_of_range"@,
    }
}

/// What a rejection says about the reading.
pub open spec fn rejection_text(sensor: SensorData, r: SensorRejection) -> Seq<char> {
    match r {
        SensorRejection::EmptyId => "空的clepsydra_id"@,
        SensorRejection::UnknownId => "未知漏壶ID: "@ + sensor.clepsydra_id@,
        SensorRejection::WaterLevelOutOfRange => "水位超范围: "@ + micro_text(
            sensor.water_level as int,
            2,
        ) + "cm"@,
        SensorRejection::FlowRateOutOfRange => "流量超范围: "@ + micro_text(sensor.flow_rate as int, 2)
            + "mL/s"@,
        SensorRejection::TempOutOfRange => "水温超范围: "@ + micro_text(sensor.water_temp as int, 2)
            + "°C"@,
        SensorRejection::HumidityOutOfRange => "湿度超范围: "@ + micro_text(sensor.humidity as int, 2)
            + "%"@,
        SensorRejection::QualityOutOfRange => "水质系数超范围: "@ + micro_text(
            sensor.quality as int,
            2,
        ),
        SensorRejection::PressureOutOfRange => "气压超范围: "@ + micro_text(sensor.pressure as int, 2)
            + "kPa"@,
    }
}

impl SensorRejection {
    /// The label under which the rejection is counted.
    pub fn label(&self) -> (r: &'static str)
        ensures
            r@ == rejection_label(*self),
    {
        match self {
            SensorRejection::EmptyId => "empty_id",
            SensorRejection::UnknownId => "unknown_id",
            SensorRejection::WaterLevelOutOfRange => "water_level_out_of_range",
            SensorRejection::FlowRateOutOfRange => "flow_rate_out_of_range",
            SensorRejection::TempOutOfRange => "temp_out_of_range",
            SensorRejection::HumidityOutOfRange => "humidity_out_of_range",
            SensorRejection::QualityOutOfRange => "quality_out_of_range",
            SensorRejection::PressureOutOfRange => "pressure_out_of_range",
        }
    }

    /// What the rejection says about `sensor`.
    pub fn message(&self, sensor: &SensorData) -> (r: String)
        ensures
            r@ == rejection_text(*sensor, *self),
    {
        let (head, value, unit): (&str, i64, &str) = match self {
            SensorRejection::EmptyId => {
                return String::from_str("空的clepsydra_id");
            },
            SensorRejection::UnknownId => {
                let mut t = String::from_str("未知漏壶ID: ");
                t.append(sensor.clepsydra_id.as_str());
                return t;
            },
            SensorRejection::WaterLevelOutOfRange => ("水位超范围: ", sensor.water_level, "cm"),
            SensorRejection::FlowRateOutOfRange => ("流量超范围: ", sensor.flow_rate, "mL/s"),
            SensorRejection::TempOutOfRange => ("水温超范围: ", sensor.water_temp, "°C"),
            SensorRejection::HumidityOutOfRange => ("湿度超范围: ", sensor.humidity, "%"),
            SensorRejection::QualityOutOfRange => ("水质系数超范围: ", sensor.quality, ""),
            SensorRejection::PressureOutOfRange => ("气压超范围: ", sensor.pressure, "kPa"),
        };
        let mut t = String::from_str(head);
        let v = micro_string(value, 2);
        t.append(v.as_str());
        t.append(unit);
        proof {
            reveal_strlit("");
        }
        t
    }
}

fn is_white_space_exec(c: char) -> (r: bool)
    ensures
        r == is_white_space(c),
{
    ('\t' <= c && c <= '\r') || c == ' ' || c == '\u{85}' || c == '\u{A0}' || c == '\u{1680}' || (
    '\u{2000}' <= c && c <= '\u{200A}') || c == '\u{2028}' || c == '\u{2029}' || c == '\u{202F}'
        || c == '\u{205F}' || c == '\u{3000}'
}

/// Whether `s` holds nothing but white space.
pub fn blank(s: &str) -> (r: bool)
    ensures
        r == is_blank(s@),
{
    let n = s.unicode_len();
    let mut i: usize = 0;
    while i < n
        invariant
            n == s@.len(),
            0 <= i <= n,
            forall|k: int| 0 <= k < i ==> is_white_space(#[trigger] s@[k]),
        decreases n - i,
    {
        if !is_white_space_exec(s.get_char(i)) {
            return false;
        }
        i = i + 1;
    }
    true
}

fn known_vessel(vessels: &[ClepsydraConfig], id: &str) -> (r: bool)
    ensures
        r == exists|i: int| 0 <= i < vessels@.len() && #[trigger] vessels@[i].clepsydra_id@ == id@,
{
    let n = vessels.len();
    let mut i: usize = 0;
    while i < n
        invariant
            n == vessels@.len(),
            0 <= i <= n,
            forall|k: int| 0 <= k < i ==> #[trigger] vessels@[k].clepsydra_id@ != id@,
        decreases n - i,
    {
        if str_eq(vessels[i].clepsydra_id.as_str(), id) {
            return true;
        }
        i = i + 1;
    }
    false
}

/// Checks `sensor` against the vessels `vessels` and the plausible ranges
/// of its readings, counting a rejection by its kind.
pub fn validate_sensor(sensor: &SensorData, vessels: &[ClepsydraConfig], metrics: &mut ClepsydraMetrics) -> (r:
    Result<(), SensorRejection>)
    requires
        old(metrics).wf(),
    ensures
        r is Ok <==> rejection_of(*sensor, vessels@) is None,
        r matches Err(e) ==> rejection_of(*sensor, vessels@) == Some(e),
        final(metrics).wf(),
        r is Ok ==> final(metrics).rejected() == old(metrics).rejected(),
        r matches Err(e) ==> final(metrics).rejected() == old(metrics).rejected().insert(
            seq![rejection_label(e)],
        ),
        final(metrics).received() == old(metrics).received(),
        final(metrics).alerted() == old(metrics).alerted(),
{
    let rejection: Option<SensorRejection> = if blank(sensor.clepsydra_id.as_str()) {
        Some(SensorRejection::EmptyId)
    } else if !known_vessel(vessels, sensor.clepsydra_id.as_str()) {
        Some(SensorRejection::UnknownId)
    } else if sensor.water_level < 0 || sensor.water_level > 500_000_000 {
        Some(SensorRejection::WaterLevelOutOfRange)
    } else if sensor.flow_rate < -10_000_000 || sensor.flow_rate > 100_000_000 {
        Some(SensorRejection::FlowRateOutOfRange)
    } else if sensor.water_temp < -50_000_000 || sensor.water_temp > 100_000_000 {
        Some(SensorRejection::TempOutOfRange)
    } else if sensor.humidity < 0 || sensor.humidity > 100_000_000 {
        Some(SensorRejection::HumidityOutOfRange)
    } else if sensor.quality < 0 || sensor.quality > 2_000_000 {
        Some(SensorRejection::QualityOutOfRange)
    } else if sensor.pressure < 50_000_000 || sensor.pressure > 150_000_000 {
        Some(SensorRejection::PressureOutOfRange)
    } else {
        None
    };
    match rejection {
        None => Ok(()),
        Some(e) => {
            let device = match e {
                SensorRejection::EmptyId => "unknown",
                _ => sensor.clepsydra_id.as_str(),
            };
            record_validation_error(metrics, device, e.label());
            Err(e)
        },
    }
}

} // verus!
