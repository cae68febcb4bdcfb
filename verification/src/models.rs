//! Data types shared by the analyses. Physical quantities are fixed-point
//! integers in millionths of their unit (`1_000_000` is one cm, one second,
//! one mL/s, one °C, one percent, one "x" factor).
use vstd::prelude::*;

verus! {

/// An analysis whose values leave the fixed-point range.
#[derive(Debug, Clone, Copy, PartialEq, Eq)]
pub enum AnalysisError {
    OutOfRange,
}

/// One vessel of a clepsydra cascade.
#[derive(Debug, Clone)]
pub struct ClepsydraConfig {
    pub clepsydra_id: String,
    pub name: String,
    /// Upper water level (cm, millionths).
    pub max_level: i64,
    /// Lower water level (cm, millionths).
    pub min_level: i64,
    /// Nominal outflow (mL/s, millionths).
    pub standard_flow: i64,
    /// Cross section (cm², millionths).
    pub cross_section_area: i64,
    /// Orifice diameter (cm, millionths).
    pub orifice_diameter: i64,
    /// Discharge coefficient (millionths).
    pub flow_coefficient: i64,
}

/// A historical clepsydra design with its vessels.
#[derive(Debug, Clone)]
pub struct DynastyClepsydraConfig {
    pub dynasty_id: String,
    pub dynasty_name: String,
    pub era: String,
    pub clepsydra_type: String,
    pub stage_count: u32,
    pub description: String,
    /// Documented daily error (s, millionths).
    pub historical_daily_error_seconds: i64,
    /// Typical water temperature (°C, millionths).
    pub typical_water_temp_c: i64,
    pub material: String,
    pub configs: Vec<ClepsydraConfig>,
    pub reference_year: i32,
    pub historical_references: Vec<String>,
    pub data_source: String,
    /// Uncertainty of the documented error (percent, millionths).
    pub uncertainty_percent: i64,
}

/// A modern timekeeping device used as a reference point.
#[derive(Debug, Clone)]
pub struct ModernTimepiece {
    pub piece_id: String,
    pub name: String,
    pub category: String,
    /// Daily error (s, millionths).
    pub daily_error_seconds: i64,
    /// Yearly error (s, millionths).
    pub yearly_error_seconds: i64,
    pub technology: String,
    pub invention_year: i32,
    pub description: String,
    pub accuracy_class: String,
    pub standard_reference: String,
    pub iso_class: Option<String>,
}

/// Error flow through one stage of a cascade.
#[derive(Debug, Clone)]
pub struct ErrorTransferNode {
    pub stage_index: u32,
    pub clepsydra_id: String,
    /// Error received from the upstream stage (s/day, millionths).
    pub input_error_seconds: i64,
    /// Error the stage adds itself (s/day, millionths).
    pub self_error_seconds: i64,
    /// Error passed downstream (s/day, millionths).
    pub output_error_seconds: i64,
    /// Amplification applied by the stage (millionths).
    pub amplification_factor: i64,
    /// Share of all self errors (percent, millionths).
    pub contribution_percent: i64,
    /// Working water level (cm, millionths).
    pub water_level_cm: i64,
    /// Nominal flow (mL/s, millionths).
    pub flow_rate_mlps: i64,
}

/// Error propagation through a whole cascade.
#[derive(Debug, Clone)]
pub struct ErrorTransferAnalysis {
    /// Error at the last stage (s/day, millionths).
    pub total_error_seconds: i64,
    pub nodes: Vec<ErrorTransferNode>,
    pub bottleneck_stage: u32,
    pub bottleneck_reason: String,
    pub recommendations: Vec<String>,
    /// Share of the total error a compensation could remove (s/day, millionths).
    pub compensation_potential_seconds: i64,
}

/// A timekeeping device placed on the accuracy chart.
#[derive(Debug, Clone)]
pub struct AccuracyComparisonPoint {
    pub label: String,
    pub category: String,
    /// Daily error (s, millionths).
    pub daily_error_seconds: i64,
    /// Yearly error (min, millionths).
    pub yearly_error_minutes: i64,
    pub color_hex: String,
    pub era: String,
}

/// A milestone on the accuracy timeline.
#[derive(Debug, Clone)]
pub struct TimelineAccuracy {
    pub year: i32,
    pub label: String,
    /// Daily error (s, millionths).
    pub daily_error_seconds: i64,
    pub category: String,
}

/// Ancient and modern timekeepers side by side.
#[derive(Debug, Clone)]
pub struct CrossEraComparison {
    pub ancient_devices: Vec<AccuracyComparisonPoint>,
    pub modern_devices: Vec<AccuracyComparisonPoint>,
    pub best_ancient: AccuracyComparisonPoint,
    pub best_modern: AccuracyComparisonPoint,
    /// How many times the best modern device beats the best ancient one (millionths).
    pub improvement_factor: i64,
    pub timeline_data: Vec<TimelineAccuracy>,
}

/// The vessels of two designs, stage by stage.
#[derive(Debug, Clone)]
pub struct FlowComparisonPoint {
    pub stage: String,
    /// Nominal flows (mL/s, millionths); zero where a design has no such stage.
    pub left_flow_mlps: i64,
    pub right_flow_mlps: i64,
    /// Mid levels (cm, millionths); zero where a design has no such stage.
    pub left_level_cm: i64,
    pub right_level_cm: i64,
}

/// Two historical designs side by side.
#[derive(Debug, Clone)]
pub struct DynastyComparison {
    pub left_dynasty: DynastyClepsydraConfig,
    pub right_dynasty: DynastyClepsydraConfig,
    /// Daily errors (s, millionths).
    pub left_daily_error_seconds: i64,
    pub right_daily_error_seconds: i64,
    /// Left error over right error (millionths); one when the right error is zero.
    pub error_ratio: i64,
    pub winner: String,
    pub key_differences: Vec<String>,
    pub flow_comparison: Vec<FlowComparisonPoint>,
}

/// What the hydraulic model gives for one vessel at its working level:
/// the theoretical outflow and the evaporation (mL/s, millionths).
#[derive(Debug, Clone, Copy)]
pub struct StageHydraulics {
    pub theoretical_flow: i64,
    pub evaporation: i64,
}

/// A request to run one vessel at a chosen level and temperature.
#[derive(Debug, Clone)]
pub struct VirtualOperationRequest {
    pub clepsydra_id: String,
    /// Level to steer towards (cm, millionths).
    pub target_water_level_cm: i64,
    /// Water temperature (°C, millionths); 20 °C when absent.
    pub water_temp_c: Option<i64>,
    pub simulate_seconds: u32,
}

/// The course of a simulated operation.
#[derive(Debug, Clone)]
pub struct VirtualOperationResult {
    pub clepsydra_id: String,
    /// Levels (cm, millionths).
    pub initial_level_cm: i64,
    pub final_level_cm: i64,
    /// Accumulated timing errors (s, millionths).
    pub initial_error_seconds: i64,
    pub final_error_seconds: i64,
    pub time_elapsed_simulated: u32,
    /// Samples of (time in s, value), all in millionths.
    pub level_history: Vec<(i64, i64)>,
    pub error_history: Vec<(i64, i64)>,
    pub flow_history: Vec<(i64, i64)>,
    pub observations: Vec<String>,
}

/// One reading of a vessel's sensors.
#[derive(Debug, Clone)]
pub struct SensorData {
    /// Milliseconds since the Unix epoch.
    pub timestamp_ms: i64,
    pub clepsydra_id: String,
    /// Water level (cm, millionths).
    pub water_level: i64,
    /// Measured outflow (mL/s, millionths).
    pub flow_rate: i64,
    /// Water temperature (°C, millionths).
    pub water_temp: i64,
    /// Relative humidity (percent, millionths).
    pub humidity: i64,
    /// Water quality factor (millionths).
    pub quality: i64,
    /// Air pressure (kPa, millionths).
    pub pressure: i64,
}

/// What the hydraulic model makes of one reading.
#[derive(Debug, Clone)]
pub struct HydraulicMetrics {
    /// Milliseconds since the Unix epoch.
    pub timestamp_ms: i64,
    pub clepsydra_id: String,
    /// Flows (mL/s, millionths).
    pub theoretical_flow: i64,
    pub actual_flow: i64,
    /// Flow error (percent, millionths).
    pub flow_error: i64,
    /// Evaporation (mL/s, millionths).
    pub evaporation_rate: i64,
    /// Accumulated timing error (s, millionths).
    pub daily_error_seconds: i64,
    /// Compensating flow (mL/s, millionths).
    pub compensation_flow: i64,
    /// Controller gains (millionths).
    pub pid_kp: i64,
    pub pid_ki: i64,
    pub pid_kd: i64,
}

/// What an alert is about.
#[derive(Debug, Clone, Copy, PartialEq, Eq)]
pub enum AlertType {
    WaterLevelHigh,
    WaterLevelLow,
    DailyErrorExceed,
    TempAbnormal,
}

/// How urgent an alert is.
#[derive(Debug, Clone, Copy, PartialEq, Eq)]
pub enum AlertLevel {
    Warning,
    Critical,
}

pub open spec fn alert_type_text(t: AlertType) -> Seq<char> {
    match t {
        AlertType::WaterLevelHigh => "WATER_LEVEL_HIGH"@,
        AlertType::WaterLevelLow => "WATER_LEVEL_LOW"@,
        AlertType::DailyErrorExceed => "DAILY_ERROR_EXCEED"@,
        AlertType::TempAbnormal => "TEMP_ABNORMAL"@,
    }
}

pub open spec fn alert_level_text(l: AlertLevel) -> Seq<char> {
    match l {
        AlertLevel::Warning => "WARNING"@,
        AlertLevel::Critical => "CRITICAL"@,
    }
}

impl AlertType {
    /// The label of the type, as the alert messages and counters carry it.
    pub fn as_str(&self) -> (r: &'static str)
        ensures
            r@ == alert_type_text(*self),
    {
        match self {
            AlertType::WaterLevelHigh => "WATER_LEVEL_HIGH",
            AlertType::WaterLevelLow => "WATER_LEVEL_LOW",
            AlertType::DailyErrorExceed => "DAILY_ERROR_EXCEED",
            AlertType::TempAbnormal => "TEMP_ABNORMAL",
        }
    }
}

impl AlertLevel {
    /// The label of the level, as the alert messages and counters carry it.
    pub fn as_str(&self) -> (r: &'static str)
        ensures
            r@ == alert_level_text(*self),
    {
        match self {
            AlertLevel::Warning => "WARNING",
            AlertLevel::Critical => "CRITICAL",
        }
    }
}

/// A raised alert.
#[derive(Debug, Clone)]
pub struct AlertEvent {
    pub id: String,
    /// Milliseconds since the Unix epoch.
    pub timestamp_ms: i64,
    pub clepsydra_id: String,
    pub alert_type: AlertType,
    pub alert_level: AlertLevel,
    pub message: String,
    /// The reading and the limit it crossed (millionths of their unit).
    pub value: i64,
    pub threshold: i64,
    pub resolved: bool,
}

/// A reading after the controller has added its compensation.
#[derive(Debug, Clone)]
pub struct CompensatedOutput {
    pub sensor: SensorData,
    pub metrics: HydraulicMetrics,
    pub config: ClepsydraConfig,
}

} // verus!
