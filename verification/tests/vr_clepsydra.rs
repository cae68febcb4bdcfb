use clepsydra::catalog::default_clepsydras;
use clepsydra::models::{ClepsydraConfig, VirtualOperationRequest, VirtualOperationResult};
use clepsydra::vr_clepsydra::{
    prepare_virtual_operation, simulate, SimulationProfile, VirtualOperationError,
};

fn mu(x: f64) -> i64 {
    (x * 1e6).round() as i64
}

fn viscosity_correction(temp_c: f64) -> f64 {
    let t = temp_c.max(0.0).min(100.0);
    let nu = 1.792e-2 / (1.0 + 0.0337 * t + 0.000221 * t.powi(2));
    (1.308e-2 / nu).powf(0.1)
}

/// Outflow per square root of a cm of head for a vessel at a temperature.
fn flow_scale(c: &ClepsydraConfig, temp_mu: i64) -> i64 {
    let temp = temp_mu as f64 / 1e6;
    let diameter = c.orifice_diameter as f64 / 1e6;
    let coefficient = c.flow_coefficient as f64 / 1e6;
    let area = std::f64::consts::PI * (diameter / 2.0).powi(2);
    let velocity_per_root_cm = (2.0f64 * 980.665 / 10.0).sqrt();
    mu(coefficient * area * velocity_per_root_cm * viscosity_correction(temp))
}

fn evaporation(c: &ClepsydraConfig, temp_mu: i64) -> i64 {
    let temp = temp_mu as f64 / 1e6;
    let svp = 610.78 * ((17.27 * temp) / (temp + 237.3)).exp();
    let avp = svp * 0.6;
    let mass_flux = 0.001 * (svp - avp) / (temp + 273.15).sqrt();
    mu(mass_flux * (c.cross_section_area as f64 / 1e6) / 1000.0)
}

fn req(id: &str, level: f64, secs: u32) -> VirtualOperationRequest {
    VirtualOperationRequest {
        clepsydra_id: id.to_string(),
        target_water_level_cm: mu(level),
        water_temp_c: Some(mu(20.0)),
        simulate_seconds: secs,
    }
}

fn run_with(
    r: &VirtualOperationRequest,
    profile: SimulationProfile,
) -> Result<VirtualOperationResult, VirtualOperationError> {
    let configs = default_clepsydras();
    let plan = prepare_virtual_operation(&configs, r, profile)?;
    let scale = flow_scale(&plan.config, plan.water_temp_c);
    let evap = evaporation(&plan.config, plan.water_temp_c);
    simulate(&plan, scale, evap)
}

fn run(r: &VirtualOperationRequest) -> Result<VirtualOperationResult, VirtualOperationError> {
    run_with(r, SimulationProfile::Adaptive)
}

#[test]
fn test_invalid_id_returns_err() {
    let r = run(&req("XX", 50.0, 100));
    assert!(r.is_err());
}

#[test]
fn test_normal_operation_returns_history() {
    let r = run(&req("KD1", 70.0, 60)).unwrap();
    assert!(!r.level_history.is_empty());
    assert!(!r.flow_history.is_empty());
    assert!(!r.error_history.is_empty());
    assert!(!r.observations.is_empty());
}

#[test]
fn test_level_clamped_to_min() {
    let r = run(&req("KD1", 0.0, 30)).unwrap();
    assert!(r.final_level_cm >= mu(20.0));
}

#[test]
fn test_level_clamped_to_max() {
    let r = run(&req("KD1", 999.0, 30)).unwrap();
    assert!(r.final_level_cm <= mu(120.0));
}

#[test]
fn test_sim_seconds_clamped() {
    let r1 = run(&req("KD1", 70.0, 1)).unwrap();
    assert_eq!(r1.time_elapsed_simulated, 10);
    let r2 = run(&req("KD1", 70.0, 999999)).unwrap();
    assert_eq!(r2.time_elapsed_simulated, 86400);
}

#[test]
fn test_level_trend_matches_target() {
    let r = run(&req("KD1", 110.0, 600)).unwrap();
    assert!(r.final_level_cm > r.initial_level_cm);
}

#[test]
fn test_history_sizes_match() {
    let r = run(&req("KD1", 80.0, 100)).unwrap();
    assert_eq!(r.level_history.len(), r.error_history.len());
    assert_eq!(r.level_history.len(), r.flow_history.len());
}

#[test]
fn test_extreme_temp_produces_observation() {
    let r = run(&VirtualOperationRequest {
        clepsydra_id: "KD1".into(),
        target_water_level_cm: mu(70.0),
        water_temp_c: Some(mu(95.0)),
        simulate_seconds: 60,
    })
    .unwrap();
    assert!(r.observations.iter().any(|o| o.contains("水温过高") || o.contains("蒸发")));
}

#[test]
fn unknown_vessel_is_reported_as_such() {
    let configs = default_clepsydras();
    let r = prepare_virtual_operation(&configs, &req("KD9", 50.0, 100), SimulationProfile::Adaptive);
    assert_eq!(r.err(), Some(VirtualOperationError::UnknownClepsydra));
}

#[test]
fn plan_settles_the_inputs() {
    let configs = default_clepsydras();
    let r = VirtualOperationRequest {
        clepsydra_id: "KD2".into(),
        target_water_level_cm: mu(500.0),
        water_temp_c: None,
        simulate_seconds: 5,
    };
    let plan = prepare_virtual_operation(&configs, &r, SimulationProfile::Steady).unwrap();
    assert_eq!(plan.target_level_cm, mu(100.0));
    assert_eq!(plan.water_temp_c, mu(20.0));
    assert_eq!(plan.simulate_seconds, 10);
    assert_eq!(plan.initial_level_cm, mu(57.5));
    assert_eq!(plan.profile, SimulationProfile::Steady);
    let cold = VirtualOperationRequest { water_temp_c: Some(mu(-4.0)), ..r };
    let plan = prepare_virtual_operation(&configs, &cold, SimulationProfile::Steady).unwrap();
    assert_eq!(plan.water_temp_c, 0);
}

#[test]
fn adaptive_first_second_moves_by_step_rule() {
    // From 70 cm towards 110 cm: 0.2 + 0.08 * 40 = 3.4 cm in the first second.
    let r = run(&req("KD1", 110.0, 60)).unwrap();
    assert_eq!(r.initial_level_cm, mu(70.0));
    assert_eq!(r.level_history[0], (0, mu(70.0)));
    assert_eq!(r.level_history[1], (mu(1.0), mu(73.4)));
}

#[test]
fn steady_profile_moves_half_a_centimetre_per_second() {
    let r = run_with(&req("KD1", 110.0, 10), SimulationProfile::Steady).unwrap();
    assert_eq!(r.final_level_cm, mu(75.0));
    let r = run_with(&req("KD1", 70.05, 10), SimulationProfile::Steady).unwrap();
    assert_eq!(r.final_level_cm, mu(70.0));
}

#[test]
fn samples_every_fiftieth_and_the_last_second() {
    let r = run(&req("KD1", 80.0, 100)).unwrap();
    // Seconds 0, 2, ..., 98 and 99 are sampled, after the starting state.
    assert_eq!(r.level_history.len(), 52);
    assert_eq!(r.level_history[1].0, mu(1.0));
    assert_eq!(r.level_history[2].0, mu(3.0));
    assert_eq!(r.level_history[51], (mu(100.0), r.final_level_cm));
    assert_eq!(r.error_history[51], (mu(100.0), r.final_error_seconds));
    let r = run(&req("KD1", 80.0, 60)).unwrap();
    assert_eq!(r.level_history.len(), 61);
}

#[test]
fn calm_run_gets_the_default_remark_only_when_adaptive() {
    let r = run(&req("KD1", 70.0, 60)).unwrap();
    assert_eq!(r.final_level_cm, mu(70.0));
    assert_eq!(r.observations, vec!["水位变化平稳，流量稳定，处于最优工作区间".to_string()]);
    let r = run_with(&req("KD1", 70.0, 60), SimulationProfile::Steady).unwrap();
    assert!(r.observations.is_empty());
}

#[test]
fn hot_water_remarks_are_rendered() {
    let r = run(&VirtualOperationRequest {
        clepsydra_id: "KD1".into(),
        target_water_level_cm: mu(70.0),
        water_temp_c: Some(mu(95.0)),
        simulate_seconds: 60,
    })
    .unwrap();
    assert!(r.observations.contains(&"水温过高（50.0°C），蒸发加剧，计时偏差风险上升".to_string()));
    assert!(r
        .observations
        .contains(&"水温偏离20°C基准+30.0°C，粘性变化已引入约30.0%的流量偏差".to_string()));
}

#[test]
fn target_remarks_are_rendered() {
    let low = run(&req("KD1", 25.0, 30)).unwrap();
    assert!(low
        .observations
        .contains(&"警告：目标水位过低，水头不足将导致流量快速衰减，误差增大".to_string()));
    assert!(low.observations[0].starts_with("水位降低"));
    let full = run(&req("KD1", 118.0, 30)).unwrap();
    assert!(full
        .observations
        .contains(&"提示：水位接近上限，处于恒流区最佳工作状态，精度最优".to_string()));
    assert!(full.observations[0].starts_with("水位升高"));
}

#[test]
fn steady_run_reports_the_error_over_the_run() {
    let r = run_with(&req("KD1", 70.0, 600), SimulationProfile::Steady).unwrap();
    assert!(r.final_error_seconds < -mu(1.0));
    assert!(r.observations[0].starts_with("模拟600秒后，计时误差累计减少"));
}

#[test]
fn zero_flow_scale_gives_no_error() {
    let configs = default_clepsydras();
    let plan = prepare_virtual_operation(&configs, &req("KD3", 60.0, 20), SimulationProfile::Adaptive)
        .unwrap();
    let r = simulate(&plan, 0, 0).unwrap();
    assert_eq!(r.final_error_seconds, 0);
    assert!(r.flow_history.iter().all(|&(_, f)| f == 0));
}

#[test]
fn overflowing_flow_scale_is_out_of_range() {
    let configs = default_clepsydras();
    let plan = prepare_virtual_operation(&configs, &req("KD1", 70.0, 20), SimulationProfile::Adaptive)
        .unwrap();
    assert_eq!(simulate(&plan, i64::MAX, 0).err(), Some(VirtualOperationError::OutOfRange));
}
