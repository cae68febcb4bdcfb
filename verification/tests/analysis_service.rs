use clepsydra::analysis_service::{transfer_analysis, AnalysisService, ServiceError};
use clepsydra::catalog::default_clepsydras;
use clepsydra::models::{
    ClepsydraConfig, DynastyClepsydraConfig, StageHydraulics, VirtualOperationRequest,
};
use clepsydra::vr_clepsydra::VirtualOperationError;

fn mu(x: f64) -> i64 {
    (x * 1e6).round() as i64
}

fn viscosity_correction(temp_c: f64) -> f64 {
    let t = temp_c.max(0.0).min(100.0);
    let nu = 1.792e-2 / (1.0 + 0.0337 * t + 0.000221 * t.powi(2));
    (1.308e-2 / nu).powf(0.1)
}

/// The hydraulics of each vessel at 70% of its range, at sea level.
fn hydraulics(d: &DynastyClepsydraConfig) -> Vec<StageHydraulics> {
    let temp = d.typical_water_temp_c as f64 / 1e6;
    d.configs
        .iter()
        .map(|c| {
            let min = c.min_level as f64 / 1e6;
            let max = c.max_level as f64 / 1e6;
            let level = min + (max - min) * 0.7;
            let diameter = c.orifice_diameter as f64 / 1e6;
            let area = std::f64::consts::PI * (diameter / 2.0).powi(2);
            let velocity = (2.0 * 980.665 * level / 10.0).sqrt();
            let flow = c.flow_coefficient as f64 / 1e6 * area * velocity * viscosity_correction(temp);
            let svp = 610.78 * ((17.27 * temp) / (temp + 237.3)).exp();
            let mass_flux = 0.001 * (svp * 0.4) / (temp + 273.15).sqrt();
            let evap = mass_flux * (c.cross_section_area as f64 / 1e6) / 1000.0;
            StageHydraulics { theoretical_flow: mu(flow), evaporation: mu(evap) }
        })
        .collect()
}

fn service() -> AnalysisService {
    AnalysisService::new(default_clepsydras())
}

fn one_vessel_design(stages: u32) -> DynastyClepsydraConfig {
    DynastyClepsydraConfig {
        dynasty_id: "T".into(),
        dynasty_name: "测试".into(),
        era: "t".into(),
        clepsydra_type: "t".into(),
        stage_count: stages,
        description: "t".into(),
        historical_daily_error_seconds: mu(100.0),
        typical_water_temp_c: mu(20.0),
        material: "铜".into(),
        configs: vec![ClepsydraConfig {
            clepsydra_id: "K1".into(),
            name: "壶".into(),
            max_level: mu(100.0),
            min_level: mu(40.0),
            standard_flow: mu(1.0),
            cross_section_area: mu(314.0),
            orifice_diameter: mu(0.5),
            flow_coefficient: mu(0.6),
        }],
        reference_year: 1000,
        historical_references: vec![],
        data_source: "t".into(),
        uncertainty_percent: 0,
    }
}

#[test]
fn lookups_find_the_built_in_items() {
    let s = service();
    assert_eq!(s.get_all_dynasties().len(), 6);
    assert_eq!(s.get_all_modern().len(), 8);
    let d = s.get_dynasty("SONG_LIANHUA").unwrap();
    assert_eq!(d.dynasty_id, "SONG_LIANHUA");
    assert_eq!(d.stage_count, 3);
    assert!(s.get_dynasty("MING_NONE").is_none());
    let m = s.get_modern("ATOMIC_CS").unwrap();
    assert_eq!(m.category, "原子");
    assert!(s.get_modern("SUNDIAL").is_none());
}

#[test]
fn every_listed_design_is_found_by_its_id() {
    let s = service();
    for d in s.get_all_dynasties() {
        assert_eq!(s.get_dynasty(&d.dynasty_id).unwrap().dynasty_name, d.dynasty_name);
    }
    for m in s.get_all_modern() {
        assert_eq!(s.get_modern(&m.piece_id).unwrap().name, m.name);
    }
}

#[test]
fn compare_by_ids() {
    let s = service();
    let l = s.get_dynasty("HAN_CHENJIAN").unwrap();
    let r = s.get_dynasty("SONG_YITIAN").unwrap();
    let c = s
        .compare_dynasties("HAN_CHENJIAN", "SONG_YITIAN", &hydraulics(&l), &hydraulics(&r))
        .unwrap();
    assert!(c.left_daily_error_seconds > c.right_daily_error_seconds);
    assert_eq!(c.winner, r.dynasty_name);
    assert_eq!(c.flow_comparison.len(), 4);
    assert_eq!(c.key_differences[0], format!("级数差异：{}1级 vs {}4级", l.dynasty_name, r.dynasty_name));
    let missing = s.compare_dynasties("HAN_CHENJIAN", "NOPE", &hydraulics(&l), &[]);
    assert_eq!(missing.err(), Some(ServiceError::DynastyNotFound("NOPE".to_string())));
}

#[test]
fn error_transfer_of_a_four_stage_design() {
    let s = service();
    let d = s.get_dynasty("SONG_YITIAN").unwrap();
    let a = s.analyze_error_transfer("SONG_YITIAN", &hydraulics(&d)).unwrap();
    assert_eq!(a.nodes.len(), 4);
    let amps: Vec<i64> = a.nodes.iter().map(|n| n.amplification_factor).collect();
    assert_eq!(amps, vec![mu(1.45), mu(1.30), mu(1.15), mu(1.0)]);
    assert_eq!(a.nodes[0].input_error_seconds, 0);
    for i in 0..3 {
        assert_eq!(a.nodes[i + 1].input_error_seconds, a.nodes[i].output_error_seconds);
    }
    assert_eq!(a.total_error_seconds, a.nodes[3].output_error_seconds);
    let total: i64 = a.nodes.iter().map(|n| n.contribution_percent).sum();
    assert!((total - mu(100.0)).abs() <= 2);
    assert_eq!(a.recommendations.len(), 2);
    assert_eq!(
        s.analyze_error_transfer("NOPE", &[]).err(),
        Some(ServiceError::DynastyNotFound("NOPE".to_string()))
    );
}

#[test]
fn error_transfer_of_one_vessel_is_exact() {
    // 2.5% of 1 mL/s lost, for a day: 2160 s, passed on unamplified.
    let d = one_vessel_design(1);
    let h = vec![StageHydraulics { theoretical_flow: mu(1.0), evaporation: 0 }];
    let a = transfer_analysis(&d, &h).unwrap();
    assert_eq!(a.nodes[0].self_error_seconds, mu(2160.0));
    assert_eq!(a.nodes[0].amplification_factor, mu(1.0));
    assert_eq!(a.nodes[0].output_error_seconds, mu(2160.0));
    assert_eq!(a.nodes[0].contribution_percent, mu(100.0));
    assert_eq!(a.nodes[0].water_level_cm, mu(82.0));
    assert_eq!(a.nodes[0].flow_rate_mlps, mu(1.0));
    assert_eq!(a.total_error_seconds, mu(2160.0));
    assert_eq!(a.compensation_potential_seconds, mu(756.0));
    assert_eq!(a.bottleneck_stage, 0);
    assert_eq!(a.bottleneck_reason, "第1级K1自身固有误差最大（2160.00s/日），建议优化孔口设计");
    assert_eq!(
        a.recommendations,
        vec![
            "建议增加补偿壶级数至4级，可将误差再降低约45%".to_string(),
            "重点优化瓶颈级K1：采用漫流恒水位可减小误差约60%".to_string(),
            "恒温装置：将水温控制在±1°C范围内，可减少粘性引起的约8%误差".to_string(),
        ]
    );
}

#[test]
fn error_transfer_needs_flow_and_stages() {
    let d = one_vessel_design(1);
    let dry = vec![StageHydraulics { theoretical_flow: 0, evaporation: mu(0.01) }];
    assert!(transfer_analysis(&d, &dry).is_err());
    let d = one_vessel_design(0);
    let h = vec![StageHydraulics { theoretical_flow: mu(1.0), evaporation: 0 }];
    assert!(transfer_analysis(&d, &h).is_err());
}

#[test]
fn cross_era_of_the_built_in_items() {
    let s = service();
    let hs: Vec<Vec<StageHydraulics>> = s.dynasties.iter().map(hydraulics).collect();
    let c = s.cross_era_comparison(&hs).unwrap();
    assert_eq!(c.ancient_devices.len(), 6);
    assert_eq!(c.modern_devices.len(), 8);
    assert_eq!(c.best_modern.label, "铯原子钟");
    assert_eq!(c.best_modern.daily_error_seconds, 1);
    assert_eq!(c.timeline_data.len(), 13);
    assert!(c.improvement_factor > 0);
}

#[test]
fn virtual_operation_runs_at_a_steady_pace() {
    let s = service();
    let r = VirtualOperationRequest {
        clepsydra_id: "KD1".into(),
        target_water_level_cm: mu(110.0),
        water_temp_c: None,
        simulate_seconds: 10,
    };
    let res = s.virtual_operate(&r, mu(0.63), mu(0.004)).unwrap();
    assert_eq!(res.final_level_cm, mu(75.0));
    assert_eq!(res.time_elapsed_simulated, 10);
    let unknown = VirtualOperationRequest { clepsydra_id: "KD7".into(), ..r };
    assert_eq!(
        s.virtual_operate(&unknown, mu(0.63), 0).err(),
        Some(VirtualOperationError::UnknownClepsydra)
    );
}

#[test]
fn the_song_water_clock_beats_the_han_sinking_arrow() {
    let s = service();
    let l = s.get_dynasty("SONG_YITIAN").unwrap();
    let r = s.get_dynasty("HAN_CHENJIAN").unwrap();
    let c = s
        .compare_dynasties("SONG_YITIAN", "HAN_CHENJIAN", &hydraulics(&l), &hydraulics(&r))
        .unwrap();
    assert_eq!(c.winner, "宋代");
    assert_eq!(c.key_differences.len(), 4);
    assert_eq!(c.key_differences[0], "级数差异：宋代4级 vs 汉代1级");
    assert_eq!(c.flow_comparison.len(), 4);
    assert_eq!(c.flow_comparison[0].stage, "第1级");
    assert_eq!(c.flow_comparison[0].left_flow_mlps, mu(2.5));
    assert_eq!(c.flow_comparison[0].right_flow_mlps, mu(1.8));
    assert_eq!(c.flow_comparison[0].left_level_cm, mu(70.0));
    assert_eq!(c.flow_comparison[0].right_level_cm, mu(42.5));
    for p in &c.flow_comparison[1..] {
        assert_eq!(p.right_flow_mlps, 0);
        assert_eq!(p.right_level_cm, 0);
    }
    assert_eq!(
        s.analyze_error_transfer("MING_NONE", &[]).err(),
        Some(ServiceError::DynastyNotFound("MING_NONE".to_string()))
    );
}
