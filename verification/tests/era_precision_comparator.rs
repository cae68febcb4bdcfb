use clepsydra::era_precision_comparator::{compare_with_errors, EraPrecisionComparator};
use clepsydra::models::{AnalysisError, ClepsydraConfig, DynastyClepsydraConfig, StageHydraulics};

fn mu(x: f64) -> i64 {
    (x * 1e6).round() as i64
}

fn viscosity_correction(temp_c: f64) -> f64 {
    let t = temp_c.max(0.0).min(100.0);
    let nu = 1.792e-2 / (1.0 + 0.0337 * t + 0.000221 * t.powi(2));
    (1.308e-2 / nu).powf(0.1)
}

/// The hydraulics of each vessel at 70% of its range, at sea level.
fn hydraulics(d: &DynastyClepsydraConfig) -> Vec<StageHydraulics> {
    let temp = d.typical_water_temp_c as f64 / 1e6;
    d.configs
        .iter()
        .map(|c| {
            let min = c.min_level as f64 / 1e6;
            let max = c.max_level as f64 / 1e6;
            let level = min + (max - min) * 0.7;
            let diameter = c.orifice_diameter as f64 / 1e6;
            let area = std::f64::consts::PI * (diameter / 2.0).powi(2);
            let velocity = (2.0 * 980.665 * level / 10.0).sqrt();
            let flow = c.flow_coefficient as f64 / 1e6 * area * velocity * viscosity_correction(temp);
            let svp = 610.78 * ((17.27 * temp) / (temp + 237.3)).exp();
            let mass_flux = 0.001 * (svp * 0.4) / (temp + 273.15).sqrt();
            let evap = mass_flux * (c.cross_section_area as f64 / 1e6) / 1000.0;
            StageHydraulics { theoretical_flow: mu(flow), evaporation: mu(evap) }
        })
        .collect()
}

fn make_simple_dynasty(id: &str, stages: u32) -> DynastyClepsydraConfig {
    let configs: Vec<ClepsydraConfig> = (0..stages)
        .map(|i| ClepsydraConfig {
            clepsydra_id: format!("{}-K{}", id, i),
            name: format!("{}壶{}", id, i),
            max_level: mu(100.0),
            min_level: mu(20.0),
            standard_flow: mu(1.0),
            cross_section_area: mu(314.0),
            orifice_diameter: mu(0.5),
            flow_coefficient: mu(0.6),
        })
        .collect();
    DynastyClepsydraConfig {
        dynasty_id: id.to_string(),
        dynasty_name: format!("{}朝", id),
        era: "test".to_string(),
        clepsydra_type: "测试".to_string(),
        stage_count: stages,
        description: "test".to_string(),
        historical_daily_error_seconds: mu(300.0),
        typical_water_temp_c: mu(20.0),
        material: "铜".to_string(),
        configs,
        reference_year: 1000,
        historical_references: vec!["test".to_string()],
        data_source: "unit test".to_string(),
        uncertainty_percent: mu(10.0),
    }
}

#[test]
fn test_calc_error_returns_positive() {
    let comp = EraPrecisionComparator::new();
    let dyn_cfg = make_simple_dynasty("A", 2);
    let err = comp.calc_dynasty_daily_error(&dyn_cfg, &hydraulics(&dyn_cfg)).unwrap();
    assert!(err > 0, "daily error should be positive, got {}", err);
}

#[test]
fn test_more_stages_less_error() {
    let comp = EraPrecisionComparator::new();
    let d1 = make_simple_dynasty("S1", 1);
    let d4 = make_simple_dynasty("S4", 4);
    let e1 = comp.calc_dynasty_daily_error(&d1, &hydraulics(&d1)).unwrap();
    let e4 = comp.calc_dynasty_daily_error(&d4, &hydraulics(&d4)).unwrap();
    assert!(e4 < e1, "4-stage ({}) should be more accurate than 1-stage ({})", e4, e1);
}

#[test]
fn test_compare_returns_valid_comparison() {
    let comp = EraPrecisionComparator::new();
    let left = make_simple_dynasty("L", 2);
    let right = make_simple_dynasty("R", 4);
    let cmp = comp
        .compare_dynasties(&left, &right, &hydraulics(&left), &hydraulics(&right))
        .unwrap();
    assert!(cmp.left_daily_error_seconds > 0);
    assert!(cmp.right_daily_error_seconds > 0);
    assert!(!cmp.winner.is_empty());
    assert!(!cmp.flow_comparison.is_empty());
    assert!(!cmp.key_differences.is_empty());
}

#[test]
fn daily_error_is_the_mean_of_documented_and_modelled() {
    // One stage, 1 mL/s theoretical, no evaporation: a quarter of the flow is
    // lost, a quarter of a day (21600 s); the mean with 300 s is 10950 s.
    let comp = EraPrecisionComparator::new();
    let d = make_simple_dynasty("M", 1);
    let h = vec![StageHydraulics { theoretical_flow: mu(1.0), evaporation: 0 }];
    assert_eq!(comp.calc_dynasty_daily_error(&d, &h), Ok(mu(10950.0)));
    // Two stages share their vessels' errors over sqrt(2).
    let d = make_simple_dynasty("M", 2);
    let h = vec![StageHydraulics { theoretical_flow: mu(2.0), evaporation: 0 }; 2];
    let e = comp.calc_dynasty_daily_error(&d, &h).unwrap();
    let expected = (300.0 + 2.0 * 0.1 * 86400.0 / 2f64.sqrt()) / 2.0;
    assert!((e - mu(expected)).abs() <= mu(0.01), "{} vs {}", e, mu(expected));
}

#[test]
fn a_vessel_without_flow_has_no_error() {
    let comp = EraPrecisionComparator::new();
    let d = make_simple_dynasty("Z", 1);
    let h = vec![StageHydraulics { theoretical_flow: 0, evaporation: mu(0.01) }];
    assert_eq!(comp.calc_dynasty_daily_error(&d, &h), Err(AnalysisError::OutOfRange));
}

#[test]
fn comparison_texts_and_winner() {
    let left = make_simple_dynasty("L", 2);
    let right = make_simple_dynasty("R", 4);
    let c = compare_with_errors(&left, &right, mu(30.0), mu(10.0)).unwrap();
    assert_eq!(c.error_ratio, mu(3.0));
    assert_eq!(c.winner, "R朝");
    assert_eq!(
        c.key_differences,
        vec![
            "级数差异：L朝2级 vs R朝4级".to_string(),
            "材质差异：铜 vs 铜".to_string(),
            "典型水温：20°C vs 20°C".to_string(),
            "精度提升：L朝比R朝精确0.3倍".to_string(),
        ]
    );
    assert_eq!(c.flow_comparison.len(), 4);
    assert_eq!(c.flow_comparison[0].stage, "第1级");
    assert_eq!(c.flow_comparison[0].left_level_cm, mu(60.0));
    assert_eq!(c.flow_comparison[3].left_level_cm, 0);
    assert_eq!(c.flow_comparison[3].right_level_cm, mu(60.0));
    let c = compare_with_errors(&left, &right, mu(10.0), mu(40.0)).unwrap();
    assert_eq!(c.winner, "L朝");
    // A quarter, to one decimal with ties to even.
    assert_eq!(c.error_ratio, mu(0.25));
    assert_eq!(c.key_differences[3], "精度提升：R朝比L朝精确0.2倍");
}

#[test]
fn a_zero_right_error_gives_unit_ratio() {
    let left = make_simple_dynasty("L", 2);
    let right = make_simple_dynasty("R", 2);
    let c = compare_with_errors(&left, &right, mu(30.0), 0).unwrap();
    assert_eq!(c.error_ratio, mu(1.0));
    assert_eq!(c.key_differences[2], "精度提升：L朝比R朝精确1.0倍");
}

#[test]
fn swapping_sides_swaps_the_comparison() {
    let d = clepsydra::catalog::default_dynasties();
    let (song, han) = (&d[4], &d[0]);
    let c = compare_with_errors(song, han, mu(50.0), mu(900.0)).unwrap();
    let s = compare_with_errors(han, song, mu(900.0), mu(50.0)).unwrap();
    assert_eq!(c.left_daily_error_seconds, s.right_daily_error_seconds);
    assert_eq!(c.right_daily_error_seconds, s.left_daily_error_seconds);
    assert_eq!(c.winner, "宋代");
    assert_eq!(s.winner, "宋代");
    assert_eq!(c.flow_comparison.len(), s.flow_comparison.len());
    for (p, q) in c.flow_comparison.iter().zip(s.flow_comparison.iter()) {
        assert_eq!(p.stage, q.stage);
        assert_eq!(p.left_flow_mlps, q.right_flow_mlps);
        assert_eq!(p.right_level_cm, q.left_level_cm);
    }
}
