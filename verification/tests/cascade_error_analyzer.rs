use clepsydra::cascade_error_analyzer::CascadeErrorAnalyzer;
use clepsydra::models::{ClepsydraConfig, DynastyClepsydraConfig};

/// A decimal quantity in the library's millionths.
fn mu(x: f64) -> i64 {
    (x * 1e6).round() as i64
}

fn make_dynasty(stages: u32) -> DynastyClepsydraConfig {
    let configs: Vec<ClepsydraConfig> = (0..stages)
        .map(|i| ClepsydraConfig {
            clepsydra_id: format!("K{}", i + 1),
            name: format!("壶{}", i + 1),
            max_level: mu(100.0),
            min_level: mu(40.0),
            standard_flow: mu(1.0 + i as f64 * 0.1),
            cross_section_area: mu(314.0),
            orifice_diameter: mu(0.5),
            flow_coefficient: mu(0.6),
        })
        .collect();
    DynastyClepsydraConfig {
        dynasty_id: "T".into(),
        dynasty_name: "测试".into(),
        era: "t".into(),
        clepsydra_type: "t".into(),
        stage_count: stages,
        description: "t".into(),
        historical_daily_error_seconds: mu(100.0),
        typical_water_temp_c: mu(20.0),
        material: "铜".into(),
        configs,
        reference_year: 1000,
        historical_references: vec!["t".into()],
        data_source: "t".into(),
        uncertainty_percent: mu(10.0),
    }
}

#[test]
fn test_analyze_returns_nodes() {
    let a = CascadeErrorAnalyzer::new();
    let d = make_dynasty(3);
    let r = a.analyze(&d).unwrap();
    assert_eq!(r.nodes.len(), 3);
    assert!(r.total_error_seconds > mu(0.0));
}

#[test]
fn test_amplification_decreases_downstream() {
    let a = CascadeErrorAnalyzer::new();
    let d = make_dynasty(4);
    let r = a.analyze(&d).unwrap();
    let amps: Vec<i64> = r.nodes.iter().map(|n| n.amplification_factor).collect();
    for w in amps.windows(2) {
        assert!(w[0] >= w[1], "amp should decrease: {:?}", amps);
    }
}

#[test]
fn test_contribution_sum() {
    let a = CascadeErrorAnalyzer::new();
    let d = make_dynasty(4);
    let r = a.analyze(&d).unwrap();
    let s: f64 = r.nodes.iter().map(|n| n.contribution_percent as f64 / 1e6).sum();
    assert!((s - 100.0).abs() < 1e-6, "sum should be 100, got {}", s);
}

#[test]
fn test_single_stage_no_amp() {
    let a = CascadeErrorAnalyzer::new();
    let d = make_dynasty(1);
    let r = a.analyze(&d).unwrap();
    assert_eq!(r.nodes[0].amplification_factor, mu(1.0));
    assert_eq!(r.nodes[0].input_error_seconds, mu(0.0));
}

#[test]
fn test_more_stages_less_per_stage_self_error() {
    let a = CascadeErrorAnalyzer::new();
    let d1 = make_dynasty(1);
    let d4 = make_dynasty(4);
    let r1 = a.analyze(&d1).unwrap();
    let r4 = a.analyze(&d4).unwrap();
    let e1: i64 = r1.nodes.iter().map(|n| n.self_error_seconds).sum();
    let e4: i64 = r4.nodes.iter().map(|n| n.self_error_seconds).sum();
    assert!(e4 < e1, "sum self err 4-stage ({}) < 1-stage ({})", e4, e1);
}

#[test]
fn four_stage_values_are_exact() {
    let a = CascadeErrorAnalyzer::new();
    let r = a.analyze(&make_dynasty(4)).unwrap();
    let selfs: Vec<i64> = r.nodes.iter().map(|n| n.self_error_seconds).collect();
    assert_eq!(selfs, vec![81_000, 54_000, 36_000, 22_500]);
    let amps: Vec<i64> = r.nodes.iter().map(|n| n.amplification_factor).collect();
    assert_eq!(amps, vec![1_450_000, 1_300_000, 1_150_000, 1_000_000]);
    let contributions: Vec<i64> = r.nodes.iter().map(|n| n.contribution_percent).collect();
    assert_eq!(contributions, vec![41_860_465, 27_906_977, 18_604_651, 11_627_907]);
    assert_eq!(r.nodes[0].water_level_cm, mu(82.0));
    assert_eq!(r.nodes[0].output_error_seconds, 117_450);
    for w in r.nodes.windows(2) {
        assert_eq!(w[1].input_error_seconds, w[0].output_error_seconds);
    }
    assert_eq!(r.total_error_seconds, r.nodes[3].output_error_seconds);
    assert_eq!(r.bottleneck_stage, 0);
    assert_eq!(r.bottleneck_reason, "第1级K1误差放大系数过高（1.45x），需增加缓冲壶");
    assert_eq!(r.recommendations.len(), 2);
    assert_eq!(r.recommendations[0], "重点优化瓶颈级K1：采用漫流恒水位可减小误差约25%");
}

#[test]
fn single_stage_reason_and_advice() {
    let a = CascadeErrorAnalyzer::new();
    let mut d = make_dynasty(1);
    d.typical_water_temp_c = mu(15.0);
    let r = a.analyze(&d).unwrap();
    assert_eq!(r.nodes[0].self_error_seconds, mu(2.25));
    assert_eq!(r.total_error_seconds, mu(2.25));
    assert_eq!(r.nodes[0].contribution_percent, mu(100.0));
    assert_eq!(r.compensation_potential_seconds, 787_500);
    assert_eq!(r.bottleneck_reason, "第1级K1自身固有误差最大（2.25s/日），建议优化孔口设计");
    assert_eq!(r.recommendations.len(), 4);
    assert_eq!(r.recommendations[0], "建议增加补偿壶级数至4级，可将误差再降低约45%");
    assert_eq!(r.recommendations[1], "重点优化瓶颈级K1：采用漫流恒水位可减小误差约60%");
    assert!(r.recommendations[3].starts_with("当前典型水温偏低"));
}

#[test]
fn low_level_stage_is_reported() {
    let a = CascadeErrorAnalyzer::new();
    let mut d = make_dynasty(2);
    d.configs[1].max_level = mu(20.0);
    d.configs[1].min_level = mu(10.0);
    let r = a.analyze(&d).unwrap();
    assert_eq!(r.nodes[1].water_level_cm, mu(17.0));
    assert_eq!(r.bottleneck_stage, 0);
    d.configs[0].max_level = mu(20.0);
    let r = a.analyze(&d).unwrap();
    assert!(r.bottleneck_reason.contains("水位偏低"));
}

#[test]
fn empty_cascade_has_no_bottleneck() {
    let a = CascadeErrorAnalyzer::new();
    let r = a.analyze(&make_dynasty(0)).unwrap();
    assert!(r.nodes.is_empty());
    assert_eq!(r.total_error_seconds, 0);
    assert_eq!(r.bottleneck_reason, "未知");
    assert_eq!(r.recommendations[1], "重点优化瓶颈级：采用漫流恒水位可减小误差约25%");
}

#[test]
fn out_of_range_values_are_refused() {
    let a = CascadeErrorAnalyzer::new();
    let mut d = make_dynasty(2);
    let extra = make_dynasty(30).configs;
    d.configs = extra;
    assert!(a.analyze(&d).is_err());
}

#[test]
fn an_analysis_depends_only_on_the_design() {
    let d = make_dynasty(3);
    let a = CascadeErrorAnalyzer::new().analyze(&d).unwrap();
    let b = CascadeErrorAnalyzer::new().analyze(&d).unwrap();
    assert_eq!(a.total_error_seconds, b.total_error_seconds);
    assert_eq!(a.bottleneck_stage, b.bottleneck_stage);
    assert_eq!(a.recommendations, b.recommendations);
    assert_eq!(a.nodes.len(), b.nodes.len());
    for (x, y) in a.nodes.iter().zip(b.nodes.iter()) {
        assert_eq!(x.output_error_seconds, y.output_error_seconds);
        assert_eq!(x.contribution_percent, y.contribution_percent);
    }
}
