use clepsydra::chronometry_comparator::{text_before, ChronometryComparator};
use clepsydra::models::{ClepsydraConfig, DynastyClepsydraConfig, ModernTimepiece};

fn mu(x: f64) -> i64 {
    (x * 1e6).round() as i64
}

fn make_dynasty(id: &str, name: &str, err: f64) -> DynastyClepsydraConfig {
    DynastyClepsydraConfig {
        dynasty_id: id.to_string(),
        dynasty_name: name.to_string(),
        era: "古代".to_string(),
        clepsydra_type: "漏壶（测试）".to_string(),
        stage_count: 2,
        description: "t".to_string(),
        historical_daily_error_seconds: mu(err),
        typical_water_temp_c: mu(20.0),
        material: "铜".to_string(),
        configs: vec![ClepsydraConfig {
            clepsydra_id: "K1".into(),
            name: "壶".into(),
            max_level: mu(100.0),
            min_level: mu(20.0),
            standard_flow: mu(1.0),
            cross_section_area: mu(314.0),
            orifice_diameter: mu(0.5),
            flow_coefficient: mu(0.6),
        }],
        reference_year: 1000,
        historical_references: vec!["t".into()],
        data_source: "t".into(),
        uncertainty_percent: mu(10.0),
    }
}

fn make_modern(id: &str, name: &str, err: f64, cat: &str) -> ModernTimepiece {
    ModernTimepiece {
        piece_id: id.into(),
        name: name.into(),
        category: cat.into(),
        daily_error_seconds: mu(err),
        yearly_error_seconds: mu(err * 365.0),
        technology: "t".into(),
        invention_year: 2000,
        description: "t".into(),
        accuracy_class: "t".into(),
        standard_reference: "ISO t".into(),
        iso_class: Some("t".into()),
    }
}

fn historical(dynasties: &[DynastyClepsydraConfig]) -> Vec<i64> {
    dynasties.iter().map(|d| d.historical_daily_error_seconds).collect()
}

#[test]
fn test_cross_era_returns_both_eras() {
    let comp = ChronometryComparator::new();
    let dynasties = vec![
        make_dynasty("SONG_LIANHUA", "宋莲花漏", 50.0),
        make_dynasty("TANG_JINGLU", "唐吕才漏", 120.0),
    ];
    let modern = vec![
        make_modern("Q", "石英表", 0.5, "电子"),
        make_modern("A", "原子钟", 1e-6, "原子"),
    ];
    let result = comp.cross_era_comparison(&dynasties, &modern, &historical(&dynasties)).unwrap();
    assert_eq!(result.ancient_devices.len(), 2);
    assert_eq!(result.modern_devices.len(), 2);
    assert!(result.improvement_factor > mu(1.0));
    assert!(result.timeline_data.len() >= 10);
    assert_eq!(result.best_modern.label, "原子钟");
}

#[test]
fn test_colors_are_assigned() {
    let comp = ChronometryComparator::new();
    let dynasties = vec![make_dynasty("SONG_LIANHUA", "宋", 50.0)];
    let modern = vec![make_modern("A", "铯钟", 1e-6, "原子")];
    let r = comp.cross_era_comparison(&dynasties, &modern, &historical(&dynasties)).unwrap();
    assert_eq!(r.ancient_devices[0].color_hex, "#FF6B6B");
    assert_eq!(r.modern_devices[0].color_hex, "#E74C3C");
}

#[test]
fn cross_era_labels_and_figures() {
    let comp = ChronometryComparator::new();
    let dynasties = vec![
        make_dynasty("SONG_LIANHUA", "宋莲花漏", 50.0),
        make_dynasty("X", "某朝", 50.0),
    ];
    let modern = vec![make_modern("Q", "石英表", 0.5, "电子"), make_modern("Z", "零", 0.0, "其他")];
    let r = comp.cross_era_comparison(&dynasties, &modern, &historical(&dynasties)).unwrap();
    assert_eq!(r.ancient_devices[0].label, "宋莲花漏·漏壶");
    assert_eq!(r.ancient_devices[0].era, "古代");
    assert_eq!(r.ancient_devices[0].yearly_error_minutes, 304_166_667);
    assert_eq!(r.ancient_devices[1].color_hex, "#666666");
    assert_eq!(r.best_ancient.label, "宋莲花漏·漏壶");
    assert_eq!(r.modern_devices[1].color_hex, "#95A5A6");
    assert_eq!(r.best_modern.label, "零");
    assert_eq!(r.improvement_factor, 1_000_000_000_000_000);
    assert_eq!(r.timeline_data.len(), 13);
    assert_eq!(r.timeline_data[0].year, -100);
    assert_eq!(r.timeline_data[10].daily_error_seconds, 1);
}

#[test]
fn improvement_factor_is_the_ratio_of_best_errors() {
    let comp = ChronometryComparator::new();
    let dynasties = vec![make_dynasty("A", "甲", 45.0)];
    let modern = vec![make_modern("Q", "石英表", 0.5, "电子")];
    let r = comp.cross_era_comparison(&dynasties, &modern, &historical(&dynasties)).unwrap();
    assert_eq!(r.improvement_factor, mu(90.0));
}

#[test]
fn text_before_stops_at_the_first_mark() {
    assert_eq!(text_before("四级浮箭漏（吕才）", '（'), "四级浮箭漏");
    assert_eq!(text_before("永乐漏刻", '（'), "永乐漏刻");
    assert_eq!(text_before("（甲）", '（'), "");
}

#[test]
fn a_comparison_depends_only_on_its_inputs() {
    let used = ChronometryComparator::new();
    let dynasties = vec![
        make_dynasty("SONG_LIANHUA", "宋莲花漏", 50.0),
        make_dynasty("TANG_JINGLU", "唐吕才漏", 120.0),
    ];
    let modern = vec![make_modern("Q", "石英表", 0.5, "电子"), make_modern("A", "原子钟", 1e-6, "原子")];
    let errors = historical(&dynasties);
    let _ = used.cross_era_comparison(&dynasties[1..], &modern[..1], &errors[1..]).unwrap();
    let a = used.cross_era_comparison(&dynasties, &modern, &errors).unwrap();
    let b = ChronometryComparator::new().cross_era_comparison(&dynasties, &modern, &errors).unwrap();
    assert_eq!(a.improvement_factor, b.improvement_factor);
    assert_eq!(a.best_ancient.label, b.best_ancient.label);
    assert_eq!(a.best_modern.label, b.best_modern.label);
    assert_eq!(a.timeline_data.len(), b.timeline_data.len());
    for (p, q) in a.ancient_devices.iter().zip(b.ancient_devices.iter()) {
        assert_eq!(p.label, q.label);
        assert_eq!(p.daily_error_seconds, q.daily_error_seconds);
        assert_eq!(p.yearly_error_minutes, q.yearly_error_minutes);
    }
}
