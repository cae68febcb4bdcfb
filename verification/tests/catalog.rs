use clepsydra::catalog::{
    default_clepsydras, default_dynasties, default_modern_timepieces, dynasty_color, modern_color,
};

#[test]
fn dynasty_catalog_has_six_designs() {
    let d = default_dynasties();
    assert_eq!(d.len(), 6);
    assert_eq!(d[4].dynasty_id, "SONG_YITIAN");
    assert_eq!(d[4].configs.len(), 4);
    assert_eq!(d[4].configs[0].clepsydra_id, "KD1");
    assert_eq!(d[4].configs[0].cross_section_area, 78_540_000);
    assert_eq!(d[0].configs[0].flow_coefficient, 580_000);
    for x in &d {
        assert!(x.configs.len() as u32 == x.stage_count);
    }
}

#[test]
fn modern_catalog_has_eight_pieces() {
    let m = default_modern_timepieces();
    assert_eq!(m.len(), 8);
    assert_eq!(m[3].piece_id, "ATOMIC_CS");
    assert_eq!(m[3].daily_error_seconds, 1);
    assert_eq!(m[5].yearly_error_seconds, 3_650);
}

#[test]
fn colours_by_id_and_category() {
    assert_eq!(dynasty_color("HAN_CHENJIAN"), "#8B4513");
    assert_eq!(dynasty_color("YONG_LE"), "#9B59B6");
    assert_eq!(dynasty_color("OTHER"), "#666666");
    assert_eq!(modern_color("机械"), "#7F8C8D");
    assert_eq!(modern_color("卫星"), "#2ECC71");
    assert_eq!(modern_color(""), "#95A5A6");
}

#[test]
fn designs_carry_their_names_and_hydraulics() {
    let d = default_dynasties();
    assert_eq!(d[0].dynasty_name, "汉代");
    assert_eq!(d[0].clepsydra_type, "沉箭漏（单级浮箭）");
    assert_eq!(d[0].material, "青铜");
    assert_eq!(d[0].configs[0].name, "沉箭壶");
    assert_eq!(d[0].configs[0].cross_section_area, 113_100_000);
    assert_eq!(d[0].configs[0].orifice_diameter, 250_000);
    assert_eq!(d[4].dynasty_name, "宋代");
    assert_eq!(d[4].clepsydra_type, "水运仪象台（苏颂）");
    assert_eq!(d[5].configs[3].cross_section_area, 72_000_000);
    for x in &d {
        for c in &x.configs {
            assert!(0 < c.min_level && c.min_level < c.max_level);
            assert!(c.standard_flow > 0 && c.cross_section_area > 0 && c.orifice_diameter > 0);
            assert!(0 < c.flow_coefficient && c.flow_coefficient < 1_000_000);
        }
    }
}

#[test]
fn the_deployed_vessels_are_named() {
    let v = default_clepsydras();
    let names: Vec<&str> = v.iter().map(|c| c.name.as_str()).collect();
    assert_eq!(names, vec!["天上壶", "夜漏壶", "平水壶", "万分水"]);
}

#[test]
fn the_most_accurate_timepiece_is_the_caesium_clock() {
    let m = default_modern_timepieces();
    let best = m.iter().min_by_key(|p| p.daily_error_seconds).unwrap();
    assert_eq!(best.piece_id, "ATOMIC_CS");
    assert_eq!(best.name, "铯原子钟");
}
