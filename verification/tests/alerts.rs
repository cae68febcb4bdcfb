use clepsydra::alerts::AlertManager;
use clepsydra::models::{
    AlertLevel, AlertType, ClepsydraConfig, HydraulicMetrics, SensorData,
};

fn mu(x: f64) -> i64 {
    (x * 1e6).round() as i64
}

fn vessel() -> ClepsydraConfig {
    ClepsydraConfig {
        clepsydra_id: "KD1".into(),
        name: "天上壶".into(),
        max_level: mu(120.0),
        min_level: mu(20.0),
        standard_flow: mu(2.5),
        cross_section_area: mu(78.54),
        orifice_diameter: mu(0.3),
        flow_coefficient: mu(0.62),
    }
}

fn reading(level: f64, temp: f64) -> SensorData {
    SensorData {
        timestamp_ms: 1_700_000_000_000,
        clepsydra_id: "KD1".into(),
        water_level: mu(level),
        flow_rate: mu(2.5),
        water_temp: mu(temp),
        humidity: mu(60.0),
        quality: mu(1.0),
        pressure: mu(101.325),
    }
}

fn metrics(error: f64) -> HydraulicMetrics {
    HydraulicMetrics {
        timestamp_ms: 0,
        clepsydra_id: "KD2".into(),
        theoretical_flow: mu(2.5),
        actual_flow: mu(2.4),
        flow_error: mu(-4.0),
        evaporation_rate: mu(0.004),
        daily_error_seconds: mu(error),
        compensation_flow: 0,
        pid_kp: 0,
        pid_ki: 0,
        pid_kd: 0,
    }
}

#[test]
fn high_levels_raise_critical_and_low_levels_warning_alerts() {
    let mut m = AlertManager::new(mu(30.0));
    let a = m.check_water_level_at(&reading(125.5, 20.0), &vessel(), "a1".into(), 7).unwrap();
    assert_eq!(a.id, "a1");
    assert_eq!(a.timestamp_ms, 7);
    assert_eq!(a.alert_type, AlertType::WaterLevelHigh);
    assert_eq!(a.alert_level, AlertLevel::Critical);
    assert_eq!(a.message, "漏壶天上壶水位过高: 125.50cm > 120.00cm");
    assert_eq!(a.value, mu(125.5));
    assert_eq!(a.threshold, mu(120.0));
    assert!(!a.resolved);
    let b = m.check_water_level_at(&reading(19.0, 20.0), &vessel(), "a2".into(), 8).unwrap();
    assert_eq!(b.alert_type, AlertType::WaterLevelLow);
    assert_eq!(b.alert_level, AlertLevel::Warning);
    assert_eq!(b.message, "天上壶水位低于下限");
    assert_eq!(b.value, mu(19.0));
    assert_eq!(b.threshold, mu(20.0));
    assert!(m.check_water_level_at(&reading(70.0, 20.0), &vessel(), "a3".into(), 9).is_none());
    assert_eq!(m.get_active_alerts("KD1").len(), 2);
}

#[test]
fn daily_error_alerts_grade_by_twice_the_threshold() {
    let mut m = AlertManager::new(mu(30.0));
    let w = m.check_daily_error_at(&metrics(-45.0), "w".into(), 1).unwrap();
    assert_eq!(w.alert_level, AlertLevel::Warning);
    assert_eq!(w.message, "漏壶KD2日误差超限: -45.00秒 > 30.00秒");
    let c = m.check_daily_error_at(&metrics(61.0), "c".into(), 2).unwrap();
    assert_eq!(c.alert_level, AlertLevel::Critical);
    assert!(m.check_daily_error_at(&metrics(30.0), "n".into(), 3).is_none());
}

#[test]
fn abnormal_temperatures_raise_warnings() {
    let mut m = AlertManager::new(mu(30.0));
    let a = m.check_temperature_at(&reading(70.0, -1.5), "t".into(), 1).unwrap();
    assert_eq!(a.alert_type, AlertType::TempAbnormal);
    assert_eq!(a.alert_level, AlertLevel::Warning);
    assert_eq!(a.message, "漏壶KD1水温异常: -1.50°C");
    assert_eq!(a.threshold, mu(50.0));
    assert!(m.check_temperature_at(&reading(70.0, 50.0), "u".into(), 2).is_none());
}

#[test]
fn fresh_alerts_get_an_id_and_a_time() {
    let mut m = AlertManager::new(mu(30.0));
    let a = m.check_water_level(&reading(130.0, 20.0), &vessel()).unwrap();
    assert_eq!(a.id.len(), 36);
    assert_eq!(a.id.matches('-').count(), 4);
    assert!(a.timestamp_ms > 1_600_000_000_000);
    let b = m.check_temperature(&reading(70.0, 60.0)).unwrap();
    assert_ne!(a.id, b.id);
    let c = m.check_daily_error(&metrics(100.0)).unwrap();
    assert_eq!(c.alert_type, AlertType::DailyErrorExceed);
    assert!(m.check_daily_error(&metrics(1.0)).is_none());
}

#[test]
fn resolving_withdraws_an_alert() {
    let mut m = AlertManager::new(mu(30.0));
    m.check_water_level_at(&reading(130.0, 20.0), &vessel(), "x".into(), 1);
    m.check_temperature_at(&reading(70.0, 70.0), "y".into(), 2);
    m.check_daily_error_at(&metrics(90.0), "z".into(), 3);
    assert_eq!(m.get_active_alerts("KD1").len(), 2);
    assert!(m.resolve_alert("x"));
    let active = m.get_active_alerts("KD1");
    assert_eq!(active.len(), 1);
    assert_eq!(active[0].id, "y");
    assert!(!m.resolve_alert("nope"));
    assert_eq!(m.get_active_alerts("KD2").len(), 1);
    assert!(m.get_active_alerts("KD9").is_empty());
}

#[test]
fn alert_labels_are_upper_snake_case() {
    assert_eq!(AlertType::WaterLevelLow.as_str(), "WATER_LEVEL_LOW");
    assert_eq!(AlertType::WaterLevelHigh.as_str(), "WATER_LEVEL_HIGH");
    assert_eq!(AlertType::DailyErrorExceed.as_str(), "DAILY_ERROR_EXCEED");
    assert_eq!(AlertType::TempAbnormal.as_str(), "TEMP_ABNORMAL");
    assert_eq!(AlertLevel::Warning.as_str(), "WARNING");
    assert_eq!(AlertLevel::Critical.as_str(), "CRITICAL");
}

#[test]
fn low_level_on_the_leveling_vessel_is_a_named_warning() {
    let mut m = AlertManager::new(mu(60.0));
    let config = ClepsydraConfig {
        clepsydra_id: "KD3".into(),
        name: "平水壶".into(),
        max_level: mu(80.0),
        min_level: mu(10.0),
        standard_flow: mu(2.5),
        cross_section_area: mu(78.54),
        orifice_diameter: mu(0.3),
        flow_coefficient: mu(0.62),
    };
    let mut sensor = reading(8.5, 20.0);
    sensor.clepsydra_id = "KD3".into();
    let a = m.check_water_level(&sensor, &config).unwrap();
    assert_eq!(a.clepsydra_id, "KD3");
    assert_eq!(a.alert_type.as_str(), "WATER_LEVEL_LOW");
    assert_eq!(a.alert_level.as_str(), "WARNING");
    assert_eq!(a.message, "平水壶水位低于下限");
    assert_eq!(a.value, mu(8.5));
    assert_eq!(a.threshold, mu(10.0));
    assert_eq!(a.id.len(), 36);
}
