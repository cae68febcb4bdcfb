use clepsydra::catalog::default_clepsydras;
use clepsydra::dtu_receiver::{blank, validate_sensor, SensorRejection};
use clepsydra::metrics::ClepsydraMetrics;
use clepsydra::models::SensorData;
use clepsydra::mqtt_receiver::topic_device_id;

fn mu(x: f64) -> i64 {
    (x * 1e6).round() as i64
}

fn reading(id: &str) -> SensorData {
    SensorData {
        timestamp_ms: 0,
        clepsydra_id: id.into(),
        water_level: mu(85.5),
        flow_rate: mu(2.48),
        water_temp: mu(22.3),
        humidity: mu(60.0),
        quality: mu(1.0),
        pressure: mu(101.325),
    }
}

fn rejected_count(registry: &prometheus::Registry, kind: &str) -> f64 {
    for family in registry.gather() {
        if family.get_name() != "clepsydra_validation_errors_total" {
            continue;
        }
        for m in family.get_metric() {
            let labels: Vec<(String, String)> = m
                .get_label()
                .iter()
                .map(|l| (l.get_name().to_string(), l.get_value().to_string()))
                .collect();
            if labels.contains(&("error_type".to_string(), kind.to_string())) {
                return m.get_counter().get_value();
            }
        }
    }
    0.0
}

#[test]
fn a_plausible_reading_passes() {
    let mut metrics = ClepsydraMetrics::new().unwrap();
    assert_eq!(validate_sensor(&reading("KD1"), &default_clepsydras(), &mut metrics), Ok(()));
}

#[test]
fn each_check_rejects_in_order() {
    let mut metrics = ClepsydraMetrics::new().unwrap();
    let vessels = default_clepsydras();
    let mut check = |s: &SensorData| validate_sensor(s, &vessels, &mut metrics).err();
    assert_eq!(check(&reading(" \t")), Some(SensorRejection::EmptyId));
    assert_eq!(check(&reading("KD9")), Some(SensorRejection::UnknownId));
    let mut s = reading("KD2");
    s.water_level = mu(500.5);
    s.humidity = mu(120.0);
    assert_eq!(check(&s), Some(SensorRejection::WaterLevelOutOfRange));
    let mut s = reading("KD2");
    s.flow_rate = mu(-10.5);
    assert_eq!(check(&s), Some(SensorRejection::FlowRateOutOfRange));
    let mut s = reading("KD2");
    s.water_temp = mu(100.1);
    assert_eq!(check(&s), Some(SensorRejection::TempOutOfRange));
    let mut s = reading("KD2");
    s.humidity = mu(-0.1);
    assert_eq!(check(&s), Some(SensorRejection::HumidityOutOfRange));
    let mut s = reading("KD2");
    s.quality = mu(2.01);
    assert_eq!(check(&s), Some(SensorRejection::QualityOutOfRange));
    let mut s = reading("KD2");
    s.pressure = mu(49.9);
    assert_eq!(check(&s), Some(SensorRejection::PressureOutOfRange));
    let mut s = reading("KD2");
    s.pressure = mu(150.0);
    s.quality = mu(2.0);
    s.water_level = mu(500.0);
    assert_eq!(check(&s), None);
}

#[test]
fn rejections_are_counted_and_described() {
    let mut metrics = ClepsydraMetrics::new().unwrap();
    let registry = prometheus::Registry::new();
    metrics.register(&registry).unwrap();
    let vessels = default_clepsydras();
    let _ = validate_sensor(&reading(""), &vessels, &mut metrics);
    let mut s = reading("KD3");
    s.water_level = mu(-3.0);
    let e = validate_sensor(&s, &vessels, &mut metrics).unwrap_err();
    assert_eq!(rejected_count(&registry, "empty_id"), 1.0);
    assert_eq!(rejected_count(&registry, "water_level_out_of_range"), 1.0);
    assert_eq!(e.label(), "water_level_out_of_range");
    assert_eq!(e.message(&s), "水位超范围: -3.00cm");
    assert_eq!(SensorRejection::UnknownId.message(&reading("KD9")), "未知漏壶ID: KD9");
    assert_eq!(SensorRejection::QualityOutOfRange.message(&s), "水质系数超范围: 1.00");
    assert_eq!(SensorRejection::EmptyId.message(&s), "空的clepsydra_id");
}

#[test]
fn blank_ids_are_white_space_only() {
    assert!(blank(""));
    assert!(blank(" \u{3000}\n"));
    assert!(!blank(" K "));
}

#[test]
fn topics_name_their_vessel_last() {
    assert_eq!(topic_device_id("clepsydra/sensor/KD3"), "KD3");
    assert_eq!(topic_device_id("KD4"), "KD4");
    assert_eq!(topic_device_id("clepsydra/sensor/"), "");
}
