use clepsydra::metrics::{inc_alert, record_sensor_received, record_validation_error, ClepsydraMetrics};

fn counter_value(registry: &prometheus::Registry, name: &str, labels: &[(&str, &str)]) -> f64 {
    for family in registry.gather() {
        if family.get_name() != name {
            continue;
        }
        for m in family.get_metric() {
            let pairs: Vec<(String, String)> = m
                .get_label()
                .iter()
                .map(|l| (l.get_name().to_string(), l.get_value().to_string()))
                .collect();
            if labels.iter().all(|(k, v)| pairs.iter().any(|(pk, pv)| pk == k && pv == v)) {
                return m.get_counter().get_value();
            }
        }
    }
    0.0
}

#[test]
fn counters_count_by_label() {
    let mut metrics = ClepsydraMetrics::new().unwrap();
    let registry = prometheus::Registry::new();
    metrics.register(&registry).unwrap();
    record_sensor_received(&mut metrics, "KD1");
    record_sensor_received(&mut metrics, "KD1");
    record_sensor_received(&mut metrics, "KD2");
    record_validation_error(&mut metrics, "KD3", "empty_id");
    inc_alert(&mut metrics, "KD1", "WATER_LEVEL_LOW", "WARNING");
    assert_eq!(counter_value(&registry, "clepsydra_sensor_received_total", &[("clepsydra_id", "KD1")]), 2.0);
    assert_eq!(counter_value(&registry, "clepsydra_sensor_received_total", &[("clepsydra_id", "KD2")]), 1.0);
    assert_eq!(
        counter_value(
            &registry,
            "clepsydra_validation_errors_total",
            &[("error_type", "empty_id")]
        ),
        1.0
    );
    assert_eq!(
        counter_value(&registry, "clepsydra_alerts_total", &[("type", "WATER_LEVEL_LOW"), ("level", "WARNING")]),
        1.0
    );
}

#[test]
fn registering_twice_is_refused() {
    let metrics = ClepsydraMetrics::new().unwrap();
    let registry = prometheus::Registry::new();
    metrics.register(&registry).unwrap();
    assert!(metrics.register(&registry).is_err());
}

#[test]
fn registering_goes_on_past_a_refused_family() {
    let registry = prometheus::Registry::new();
    let taken = prometheus::CounterVec::new(
        prometheus::Opts::new("clepsydra_validation_errors_total", "already here"),
        &["error_type"],
    )
    .unwrap();
    registry.register(Box::new(taken)).unwrap();
    let mut metrics = ClepsydraMetrics::new().unwrap();
    assert!(metrics.register(&registry).is_err());
    record_sensor_received(&mut metrics, "KD1");
    inc_alert(&mut metrics, "KD2", "TEMP_ABNORMAL", "WARNING");
    assert_eq!(counter_value(&registry, "clepsydra_sensor_received_total", &[("clepsydra_id", "KD1")]), 1.0);
    assert_eq!(
        counter_value(&registry, "clepsydra_alerts_total", &[("type", "TEMP_ABNORMAL"), ("level", "WARNING")]),
        1.0
    );
}
