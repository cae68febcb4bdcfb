use clepsydra::config_loader::{
    build_mqtt_config_from_env, override_mqtt_from_env, parse_unsigned, server_port_from_env,
    AlertConfig, ChannelConfig, ClickHouseConfig, MqttConfig, MqttEnv, ServerConfig,
};

#[test]
fn defaults_match_the_shipped_settings() {
    let m = MqttConfig::default();
    assert_eq!(m.broker, "localhost");
    assert_eq!(m.port, 1883);
    assert_eq!(m.topic, "clepsydra/sensor/+");
    assert_eq!(m.keep_alive_secs, 30);
    let c = ClickHouseConfig::default();
    assert_eq!(c.url, "http://localhost:8123");
    assert_eq!(c.batch_size, 100);
    let s = ServerConfig::default();
    assert_eq!(s.port, 8080);
    assert_eq!(s.cors_origins, vec!["*".to_string()]);
    let ch = ChannelConfig::default();
    assert_eq!(ch.dtu_to_simulator_buffer, 1000);
    assert_eq!(ch.alarm_broadcast_capacity, 1000);
}

#[test]
fn unsigned_parsing_follows_str_parse() {
    assert_eq!(parse_unsigned("1883", 65535), Some(1883));
    assert_eq!(parse_unsigned("+42", 65535), Some(42));
    assert_eq!(parse_unsigned("65535", 65535), Some(65535));
    assert_eq!(parse_unsigned("65536", 65535), None);
    assert_eq!(parse_unsigned("", 65535), None);
    assert_eq!(parse_unsigned("+", 65535), None);
    assert_eq!(parse_unsigned("-1", 65535), None);
    assert_eq!(parse_unsigned("12a", 65535), None);
    assert_eq!(parse_unsigned("18446744073709551615", u64::MAX), Some(u64::MAX));
    assert_eq!(parse_unsigned("18446744073709551616", u64::MAX), None);
    for t in ["0", "007", "9", "123456", "99999999999999999999", "+0", " 1"] {
        assert_eq!(parse_unsigned(t, 65535), t.parse::<u16>().ok().map(u64::from), "{}", t);
    }
}

#[test]
fn environment_overrides_defaults() {
    let none = MqttEnv { broker: None, port: None, topic: None, client_id_prefix: None, keep_alive: None };
    let m = build_mqtt_config_from_env(none);
    assert_eq!(m.broker, "localhost");
    assert_eq!(m.port, 1883);
    assert_eq!(m.client_id_prefix, "clepsydra-backend");
    let env = MqttEnv {
        broker: Some("emqx".into()),
        port: Some("bad".into()),
        topic: Some("t/+".into()),
        client_id_prefix: None,
        keep_alive: Some("60".into()),
    };
    let m = build_mqtt_config_from_env(env);
    assert_eq!(m.broker, "emqx");
    assert_eq!(m.port, 1883);
    assert_eq!(m.topic, "t/+");
    assert_eq!(m.keep_alive_secs, 60);
}

#[test]
fn main_overrides_keep_configured_values() {
    let mut m = MqttConfig::default();
    override_mqtt_from_env(&mut m, Some("broker".into()), Some("x".into()));
    assert_eq!(m.broker, "broker");
    assert_eq!(m.port, 1883);
    override_mqtt_from_env(&mut m, None, Some("2000".into()));
    assert_eq!(m.broker, "broker");
    assert_eq!(m.port, 2000);
    assert_eq!(server_port_from_env(8080, None), Some(8080));
    assert_eq!(server_port_from_env(8080, Some("9090".into())), Some(9090));
    assert_eq!(server_port_from_env(8080, Some("70000".into())), None);
}

#[test]
fn alert_defaults_aim_at_one_minute_a_day() {
    let a = AlertConfig::default();
    assert_eq!(a.daily_error_threshold_seconds, 60_000_000);
    assert_eq!(a.critical_error_multiplier, 2_000_000);
    assert_eq!(a.water_temp_min_c, 0);
    assert_eq!(a.water_temp_max_c, 50_000_000);
}
