//! Service settings without physical quantities, their defaults, and the
//! decimal parsing used for settings taken from the environment.
use vstd::prelude::*;

verus! {

/// Connection to the MQTT broker that publishes sensor readings.
#[derive(Debug, Clone)]
pub struct MqttConfig {
    pub broker: String,
    pub port: u16,
    pub topic: String,
    pub client_id_prefix: String,
    pub keep_alive_secs: u64,
}

impl Default for MqttConfig {
    fn default() -> (r: Self)
        ensures
            r.broker@ == "localhost"@,
            r.port == 1883,
            r.topic@ == "clepsydra/sensor/+"@,
            r.client_id_prefix@ == "clepsydra-backend"@,
            r.keep_alive_secs == 30,
    {
        MqttConfig {
            broker: String::from_str("localhost"),
            port: 1883,
            topic: String::from_str("clepsydra/sensor/+"),
            client_id_prefix: String::from_str("clepsydra-backend"),
            keep_alive_secs: 30,
        }
    }
}

/// Connection to the ClickHouse database.
#[derive(Debug, Clone)]
pub struct ClickHouseConfig {
    pub url: String,
    pub database: String,
    pub batch_size: usize,
    pub flush_interval_ms: u64,
}

impl Default for ClickHouseConfig {
    fn default() -> (r: Self)
        ensures
            r.url@ == "http://localhost:8123"@,
            r.database@ == "clepsydra"@,
            r.batch_size == 100,
            r.flush_interval_ms == 1000,
    {
        ClickHouseConfig {
            url: String::from_str("http://localhost:8123"),
            database: String::from_str("clepsydra"),
            batch_size: 100,
            flush_interval_ms: 1000,
        }
    }
}

/// The HTTP server.
#[derive(Debug, Clone)]
pub struct ServerConfig {
    pub port: u16,
    pub cors_origins: Vec<String>,
}

impl Default for ServerConfig {
    fn default() -> (r: Self)
        ensures
            r.port == 8080,
            r.cors_origins@.len() == 1,
            r.cors_origins@[0]@ == "*"@,
    {
        let mut cors_origins: Vec<String> = Vec::new();
        cors_origins.push(String::from_str("*"));
        ServerConfig { port: 8080, cors_origins }
    }
}

/// When alerts are raised (all in millionths): the daily error beyond
/// which an alert is raised, the factor beyond which it is critical, and
/// the range of plausible water temperatures (°C).
#[derive(Debug, Clone, Copy)]
pub struct AlertConfig {
    pub daily_error_threshold_seconds: i64,
    pub critical_error_multiplier: i64,
    pub water_temp_min_c: i64,
    pub water_temp_max_c: i64,
}

impl Default for AlertConfig {
    /// A one-minute daily error goal, critical at twice that, water between
    /// 0 °C and 50 °C.
    fn default() -> (r: Self)
        ensures
            r.daily_error_threshold_seconds == 60_000_000,
            r.critical_error_multiplier == 2_000_000,
            r.water_temp_min_c == 0,
            r.water_temp_max_c == 50_000_000,
    {
        AlertConfig {
            daily_error_threshold_seconds: 60_000_000,
            critical_error_multiplier: 2_000_000,
            water_temp_min_c: 0,
            water_temp_max_c: 50_000_000,
        }
    }
}

/// Buffer sizes of the channels between the pipeline stages.
#[derive(Debug, Clone)]
pub struct ChannelConfig {
    pub dtu_to_simulator_buffer: usize,
    pub simulator_to_compensator_buffer: usize,
    pub compensator_to_alarm_buffer: usize,
    pub alarm_broadcast_capacity: usize,
}

impl Default for ChannelConfig {
    fn default() -> (r: Self)
        ensures
            r.dtu_to_simulator_buffer == 1000,
            r.simulator_to_compensator_buffer == 500,
            r.compensator_to_alarm_buffer == 500,
            r.alarm_broadcast_capacity == 1000,
    {
        ChannelConfig {
            dtu_to_simulator_buffer: 1000,
            simulator_to_compensator_buffer: 500,
            compensator_to_alarm_buffer: 500,
            alarm_broadcast_capacity: 1000,
        }
    }
}

pub open spec fn is_digit(c: char) -> bool {
    '0' <= c <= '9'
}

/// Value of a string of decimal digits.
pub open spec fn digits_value(s: Seq<char>) -> int
    decreases s.len(),
{
    if s.len() == 0 {
        0
    } else {
        digits_value(s.drop_last()) * 10 + (s.last() as int - 48)
    }
}

/// `s` without a leading `+`.
pub open spec fn unsigned_body(s: Seq<char>) -> Seq<char> {
    if s.len() > 0 && s[0] == '+' {
        s.drop_first()
    } else {
        s
    }
}

/// How Rust reads an unsigned integer no larger than `max` from `s`: an
/// optional `+`, then one or more ASCII digits whose value is at most `max`.
pub open spec fn parse_unsigned_spec(s: Seq<char>, max: int) -> Option<int> {
    let body = unsigned_body(s);
    if body.len() > 0 && (forall|i: int| 0 <= i < body.len() ==> is_digit(#[trigger] body[i]))
        && digits_value(body) <= max {
        Some(digits_value(body))
    } else {
        None
    }
}

proof fn lemma_digits_value_grows(s: Seq<char>, k: int)
    requires
        0 <= k <= s.len(),
        forall|i: int| 0 <= i < s.len() ==> is_digit(#[trigger] s[i]),
    ensures
        0 <= digits_value(s.take(k)) <= digits_value(s),
    decreases s.len(),
{
    if s.len() > 0 {
        if k == s.len() {
            assert(s.take(k) =~= s);
            lemma_digits_value_grows(s.drop_last(), k - 1);
            assert(s.drop_last().take(k - 1) =~= s.drop_last());
        } else {
            lemma_digits_value_grows(s.drop_last(), k);
            assert(s.drop_last().take(k) =~= s.take(k));
            lemma_digits_value_grows(s.drop_last(), s.len() - 1);
            assert(s.drop_last().take(s.len() - 1) =~= s.drop_last());
        }
    } else {
        assert(s.take(k) =~= s);
    }
}

/// Reads an unsigned integer no larger than `max`, as `str::parse` does.
pub fn parse_unsigned(s: &str, max: u64) -> (r: Option<u64>)
    ensures
        r matches Some(v) ==> parse_unsigned_spec(s@, max as int) == Some(v as int),
        r is None ==> parse_unsigned_spec(s@, max as int) is None,
{
    let n = s.unicode_len();
    let start: usize = if n > 0 && s.get_char(0) == '+' {
        1
    } else {
        0
    };
    let ghost body = unsigned_body(s@);
    assert(body =~= s@.skip(start as int));
    if start >= n {
        return None;
    }
    let mut acc: u64 = 0;
    let mut k: usize = start;
    while k < n
        invariant
            n == s@.len(),
            start <= k <= n,
            body =~= s@.skip(start as int),
            body == unsigned_body(s@),
            forall|i: int| 0 <= i < k - start ==> is_digit(#[trigger] body[i]),
            acc == digits_value(body.take(k - start)),
            acc <= max,
        decreases n - k,
    {
        let c = s.get_char(k);
        assert(body[k - start] == c);
        if c < '0' || c > '9' {
            assert(parse_unsigned_spec(s@, max as int) is None);
            return None;
        }
        let d = (c as u32 - '0' as u32) as u64;
        assert(body.take(k - start + 1).drop_last() =~= body.take(k - start));
        if d > max || acc > (max - d) / 10 {
            proof {
                if d <= max {
                    assert(acc * 10 + d > max) by (nonlinear_arith)
                        requires
                            acc > (max - d) / 10,
                            d <= max,
                    ;
                }
                assert(digits_value(body.take(k - start + 1)) == acc * 10 + d);
                if forall|i: int| 0 <= i < body.len() ==> is_digit(#[trigger] body[i]) {
                    lemma_digits_value_grows(body, k - start + 1);
                }
            }
            return None;
        }
        acc = acc * 10 + d;
        k = k + 1;
    }
    assert(body.take(n - start) =~= body);
    Some(acc)
}

/// Unsigned value of `text` when it parses and is at most `max`, else `fallback`.
pub open spec fn parsed_or(text: Option<String>, max: int, fallback: int) -> int {
    match text {
        Some(t) => match parse_unsigned_spec(t@, max) {
            Some(v) => v,
            None => fallback,
        },
        None => fallback,
    }
}

/// `text` when present, else `fallback`.
pub open spec fn text_or(text: Option<String>, fallback: Seq<char>) -> Seq<char> {
    match text {
        Some(t) => t@,
        None => fallback,
    }
}

fn parsed_or_exec(text: &Option<String>, max: u64, fallback: u64) -> (r: u64)
    requires
        fallback <= max,
    ensures
        r == parsed_or(*text, max as int, fallback as int),
        r <= max,
{
    match text {
        Some(t) => match parse_unsigned(t.as_str(), max) {
            Some(v) => v,
            None => fallback,
        },
        None => fallback,
    }
}

fn text_or_exec(text: Option<String>, fallback: &str) -> (r: String)
    ensures
        r@ == text_or(text, fallback@),
{
    match text {
        Some(t) => t,
        None => String::from_str(fallback),
    }
}

/// The MQTT variables of the environment, each as text; `None` when unset.
#[derive(Debug, Clone)]
pub struct MqttEnv {
    pub broker: Option<String>,
    pub port: Option<String>,
    pub topic: Option<String>,
    pub client_id_prefix: Option<String>,
    pub keep_alive: Option<String>,
}

/// MQTT settings from the environment: each variable that is set replaces
/// the default, and a number that does not parse falls back to the default.
pub fn build_mqtt_config_from_env(env: MqttEnv) -> (r: MqttConfig)
    ensures
        r.broker@ == text_or(env.broker, "localhost"@),
        r.port == parsed_or(env.port, 65535, 1883),
        r.topic@ == text_or(env.topic, "clepsydra/sensor/+"@),
        r.client_id_prefix@ == text_or(env.client_id_prefix, "clepsydra-backend"@),
        r.keep_alive_secs == parsed_or(env.keep_alive, u64::MAX as int, 30),
{
    let port = parsed_or_exec(&env.port, 65535, 1883) as u16;
    let keep_alive_secs = parsed_or_exec(&env.keep_alive, u64::MAX, 30);
    MqttConfig {
        broker: text_or_exec(env.broker, "localhost"),
        port,
        topic: text_or_exec(env.topic, "clepsydra/sensor/+"),
        client_id_prefix: text_or_exec(env.client_id_prefix, "clepsydra-backend"),
        keep_alive_secs,
    }
}

/// Applies the broker and port given by the environment to `cfg`; a port
/// that does not parse keeps the configured one.
pub fn override_mqtt_from_env(cfg: &mut MqttConfig, broker: Option<String>, port: Option<String>)
    ensures
        final(cfg).broker@ == text_or(broker, old(cfg).broker@),
        final(cfg).port == parsed_or(port, 65535, old(cfg).port as int),
        final(cfg).topic == old(cfg).topic,
        final(cfg).client_id_prefix == old(cfg).client_id_prefix,
        final(cfg).keep_alive_secs == old(cfg).keep_alive_secs,
{
    if let Some(b) = broker {
        cfg.broker = b;
    }
    cfg.port = parsed_or_exec(&port, 65535, cfg.port as u64) as u16;
}

/// The server port: the environment's value when set, else the configured
/// one; `None` when the environment's value is not a port number.
pub fn server_port_from_env(configured: u16, var: Option<String>) -> (r: Option<u16>)
    ensures
        var is None ==> r == Some(configured),
        var matches Some(t) ==> match parse_unsigned_spec(t@, 65535) {
            Some(v) => r == Some(v as u16),
            None => r is None,
        },
{
    match var {
        Some(t) => match parse_unsigned(t.as_str(), 65535) {
            Some(v) => Some(v as u16),
            None => None,
        },
        None => Some(configured),
    }
}

} // verus!
