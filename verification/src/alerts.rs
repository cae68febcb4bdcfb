//! Alerts on readings that leave their limits, and the record of the
//! alerts raised so far.
use vstd::prelude::*;

use crate::models::{AlertEvent, AlertLevel, AlertType, ClepsydraConfig, HydraulicMetrics, SensorData};
use crate::text::{micro_string, micro_text, str_eq};

verus! {

/// What an alert says, before it is given an id and a time: its type, its
/// level, its message, the reading and the limit.
pub type AlertDraft = (AlertType, AlertLevel, Seq<char>, int, int);

/// The alert on a water level above or below the vessel's range: critical
/// above it, a warning that names the vessel below it.
pub open spec fn water_level_draft(sensor: SensorData, config: ClepsydraConfig) -> Option<AlertDraft> {
    if sensor.water_level > config.max_level {
        Some(
            (
                AlertType::WaterLevelHigh,
                AlertLevel::Critical,
                "漏壶"@ + config.name@ + "水位过高: "@ + micro_text(sensor.water_level as int, 2)
                    + "cm > "@ + micro_text(config.max_level as int, 2) + "cm"@,
                sensor.water_level as int,
                config.max_level as int,
            ),
        )
    } else if sensor.water_level < config.min_level {
        Some(
            (
                AlertType::WaterLevelLow,
                AlertLevel::Warning,
                config.name@ + "水位低于下限"@,
                sensor.water_level as int,
                config.min_level as int,
            ),
        )
    } else {
        None
    }
}

/// The alert on an accumulated error beyond `threshold` either way; critical
/// beyond twice the threshold.
pub open spec fn daily_error_draft(metrics: HydraulicMetrics, threshold: int) -> Option<AlertDraft> {
    let e = metrics.daily_error_seconds as int;
    let magnitude = if e >= 0 {
        e
    } else {
        -e
    };
    if magnitude > threshold {
        Some(
            (
                AlertType::DailyErrorExceed,
                if magnitude > 2 * threshold {
                    AlertLevel::Critical
                } else {
                    AlertLevel::Warning
                },
                "漏壶"@ + metrics.clepsydra_id@ + "日误差超限: "@ + micro_text(e, 2) + "秒 > "@
                    + micro_text(threshold, 2) + "秒"@,
                e,
                threshold,
            ),
        )
    } else {
        None
    }
}

/// The alert on a water temperature below 0 °C or above 50 °C.
pub open spec fn temperature_draft(sensor: SensorData) -> Option<AlertDraft> {
    if sensor.water_temp < 0 || sensor.water_temp > 50_000_000 {
        Some(
            (
                AlertType::TempAbnormal,
                AlertLevel::Warning,
                "漏壶"@ + sensor.clepsydra_id@ + "水温异常: "@ + micro_text(sensor.water_temp as int, 2)
                    + "°C"@,
                sensor.water_temp as int,
                50_000_000,
            ),
        )
    } else {
        None
    }
}

/// `a` is the unresolved alert `draft` on vessel `device`.
pub open spec fn alert_says(a: AlertEvent, device: Seq<char>, draft: AlertDraft) -> bool {
    &&& a.clepsydra_id@ == device
    &&& a.alert_type == draft.0
    &&& a.alert_level == draft.1
    &&& a.message@ == draft.2
    &&& a.value == draft.3
    &&& a.threshold == draft.4
    &&& !a.resolved
}

/// Whether an alert is an unresolved one of vessel `device`.
pub open spec fn active_on(device: Seq<char>) -> spec_fn(AlertEvent) -> bool {
    |a: AlertEvent| a.clepsydra_id@ == device && !a.resolved
}

/// The unresolved alerts of vessel `device` in `log`, oldest first.
pub open spec fn active_of(log: Seq<AlertEvent>, device: Seq<char>) -> Seq<AlertEvent> {
    log.filter(active_on(device))
}

/// Index of the first alert in `log` with id `id`, at or after `from`; the
/// length of `log` if none.
pub open spec fn first_with_id(log: Seq<AlertEvent>, id: Seq<char>, from: int) -> int
    decreases log.len() - from,
{
    if from >= log.len() {
        log.len() as int
    } else if log[from].id@ == id {
        from
    } else {
        first_with_id(log, id, from + 1)
    }
}

/// `uuid::Uuid::new_v4`, rendered by `to_string`: a random version-4 UUID in
/// its hyphenated form, which is 36 characters long. Which UUID comes back
/// is left open; the call panics only when the system cannot supply random
/// bytes.
#[verifier::external_body]
fn new_alert_id() -> (r: String)
    ensures
        r@.len() == 36,
{
    uuid::Uuid::new_v4().to_string()
}

/// `chrono::Utc::now`, read by `timestamp_millis`: the current time in
/// milliseconds since the Unix epoch, which `now` never places before the
/// epoch (it panics on a system clock set earlier). Which time comes back is
/// left open.
#[verifier::external_body]
fn now_millis() -> (r: i64)
    ensures
        r >= 0,
{
    chrono::Utc::now().timestamp_millis()
}

/// A copy of the alert `a`.
fn copy_alert(a: &AlertEvent) -> (r: AlertEvent)
    ensures
        r == *a,
{
    AlertEvent {
        id: a.id.clone(),
        timestamp_ms: a.timestamp_ms,
        clepsydra_id: a.clepsydra_id.clone(),
        alert_type: a.alert_type,
        alert_level: a.alert_level,
        message: a.message.clone(),
        value: a.value,
        threshold: a.threshold,
        resolved: a.resolved,
    }
}

/// Raises alerts and keeps every alert raised, in order.
pub struct AlertManager {
    active_alerts: Vec<AlertEvent>,
    daily_error_threshold: i64,
}

impl AlertManager {
    /// Every alert raised so far, oldest first.
    pub closed spec fn log(&self) -> Seq<AlertEvent> {
        self.active_alerts@
    }

    /// The accumulated error beyond which an alert is raised (s, millionths).
    pub closed spec fn threshold(&self) -> int {
        self.daily_error_threshold as int
    }

    /// No alerts yet; alerts on accumulated errors beyond
    /// `daily_error_threshold_seconds` (millionths of a second).
    pub fn new(daily_error_threshold_seconds: i64) -> (r: Self)
        ensures
            r.log() == Seq::<AlertEvent>::empty(),
            r.threshold() == daily_error_threshold_seconds,
    {
        AlertManager { active_alerts: Vec::new(), daily_error_threshold: daily_error_threshold_seconds }
    }

    fn raise(
        &mut self,
        id: String,
        timestamp_ms: i64,
        device: &String,
        alert_type: AlertType,
        alert_level: AlertLevel,
        message: String,
        value: i64,
        threshold: i64,
    ) -> (r: AlertEvent)
        ensures
            r.id == id,
            r.timestamp_ms == timestamp_ms,
            alert_says(r, device@, (alert_type, alert_level, message@, value as int, threshold as int)),
            final(self).log() == old(self).log().push(r),
            final(self).threshold() == old(self).threshold(),
    {
        let alert = AlertEvent {
            id,
            timestamp_ms,
            clepsydra_id: device.clone(),
            alert_type,
            alert_level,
            message,
            value,
            threshold,
            resolved: false,
        };
        let copy = copy_alert(&alert);
        self.active_alerts.push(alert);
        copy
    }

    /// Raises, with id `id` at time `timestamp_ms`, the alert on a water
    /// level outside the vessel's range, if there is one.
    pub fn check_water_level_at(
        &mut self,
        sensor: &SensorData,
        config: &ClepsydraConfig,
        id: String,
        timestamp_ms: i64,
    ) -> (r: Option<AlertEvent>)
        ensures
            r is Some <==> water_level_draft(*sensor, *config) is Some,
            r matches Some(a) ==> {
                &&& a.id == id
                &&& a.timestamp_ms == timestamp_ms
                &&& alert_says(a, sensor.clepsydra_id@, water_level_draft(*sensor, *config)->0)
                &&& final(self).log() == old(self).log().push(a)
            },
            r is None ==> final(self).log() == old(self).log(),
            final(self).threshold() == old(self).threshold(),
    {
        if sensor.water_level > config.max_level {
            let mut t = String::from_str("漏壶");
            t.append(config.name.as_str());
            t.append("水位过高: ");
            let a = micro_string(sensor.water_level, 2);
            t.append(a.as_str());
            t.append("cm > ");
            let b = micro_string(config.max_level, 2);
            t.append(b.as_str());
            t.append("cm");
            Some(
                self.raise(
                    id,
                    timestamp_ms,
                    &sensor.clepsydra_id,
                    AlertType::WaterLevelHigh,
                    AlertLevel::Critical,
                    t,
                    sensor.water_level,
                    config.max_level,
                ),
            )
        } else if sensor.water_level < config.min_level {
            let mut t = config.name.clone();
            t.append("水位低于下限");
            Some(
                self.raise(
                    id,
                    timestamp_ms,
                    &sensor.clepsydra_id,
                    AlertType::WaterLevelLow,
                    AlertLevel::Warning,
                    t,
                    sensor.water_level,
                    config.min_level,
                ),
            )
        } else {
            None
        }
    }

    /// Raises the alert on a water level outside the vessel's range, if
    /// there is one, with a fresh id and the current time.
    pub fn check_water_level(&mut self, sensor: &SensorData, config: &ClepsydraConfig) -> (r:
        Option<AlertEvent>)
        ensures
            r is Some <==> water_level_draft(*sensor, *config) is Some,
            r matches Some(a) ==> {
                &&& a.id@.len() == 36
                &&& a.timestamp_ms >= 0
                &&& alert_says(a, sensor.clepsydra_id@, water_level_draft(*sensor, *config)->0)
                &&& final(self).log() == old(self).log().push(a)
            },
            r is None ==> final(self).log() == old(self).log(),
            final(self).threshold() == old(self).threshold(),
    {
        if sensor.water_level > config.max_level || sensor.water_level < config.min_level {
            let id = new_alert_id();
            let now = now_millis();
            self.check_water_level_at(sensor, config, id, now)
        } else {
            None
        }
    }

    /// Raises, with id `id` at time `timestamp_ms`, the alert on an
    /// accumulated error beyond the threshold, if there is one.
    pub fn check_daily_error_at(&mut self, metrics: &HydraulicMetrics, id: String, timestamp_ms: i64) -> (r:
        Option<AlertEvent>)
        ensures
            r is Some <==> daily_error_draft(*metrics, old(self).threshold()) is Some,
            r matches Some(a) ==> {
                &&& a.id == id
                &&& a.timestamp_ms == timestamp_ms
                &&& alert_says(
                    a,
                    metrics.clepsydra_id@,
                    daily_error_draft(*metrics, old(self).threshold())->0,
                )
                &&& final(self).log() == old(self).log().push(a)
            },
            r is None ==> final(self).log() == old(self).log(),
            final(self).threshold() == old(self).threshold(),
    {
        let e = metrics.daily_error_seconds as i128;
        let magnitude = if e >= 0 {
            e
        } else {
            -e
        };
        let threshold = self.daily_error_threshold;
        if magnitude > threshold as i128 {
            let level = if magnitude > 2 * threshold as i128 {
                AlertLevel::Critical
            } else {
                AlertLevel::Warning
            };
            let mut t = String::from_str("漏壶");
            t.append(metrics.clepsydra_id.as_str());
            t.append("日误差超限: ");
            let a = micro_string(metrics.daily_error_seconds, 2);
            t.append(a.as_str());
            t.append("秒 > ");
            let b = micro_string(threshold, 2);
            t.append(b.as_str());
            t.append("秒");
            Some(
                self.raise(
                    id,
                    timestamp_ms,
                    &metrics.clepsydra_id,
                    AlertType::DailyErrorExceed,
                    level,
                    t,
                    metrics.daily_error_seconds,
                    threshold,
                ),
            )
        } else {
            None
        }
    }

    /// Raises the alert on an accumulated error beyond the threshold, if
    /// there is one, with a fresh id and the current time.
    pub fn check_daily_error(&mut self, metrics: &HydraulicMetrics) -> (r: Option<AlertEvent>)
        ensures
            r is Some <==> daily_error_draft(*metrics, old(self).threshold()) is Some,
            r matches Some(a) ==> {
                &&& a.id@.len() == 36
                &&& a.timestamp_ms >= 0
                &&& alert_says(
                    a,
                    metrics.clepsydra_id@,
                    daily_error_draft(*metrics, old(self).threshold())->0,
                )
                &&& final(self).log() == old(self).log().push(a)
            },
            r is None ==> final(self).log() == old(self).log(),
            final(self).threshold() == old(self).threshold(),
    {
        let e = metrics.daily_error_seconds as i128;
        let magnitude = if e >= 0 {
            e
        } else {
            -e
        };
        if magnitude > self.daily_error_threshold as i128 {
            let id = new_alert_id();
            let now = now_millis();
            self.check_daily_error_at(metrics, id, now)
        } else {
            None
        }
    }

    /// Raises, with id `id` at time `timestamp_ms`, the alert on an abnormal
    /// water temperature, if there is one.
    pub fn check_temperature_at(&mut self, sensor: &SensorData, id: String, timestamp_ms: i64) -> (r:
        Option<AlertEvent>)
        ensures
            r is Some <==> temperature_draft(*sensor) is Some,
            r matches Some(a) ==> {
                &&& a.id == id
                &&& a.timestamp_ms == timestamp_ms
                &&& alert_says(a, sensor.clepsydra_id@, temperature_draft(*sensor)->0)
                &&& final(self).log() == old(self).log().push(a)
            },
            r is None ==> final(self).log() == old(self).log(),
            final(self).threshold() == old(self).threshold(),
    {
        if sensor.water_temp < 0 || sensor.water_temp > 50_000_000 {
            let mut t = String::from_str("漏壶");
            t.append(sensor.clepsydra_id.as_str());
            t.append("水温异常: ");
            let a = micro_string(sensor.water_temp, 2);
            t.append(a.as_str());
            t.append("°C");
            Some(
                self.raise(
                    id,
                    timestamp_ms,
                    &sensor.clepsydra_id,
                    AlertType::TempAbnormal,
                    AlertLevel::Warning,
                    t,
                    sensor.water_temp,
                    50_000_000,
                ),
            )
        } else {
            None
        }
    }

    /// Raises the alert on an abnormal water temperature, if there is one,
    /// with a fresh id and the current time.
    pub fn check_temperature(&mut self, sensor: &SensorData) -> (r: Option<AlertEvent>)
        ensures
            r is Some <==> temperature_draft(*sensor) is Some,
            r matches Some(a) ==> {
                &&& a.id@.len() == 36
                &&& a.timestamp_ms >= 0
                &&& alert_says(a, sensor.clepsydra_id@, temperature_draft(*sensor)->0)
                &&& final(self).log() == old(self).log().push(a)
            },
            r is None ==> final(self).log() == old(self).log(),
            final(self).threshold() == old(self).threshold(),
    {
        if sensor.water_temp < 0 || sensor.water_temp > 50_000_000 {
            let id = new_alert_id();
            let now = now_millis();
            self.check_temperature_at(sensor, id, now)
        } else {
            None
        }
    }
    /// The unresolved alerts of vessel `clepsydra_id`, oldest first.
    pub fn get_active_alerts(&self, clepsydra_id: &str) -> (r: Vec<AlertEvent>)
        ensures
            r@ == active_of(self.log(), clepsydra_id@),
    {
        let ghost pred = active_on(clepsydra_id@);
        let mut r: Vec<AlertEvent> = Vec::new();
        let n = self.active_alerts.len();
        let mut i: usize = 0;
        assert(self.active_alerts@.take(0).filter(pred) =~= Seq::<AlertEvent>::empty()) by {
            reveal(Seq::filter);
        }
        while i < n
            invariant
                n == self.active_alerts@.len(),
                0 <= i <= n,
                pred == active_on(clepsydra_id@),
                r@ == self.active_alerts@.take(i as int).filter(pred),
            decreases n - i,
        {
            let a = &self.active_alerts[i];
            proof {
                assert(self.active_alerts@.take(i + 1) =~= self.active_alerts@.take(i as int).push(
                    *a,
                ));
                self.active_alerts@.take(i as int).lemma_filter_push(*a, pred);
            }
            if !a.resolved && str_eq(a.clepsydra_id.as_str(), clepsydra_id) {
                r.push(copy_alert(a));
            }
            i = i + 1;
        }
        assert(self.active_alerts@.take(n as int) =~= self.active_alerts@);
        r
    }

    /// Marks the first alert with id `alert_id` resolved; whether there was one.
    pub fn resolve_alert(&mut self, alert_id: &str) -> (r: bool)
        ensures
            r <==> first_with_id(old(self).log(), alert_id@, 0) < old(self).log().len(),
            r ==> final(self).log() == old(self).log().update(
                first_with_id(old(self).log(), alert_id@, 0),
                AlertEvent {
                    resolved: true,
                    ..old(self).log()[first_with_id(old(self).log(), alert_id@, 0)]
                },
            ),
            !r ==> final(self).log() == old(self).log(),
            final(self).threshold() == old(self).threshold(),
    {
        let n = self.active_alerts.len();
        let mut i: usize = 0;
        while i < n
            invariant
                n == self.active_alerts@.len(),
                self.active_alerts@ == old(self).active_alerts@,
                self.daily_error_threshold == old(self).daily_error_threshold,
                0 <= i <= n,
                first_with_id(self.active_alerts@, alert_id@, 0) == first_with_id(
                    self.active_alerts@,
                    alert_id@,
                    i as int,
                ),
            decreases n - i,
        {
            if str_eq(self.active_alerts[i].id.as_str(), alert_id) {
                let mut alerts: Vec<AlertEvent> = Vec::new();
                std::mem::swap(&mut alerts, &mut self.active_alerts);
                let mut found = alerts.remove(i);
                found.resolved = true;
                alerts.insert(i, found);
                assert(alerts@ =~= old(self).active_alerts@.update(
                    i as int,
                    AlertEvent { resolved: true, ..old(self).active_alerts@[i as int] },
                ));
                self.active_alerts = alerts;
                return true;
            }
            i = i + 1;
        }
        false
    }
}

/// An alert just raised on vessel `device` joins the end of its active
/// alerts; the other vessels' active alerts are unchanged.
pub proof fn law_raised_alert_is_active(log: Seq<AlertEvent>, a: AlertEvent, device: Seq<char>, other: Seq<char>)
    requires
        !a.resolved,
        a.clepsydra_id@ == device,
        other != device,
    ensures
        active_of(log.push(a), device) == active_of(log, device).push(a),
        active_of(log.push(a), other) == active_of(log, other),
{
    log.lemma_filter_push(a, active_on(device));
    log.lemma_filter_push(a, active_on(other));
}

/// Resolving the `k`-th alert leaves every vessel's active alerts as if that
/// alert had never been raised.
pub proof fn law_resolving_withdraws_the_alert(log: Seq<AlertEvent>, k: int, device: Seq<char>)
    requires
        0 <= k < log.len(),
    ensures
        active_of(log.update(k, AlertEvent { resolved: true, ..log[k] }), device) == active_of(
            log.remove(k),
            device,
        ),
{
    let pred = active_on(device);
    let r = AlertEvent { resolved: true, ..log[k] };
    let head = log.take(k);
    let tail = log.skip(k + 1);
    assert(log.update(k, r) =~= head + seq![r] + tail);
    assert(log.remove(k) =~= head + tail);
    Seq::filter_distributes_over_add(head + seq![r], tail, pred);
    Seq::filter_distributes_over_add(head, seq![r], pred);
    Seq::filter_distributes_over_add(head, tail, pred);
    assert(seq![r].filter(pred) =~= Seq::<AlertEvent>::empty()) by {
        assert(Seq::<AlertEvent>::empty().filter(pred) =~= Seq::<AlertEvent>::empty()) by {
            reveal(Seq::filter);
        }
        assert(seq![r] =~= Seq::<AlertEvent>::empty().push(r));
        Seq::<AlertEvent>::empty().lemma_filter_push(r, pred);
    }
    assert(head + Seq::<AlertEvent>::empty() =~= head);
    assert(head.filter(pred) + Seq::<AlertEvent>::empty() =~= head.filter(pred));
}

} // verus!
