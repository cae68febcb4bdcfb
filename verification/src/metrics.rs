//! Prometheus counters of the ingestion pipeline.
use vstd::prelude::*;
use vstd::multiset::Multiset;

verus! {

#[verifier::external_type_specification]
#[verifier::external_body]
pub struct ExPrometheusError(prometheus::Error);

#[verifier::external_type_specification]
#[verifier::external_body]
pub struct ExRegistry(prometheus::Registry);

/// A family of counters told apart by label values: a prometheus
/// `CounterVec` of its own, which nothing else in the library shares.
#[verifier::external_body]
pub struct LabeledCounters {
    inner: prometheus::CounterVec,
}

/// The metric name that `c` was made with.
pub uninterp spec fn family_name(c: LabeledCounters) -> Seq<char>;

/// The label names that `c` was made with; each increment carries one value
/// per name, in this order.
pub uninterp spec fn label_names(c: LabeledCounters) -> Seq<Seq<char>>;

/// The increments counted by `c`: one entry, the label values, per
/// increment. Prometheus keeps one float counter per child of the family
/// and finds the child by an FNV hash of the label values' bytes, joined
/// without a separator; the counter it exports for values `v` is the number
/// of entries whose bytes hash as those of `v` (exact below 2^53).
pub uninterp spec fn increments(c: LabeledCounters) -> Multiset<Seq<Seq<char>>>;

/// Label values as text.
pub open spec fn label_views(values: Seq<&str>) -> Seq<Seq<char>> {
    values.map_values(|v: &str| v@)
}

/// `c` is an ASCII letter or `_`, or, where `colon` holds, `:`.
pub open spec fn name_char(c: char, colon: bool) -> bool {
    let n = c as int;
    (65 <= n <= 90) || (97 <= n <= 122) || n == 95 || (colon && n == 58)
}

/// `s` is a prometheus identifier: a name character, then name characters
/// and ASCII digits. Metric names admit `:`, label names do not.
pub open spec fn is_identifier(s: Seq<char>, colon: bool) -> bool {
    &&& s.len() > 0
    &&& name_char(s[0], colon)
    &&& forall|i: int| 1 <= i < s.len() ==> name_char(s[i], colon) || (48 <= (s[i] as int) <= 57)
}

/// The checks that prometheus makes of a new counter family: a non-empty
/// help text, a valid metric name, and valid, distinct label names.
pub open spec fn family_accepted(name: Seq<char>, help: Seq<char>, labels: Seq<Seq<char>>) -> bool {
    &&& help.len() > 0
    &&& is_identifier(name, true)
    &&& forall|i: int| 0 <= i < labels.len() ==> is_identifier(#[trigger] labels[i], false)
    &&& labels.no_duplicates()
}

/// `prometheus::CounterVec::new` with `Opts::new(name, help)`. Its
/// descriptor (`Desc::new`) refuses an empty help text, an invalid metric
/// name, and an invalid or repeated label name, and nothing else; a new
/// family takes one label value per label name and has counted nothing.
#[verifier::external_body]
fn new_labeled_counters(name: &str, help: &str, labels: &[&str]) -> (r: Result<
    LabeledCounters,
    prometheus::Error,
>)
    ensures
        r is Ok <==> family_accepted(name@, help@, label_views(labels@)),
        r matches Ok(c) ==> {
            &&& family_name(c) == name@
            &&& label_names(c) == label_views(labels@)
            &&& increments(c) =~= Multiset::empty()
        },
{
    match prometheus::CounterVec::new(prometheus::Opts::new(name, help), labels) {
        Ok(inner) => Ok(LabeledCounters { inner }),
        Err(e) => Err(e),
    }
}

/// `CounterVec::with_label_values(values).inc()`: adds one to the counter
/// of `values`. The source panics only when the number of values differs
/// from the family's label count, which the precondition rules out.
#[verifier::external_body]
fn inc_labeled_counter(c: &mut LabeledCounters, values: &[&str])
    requires
        values@.len() == label_names(*old(c)).len(),
    ensures
        family_name(*final(c)) == family_name(*old(c)),
        label_names(*final(c)) == label_names(*old(c)),
        increments(*final(c)) == increments(*old(c)).insert(label_views(values@)),
{
    c.inner.with_label_values(values).inc();
}

/// `Registry::register` of a clone of the family; the registry decides
/// (duplicate names are refused), so nothing is promised of the result.
#[verifier::external_body]
fn register_labeled_counters(c: &LabeledCounters, registry: &prometheus::Registry) -> (r: Result<
    (),
    prometheus::Error,
>) {
    registry.register(Box::new(c.inner.clone()))
}

/// A counter family could not be made or registered.
#[derive(Debug, Clone, Copy, PartialEq, Eq)]
pub enum MetricsError {
    Rejected,
}

/// The pipeline's counters: sensor readings received (by vessel),
/// validation failures (by kind) and alerts (by type and level).
pub struct ClepsydraMetrics {
    pub sensor_received: LabeledCounters,
    pub validation_errors: LabeledCounters,
    pub alerts: LabeledCounters,
}

impl ClepsydraMetrics {
    /// The three families, by name and labels.
    pub open spec fn wf(&self) -> bool {
        &&& family_name(self.sensor_received) == "clepsydra_sensor_received_total"@
        &&& label_names(self.sensor_received) == seq!["clepsydra_id"@]
        &&& family_name(self.validation_errors) == "clepsydra_validation_errors_total"@
        &&& label_names(self.validation_errors) == seq!["error_type"@]
        &&& family_name(self.alerts) == "clepsydra_alerts_total"@
        &&& label_names(self.alerts) == seq!["type"@, "level"@]
    }

    /// The readings counted as received, by vessel.
    pub open spec fn received(&self) -> Multiset<Seq<Seq<char>>> {
        increments(self.sensor_received)
    }

    /// The rejections counted, by kind.
    pub open spec fn rejected(&self) -> Multiset<Seq<Seq<char>>> {
        increments(self.validation_errors)
    }

    /// The alerts counted, by type and level.
    pub open spec fn alerted(&self) -> Multiset<Seq<Seq<char>>> {
        increments(self.alerts)
    }

    /// Makes the three counter families (see `wf`), all at zero.
    pub fn new() -> (r: Result<ClepsydraMetrics, MetricsError>)
        ensures
            r is Ok,
            r matches Ok(m) ==> {
                &&& m.wf()
                &&& m.received() =~= Multiset::empty()
                &&& m.rejected() =~= Multiset::empty()
                &&& m.alerted() =~= Multiset::empty()
            },
    {
        let sensor_labels: [&str; 1] = ["clepsydra_id"];
        let error_labels: [&str; 1] = ["error_type"];
        let alert_labels: [&str; 2] = ["type", "level"];
        proof {
            reveal_strlit("clepsydra_sensor_received_total");
            reveal_strlit("Total number of sensor data points received");
            reveal_strlit("clepsydra_id");
            reveal_strlit("clepsydra_validation_errors_total");
            reveal_strlit("Total number of sensor validation errors");
            reveal_strlit("error_type");
            reveal_strlit("clepsydra_alerts_total");
            reveal_strlit("Total number of alerts triggered");
            reveal_strlit("type");
            reveal_strlit("level");
        }
        assert(label_views(sensor_labels@) =~= seq!["clepsydra_id"@]);
        assert(label_views(error_labels@) =~= seq!["error_type"@]);
        assert(label_views(alert_labels@) =~= seq!["type"@, "level"@]);
        assert(label_views(alert_labels@).no_duplicates()) by {
            assert("type"@ != "level"@) by {
                assert("type"@.len() != "level"@.len());
            }
        }
        let sensor_received = match new_labeled_counters(
            "clepsydra_sensor_received_total",
            "Total number of sensor data points received",
            &sensor_labels,
        ) {
            Ok(c) => c,
            Err(_) => {
                return Err(MetricsError::Rejected);
            },
        };
        let validation_errors = match new_labeled_counters(
            "clepsydra_validation_errors_total",
            "Total number of sensor validation errors",
            &error_labels,
        ) {
            Ok(c) => c,
            Err(_) => {
                return Err(MetricsError::Rejected);
            },
        };
        let alerts = match new_labeled_counters(
            "clepsydra_alerts_total",
            "Total number of alerts triggered",
            &alert_labels,
        ) {
            Ok(c) => c,
            Err(_) => {
                return Err(MetricsError::Rejected);
            },
        };
        Ok(ClepsydraMetrics { sensor_received, validation_errors, alerts })
    }
    /// Registers each of the three families with `registry`, going on past
    /// a refusal; fails when the registry refused any of them.
    pub fn register(&self, registry: &prometheus::Registry) -> (r: Result<(), MetricsError>) {
        let received = register_labeled_counters(&self.sensor_received, registry);
        let rejected = register_labeled_counters(&self.validation_errors, registry);
        let alerted = register_labeled_counters(&self.alerts, registry);
        if received.is_err() || rejected.is_err() || alerted.is_err() {
            Err(MetricsError::Rejected)
        } else {
            Ok(())
        }
    }
}

/// Counts one accepted reading of vessel `id`.
pub fn record_sensor_received(metrics: &mut ClepsydraMetrics, id: &str)
    requires
        old(metrics).wf(),
    ensures
        final(metrics).wf(),
        final(metrics).received() == old(metrics).received().insert(seq![id@]),
        final(metrics).rejected() == old(metrics).rejected(),
        final(metrics).alerted() == old(metrics).alerted(),
{
    let values: [&str; 1] = [id];
    inc_labeled_counter(&mut metrics.sensor_received, &values);
    assert(label_views(values@) =~= seq![id@]);
}

/// Counts one rejected reading by its kind of failure `err_type`; the
/// family is labelled by kind alone, so the vessel `id` is not recorded.
pub fn record_validation_error(metrics: &mut ClepsydraMetrics, id: &str, err_type: &str)
    requires
        old(metrics).wf(),
    ensures
        final(metrics).wf(),
        final(metrics).rejected() == old(metrics).rejected().insert(seq![err_type@]),
        final(metrics).received() == old(metrics).received(),
        final(metrics).alerted() == old(metrics).alerted(),
{
    let values: [&str; 1] = [err_type];
    inc_labeled_counter(&mut metrics.validation_errors, &values);
    assert(label_views(values@) =~= seq![err_type@]);
}

/// Counts one alert by its type and level; the family is labelled by those
/// alone, so the vessel `id` is not recorded.
pub fn inc_alert(metrics: &mut ClepsydraMetrics, id: &str, alert_type: &str, level: &str)
    requires
        old(metrics).wf(),
    ensures
        final(metrics).wf(),
        final(metrics).alerted() == old(metrics).alerted().insert(seq![alert_type@, level@]),
        final(metrics).received() == old(metrics).received(),
        final(metrics).rejected() == old(metrics).rejected(),
{
    let values: [&str; 2] = [alert_type, level];
    inc_labeled_counter(&mut metrics.alerts, &values);
    assert(label_views(values@) =~= seq![alert_type@, level@]);
}

} // verus!
