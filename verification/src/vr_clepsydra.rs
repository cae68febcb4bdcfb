//! A simulated operation of one vessel: the level is steered towards a
//! target while the outflow and the accumulated timing error are tracked.
use vstd::prelude::*;

use crate::era_precision_comparator::copy_config;
use crate::fixed::{
    div_round, fits_i64, floor_sqrt, isqrt, lemma_floor_sqrt_exists, lemma_mul_bound, lemma_rdiv_bound, lemma_rdiv_exact,
    lemma_rdiv_monotone, narrow, quotient_micro, quotient_micro_exec,
    quotient_micro_exec_wide, rdiv,
};
use crate::models::{ClepsydraConfig, VirtualOperationRequest, VirtualOperationResult};
use crate::text::{magnitude_string, micro_string, micro_text, nat_text, push_nat, str_eq};

verus! {

/// Why a simulated operation could not run.
#[derive(Debug, Clone, Copy, PartialEq, Eq)]
pub enum VirtualOperationError {
    /// No vessel has the requested id.
    UnknownClepsydra,
    /// A value left the fixed-point range (or had no real value).
    OutOfRange,
}

/// Index of the last of the first `k` vessels with id `id`; -1 if none.
pub open spec fn last_with_id(configs: Seq<ClepsydraConfig>, id: Seq<char>, k: nat) -> int
    decreases k,
{
    if k == 0 {
        -1
    } else if configs[k - 1].clepsydra_id@ == id {
        k - 1
    } else {
        last_with_id(configs, id, (k - 1) as nat)
    }
}

/// `v` kept within `lo..=hi`.
pub open spec fn clamp_spec(v: int, lo: int, hi: int) -> int {
    if v < lo {
        lo
    } else if v > hi {
        hi
    } else {
        v
    }
}

/// How a simulated operation steers its level and reports on itself.
#[derive(Debug, Clone, Copy, PartialEq, Eq)]
pub enum SimulationProfile {
    /// Moves by 0.2 cm plus 8% of the distance per second, resting within
    /// 0.05 cm of the target; remarks on the water temperature, and says the
    /// run was calm when nothing else is worth a remark.
    Adaptive,
    /// Moves by at most 0.5 cm per second, resting within 0.1 cm of the
    /// target; remarks on the error gained or lost over the run.
    Steady,
}

/// The settled inputs of a simulated operation.
#[derive(Debug, Clone)]
pub struct VirtualOperationPlan {
    pub clepsydra_id: String,
    pub config: ClepsydraConfig,
    /// Level to steer towards, within the vessel's range (cm, millionths).
    pub target_level_cm: i64,
    /// Water temperature, within 0..=50 °C (millionths).
    pub water_temp_c: i64,
    /// Simulated seconds, within 10..=86400.
    pub simulate_seconds: u32,
    /// Starting level: the middle of the vessel's range (cm, millionths).
    pub initial_level_cm: i64,
    pub profile: SimulationProfile,
}

impl VirtualOperationPlan {
    /// The plan's values lie in the ranges its fields promise.
    pub open spec fn wf(&self) -> bool {
        &&& self.config.min_level <= self.config.max_level
        &&& self.config.min_level <= self.target_level_cm <= self.config.max_level
        &&& self.config.min_level <= self.initial_level_cm <= self.config.max_level
        &&& 10 <= self.simulate_seconds <= 86400
        &&& 0 <= self.water_temp_c <= 50_000_000
    }
}

/// The plan for request `req` on the vessels `configs`, when one has its
/// id: the target clamped to the vessel's range, the temperature (20 °C
/// when absent) to 0..=50 °C, the duration to 10..=86400 s, starting from
/// the middle of the range.
pub open spec fn planned(
    configs: Seq<ClepsydraConfig>,
    req: VirtualOperationRequest,
    profile: SimulationProfile,
) -> VirtualOperationPlan {
    let c = configs[last_with_id(configs, req.clepsydra_id@, configs.len())];
    VirtualOperationPlan {
        clepsydra_id: req.clepsydra_id,
        config: c,
        target_level_cm: clamp_spec(
            req.target_water_level_cm as int,
            c.min_level as int,
            c.max_level as int,
        ) as i64,
        water_temp_c: clamp_spec(
            match req.water_temp_c {
                Some(t) => t as int,
                None => 20_000_000,
            },
            0,
            50_000_000,
        ) as i64,
        simulate_seconds: if req.simulate_seconds < 10 {
            10
        } else if req.simulate_seconds > 86400 {
            86400
        } else {
            req.simulate_seconds
        },
        initial_level_cm: rdiv(c.min_level + c.max_level, 2) as i64,
        profile,
    }
}

/// Looks up the vessel of the request (the last one with its id) and
/// settles the inputs: the target is clamped to the vessel's range, the
/// temperature (20 °C when absent) to 0..=50 °C, the duration to
/// 10..=86400 s, and the start is the middle of the range.
pub fn prepare_virtual_operation(
    configs: &[ClepsydraConfig],
    req: &VirtualOperationRequest,
    profile: SimulationProfile,
) -> (r: Result<VirtualOperationPlan, VirtualOperationError>)
    requires
        last_with_id(configs@, req.clepsydra_id@, configs@.len()) >= 0 ==> configs@[last_with_id(
            configs@,
            req.clepsydra_id@,
            configs@.len(),
        )].min_level <= configs@[last_with_id(
            configs@,
            req.clepsydra_id@,
            configs@.len(),
        )].max_level,
    ensures
        r is Err <==> last_with_id(configs@, req.clepsydra_id@, configs@.len()) < 0,
        r matches Err(e) ==> e == VirtualOperationError::UnknownClepsydra,
        r matches Ok(p) ==> p == planned(configs@, *req, profile) && p.wf(),
{
    let n = configs.len();
    let mut found: Option<usize> = None;
    let mut i: usize = 0;
    while i < n
        invariant
            n == configs@.len(),
            0 <= i <= n,
            match found {
                None => last_with_id(configs@, req.clepsydra_id@, i as nat) == -1,
                Some(j) => j < i && j == last_with_id(configs@, req.clepsydra_id@, i as nat),
            },
        decreases n - i,
    {
        if str_eq(configs[i].clepsydra_id.as_str(), req.clepsydra_id.as_str()) {
            found = Some(i);
        }
        i = i + 1;
    }
    let idx = match found {
        None => {
            return Err(VirtualOperationError::UnknownClepsydra);
        },
        Some(j) => j,
    };
    let cfg = copy_config(&configs[idx]);
    let lo = cfg.min_level;
    let hi = cfg.max_level;
    let t = req.target_water_level_cm;
    let target = if t < lo {
        lo
    } else if t > hi {
        hi
    } else {
        t
    };
    let w = match req.water_temp_c {
        Some(v) => v,
        None => 20_000_000,
    };
    let water_temp = if w < 0 {
        0
    } else if w > 50_000_000 {
        50_000_000
    } else {
        w
    };
    let s = req.simulate_seconds;
    let secs = if s < 10 {
        10
    } else if s > 86400 {
        86400
    } else {
        s
    };
    proof {
        lemma_rdiv_bound(lo + hi, 2);
        let q = rdiv(lo + hi, 2);
        assert(q == (2 * (lo + hi) + 2) / 4);
        assert(lo <= q <= hi);
    }
    let initial = div_round(lo as i128 + hi as i128, 2) as i64;
    Ok(
        VirtualOperationPlan {
            clepsydra_id: req.clepsydra_id.clone(),
            config: cfg,
            target_level_cm: target,
            water_temp_c: water_temp,
            simulate_seconds: secs,
            initial_level_cm: initial,
            profile,
        },
    )
}

/// How close to the target the level comes to rest (cm, millionths).
pub open spec fn dead_band(profile: SimulationProfile) -> int {
    match profile {
        SimulationProfile::Adaptive => 50_000,
        SimulationProfile::Steady => 100_000,
    }
}

/// The most the level moves in one second when `remaining` cm away from
/// the target (millionths).
pub open spec fn step_size(profile: SimulationProfile, remaining: int) -> int {
    match profile {
        SimulationProfile::Adaptive => 200_000 + rdiv(remaining * 8, 100),
        SimulationProfile::Steady => 500_000,
    }
}

/// The level after one second: moved towards the target by at most the
/// step size (never past it) when outside the dead band, then kept within
/// the vessel's range.
pub open spec fn step_level(
    level: int,
    target: int,
    lo: int,
    hi: int,
    profile: SimulationProfile,
) -> int {
    let remaining = if target >= level {
        target - level
    } else {
        level - target
    };
    let moved = if remaining > dead_band(profile) {
        let step = step_size(profile, remaining);
        let change = if remaining < step {
            remaining
        } else {
            step
        };
        if target > level {
            level + change
        } else {
            level - change
        }
    } else {
        level
    };
    clamp_spec(moved, lo, hi)
}

/// Theoretical outflow at `level`: `scale * sqrt(level)` (millionths);
/// `None` below zero, where the square root has no real value.
pub open spec fn flow_at(level: int, scale: int) -> Option<int> {
    if level >= 0 {
        Some(rdiv(scale * floor_sqrt(level * 1_000_000), 1_000_000))
    } else {
        None
    }
}

/// Outflow lost to the falling level, per second, times 100 (millionths),
/// by how full the vessel is.
pub open spec fn drop_x100(level: int, hi: int) -> int {
    if 10 * level > 9 * hi {
        200_000
    } else if 10 * level > 7 * hi {
        80_000
    } else if 2 * level > hi {
        30_000
    } else {
        100_000
    }
}

/// The outflow actually delivered: `flow * (1 - drop / max(flow, 0.01))`.
pub open spec fn actual_flow(flow: int, drop: int) -> int {
    if flow >= 10_000 {
        flow - drop
    } else {
        flow - rdiv(flow * drop, 10_000)
    }
}

/// Relative flow error in percent (millionths); zero without a theoretical flow.
pub open spec fn error_percent(theoretical: int, actual: int) -> int {
    if theoretical == 0 {
        0
    } else {
        quotient_micro((actual - theoretical) * 100, theoretical)->0
    }
}

pub open spec fn sample_interval(p: VirtualOperationPlan) -> int {
    let per = (p.simulate_seconds / 50) as int;
    if per >= 1 {
        per
    } else {
        1
    }
}

/// One simulated second from `level` with accumulated error `cumulative`:
/// the new level, the new accumulated error and the delivered outflow;
/// `None` when a value is not representable.
pub open spec fn step_spec(
    p: VirtualOperationPlan,
    scale: int,
    evaporation: int,
    level: int,
    cumulative: int,
) -> Option<(int, int, int)> {
    let next = step_level(
        level,
        p.target_level_cm as int,
        p.config.min_level as int,
        p.config.max_level as int,
        p.profile,
    );
    match flow_at(next, scale) {
        None => None,
        Some(flow) => {
            let delivered = actual_flow(flow, drop_x100(next, p.config.max_level as int));
            let pct = error_percent(flow, delivered - evaporation);
            let total = cumulative + rdiv(pct, 100);
            if fits_i64(flow) && fits_i64(delivered) && fits_i64(pct) && fits_i64(total) {
                Some((next, total, delivered))
            } else {
                None
            }
        },
    }
}

/// Whether the second that starts at `step` is sampled.
pub open spec fn sampled(p: VirtualOperationPlan, step: int) -> bool {
    step % sample_interval(p) == 0 || step == p.simulate_seconds - 1
}

/// The state after `k` simulated seconds: level, accumulated error, and the
/// samples taken so far as (time, level, error, delivered flow, never below
/// zero); `None` when a value is not representable.
pub open spec fn run_spec(p: VirtualOperationPlan, scale: int, evaporation: int, k: nat) -> Option<
    (int, int, Seq<(int, int, int, int)>),
>
    decreases k,
{
    if k == 0 {
        Some((p.initial_level_cm as int, 0, Seq::empty()))
    } else {
        match run_spec(p, scale, evaporation, (k - 1) as nat) {
            None => None,
            Some(state) => match step_spec(p, scale, evaporation, state.0, state.1) {
                None => None,
                Some(st) => Some(
                    (
                        st.0,
                        st.1,
                        if sampled(p, k - 1) {
                            state.2.push(
                                (
                                    (k as int) * 1_000_000,
                                    st.0,
                                    st.1,
                                    if st.2 > 0 {
                                        st.2
                                    } else {
                                        0
                                    },
                                ),
                            )
                        } else {
                            state.2
                        },
                    ),
                ),
            },
        }
    }
}

proof fn lemma_run_none_persists(p: VirtualOperationPlan, scale: int, evaporation: int, k: nat, m: nat)
    requires
        k <= m,
        run_spec(p, scale, evaporation, k) is None,
    ensures
        run_spec(p, scale, evaporation, m) is None,
    decreases m,
{
    if k < m {
        lemma_run_none_persists(p, scale, evaporation, k, (m - 1) as nat);
    }
}

pub open spec fn pair_view(e: (i64, i64)) -> (int, int) {
    (e.0 as int, e.1 as int)
}

pub open spec fn level_samples(s: Seq<(int, int, int, int)>) -> Seq<(int, int)> {
    s.map_values(|x: (int, int, int, int)| (x.0, x.1))
}

pub open spec fn error_samples(s: Seq<(int, int, int, int)>) -> Seq<(int, int)> {
    s.map_values(|x: (int, int, int, int)| (x.0, x.2))
}

pub open spec fn flow_samples(s: Seq<(int, int, int, int)>) -> Seq<(int, int)> {
    s.map_values(|x: (int, int, int, int)| (x.0, x.3))
}

/// `+` before non-negative values, as `{:+}` prints them.
pub open spec fn signed_text(v: int, places: nat) -> Seq<char> {
    if v >= 0 {
        "+"@ + micro_text(v, places)
    } else {
        micro_text(v, places)
    }
}

/// How the level moved, in words; `None` when a square root has no real
/// value or the level ratio leaves the fixed-point range.
pub open spec fn level_observation(p: VirtualOperationPlan, level: int) -> Option<Seq<Seq<char>>> {
    let lo = p.config.min_level as int;
    let hi = p.config.max_level as int;
    let initial = p.initial_level_cm as int;
    if hi == lo {
        Some(Seq::empty())
    } else {
        let pct = quotient_micro((level - initial) * 100, hi - lo)->0;
        if pct > 5_000_000 {
            let ratio = quotient_micro(level, initial)->0;
            if initial > 0 && fits_i64(ratio) {
                Some(
                    seq![
                        "水位升高"@ + micro_text(pct, 1) + "%，水头增加，理论流量上升约"@ + micro_text(
                            (floor_sqrt(ratio * 1_000_000) - 1_000_000) * 100,
                            2,
                        ) + "%"@,
                    ],
                )
            } else {
                None
            }
        } else if pct < -5_000_000 {
            let d = if initial > 10_000 {
                initial
            } else {
                10_000
            };
            if level >= 0 {
                let ratio = quotient_micro(level, d)->0;
                Some(
                    seq![
                        "水位降低"@ + micro_text(-pct, 1) + "%，水头减小，理论流量下降约"@ + micro_text(
                            (1_000_000 - floor_sqrt(ratio * 1_000_000)) * 100,
                            2,
                        ) + "%"@,
                    ],
                )
            } else {
                None
            }
        } else {
            Some(Seq::empty())
        }
    }
}

/// The remark on the accumulated error, if it moved by more than a second.
pub open spec fn error_remark(cumulative: int) -> Seq<Seq<char>> {
    if cumulative > 1_000_000 || cumulative < -1_000_000 {
        seq![
            "模拟期间累计日误差变化"@ + signed_text(cumulative, 2) + "秒，当前水平"@ + (if cumulative
                > 60_000_000 {
                "较差"@
            } else if cumulative > 10_000_000 {
                "一般"@
            } else {
                "良好"@
            }) + "秒/日"@,
        ]
    } else {
        seq![]
    }
}

/// The remark on a water temperature below 5 °C or above 40 °C.
pub open spec fn water_remark(temp: int) -> Seq<Seq<char>> {
    if temp < 5_000_000 {
        seq!["水温过低（"@ + micro_text(temp, 1) + "°C），水粘度升高，实际流量比理论值低约8%"@]
    } else if temp > 40_000_000 {
        seq!["水温过高（"@ + micro_text(temp, 1) + "°C），蒸发加剧，计时偏差风险上升"@]
    } else {
        seq![]
    }
}

/// The warning on a target in the lowest fifth of the range.
pub open spec fn low_target_remark(target: int, lo: int, hi: int) -> Seq<Seq<char>> {
    if 10 * target < 10 * lo + 2 * (hi - lo) {
        seq!["警告：目标水位过低，水头不足将导致流量快速衰减，误差增大"@]
    } else {
        seq![]
    }
}

/// The note on a target above 95% of the top level.
pub open spec fn full_target_remark(target: int, hi: int) -> Seq<Seq<char>> {
    if 100 * target > 95 * hi {
        seq!["提示：水位接近上限，处于恒流区最佳工作状态，精度最优"@]
    } else {
        seq![]
    }
}

/// The remark on a temperature more than 10 °C away from 20 °C.
pub open spec fn drift_remark(temp: int) -> Seq<Seq<char>> {
    let d = temp - 20_000_000;
    if d > 10_000_000 || d < -10_000_000 {
        seq![
            "水温偏离20°C基准"@ + signed_text(d, 1) + "°C，粘性变化已引入约"@ + micro_text(
                if d >= 0 {
                    d
                } else {
                    -d
                },
                1,
            ) + "%的流量偏差"@,
        ]
    } else {
        seq![]
    }
}

/// The remark on the error gained or lost over a run of `secs` seconds,
/// if it moved by more than a second.
pub open spec fn run_error_remark(secs: int, cumulative: int) -> Seq<Seq<char>> {
    if cumulative > 1_000_000 || cumulative < -1_000_000 {
        seq![
            "模拟"@ + nat_text(secs as nat) + "秒后，计时误差"@ + (if cumulative > 0 {
                "累计增加"@
            } else {
                "累计减少"@
            }) + micro_text(
                if cumulative >= 0 {
                    cumulative
                } else {
                    -cumulative
                },
                2,
            ) + "秒"@,
        ]
    } else {
        seq![]
    }
}

/// The remaining remarks on the run, in order.
pub open spec fn other_observations(p: VirtualOperationPlan, cumulative: int) -> Seq<Seq<char>> {
    let lo = p.config.min_level as int;
    let hi = p.config.max_level as int;
    let target = p.target_level_cm as int;
    let temp = p.water_temp_c as int;
    let targets = low_target_remark(target, lo, hi) + full_target_remark(target, hi);
    match p.profile {
        SimulationProfile::Adaptive => error_remark(cumulative) + water_remark(temp) + targets
            + drift_remark(temp),
        SimulationProfile::Steady => run_error_remark(p.simulate_seconds as int, cumulative)
            + targets + drift_remark(temp),
    }
}

/// All remarks on a run that ended at `level` with error `cumulative`.
pub open spec fn observations_spec(p: VirtualOperationPlan, level: int, cumulative: int) -> Option<
    Seq<Seq<char>>,
> {
    match level_observation(p, level) {
        None => None,
        Some(first) => {
            let all = first + other_observations(p, cumulative);
            if all.len() == 0 && p.profile == SimulationProfile::Adaptive {
                Some(seq!["水位变化平稳，流量稳定，处于最优工作区间"@])
            } else {
                Some(all)
            }
        },
    }
}


fn step_level_exec(level: i64, target: i64, lo: i64, hi: i64, profile: SimulationProfile) -> (r: i64)
    requires
        lo <= level <= hi,
        lo <= target <= hi,
    ensures
        r == step_level(level as int, target as int, lo as int, hi as int, profile),
        lo <= r <= hi,
{
    let l = level as i128;
    let t = target as i128;
    let remaining: i128 = if t >= l {
        t - l
    } else {
        l - t
    };
    let band: i128 = match profile {
        SimulationProfile::Adaptive => 50_000,
        SimulationProfile::Steady => 100_000,
    };
    let moved: i128 = if remaining > band {
        proof {
            lemma_rdiv_bound(remaining * 8, 100);
        }
        let step: i128 = match profile {
            SimulationProfile::Adaptive => 200_000 + div_round(remaining * 8, 100),
            SimulationProfile::Steady => 500_000,
        };
        let change = if remaining < step {
            remaining
        } else {
            step
        };
        if t > l {
            l + change
        } else {
            l - change
        }
    } else {
        l
    };
    let clamped = if moved < lo as i128 {
        lo as i128
    } else if moved > hi as i128 {
        hi as i128
    } else {
        moved
    };
    clamped as i64
}

/// The square root of a fixed-point value, in millionths, rounded down.
fn micro_sqrt(v: i64) -> (r: i64)
    requires
        v >= 0,
    ensures
        r == floor_sqrt(v * 1_000_000),
        0 <= r <= 0x1_0000_0000_0000,
{
    let root = isqrt(v as u128 * 1_000_000);
    proof {
        let x = v as int * 1_000_000;
        assert(root <= 0x1_0000_0000_0000) by (nonlinear_arith)
            requires
                root * root <= x,
                x < 0x1_0000_0000_0000_0000_0000_0000,
                root >= 0,
        ;
    }
    root as i64
}

fn flow_exec(level: i64, scale: i64) -> (r: Option<i64>)
    requires
        level >= 0,
    ensures
        flow_at(level as int, scale as int) is Some,
        r is Some <==> fits_i64(flow_at(level as int, scale as int)->0),
        r matches Some(f) ==> f == flow_at(level as int, scale as int)->0,
{
    let root = micro_sqrt(level);
    proof {
        lemma_mul_bound(scale as int, root as int, 0x8000_0000_0000_0000, 0x1_0000_0000_0000);
    }
    narrow(div_round(scale as i128 * root as i128, 1_000_000))
}

fn drop_exec(level: i64, hi: i64) -> (r: i64)
    ensures
        r == drop_x100(level as int, hi as int),
        0 <= r <= 200_000,
{
    let l = level as i128;
    let h = hi as i128;
    if 10 * l > 9 * h {
        200_000
    } else if 10 * l > 7 * h {
        80_000
    } else if 2 * l > h {
        30_000
    } else {
        100_000
    }
}

fn actual_flow_exec(flow: i64, drop: i64) -> (r: i128)
    requires
        0 <= drop <= 200_000,
    ensures
        r == actual_flow(flow as int, drop as int),
{
    if flow >= 10_000 {
        flow as i128 - drop as i128
    } else {
        proof {
            lemma_mul_bound(flow as int, drop as int, 0x8000_0000_0000_0000, 200_000);
            lemma_rdiv_bound(flow as int * drop as int, 10_000);
        }
        flow as i128 - div_round(flow as i128 * drop as i128, 10_000)
    }
}


fn signed_string(v: i64, places: u32) -> (s: String)
    requires
        places <= 6,
    ensures
        s@ == signed_text(v as int, places as nat),
{
    let mut s = String::new();
    if v >= 0 {
        s.append("+");
    }
    let t = micro_string(v, places);
    s.append(t.as_str());
    s
}

/// The level change in percent of the range, within -100..=100 percent.
fn level_change_percent(p: &VirtualOperationPlan, level: i64) -> (r: i64)
    requires
        p.wf(),
        p.config.min_level < p.config.max_level,
        p.config.min_level <= level <= p.config.max_level,
    ensures
        r == quotient_micro(
            (level - p.initial_level_cm) * 100,
            p.config.max_level - p.config.min_level,
        )->0,
        -100_000_000 <= r <= 100_000_000,
        r > 0 ==> level > p.initial_level_cm,
        r < 0 ==> level < p.initial_level_cm,
{
    let span = p.config.max_level as i128 - p.config.min_level as i128;
    let diff = level as i128 - p.initial_level_cm as i128;
    proof {
        let a = diff * 100_000_000;
        assert(a <= 100_000_000 * span);
        assert(-100_000_000 * span <= a);
        lemma_rdiv_monotone(a, 100_000_000 * span, span as int);
        lemma_rdiv_monotone(-100_000_000 * span, a, span as int);
        lemma_rdiv_exact(100_000_000, span as int);
        lemma_rdiv_exact(-100_000_000, span as int);
        lemma_rdiv_bound(a, span as int);
        assert((diff * 100) * 1_000_000 == a);
    }
    div_round(diff * 100_000_000, span) as i64
}

fn level_observation_exec(p: &VirtualOperationPlan, level: i64) -> (r: Option<Vec<String>>)
    requires
        p.wf(),
        p.config.min_level <= level <= p.config.max_level,
    ensures
        r is Some <==> level_observation(*p, level as int) is Some,
        r matches Some(v) ==> v@.map_values(|s: String| s@) == level_observation(
            *p,
            level as int,
        )->0,
{
    let mut out: Vec<String> = Vec::new();
    if p.config.max_level == p.config.min_level {
        assert(out@.map_values(|s: String| s@) =~= Seq::<Seq<char>>::empty());
        return Some(out);
    }
    let initial = p.initial_level_cm;
    let pct = level_change_percent(p, level);
    if pct > 5_000_000 {
        if initial <= 0 {
            return None;
        }
        let ratio = match quotient_micro_exec(level, initial) {
            Some(q) => q,
            None => {
                return None;
            },
        };
        proof {
            lemma_rdiv_bound(level * 1_000_000, initial as int);
        }
        let root = micro_sqrt(ratio);
        let mut t = String::from_str("水位升高");
        let a = micro_string(pct, 1);
        t.append(a.as_str());
        t.append("%，水头增加，理论流量上升约");
        let b = micro_string((root - 1_000_000) * 100, 2);
        t.append(b.as_str());
        t.append("%");
        out.push(t);
        assert(out@.map_values(|s: String| s@) =~= level_observation(*p, level as int)->0);
        Some(out)
    } else if pct < -5_000_000 {
        let d = if initial > 10_000 {
            initial
        } else {
            10_000
        };
        if level < 0 {
            return None;
        }
        proof {
            lemma_rdiv_bound(level * 1_000_000, d as int);
            lemma_rdiv_monotone(level * 1_000_000, 1_000_000 * d, d as int);
            lemma_rdiv_exact(1_000_000, d as int);
        }
        let ratio = match quotient_micro_exec(level, d) {
            Some(q) => q,
            None => {
                return None;
            },
        };
        let root = micro_sqrt(ratio);
        let fall = -pct;
        let mut t = String::from_str("水位降低");
        let a = micro_string(fall, 1);
        t.append(a.as_str());
        t.append("%，水头减小，理论流量下降约");
        let b = micro_string((1_000_000 - root) * 100, 2);
        t.append(b.as_str());
        t.append("%");
        out.push(t);
        assert(out@.map_values(|s: String| s@) =~= level_observation(*p, level as int)->0);
        Some(out)
    } else {
        assert(out@.map_values(|s: String| s@) =~= Seq::<Seq<char>>::empty());
        Some(out)
    }
}

fn error_remark_exec(cumulative: i64) -> (r: Vec<String>)
    ensures
        r@.map_values(|s: String| s@) == error_remark(cumulative as int),
{
    let mut out: Vec<String> = Vec::new();
    if cumulative > 1_000_000 || cumulative < -1_000_000 {
        let mut t = String::from_str("模拟期间累计日误差变化");
        let a = signed_string(cumulative, 2);
        t.append(a.as_str());
        t.append("秒，当前水平");
        if cumulative > 60_000_000 {
            t.append("较差");
        } else if cumulative > 10_000_000 {
            t.append("一般");
        } else {
            t.append("良好");
        }
        t.append("秒/日");
        out.push(t);
    }
    assert(out@.map_values(|s: String| s@) =~= error_remark(cumulative as int));
    out
}

fn run_error_remark_exec(secs: u32, cumulative: i64) -> (r: Vec<String>)
    ensures
        r@.map_values(|s: String| s@) == run_error_remark(secs as int, cumulative as int),
{
    let mut out: Vec<String> = Vec::new();
    if cumulative > 1_000_000 || cumulative < -1_000_000 {
        let mut t = String::from_str("模拟");
        push_nat(&mut t, secs as u64);
        t.append("秒后，计时误差");
        if cumulative > 0 {
            t.append("累计增加");
        } else {
            t.append("累计减少");
        }
        let a = magnitude_string(cumulative, 2);
        t.append(a.as_str());
        t.append("秒");
        out.push(t);
    }
    assert(out@.map_values(|s: String| s@) =~= run_error_remark(secs as int, cumulative as int));
    out
}

fn water_remark_exec(temp: i64) -> (r: Vec<String>)
    ensures
        r@.map_values(|s: String| s@) == water_remark(temp as int),
{
    let mut out: Vec<String> = Vec::new();
    if temp < 5_000_000 {
        let mut t = String::from_str("水温过低（");
        let a = micro_string(temp, 1);
        t.append(a.as_str());
        t.append("°C），水粘度升高，实际流量比理论值低约8%");
        out.push(t);
    } else if temp > 40_000_000 {
        let mut t = String::from_str("水温过高（");
        let a = micro_string(temp, 1);
        t.append(a.as_str());
        t.append("°C），蒸发加剧，计时偏差风险上升");
        out.push(t);
    }
    assert(out@.map_values(|s: String| s@) =~= water_remark(temp as int));
    out
}

fn target_remarks_exec(target: i64, lo: i64, hi: i64) -> (r: Vec<String>)
    ensures
        r@.map_values(|s: String| s@) == low_target_remark(target as int, lo as int, hi as int)
            + full_target_remark(target as int, hi as int),
{
    let t = target as i128;
    let l = lo as i128;
    let h = hi as i128;
    let mut out: Vec<String> = Vec::new();
    if 10 * t < 10 * l + 2 * (h - l) {
        out.push(String::from_str("警告：目标水位过低，水头不足将导致流量快速衰减，误差增大"));
    }
    let ghost first = out@;
    if 100 * t > 95 * h {
        out.push(String::from_str("提示：水位接近上限，处于恒流区最佳工作状态，精度最优"));
    }
    assert(out@.map_values(|s: String| s@) =~= low_target_remark(target as int, lo as int, hi as int)
        + full_target_remark(target as int, hi as int));
    out
}

fn drift_remark_exec(temp: i64) -> (r: Vec<String>)
    requires
        0 <= temp <= 50_000_000,
    ensures
        r@.map_values(|s: String| s@) == drift_remark(temp as int),
{
    let mut out: Vec<String> = Vec::new();
    let d = temp - 20_000_000;
    if d > 10_000_000 || d < -10_000_000 {
        let mut t = String::from_str("水温偏离20°C基准");
        let a = signed_string(d, 1);
        t.append(a.as_str());
        t.append("°C，粘性变化已引入约");
        let magnitude = if d >= 0 {
            d
        } else {
            -d
        };
        let b = micro_string(magnitude, 1);
        t.append(b.as_str());
        t.append("%的流量偏差");
        out.push(t);
    }
    assert(out@.map_values(|s: String| s@) =~= drift_remark(temp as int));
    out
}

/// Appends `more` to `all`, keeping the rendered texts in order.
fn append_remarks(all: &mut Vec<String>, more: Vec<String>)
    ensures
        final(all)@.map_values(|s: String| s@) == old(all)@.map_values(|s: String| s@)
            + more@.map_values(|s: String| s@),
{
    let mut more = more;
    let ghost before = all@;
    let ghost extra = more@;
    all.append(&mut more);
    assert(all@.map_values(|s: String| s@) =~= before.map_values(|s: String| s@)
        + extra.map_values(|s: String| s@));
}

fn other_observations_exec(p: &VirtualOperationPlan, cumulative: i64) -> (r: Vec<String>)
    requires
        p.wf(),
    ensures
        r@.map_values(|s: String| s@) == other_observations(*p, cumulative as int),
{
    let mut out = match p.profile {
        SimulationProfile::Adaptive => {
            let mut first = error_remark_exec(cumulative);
            append_remarks(&mut first, water_remark_exec(p.water_temp_c));
            first
        },
        SimulationProfile::Steady => run_error_remark_exec(p.simulate_seconds, cumulative),
    };
    append_remarks(
        &mut out,
        target_remarks_exec(p.target_level_cm, p.config.min_level, p.config.max_level),
    );
    append_remarks(&mut out, drift_remark_exec(p.water_temp_c));
    assert(out@.map_values(|s: String| s@) =~= other_observations(*p, cumulative as int));
    out
}

fn observations_exec(p: &VirtualOperationPlan, level: i64, cumulative: i64) -> (r: Option<Vec<String>>)
    requires
        p.wf(),
        p.config.min_level <= level <= p.config.max_level,
    ensures
        r is Some <==> observations_spec(*p, level as int, cumulative as int) is Some,
        r matches Some(v) ==> v@.map_values(|s: String| s@) == observations_spec(
            *p,
            level as int,
            cumulative as int,
        )->0,
{
    let mut all = match level_observation_exec(p, level) {
        Some(v) => v,
        None => {
            return None;
        },
    };
    append_remarks(&mut all, other_observations_exec(p, cumulative));
    let calm = match p.profile {
        SimulationProfile::Adaptive => all.len() == 0,
        SimulationProfile::Steady => false,
    };
    if calm {
        all.push(String::from_str("水位变化平稳，流量稳定，处于最优工作区间"));
        assert(all@.map_values(|s: String| s@) =~= observations_spec(
            *p,
            level as int,
            cumulative as int,
        )->0);
    }
    Some(all)
}

/// One simulated second: the new level, accumulated error and delivered
/// outflow, when they stay representable.
fn advance(plan: &VirtualOperationPlan, flow_scale: i64, evaporation: i64, level: i64, cumulative: i64) -> (r:
    Option<(i64, i64, i64)>)
    requires
        plan.wf(),
        plan.config.min_level <= level <= plan.config.max_level,
    ensures
        r is Some <==> step_spec(
            *plan,
            flow_scale as int,
            evaporation as int,
            level as int,
            cumulative as int,
        ) is Some,
        r matches Some(t) ==> {
            &&& step_spec(*plan, flow_scale as int, evaporation as int, level as int, cumulative as int)
                == Some((t.0 as int, t.1 as int, t.2 as int))
            &&& plan.config.min_level <= t.0 <= plan.config.max_level
        },
{
    let hi = plan.config.max_level;
    let next = step_level_exec(
        level,
        plan.target_level_cm,
        plan.config.min_level,
        hi,
        plan.profile,
    );
    if next < 0 {
        return None;
    }
    let flow = match flow_exec(next, flow_scale) {
        Some(f) => f,
        None => {
            return None;
        },
    };
    let drop = drop_exec(next, hi);
    let delivered = match narrow(actual_flow_exec(flow, drop)) {
        Some(v) => v,
        None => {
            return None;
        },
    };
    let pct: i64 = if flow == 0 {
        0
    } else {
        match quotient_micro_exec_wide(
            (delivered as i128 - evaporation as i128 - flow as i128) * 100,
            flow,
        ) {
            Some(q) => q,
            None => {
                return None;
            },
        }
    };
    proof {
        lemma_rdiv_bound(pct as int, 100);
    }
    match narrow(cumulative as i128 + div_round(pct as i128, 100)) {
        Some(total) => Some((next, total, delivered)),
        None => None,
    }
}

/// Whether a run of plan `p` stays representable: the starting outflow,
/// every simulated second and the closing remarks.
pub open spec fn simulation_fits(p: VirtualOperationPlan, scale: int, evaporation: int) -> bool {
    &&& flow_at(p.initial_level_cm as int, scale) matches Some(f) && fits_i64(f)
    &&& run_spec(p, scale, evaporation, p.simulate_seconds as nat) matches Some(run)
        && observations_spec(p, run.0, run.1) is Some
}

/// What a run of plan `p` reports, given that it stays representable.
pub open spec fn simulation_result_is(
    res: VirtualOperationResult,
    p: VirtualOperationPlan,
    scale: int,
    evaporation: int,
) -> bool {
    let run = run_spec(p, scale, evaporation, p.simulate_seconds as nat)->0;
    &&& res.clepsydra_id@ == p.clepsydra_id@
    &&& res.initial_level_cm == p.initial_level_cm
    &&& res.final_level_cm == run.0
    &&& res.initial_error_seconds == 0
    &&& res.final_error_seconds == run.1
    &&& res.time_elapsed_simulated == p.simulate_seconds
    &&& res.level_history@.map_values(|e: (i64, i64)| pair_view(e)) == seq![
        (0int, p.initial_level_cm as int),
    ] + level_samples(run.2)
    &&& res.error_history@.map_values(|e: (i64, i64)| pair_view(e)) == seq![(0int, 0int)]
        + error_samples(run.2)
    &&& res.flow_history@.map_values(|e: (i64, i64)| pair_view(e)) == seq![
        (0int, flow_at(p.initial_level_cm as int, scale)->0),
    ] + flow_samples(run.2)
    &&& res.observations@.map_values(|s: String| s@) == observations_spec(p, run.0, run.1)->0
}

/// Runs plan `p` second by second. The level is steered towards the target;
/// at each level the theoretical outflow is `flow_scale * sqrt(level)`, the
/// delivered outflow loses what the falling level takes, the evaporation is
/// taken off, and the relative error (in percent per second) accumulates.
/// About fifty samples are kept, the last second always among them; each
/// history starts with the state at time zero.
///
/// `flow_scale` (mL/s per square root of a cm) and `evaporation` (mL/s) are
/// in millionths, as the hydraulic model gives them for the plan's vessel
/// and temperature. Fails exactly when a value leaves the fixed-point range
/// or a square root has no real value.
pub fn simulate(plan: &VirtualOperationPlan, flow_scale: i64, evaporation: i64) -> (r: Result<
    VirtualOperationResult,
    VirtualOperationError,
>)
    requires
        plan.wf(),
    ensures
        r is Ok <==> simulation_fits(*plan, flow_scale as int, evaporation as int),
        r matches Err(e) ==> e == VirtualOperationError::OutOfRange,
        r matches Ok(res) ==> simulation_result_is(res, *plan, flow_scale as int, evaporation as int),
{
    let lo = plan.config.min_level;
    let hi = plan.config.max_level;
    let target = plan.target_level_cm;
    let initial = plan.initial_level_cm;
    let secs = plan.simulate_seconds;
    let ghost p = *plan;
    let ghost scale = flow_scale as int;
    let ghost evap = evaporation as int;
    if initial < 0 {
        return Err(VirtualOperationError::OutOfRange);
    }
    let initial_flow = match flow_exec(initial, flow_scale) {
        Some(f) => f,
        None => {
            return Err(VirtualOperationError::OutOfRange);
        },
    };
    let interval: u32 = if secs / 50 >= 1 {
        secs / 50
    } else {
        1
    };
    let mut level_history: Vec<(i64, i64)> = Vec::new();
    let mut error_history: Vec<(i64, i64)> = Vec::new();
    let mut flow_history: Vec<(i64, i64)> = Vec::new();
    level_history.push((0, initial));
    error_history.push((0, 0));
    flow_history.push((0, initial_flow));
    let mut level = initial;
    let mut cumulative: i64 = 0;
    let ghost mut samples: Seq<(int, int, int, int)> = Seq::empty();
    let mut k: u32 = 0;
    assert(level_history@.map_values(|e: (i64, i64)| pair_view(e)) =~= seq![(0int, initial as int)]
        + level_samples(samples));
    assert(error_history@.map_values(|e: (i64, i64)| pair_view(e)) =~= seq![(0int, 0int)]
        + error_samples(samples));
    assert(flow_history@.map_values(|e: (i64, i64)| pair_view(e)) =~= seq![
        (0int, flow_at(initial as int, scale)->0),
    ] + flow_samples(samples));
    while k < secs
        invariant
            p == *plan,
            p.wf(),
            lo == p.config.min_level,
            hi == p.config.max_level,
            target == p.target_level_cm,
            initial == p.initial_level_cm,
            secs == p.simulate_seconds,
            scale == flow_scale,
            evap == evaporation,
            interval == sample_interval(p),
            interval >= 1,
            initial_flow == flow_at(initial as int, scale)->0,
            k <= secs,
            lo <= level <= hi,
            run_spec(p, scale, evap, k as nat) == Some((level as int, cumulative as int, samples)),
            level_history@.map_values(|e: (i64, i64)| pair_view(e)) == seq![(0int, initial as int)]
                + level_samples(samples),
            error_history@.map_values(|e: (i64, i64)| pair_view(e)) == seq![(0int, 0int)]
                + error_samples(samples),
            flow_history@.map_values(|e: (i64, i64)| pair_view(e)) == seq![
                (0int, initial_flow as int),
            ] + flow_samples(samples),
        decreases secs - k,
    {
        let (next, total, delivered) = match advance(plan, flow_scale, evaporation, level, cumulative) {
            Some(t) => t,
            None => {
                proof {
                    lemma_run_none_persists(p, scale, evap, (k + 1) as nat, secs as nat);
                }
                return Err(VirtualOperationError::OutOfRange);
            },
        };
        if k % interval == 0 || k == secs - 1 {
            let t = (k as i64 + 1) * 1_000_000;
            let shown = if delivered > 0 {
                delivered
            } else {
                0
            };
            let ghost old_samples = samples;
            let ghost old_level = level_history@;
            let ghost old_error = error_history@;
            let ghost old_flow = flow_history@;
            level_history.push((t, next));
            error_history.push((t, total));
            flow_history.push((t, shown));
            proof {
                samples = samples.push((t as int, next as int, total as int, shown as int));
                assert(level_samples(samples) =~= level_samples(old_samples).push((t as int, next as int)));
                assert(error_samples(samples) =~= error_samples(old_samples).push((t as int, total as int)));
                assert(flow_samples(samples) =~= flow_samples(old_samples).push((t as int, shown as int)));
                assert(level_history@.map_values(|e: (i64, i64)| pair_view(e)) =~= old_level.map_values(
                    |e: (i64, i64)| pair_view(e),
                ).push((t as int, next as int)));
                assert(error_history@.map_values(|e: (i64, i64)| pair_view(e)) =~= old_error.map_values(
                    |e: (i64, i64)| pair_view(e),
                ).push((t as int, total as int)));
                assert(flow_history@.map_values(|e: (i64, i64)| pair_view(e)) =~= old_flow.map_values(
                    |e: (i64, i64)| pair_view(e),
                ).push((t as int, shown as int)));
            }
        }
        level = next;
        cumulative = total;
        k = k + 1;
    }
    let observations = match observations_exec(plan, level, cumulative) {
        Some(v) => v,
        None => {
            return Err(VirtualOperationError::OutOfRange);
        },
    };
    Ok(
        VirtualOperationResult {
            clepsydra_id: plan.clepsydra_id.clone(),
            initial_level_cm: initial,
            final_level_cm: level,
            initial_error_seconds: 0,
            final_error_seconds: cumulative,
            time_elapsed_simulated: secs,
            level_history,
            error_history,
            flow_history,
            observations,
        },
    )
}

proof fn lemma_step_level(level: int, target: int, lo: int, hi: int, profile: SimulationProfile)
    requires
        lo <= level <= hi,
        lo <= target <= hi,
    ensures
        lo <= step_level(level, target, lo, hi, profile) <= hi,
        level <= target ==> level <= step_level(level, target, lo, hi, profile) <= target,
        target <= level ==> target <= step_level(level, target, lo, hi, profile) <= level,
        target - level > dead_band(profile) ==> step_level(level, target, lo, hi, profile) > level,
        level - target > dead_band(profile) ==> step_level(level, target, lo, hi, profile) < level,
{
    let remaining = if target >= level {
        target - level
    } else {
        level - target
    };
    lemma_rdiv_bound(remaining * 8, 100);
}

/// What holds of every state a run reaches: the level stays in the
/// vessel's range and between the start and the target, every sample too,
/// and once a second has passed the level has left the start when the
/// target lay more than 0.05 cm away.
proof fn lemma_run_course(p: VirtualOperationPlan, scale: int, evaporation: int, k: nat)
    requires
        p.wf(),
        run_spec(p, scale, evaporation, k) is Some,
    ensures
        ({
            let run = run_spec(p, scale, evaporation, k)->0;
            let lo = p.config.min_level as int;
            let hi = p.config.max_level as int;
            let start = p.initial_level_cm as int;
            let target = p.target_level_cm as int;
            &&& lo <= run.0 <= hi
            &&& start <= target ==> start <= run.0 <= target
            &&& target <= start ==> target <= run.0 <= start
            &&& k >= 1 && target - start > dead_band(p.profile) ==> run.0 > start
            &&& k >= 1 && start - target > dead_band(p.profile) ==> run.0 < start
            &&& forall|i: int|
                0 <= i < run.2.len() ==> {
                    &&& lo <= #[trigger] run.2[i].1 <= hi
                    &&& start <= target ==> start <= run.2[i].1 <= target
                    &&& target <= start ==> target <= run.2[i].1 <= start
                }
        }),
    decreases k,
{
    if k > 0 {
        let prev = run_spec(p, scale, evaporation, (k - 1) as nat);
        if prev is None {
            lemma_run_none_persists(p, scale, evaporation, (k - 1) as nat, k);
        }
        lemma_run_course(p, scale, evaporation, (k - 1) as nat);
        let state = prev->0;
        lemma_step_level(
            state.0,
            p.target_level_cm as int,
            p.config.min_level as int,
            p.config.max_level as int,
            p.profile,
        );
    }
}

/// The final second is always sampled: the run's samples end with it.
proof fn lemma_run_last_sample(p: VirtualOperationPlan, scale: int, evaporation: int)
    requires
        p.wf(),
        run_spec(p, scale, evaporation, p.simulate_seconds as nat) is Some,
    ensures
        ({
            let run = run_spec(p, scale, evaporation, p.simulate_seconds as nat)->0;
            &&& run.2.len() >= 1
            &&& run.2.last().0 == p.simulate_seconds * 1_000_000
            &&& run.2.last().1 == run.0
            &&& run.2.last().2 == run.1
        }),
{
    let k = p.simulate_seconds as nat;
    if run_spec(p, scale, evaporation, (k - 1) as nat) is None {
        lemma_run_none_persists(p, scale, evaporation, (k - 1) as nat, k);
    }
    assert(sampled(p, k - 1));
}

/// Every level a run reports, from the first sample to the final level,
/// lies within the vessel's range.
pub proof fn law_levels_stay_in_range(
    res: VirtualOperationResult,
    p: VirtualOperationPlan,
    scale: int,
    evaporation: int,
)
    requires
        p.wf(),
        simulation_fits(p, scale, evaporation),
        simulation_result_is(res, p, scale, evaporation),
    ensures
        p.config.min_level <= res.final_level_cm <= p.config.max_level,
        forall|i: int|
            0 <= i < res.level_history@.len() ==> p.config.min_level <= (
            #[trigger] res.level_history@[i]).1 <= p.config.max_level,
{
    let run = run_spec(p, scale, evaporation, p.simulate_seconds as nat)->0;
    lemma_run_course(p, scale, evaporation, p.simulate_seconds as nat);
    assert forall|i: int| 0 <= i < res.level_history@.len() implies p.config.min_level <= (
    #[trigger] res.level_history@[i]).1 <= p.config.max_level by {
        assert(pair_view(res.level_history@[i]) == res.level_history@.map_values(
            |e: (i64, i64)| pair_view(e),
        )[i]);
        assert(res.level_history@.map_values(|e: (i64, i64)| pair_view(e)).len()
            == res.level_history@.len());
        assert(level_samples(run.2).len() == run.2.len());
        if i > 0 {
            assert(level_samples(run.2)[i - 1] == (run.2[i - 1].0, run.2[i - 1].1));
        }
    }
}

/// The level moves from the start towards the target and never past it;
/// when the target lies outside the dead band, the run ends off the start,
/// on the target's side.
pub proof fn law_level_moves_toward_target(
    res: VirtualOperationResult,
    p: VirtualOperationPlan,
    scale: int,
    evaporation: int,
)
    requires
        p.wf(),
        simulation_fits(p, scale, evaporation),
        simulation_result_is(res, p, scale, evaporation),
    ensures
        p.initial_level_cm <= p.target_level_cm ==> p.initial_level_cm <= res.final_level_cm
            <= p.target_level_cm,
        p.target_level_cm <= p.initial_level_cm ==> p.target_level_cm <= res.final_level_cm
            <= p.initial_level_cm,
        p.target_level_cm - p.initial_level_cm > dead_band(p.profile) ==> res.final_level_cm
            > p.initial_level_cm,
        p.initial_level_cm - p.target_level_cm > dead_band(p.profile) ==> res.final_level_cm
            < p.initial_level_cm,
        forall|i: int|
            0 <= i < res.level_history@.len() ==> {
                &&& p.initial_level_cm <= p.target_level_cm ==> p.initial_level_cm <= (
                #[trigger] res.level_history@[i]).1 <= p.target_level_cm
                &&& p.target_level_cm <= p.initial_level_cm ==> p.target_level_cm
                    <= res.level_history@[i].1 <= p.initial_level_cm
            },
{
    let run = run_spec(p, scale, evaporation, p.simulate_seconds as nat)->0;
    lemma_run_course(p, scale, evaporation, p.simulate_seconds as nat);
    assert forall|i: int| 0 <= i < res.level_history@.len() implies {
        &&& p.initial_level_cm <= p.target_level_cm ==> p.initial_level_cm <= (
        #[trigger] res.level_history@[i]).1 <= p.target_level_cm
        &&& p.target_level_cm <= p.initial_level_cm ==> p.target_level_cm
            <= res.level_history@[i].1 <= p.initial_level_cm
    } by {
        assert(pair_view(res.level_history@[i]) == res.level_history@.map_values(
            |e: (i64, i64)| pair_view(e),
        )[i]);
        assert(res.level_history@.map_values(|e: (i64, i64)| pair_view(e)).len()
            == res.level_history@.len());
        assert(level_samples(run.2).len() == run.2.len());
        if i > 0 {
            assert(level_samples(run.2)[i - 1] == (run.2[i - 1].0, run.2[i - 1].1));
        }
    }
}

/// The three histories are sampled together: they have one length, each
/// starts at time zero, and each ends at the last simulated second with the
/// final values.
pub proof fn law_histories_align(
    res: VirtualOperationResult,
    p: VirtualOperationPlan,
    scale: int,
    evaporation: int,
)
    requires
        p.wf(),
        simulation_fits(p, scale, evaporation),
        simulation_result_is(res, p, scale, evaporation),
    ensures
        res.level_history@.len() == res.error_history@.len(),
        res.level_history@.len() == res.flow_history@.len(),
        res.level_history@.len() >= 2,
        res.level_history@[0] == (0i64, res.initial_level_cm),
        res.error_history@[0] == (0i64, 0i64),
        res.flow_history@[0].0 == 0,
        res.level_history@.last() == ((p.simulate_seconds * 1_000_000) as i64, res.final_level_cm),
        res.error_history@.last() == ((p.simulate_seconds * 1_000_000) as i64, res.final_error_seconds),
        res.flow_history@.last().0 == p.simulate_seconds * 1_000_000,
{
    let run = run_spec(p, scale, evaporation, p.simulate_seconds as nat)->0;
    lemma_run_last_sample(p, scale, evaporation);
    let n = res.level_history@.len();
    assert(res.level_history@.map_values(|e: (i64, i64)| pair_view(e)).len() == n);
    assert(res.error_history@.map_values(|e: (i64, i64)| pair_view(e)).len()
        == res.error_history@.len());
    assert(res.flow_history@.map_values(|e: (i64, i64)| pair_view(e)).len()
        == res.flow_history@.len());
    assert(pair_view(res.level_history@[0]) == res.level_history@.map_values(
        |e: (i64, i64)| pair_view(e),
    )[0]);
    assert(pair_view(res.error_history@[0]) == res.error_history@.map_values(
        |e: (i64, i64)| pair_view(e),
    )[0]);
    assert(pair_view(res.flow_history@[0]) == res.flow_history@.map_values(
        |e: (i64, i64)| pair_view(e),
    )[0]);
    assert(pair_view(res.level_history@[n - 1]) == res.level_history@.map_values(
        |e: (i64, i64)| pair_view(e),
    )[n - 1]);
    assert(pair_view(res.error_history@[n - 1]) == res.error_history@.map_values(
        |e: (i64, i64)| pair_view(e),
    )[n - 1]);
    assert(pair_view(res.flow_history@[n - 1]) == res.flow_history@.map_values(
        |e: (i64, i64)| pair_view(e),
    )[n - 1]);
}

/// An adaptive run always says something about itself.
pub proof fn law_always_observes(
    res: VirtualOperationResult,
    p: VirtualOperationPlan,
    scale: int,
    evaporation: int,
)
    requires
        p.wf(),
        simulation_fits(p, scale, evaporation),
        simulation_result_is(res, p, scale, evaporation),
        p.profile == SimulationProfile::Adaptive,
    ensures
        res.observations@.len() >= 1,
{
    assert(res.observations@.map_values(|s: String| s@).len() == res.observations@.len());
}

/// One second, from the same level, under two evaporations: the level and
/// the delivered flow agree, and the larger evaporation adds no more error.
proof fn lemma_step_evaporation(
    p: VirtualOperationPlan,
    scale: int,
    low: int,
    high: int,
    level: int,
    c_low: int,
    c_high: int,
)
    requires
        scale >= 0,
        low <= high,
        c_high <= c_low,
        step_spec(p, scale, low, level, c_low) is Some,
        step_spec(p, scale, high, level, c_high) is Some,
    ensures
        (step_spec(p, scale, low, level, c_low)->0).0 == (step_spec(p, scale, high, level, c_high)->0).0,
        (step_spec(p, scale, high, level, c_high)->0).1 <= (step_spec(p, scale, low, level, c_low)->0).1,
{
    let next = step_level(
        level,
        p.target_level_cm as int,
        p.config.min_level as int,
        p.config.max_level as int,
        p.profile,
    );
    let flow = flow_at(next, scale)->0;
    let delivered = actual_flow(flow, drop_x100(next, p.config.max_level as int));
    lemma_floor_sqrt_exists(next * 1_000_000);
    let root = floor_sqrt(next * 1_000_000);
    assert(scale * root >= 0) by (nonlinear_arith)
        requires
            scale >= 0,
            root >= 0,
    ;
    lemma_rdiv_bound(scale * root, 1_000_000);
    assert(flow >= 0);
    let a_low = (delivered - low - flow) * 100;
    let a_high = (delivered - high - flow) * 100;
    if flow > 0 {
        assert(a_high * 1_000_000 <= a_low * 1_000_000);
        lemma_rdiv_monotone(a_high * 1_000_000, a_low * 1_000_000, flow);
    }
    let pct_low = error_percent(flow, delivered - low);
    let pct_high = error_percent(flow, delivered - high);
    assert(pct_high <= pct_low);
    lemma_rdiv_monotone(pct_high, pct_low, 100);
}

proof fn lemma_run_evaporation(p: VirtualOperationPlan, scale: int, low: int, high: int, k: nat)
    requires
        scale >= 0,
        low <= high,
        run_spec(p, scale, low, k) is Some,
        run_spec(p, scale, high, k) is Some,
    ensures
        (run_spec(p, scale, low, k)->0).0 == (run_spec(p, scale, high, k)->0).0,
        (run_spec(p, scale, high, k)->0).1 <= (run_spec(p, scale, low, k)->0).1,
    decreases k,
{
    if k > 0 {
        let k1 = (k - 1) as nat;
        lemma_run_evaporation(p, scale, low, high, k1);
        let a = run_spec(p, scale, low, k1)->0;
        let b = run_spec(p, scale, high, k1)->0;
        lemma_step_evaporation(p, scale, low, high, a.0, a.1, b.1);
    }
}

/// Evaporation is water lost to the clock: with the same plan and vessel,
/// a run under more evaporation follows the same levels and ends with an
/// accumulated error no greater (more behind) than under less.
pub proof fn law_evaporation_never_raises_the_error(
    p: VirtualOperationPlan,
    scale: int,
    low: int,
    high: int,
    r_low: VirtualOperationResult,
    r_high: VirtualOperationResult,
)
    requires
        scale >= 0,
        low <= high,
        simulation_fits(p, scale, low),
        simulation_fits(p, scale, high),
        simulation_result_is(r_low, p, scale, low),
        simulation_result_is(r_high, p, scale, high),
    ensures
        r_high.final_level_cm == r_low.final_level_cm,
        r_high.final_error_seconds <= r_low.final_error_seconds,
{
    lemma_run_evaporation(p, scale, low, high, p.simulate_seconds as nat);
}

} // verus!
