//! How timing error propagates, stage by stage, through a clepsydra cascade.
use vstd::prelude::*;

use crate::fixed::{div_round, fits_i64, floor_sqrt, isqrt, lemma_mul_bound, lemma_rdiv_bound, lemma_rdiv_monotone, lemma_rdiv_scaled,
    lemma_rdiv_within_half, narrow, rdiv};
use crate::models::{AnalysisError, DynastyClepsydraConfig, ErrorTransferAnalysis, ErrorTransferNode};
use crate::text::{micro_string, micro_text, nat_text, push_nat};

verus! {

/// Inherent error of stage `idx` in a cascade of `stages` vessels,
/// in hundredths of a percent.
pub open spec fn inherent_error_spec(stages: u32, idx: int) -> int {
    let n: int = if stages < 1 {
        1
    } else if stages > 4 {
        4
    } else {
        stages as int
    };
    if idx >= 4 {
        5
    } else if n == 1 {
        if idx == 0 {
            250
        } else {
            0
        }
    } else if n == 2 {
        if idx == 0 {
            80
        } else if idx == 1 {
            50
        } else {
            0
        }
    } else if n == 3 {
        if idx == 0 {
            35
        } else if idx == 1 {
            25
        } else if idx == 2 {
            18
        } else {
            0
        }
    } else {
        if idx == 0 {
            18
        } else if idx == 1 {
            12
        } else if idx == 2 {
            8
        } else {
            5
        }
    }
}

/// Weight of the working level on a stage's error, in tenths.
pub open spec fn level_factor_spec(level: int) -> int {
    if level < 30_000_000 {
        13
    } else if level > 70_000_000 {
        9
    } else {
        10
    }
}

/// Error amplification of stage `idx` (millionths): 1 for a single vessel,
/// otherwise falling linearly from 1.45 at the top to 1 at the last vessel.
pub open spec fn amp_spec(stages: u32, idx: int) -> int {
    if stages <= 1 {
        1_000_000
    } else {
        1_000_000 + rdiv((stages - 1 - idx) * 450_000, stages - 1)
    }
}

/// `sqrt(max(stages, 1))` in millionths, rounded down.
pub open spec fn sqrt_scale(stages: u32) -> int {
    floor_sqrt(
        (if stages < 1 {
            1int
        } else {
            stages as int
        }) * 1_000_000_000_000,
    )
}

/// Self error of one stage: the documented daily error, weighted by the
/// stage's inherent error and working level, shared over `sqrt(stages)`.
pub open spec fn self_error_spec(base: int, stages: u32, idx: int, level: int) -> int {
    rdiv(
        base * inherent_error_spec(stages, idx) * level_factor_spec(level) * 10,
        sqrt_scale(stages),
    )
}

/// Working level of stage `i`: 70% of the way from its lower to its upper level.
pub open spec fn stage_level(d: DynastyClepsydraConfig, i: int) -> int {
    let c = d.configs@[i];
    c.min_level + rdiv((c.max_level - c.min_level) * 7, 10)
}

pub open spec fn stage_self(d: DynastyClepsydraConfig, i: int) -> int {
    self_error_spec(d.historical_daily_error_seconds as int, d.stage_count, i, stage_level(d, i))
}

/// Error leaving the first `k` stages.
pub open spec fn cascade_output(d: DynastyClepsydraConfig, k: nat) -> int
    decreases k,
{
    if k == 0 {
        0
    } else {
        let i = k - 1;
        rdiv(
            (cascade_output(d, (k - 1) as nat) + stage_self(d, i)) * amp_spec(d.stage_count, i),
            1_000_000,
        )
    }
}

/// Sum of the self errors of the first `k` stages.
pub open spec fn self_sum(d: DynastyClepsydraConfig, k: nat) -> int
    decreases k,
{
    if k == 0 {
        0
    } else {
        self_sum(d, (k - 1) as nat) + stage_self(d, k - 1)
    }
}

/// Share of stage `i` in all self errors (percent, millionths); zero unless
/// the self errors add up to a positive amount.
pub open spec fn contribution_spec(d: DynastyClepsydraConfig, i: int) -> int {
    let total = self_sum(d, d.configs@.len());
    if total > 0 {
        rdiv(stage_self(d, i) * 100_000_000, total)
    } else {
        0
    }
}

pub open spec fn stage_fits(d: DynastyClepsydraConfig, i: int) -> bool {
    &&& fits_i64(stage_level(d, i))
    &&& fits_i64(stage_self(d, i))
    &&& fits_i64(cascade_output(d, (i + 1) as nat))
    &&& fits_i64(self_sum(d, (i + 1) as nat))
}

/// Every value of the analysis of `d` is representable.
pub open spec fn cascade_fits(d: DynastyClepsydraConfig) -> bool {
    &&& forall|i: int| 0 <= i < d.configs@.len() ==> #[trigger] stage_fits(d, i)
    &&& forall|i: int| 0 <= i < d.configs@.len() ==> fits_i64(#[trigger] contribution_spec(d, i))
}

pub open spec fn node_spec(d: DynastyClepsydraConfig, i: int) -> ErrorTransferNode {
    ErrorTransferNode {
        stage_index: i as u32,
        clepsydra_id: d.configs@[i].clepsydra_id,
        input_error_seconds: cascade_output(d, i as nat) as i64,
        self_error_seconds: stage_self(d, i) as i64,
        output_error_seconds: cascade_output(d, (i + 1) as nat) as i64,
        amplification_factor: amp_spec(d.stage_count, i) as i64,
        contribution_percent: contribution_spec(d, i) as i64,
        water_level_cm: stage_level(d, i) as i64,
        flow_rate_mlps: d.configs@[i].standard_flow,
    }
}

/// Index of the last maximum among the first `k` values (0 when `k <= 1`).
pub open spec fn last_argmax(s: Seq<int>, k: nat) -> int
    decreases k,
{
    if k <= 1 {
        0
    } else {
        let j = last_argmax(s, (k - 1) as nat);
        if s[k - 1] >= s[j] {
            k - 1
        } else {
            j
        }
    }
}

pub open spec fn self_errors(d: DynastyClepsydraConfig) -> Seq<int> {
    Seq::new(d.configs@.len(), |i: int| stage_self(d, i))
}

/// The stage with the largest self error (the last one on ties).
pub open spec fn bottleneck_spec(d: DynastyClepsydraConfig) -> int {
    last_argmax(self_errors(d), d.configs@.len())
}

/// Why stage `b` is the bottleneck.
pub open spec fn reason_spec(d: DynastyClepsydraConfig) -> Seq<char> {
    if d.configs@.len() == 0 {
        "未知"@
    } else {
        let b = bottleneck_spec(d);
        let node = node_spec(d, b);
        let head = "第"@ + nat_text((b + 1) as nat) + "级"@ + node.clepsydra_id@;
        if node.water_level_cm < 30_000_000 {
            head + "水位偏低，水头不足导致流量稳定性差"@
        } else if node.amplification_factor > 1_300_000 {
            head + "误差放大系数过高（"@ + micro_text(node.amplification_factor as int, 2)
                + "x），需增加缓冲壶"@
        } else {
            head + "自身固有误差最大（"@ + micro_text(node.self_error_seconds as int, 2)
                + "s/日），建议优化孔口设计"@
        }
    }
}

/// Advice derived from the analysis.
pub open spec fn recommendations_spec(d: DynastyClepsydraConfig) -> Seq<Seq<char>> {
    let n = d.configs@.len();
    let b = bottleneck_spec(d);
    let more_stages: Seq<Seq<char>> = if d.stage_count < 4 {
        seq![
            "建议增加补偿壶级数至4级，可将误差再降低约"@ + nat_text(((4 - d.stage_count) * 15) as nat)
                + "%"@,
        ]
    } else {
        seq![]
    };
    let (bid, bshare): (Seq<char>, int) = if b < n {
        (d.configs@[b].clepsydra_id@, rdiv(contribution_spec(d, b) * 6, 10))
    } else {
        (Seq::empty(), 25_000_000)
    };
    let focus = "重点优化瓶颈级"@ + bid + "：采用漫流恒水位可减小误差约"@ + micro_text(bshare, 0)
        + "%"@;
    let cold: Seq<Seq<char>> = if d.typical_water_temp_c < 18_000_000 {
        seq!["当前典型水温偏低，建议将环境温度维持在20°C左右以优化流量系数"@]
    } else {
        seq![]
    };
    more_stages + seq![focus, "恒温装置：将水温控制在±1°C范围内，可减少粘性引起的约8%误差"@] + cold
}

/// `a` is the analysis of `d`.
pub open spec fn analysis_of(d: DynastyClepsydraConfig, a: ErrorTransferAnalysis) -> bool {
    let n = d.configs@.len();
    &&& a.nodes@.len() == n
    &&& forall|i: int| 0 <= i < n ==> #[trigger] a.nodes@[i] == node_spec(d, i)
    &&& a.total_error_seconds == cascade_output(d, n)
    &&& a.bottleneck_stage == bottleneck_spec(d)
    &&& a.bottleneck_reason@ == reason_spec(d)
    &&& a.recommendations@.map_values(|s: String| s@) == recommendations_spec(d)
    &&& a.compensation_potential_seconds == rdiv(cascade_output(d, n) * 35, 100)
}

fn inherent_error_bp(stages: u32, idx: u32) -> (r: i64)
    ensures
        r == inherent_error_spec(stages, idx as int),
        0 <= r <= 250,
{
    let n: u32 = if stages < 1 {
        1
    } else if stages > 4 {
        4
    } else {
        stages
    };
    if idx >= 4 {
        5
    } else if n == 1 {
        if idx == 0 {
            250
        } else {
            0
        }
    } else if n == 2 {
        if idx == 0 {
            80
        } else if idx == 1 {
            50
        } else {
            0
        }
    } else if n == 3 {
        if idx == 0 {
            35
        } else if idx == 1 {
            25
        } else if idx == 2 {
            18
        } else {
            0
        }
    } else {
        if idx == 0 {
            18
        } else if idx == 1 {
            12
        } else if idx == 2 {
            8
        } else {
            5
        }
    }
}

fn level_factor(level: i64) -> (r: i64)
    ensures
        r == level_factor_spec(level as int),
        9 <= r <= 13,
{
    if level < 30_000_000 {
        13
    } else if level > 70_000_000 {
        9
    } else {
        10
    }
}

fn amp_factor(stages: u32, idx: u32) -> (r: i64)
    ensures
        r == amp_spec(stages, idx as int),
        -0x10_0000_0000_0000 <= r <= 0x10_0000_0000_0000,
{
    if stages <= 1 {
        1_000_000
    } else {
        let q = div_round(
            (stages as i128 - 1 - idx as i128) * 450_000,
            stages as i128 - 1,
        );
        proof {
            lemma_rdiv_bound((stages as int - 1 - idx as int) * 450_000, stages as int - 1);
        }
        (1_000_000 + q) as i64
    }
}

/// Sum of the contributions of the first `k` nodes.
pub open spec fn contribution_sum(nodes: Seq<ErrorTransferNode>, k: nat) -> int
    decreases k,
{
    if k == 0 {
        0
    } else {
        contribution_sum(nodes, (k - 1) as nat) + nodes[k - 1].contribution_percent
    }
}

/// The first stage receives no error: the cascade starts clean.
pub proof fn law_first_stage_starts_clean(d: DynastyClepsydraConfig, a: ErrorTransferAnalysis)
    requires
        analysis_of(d, a),
        a.nodes@.len() > 0,
    ensures
        a.nodes@[0].input_error_seconds == 0,
{
    assert(a.nodes@[0] == node_spec(d, 0));
}

/// Each stage receives exactly what the stage above it passes on, and the
/// total error is what the last stage passes on.
pub proof fn law_stages_chain(d: DynastyClepsydraConfig, a: ErrorTransferAnalysis, i: int)
    requires
        cascade_fits(d),
        analysis_of(d, a),
        0 <= i < a.nodes@.len(),
    ensures
        i + 1 < a.nodes@.len() ==> a.nodes@[i + 1].input_error_seconds
            == a.nodes@[i].output_error_seconds,
        i + 1 == a.nodes@.len() ==> a.total_error_seconds == a.nodes@[i].output_error_seconds,
{
    assert(a.nodes@[i] == node_spec(d, i));
    assert(stage_fits(d, i));
    if i + 1 < a.nodes@.len() {
        assert(a.nodes@[i + 1] == node_spec(d, i + 1));
    }
}

/// Amplification never grows downstream.
pub proof fn law_amplification_falls_downstream(
    d: DynastyClepsydraConfig,
    a: ErrorTransferAnalysis,
    i: int,
    j: int,
)
    requires
        d.configs@.len() <= 0x1_0000_0000,
        analysis_of(d, a),
        0 <= i <= j < a.nodes@.len(),
    ensures
        a.nodes@[i].amplification_factor >= a.nodes@[j].amplification_factor,
{
    assert(a.nodes@[i] == node_spec(d, i));
    assert(a.nodes@[j] == node_spec(d, j));
    if d.stage_count > 1 {
        let n = d.stage_count as int;
        lemma_rdiv_monotone((n - 1 - j) * 450_000, (n - 1 - i) * 450_000, n - 1);
        lemma_rdiv_bound((n - 1 - i) * 450_000, n - 1);
        lemma_rdiv_bound((n - 1 - j) * 450_000, n - 1);
    }
}

/// A single vessel neither amplifies nor damps the error.
pub proof fn law_single_vessel_does_not_amplify(
    d: DynastyClepsydraConfig,
    a: ErrorTransferAnalysis,
    i: int,
)
    requires
        analysis_of(d, a),
        d.stage_count <= 1,
        0 <= i < a.nodes@.len(),
    ensures
        a.nodes@[i].amplification_factor == 1_000_000,
{
    assert(a.nodes@[i] == node_spec(d, i));
}

/// When the self errors add up to a positive amount, the contributions add
/// up to 100% within half a millionth of a percent per stage.
pub proof fn law_contributions_make_the_whole(d: DynastyClepsydraConfig, a: ErrorTransferAnalysis)
    requires
        cascade_fits(d),
        analysis_of(d, a),
        self_sum(d, d.configs@.len()) > 0,
    ensures
        -(a.nodes@.len() as int) <= 2 * contribution_sum(a.nodes@, a.nodes@.len()) - 200_000_000
            <= a.nodes@.len() as int,
{
    let n = d.configs@.len();
    let t = self_sum(d, n);
    lemma_contribution_partial(d, a, n);
    let c = contribution_sum(a.nodes@, n);
    assert(-(n as int) <= 2 * c - 200_000_000 <= n) by (nonlinear_arith)
        requires
            2 * 100_000_000 * t - n * t <= 2 * t * c <= 2 * 100_000_000 * t + n * t,
            t > 0,
    ;
}

proof fn lemma_contribution_partial(d: DynastyClepsydraConfig, a: ErrorTransferAnalysis, k: nat)
    requires
        cascade_fits(d),
        analysis_of(d, a),
        self_sum(d, d.configs@.len()) > 0,
        k <= d.configs@.len(),
    ensures
        2 * 100_000_000 * self_sum(d, k) - k * self_sum(d, d.configs@.len()) <= 2 * self_sum(
            d,
            d.configs@.len(),
        ) * contribution_sum(a.nodes@, k) <= 2 * 100_000_000 * self_sum(d, k) + k * self_sum(
            d,
            d.configs@.len(),
        ),
    decreases k,
{
    let t = self_sum(d, d.configs@.len());
    if k > 0 {
        let j = k - 1;
        lemma_contribution_partial(d, a, j as nat);
        assert(a.nodes@[j] == node_spec(d, j));
        assert(fits_i64(contribution_spec(d, j)));
        lemma_rdiv_within_half(stage_self(d, j) * 100_000_000, t);
        let cj = contribution_spec(d, j);
        assert(a.nodes@[j].contribution_percent == cj);
        let pc = contribution_sum(a.nodes@, j as nat);
        let ps = self_sum(d, j as nat);
        let sj = stage_self(d, j);
        let jj = j as int;
        assert(2 * 100_000_000 * (ps + sj) - (jj + 1) * t <= 2 * t * (pc + cj) <= 2 * 100_000_000
            * (ps + sj) + (jj + 1) * t) by (nonlinear_arith)
            requires
                2 * 100_000_000 * ps - jj * t <= 2 * t * pc <= 2 * 100_000_000 * ps + jj * t,
                2 * (sj * 100_000_000) - t < 2 * t * cj <= 2 * (sj * 100_000_000) + t,
        ;
        assert(contribution_sum(a.nodes@, k) == pc + cj);
        assert(self_sum(d, k) == self_sum(d, j as nat) + stage_self(d, j));
    }
}

/// The last maximum is a maximum, and every later value is smaller.
pub proof fn lemma_last_argmax(s: Seq<int>, k: nat)
    requires
        1 <= k <= s.len(),
    ensures
        0 <= last_argmax(s, k) < k,
        forall|i: int| 0 <= i < k ==> #[trigger] s[i] <= s[last_argmax(s, k)],
        forall|i: int| last_argmax(s, k) < i < k ==> #[trigger] s[i] < s[last_argmax(s, k)],
    decreases k,
{
    if k > 1 {
        lemma_last_argmax(s, (k - 1) as nat);
    }
}

/// The bottleneck is the stage with the largest self error, and no later
/// stage has as large a one.
pub proof fn law_bottleneck_is_the_largest(d: DynastyClepsydraConfig, a: ErrorTransferAnalysis, i: int)
    requires
        cascade_fits(d),
        analysis_of(d, a),
        0 <= i < a.nodes@.len(),
    ensures
        a.nodes@[i].self_error_seconds <= a.nodes@[a.bottleneck_stage as int].self_error_seconds,
        i > a.bottleneck_stage ==> a.nodes@[i].self_error_seconds
            < a.nodes@[a.bottleneck_stage as int].self_error_seconds,
{
    let n = d.configs@.len();
    lemma_last_argmax(self_errors(d), n);
    let b = bottleneck_spec(d);
    assert(a.nodes@[i] == node_spec(d, i));
    assert(a.nodes@[b] == node_spec(d, b));
    assert(stage_fits(d, i));
    assert(stage_fits(d, b));
    assert(self_errors(d)[i] == stage_self(d, i));
    assert(self_errors(d)[b] == stage_self(d, b));
}

#[derive(Debug, Clone)]
pub struct CascadeErrorAnalyzer;

impl CascadeErrorAnalyzer {
    pub fn new() -> (r: Self)
        ensures
            r == CascadeErrorAnalyzer,
    {
        CascadeErrorAnalyzer
    }

    /// Propagates the documented daily error of `dynasty` through its vessels.
    /// Fails only when a value leaves the fixed-point range.
    pub fn analyze(&self, dynasty: &DynastyClepsydraConfig) -> (r: Result<
        ErrorTransferAnalysis,
        AnalysisError,
    >)
        requires
            dynasty.configs@.len() <= 0x1_0000_0000,
        ensures
            r is Ok <==> cascade_fits(*dynasty),
            r matches Ok(a) ==> analysis_of(*dynasty, a),
    {
        let ghost d = *dynasty;
        let n = dynasty.configs.len();
        let stages = dynasty.stage_count;
        let base = dynasty.historical_daily_error_seconds;
        let clamped: u32 = if stages < 1 {
            1
        } else {
            stages
        };
        let sq = isqrt(clamped as u128 * 1_000_000_000_000u128);
        proof {
            assert(sq as int == sqrt_scale(stages));
            assert(sq >= 1_000_000) by {
                if sq < 1_000_000 {
                    assert((sq + 1) * (sq + 1) <= 1_000_000_000_000) by (nonlinear_arith)
                        requires
                            0 <= sq < 1_000_000,
                    ;
                }
            }
        }
        let mut levels: Vec<i64> = Vec::new();
        let mut selfs: Vec<i64> = Vec::new();
        let mut inputs: Vec<i64> = Vec::new();
        let mut outputs: Vec<i64> = Vec::new();
        let mut amps: Vec<i64> = Vec::new();
        let mut cumulative: i64 = 0;
        let mut total_self: i64 = 0;
        let mut i: usize = 0;
        while i < n
            invariant
                d == *dynasty,
                n == d.configs@.len(),
                n <= 0x1_0000_0000,
                0 <= i <= n,
                stages == d.stage_count,
                base == d.historical_daily_error_seconds,
                sq == sqrt_scale(stages),
                sq >= 1_000_000,
                cumulative == cascade_output(d, i as nat),
                total_self == self_sum(d, i as nat),
                levels@.len() == i,
                selfs@.len() == i,
                inputs@.len() == i,
                outputs@.len() == i,
                amps@.len() == i,
                forall|j: int| 0 <= j < i ==> #[trigger] stage_fits(d, j),
                forall|j: int| 0 <= j < i ==> #[trigger] levels@[j] == stage_level(d, j),
                forall|j: int| 0 <= j < i ==> #[trigger] selfs@[j] == stage_self(d, j),
                forall|j: int| 0 <= j < i ==> #[trigger] inputs@[j] == cascade_output(d, j as nat),
                forall|j: int|
                    0 <= j < i ==> #[trigger] outputs@[j] == cascade_output(d, (j + 1) as nat),
                forall|j: int| 0 <= j < i ==> #[trigger] amps@[j] == amp_spec(stages, j),
            decreases n - i,
        {
            let cfg = &dynasty.configs[i];
            let span = div_round((cfg.max_level as i128 - cfg.min_level as i128) * 7, 10);
            let lvl = match narrow(cfg.min_level as i128 + span) {
                Some(v) => v,
                None => {
                    assert(!stage_fits(d, i as int));
                    return Err(AnalysisError::OutOfRange);
                },
            };
            let bp = inherent_error_bp(stages, i as u32);
            let lf = level_factor(lvl);
            let weight = bp * lf * 10;
            proof {
                assert(0 <= weight <= 32500) by (nonlinear_arith)
                    requires
                        0 <= bp <= 250,
                        9 <= lf <= 13,
                        weight == bp * lf * 10,
                ;
                lemma_mul_bound(base as int, weight as int, 0x8000_0000_0000_0000, 32500);
                assert(base as int * weight as int == base as int * bp as int * lf as int * 10)
                    by (nonlinear_arith)
                    requires
                        weight == bp * lf * 10,
                ;
            }
            let se = match narrow(div_round(base as i128 * weight as i128, sq as i128)) {
                Some(v) => v,
                None => {
                    assert(!stage_fits(d, i as int));
                    return Err(AnalysisError::OutOfRange);
                },
            };
            let amp = amp_factor(stages, i as u32);
            proof {
                lemma_mul_bound(
                    cumulative as int + se as int,
                    amp as int,
                    0x1_0000_0000_0000_0000,
                    0x10_0000_0000_0000,
                );
            }
            let out = match narrow(
                div_round((cumulative as i128 + se as i128) * amp as i128, 1_000_000),
            ) {
                Some(v) => v,
                None => {
                    assert(!stage_fits(d, i as int));
                    return Err(AnalysisError::OutOfRange);
                },
            };
            let ts = match narrow(total_self as i128 + se as i128) {
                Some(v) => v,
                None => {
                    assert(!stage_fits(d, i as int));
                    return Err(AnalysisError::OutOfRange);
                },
            };
            assert(stage_fits(d, i as int));
            levels.push(lvl);
            selfs.push(se);
            inputs.push(cumulative);
            outputs.push(out);
            amps.push(amp);
            cumulative = out;
            total_self = ts;
            i = i + 1;
        }
        proof {
            assert(total_self == self_sum(d, n as nat));
            assert(cumulative == cascade_output(d, n as nat));
        }
        // Share of each stage in the summed self errors.
        let mut nodes: Vec<ErrorTransferNode> = Vec::new();
        let mut k: usize = 0;
        while k < n
            invariant
                d == *dynasty,
                n == d.configs@.len(),
                n <= 0x1_0000_0000,
                0 <= k <= n,
                stages == d.stage_count,
                total_self == self_sum(d, n as nat),
                levels@.len() == n,
                selfs@.len() == n,
                inputs@.len() == n,
                outputs@.len() == n,
                amps@.len() == n,
                forall|j: int| 0 <= j < n ==> #[trigger] stage_fits(d, j),
                forall|j: int| 0 <= j < n ==> #[trigger] levels@[j] == stage_level(d, j),
                forall|j: int| 0 <= j < n ==> #[trigger] selfs@[j] == stage_self(d, j),
                forall|j: int| 0 <= j < n ==> #[trigger] inputs@[j] == cascade_output(d, j as nat),
                forall|j: int|
                    0 <= j < n ==> #[trigger] outputs@[j] == cascade_output(d, (j + 1) as nat),
                forall|j: int| 0 <= j < n ==> #[trigger] amps@[j] == amp_spec(stages, j),
                nodes@.len() == k,
                forall|j: int| 0 <= j < k ==> fits_i64(#[trigger] contribution_spec(d, j)),
                forall|j: int| 0 <= j < k ==> #[trigger] nodes@[j] == node_spec(d, j),
            decreases n - k,
        {
            let contribution: i64 = if total_self > 0 {
                proof {
                    lemma_mul_bound(
                        selfs@[k as int] as int,
                        100_000_000,
                        0x8000_0000_0000_0000,
                        100_000_000,
                    );
                }
                match narrow(
                    div_round(selfs[k] as i128 * 100_000_000, total_self as i128),
                ) {
                    Some(v) => v,
                    None => {
                        assert(!fits_i64(contribution_spec(d, k as int)));
                        return Err(AnalysisError::OutOfRange);
                    },
                }
            } else {
                0
            };
            assert(contribution == contribution_spec(d, k as int));
            let node = ErrorTransferNode {
                stage_index: k as u32,
                clepsydra_id: dynasty.configs[k].clepsydra_id.clone(),
                input_error_seconds: inputs[k],
                self_error_seconds: selfs[k],
                output_error_seconds: outputs[k],
                amplification_factor: amps[k],
                contribution_percent: contribution,
                water_level_cm: levels[k],
                flow_rate_mlps: dynasty.configs[k].standard_flow,
            };
            assert(node == node_spec(d, k as int));
            nodes.push(node);
            k = k + 1;
        }
        assert(cascade_fits(d));
        // The stage with the largest self error, the last one on ties.
        let mut best: usize = 0;
        let mut m: usize = 1;
        while m < n
            invariant
                d == *dynasty,
                n == d.configs@.len(),
                1 <= m <= n || n == 0,
                n == 0 ==> best == 0,
                selfs@.len() == n,
                forall|j: int| 0 <= j < n ==> #[trigger] selfs@[j] == stage_self(d, j),
                best < m || n == 0,
                best == last_argmax(self_errors(d), m as nat),
            decreases n - m,
        {
            if selfs[m] >= selfs[best] {
                best = m;
            }
            m = m + 1;
        }
        proof {
            if n == 0 {
                assert(bottleneck_spec(d) == 0);
            } else {
                assert(m == n);
            }
        }
        assert(best as int == bottleneck_spec(d));
        let reason: String = if n == 0 {
            String::from_str("未知")
        } else {
            let mut t = String::from_str("第");
            push_nat(&mut t, (best + 1) as u64);
            t.append("级");
            t.append(dynasty.configs[best].clepsydra_id.as_str());
            let ghost head = t@;
            if levels[best] < 30_000_000 {
                t.append("水位偏低，水头不足导致流量稳定性差");
            } else if amps[best] > 1_300_000 {
                t.append("误差放大系数过高（");
                let amp_text = micro_string(amps[best], 2);
                t.append(amp_text.as_str());
                t.append("x），需增加缓冲壶");
            } else {
                t.append("自身固有误差最大（");
                let self_text = micro_string(selfs[best], 2);
                t.append(self_text.as_str());
                t.append("s/日），建议优化孔口设计");
            }
            t
        };
        assert(reason@ == reason_spec(d));
        let mut recommendations: Vec<String> = Vec::new();
        if stages < 4 {
            let mut t = String::from_str("建议增加补偿壶级数至4级，可将误差再降低约");
            push_nat(&mut t, ((4 - stages) * 15) as u64);
            t.append("%");
            recommendations.push(t);
        }
        let ghost first = recommendations@.map_values(|s: String| s@);
        let mut focus = String::from_str("重点优化瓶颈级");
        let share: i64 = if best < n {
            focus.append(dynasty.configs[best].clepsydra_id.as_str());
            let c = nodes[best].contribution_percent;
            proof {
                assert(c == contribution_spec(d, best as int));
                lemma_rdiv_scaled(c as int, 6, 10);
            }
            div_round(c as i128 * 6, 10) as i64
        } else {
            25_000_000
        };
        focus.append("：采用漫流恒水位可减小误差约");
        let share_text = micro_string(share, 0);
        focus.append(share_text.as_str());
        focus.append("%");
        recommendations.push(focus);
        recommendations.push(String::from_str("恒温装置：将水温控制在±1°C范围内，可减少粘性引起的约8%误差"));
        if dynasty.typical_water_temp_c < 18_000_000 {
            recommendations.push(
                String::from_str("当前典型水温偏低，建议将环境温度维持在20°C左右以优化流量系数"),
            );
        }
        assert(recommendations@.map_values(|s: String| s@) =~= recommendations_spec(d));
        proof {
            lemma_rdiv_scaled(cumulative as int, 35, 100);
        }
        let compensation = div_round(cumulative as i128 * 35, 100) as i64;
        let analysis = ErrorTransferAnalysis {
            total_error_seconds: cumulative,
            nodes,
            bottleneck_stage: best as u32,
            bottleneck_reason: reason,
            recommendations,
            compensation_potential_seconds: compensation,
        };
        Ok(analysis)
    }
}

/// An analysis depends on the design alone: two analyses of one design
/// agree stage by stage and in every total, bottleneck and recommendation.
pub proof fn law_analysis_depends_only_on_the_design(
    d: DynastyClepsydraConfig,
    a: ErrorTransferAnalysis,
    b: ErrorTransferAnalysis,
)
    requires
        analysis_of(d, a),
        analysis_of(d, b),
    ensures
        a.nodes@ == b.nodes@,
        a.total_error_seconds == b.total_error_seconds,
        a.bottleneck_stage == b.bottleneck_stage,
        a.bottleneck_reason@ == b.bottleneck_reason@,
        a.recommendations@.map_values(|s: String| s@) == b.recommendations@.map_values(
            |s: String| s@,
        ),
        a.compensation_potential_seconds == b.compensation_potential_seconds,
{
    assert(a.nodes@ =~= b.nodes@) by {
        assert forall|i: int| 0 <= i < a.nodes@.len() implies a.nodes@[i] == b.nodes@[i] by {
            assert(a.nodes@[i] == node_spec(d, i));
            assert(b.nodes@[i] == node_spec(d, i));
        }
    }
}

/// The compensation potential is 35% of the analysis's own total error,
/// the amplified error that leaves the last stage, rounded to the nearest
/// millionth: `100 * potential` lies within 50 of `35 * total`.
pub proof fn law_compensation_is_35_percent_of_the_total(d: DynastyClepsydraConfig, a: ErrorTransferAnalysis)
    requires
        analysis_of(d, a),
    ensures
        a.compensation_potential_seconds == rdiv(a.total_error_seconds * 35, 100),
        35 * a.total_error_seconds - 50 < 100 * a.compensation_potential_seconds <= 35
            * a.total_error_seconds + 50,
{
    lemma_rdiv_within_half(a.total_error_seconds * 35, 100);
}

} // verus!
