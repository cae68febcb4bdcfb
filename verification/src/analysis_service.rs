//! The analysis service: the built-in designs and timepieces looked up by
//! id, and the analyses it runs on them with the hydraulics of their vessels.
use vstd::prelude::*;

use crate::cascade_error_analyzer::{last_argmax, lemma_last_argmax, stage_level};
use crate::catalog::{
    default_dynasties, default_dynasties_spec, default_modern_timepieces, default_timepieces_spec,
};
use crate::chronometry_comparator::{cross_era_fits, cross_era_is, ChronometryComparator};
use crate::era_precision_comparator::{
    comparison_fits, comparison_is, compare_with_errors, copy_dynasty,
    dynasty_daily_error_spec, same_dynasty, EraPrecisionComparator,
};
use crate::vr_clepsydra::{
    last_with_id, planned, prepare_virtual_operation, simulate, simulation_fits,
    simulation_result_is, SimulationProfile, VirtualOperationError,
};
use crate::fixed::{
    div_round, fits_i64, lemma_mul_bound, lemma_rdiv_bound, lemma_rdiv_scaled, lemma_rdiv_within_half, narrow, quotient_micro, quotient_micro_exec_wide,
    rdiv,
};
use crate::models::{
    AnalysisError, ClepsydraConfig, CrossEraComparison, DynastyClepsydraConfig,
    DynastyComparison, ErrorTransferAnalysis, ErrorTransferNode, ModernTimepiece,
    StageHydraulics, VirtualOperationRequest, VirtualOperationResult,
};
use crate::text::{micro_string, micro_text, nat_text, push_nat, str_eq};

verus! {

/// Inherent error of stage `idx` in a cascade of `stages` vessels, in
/// hundredths of a percent of its flow.
pub open spec fn stage_inherent_bp(stages: u32, idx: int) -> int {
    if stages <= 1 {
        250
    } else if stages == 2 {
        if idx == 0 {
            80
        } else {
            50
        }
    } else if stages == 3 {
        if idx == 0 {
            35
        } else if idx == 1 {
            25
        } else {
            18
        }
    } else {
        if idx == 0 {
            18
        } else if idx == 1 {
            12
        } else if idx == 2 {
            8
        } else {
            5
        }
    }
}

/// The flow a vessel loses to its inherent error (mL/s, millionths).
pub open spec fn inherent_deviation(h: StageHydraulics, stages: u32, idx: int) -> int {
    rdiv(h.theoretical_flow * stage_inherent_bp(stages, idx), 10_000)
}

/// The lost flow plus the evaporation, over the flow, for a whole day
/// (s, millionths); meaningful only with a flow.
pub open spec fn vessel_day_error(h: StageHydraulics, stages: u32, idx: int) -> int {
    quotient_micro(
        (inherent_deviation(h, stages, idx) + h.evaporation) * 86_400,
        h.theoretical_flow as int,
    )->0
}

/// Self error of stage `idx` (s/day, millionths): its day error shared over
/// the stage count.
pub open spec fn hydraulic_self_error(h: StageHydraulics, stages: u32, idx: int) -> int {
    rdiv(vessel_day_error(h, stages, idx), stages as int)
}

/// Amplification of stage `idx` (millionths): 1 at the last stage of the
/// count, 0.15 more for each stage above it.
pub open spec fn stage_amp(stages: u32, idx: int) -> int {
    1_000_000 + (stages - 1 - idx) * 150_000
}

pub open spec fn transfer_self(d: DynastyClepsydraConfig, h: Seq<StageHydraulics>, i: int) -> int {
    hydraulic_self_error(h[i], d.stage_count, i)
}

/// Error leaving the first `k` stages.
pub open spec fn transfer_output(d: DynastyClepsydraConfig, h: Seq<StageHydraulics>, k: nat) -> int
    decreases k,
{
    if k == 0 {
        0
    } else {
        let i = k - 1;
        rdiv(
            (transfer_output(d, h, (k - 1) as nat) + transfer_self(d, h, i)) * stage_amp(
                d.stage_count,
                i,
            ),
            1_000_000,
        )
    }
}

/// Sum of the self errors of the first `k` stages.
pub open spec fn transfer_self_sum(d: DynastyClepsydraConfig, h: Seq<StageHydraulics>, k: nat) -> int
    decreases k,
{
    if k == 0 {
        0
    } else {
        transfer_self_sum(d, h, (k - 1) as nat) + transfer_self(d, h, k - 1)
    }
}

/// Share of stage `i` in all self errors (percent, millionths); zero unless
/// the self errors add up to a positive amount.
pub open spec fn transfer_contribution(d: DynastyClepsydraConfig, h: Seq<StageHydraulics>, i: int) -> int {
    let total = transfer_self_sum(d, h, d.configs@.len());
    if total > 0 {
        rdiv(transfer_self(d, h, i) * 100_000_000, total)
    } else {
        0
    }
}

/// Stage `i` has a flow and stages to share over, and its values are
/// representable.
pub open spec fn transfer_stage_fits(d: DynastyClepsydraConfig, h: Seq<StageHydraulics>, i: int) -> bool {
    &&& h[i].theoretical_flow != 0
    &&& d.stage_count != 0
    &&& fits_i64(stage_level(d, i))
    &&& fits_i64(inherent_deviation(h[i], d.stage_count, i))
    &&& fits_i64(vessel_day_error(h[i], d.stage_count, i))
    &&& fits_i64(transfer_output(d, h, (i + 1) as nat))
    &&& fits_i64(transfer_self_sum(d, h, (i + 1) as nat))
}

/// Every value of the analysis of `d` with hydraulics `h` is representable.
pub open spec fn transfer_fits(d: DynastyClepsydraConfig, h: Seq<StageHydraulics>) -> bool {
    &&& forall|i: int| 0 <= i < d.configs@.len() ==> #[trigger] transfer_stage_fits(d, h, i)
    &&& forall|i: int|
        0 <= i < d.configs@.len() ==> fits_i64(#[trigger] transfer_contribution(d, h, i))
}

pub open spec fn transfer_node(d: DynastyClepsydraConfig, h: Seq<StageHydraulics>, i: int) -> ErrorTransferNode {
    ErrorTransferNode {
        stage_index: i as u32,
        clepsydra_id: d.configs@[i].clepsydra_id,
        input_error_seconds: transfer_output(d, h, i as nat) as i64,
        self_error_seconds: transfer_self(d, h, i) as i64,
        output_error_seconds: transfer_output(d, h, (i + 1) as nat) as i64,
        amplification_factor: stage_amp(d.stage_count, i) as i64,
        contribution_percent: transfer_contribution(d, h, i) as i64,
        water_level_cm: stage_level(d, i) as i64,
        flow_rate_mlps: h[i].theoretical_flow,
    }
}

pub open spec fn transfer_selfs(d: DynastyClepsydraConfig, h: Seq<StageHydraulics>) -> Seq<int> {
    Seq::new(d.configs@.len(), |i: int| transfer_self(d, h, i))
}

/// The stage with the largest self error (the last one on ties).
pub open spec fn transfer_bottleneck(d: DynastyClepsydraConfig, h: Seq<StageHydraulics>) -> int {
    last_argmax(transfer_selfs(d, h), d.configs@.len())
}

/// Why the bottleneck stage is the bottleneck.
pub open spec fn transfer_reason(d: DynastyClepsydraConfig, h: Seq<StageHydraulics>) -> Seq<char> {
    if d.configs@.len() == 0 {
        "未知"@
    } else {
        let b = transfer_bottleneck(d, h);
        let node = transfer_node(d, h, b);
        let head = "第"@ + nat_text((b + 1) as nat) + "级"@ + node.clepsydra_id@;
        if node.water_level_cm < 30_000_000 {
            head + "水位偏低，水头不足导致流量稳定性差"@
        } else if node.amplification_factor > 1_200_000 {
            head + "误差放大系数过高（"@ + micro_text(node.amplification_factor as int, 2)
                + "x），需增加缓冲"@
        } else {
            head + "自身固有误差最大（"@ + micro_text(node.self_error_seconds as int, 2)
                + "s/日），建议优化孔口设计"@
        }
    }
}

/// Advice derived from the analysis.
pub open spec fn transfer_recommendations(d: DynastyClepsydraConfig, h: Seq<StageHydraulics>) -> Seq<
    Seq<char>,
> {
    let n = d.configs@.len();
    let b = transfer_bottleneck(d, h);
    let more_stages: Seq<Seq<char>> = if d.stage_count < 4 {
        seq![
            "建议增加补偿壶级数至4级，可将误差再降低约"@ + nat_text(((4 - d.stage_count) * 15) as nat)
                + "%"@,
        ]
    } else {
        seq![]
    };
    let (bid, bshare): (Seq<char>, int) = if b < n {
        (d.configs@[b].clepsydra_id@, rdiv(transfer_contribution(d, h, b) * 6, 10))
    } else {
        (Seq::empty(), 25_000_000)
    };
    let focus = "重点优化瓶颈级"@ + bid + "：采用漫流恒水位可减小误差约"@ + micro_text(bshare, 0)
        + "%"@;
    let cold: Seq<Seq<char>> = if d.typical_water_temp_c < 18_000_000 {
        seq!["当前典型水温偏低，建议将环境温度维持在20°C左右以优化流量系数"@]
    } else {
        seq![]
    };
    more_stages + seq![focus, "恒温装置：将水温控制在±1°C范围内，可减少粘性引起的约8%误差"@] + cold
}

/// `a` is the analysis of `d` with the hydraulics `h` of its vessels.
pub open spec fn transfer_analysis_of(
    d: DynastyClepsydraConfig,
    h: Seq<StageHydraulics>,
    a: ErrorTransferAnalysis,
) -> bool {
    let n = d.configs@.len();
    &&& a.nodes@.len() == n
    &&& forall|i: int| 0 <= i < n ==> #[trigger] a.nodes@[i] == transfer_node(d, h, i)
    &&& a.total_error_seconds == transfer_output(d, h, n)
    &&& a.bottleneck_stage == transfer_bottleneck(d, h)
    &&& a.bottleneck_reason@ == transfer_reason(d, h)
    &&& a.recommendations@.map_values(|s: String| s@) == transfer_recommendations(d, h)
    &&& a.compensation_potential_seconds == rdiv(transfer_output(d, h, n) * 35, 100)
}

fn inherent_bp(stages: u32, idx: u32) -> (r: i64)
    ensures
        r == stage_inherent_bp(stages, idx as int),
        5 <= r <= 250,
{
    if stages <= 1 {
        250
    } else if stages == 2 {
        if idx == 0 {
            80
        } else {
            50
        }
    } else if stages == 3 {
        if idx == 0 {
            35
        } else if idx == 1 {
            25
        } else {
            18
        }
    } else {
        if idx == 0 {
            18
        } else if idx == 1 {
            12
        } else if idx == 2 {
            8
        } else {
            5
        }
    }
}

/// The self error of stage `idx`, when the vessel has a flow, there are
/// stages to share over, and the values are representable.
fn self_error_exec(h: StageHydraulics, stages: u32, idx: u32) -> (r: Option<i64>)
    ensures
        r is Some <==> {
            &&& h.theoretical_flow != 0
            &&& stages != 0
            &&& fits_i64(inherent_deviation(h, stages, idx as int))
            &&& fits_i64(vessel_day_error(h, stages, idx as int))
        },
        r matches Some(e) ==> e == hydraulic_self_error(h, stages, idx as int),
{
    if h.theoretical_flow == 0 || stages == 0 {
        return None;
    }
    let bp = inherent_bp(stages, idx);
    proof {
        lemma_mul_bound(h.theoretical_flow as int, bp as int, 0x8000_0000_0000_0000, 250);
    }
    let deviation = narrow(div_round(h.theoretical_flow as i128 * bp as i128, 10_000))?;
    let day = quotient_micro_exec_wide(
        (deviation as i128 + h.evaporation as i128) * 86_400,
        h.theoretical_flow,
    )?;
    proof {
        lemma_rdiv_bound(day as int, stages as int);
    }
    Some(div_round(day as i128, stages as i128) as i64)
}

/// Propagates the error of `dynasty` through its vessels, each with the
/// hydraulics `hydraulics[i]` at its working level: each stage's self error
/// comes from its inherent loss and evaporation over its flow, and what it
/// passes on is amplified by 0.15 for each stage below it. Fails when a
/// vessel has no flow, the design has no stages, or a value leaves the
/// fixed-point range.
pub fn transfer_analysis(
    dynasty: &DynastyClepsydraConfig,
    hydraulics: &[StageHydraulics],
) -> (r: Result<ErrorTransferAnalysis, AnalysisError>)
    requires
        hydraulics@.len() == dynasty.configs@.len(),
        dynasty.configs@.len() <= 0x1_0000_0000,
    ensures
        r is Ok <==> transfer_fits(*dynasty, hydraulics@),
        r matches Ok(a) ==> transfer_analysis_of(*dynasty, hydraulics@, a),
{
    let ghost d = *dynasty;
    let ghost hs = hydraulics@;
    let n = dynasty.configs.len();
    let stages = dynasty.stage_count;
    let mut levels: Vec<i64> = Vec::new();
    let mut selfs: Vec<i64> = Vec::new();
    let mut inputs: Vec<i64> = Vec::new();
    let mut outputs: Vec<i64> = Vec::new();
    let mut amps: Vec<i64> = Vec::new();
    let mut cumulative: i64 = 0;
    let mut total_self: i64 = 0;
    let mut i: usize = 0;
    while i < n
        invariant
            d == *dynasty,
            hs == hydraulics@,
            n == d.configs@.len(),
            n == hs.len(),
            n <= 0x1_0000_0000,
            0 <= i <= n,
            stages == d.stage_count,
            cumulative == transfer_output(d, hs, i as nat),
            total_self == transfer_self_sum(d, hs, i as nat),
            levels@.len() == i,
            selfs@.len() == i,
            inputs@.len() == i,
            outputs@.len() == i,
            amps@.len() == i,
            forall|j: int| 0 <= j < i ==> #[trigger] transfer_stage_fits(d, hs, j),
            forall|j: int| 0 <= j < i ==> #[trigger] levels@[j] == stage_level(d, j),
            forall|j: int| 0 <= j < i ==> #[trigger] selfs@[j] == transfer_self(d, hs, j),
            forall|j: int| 0 <= j < i ==> #[trigger] inputs@[j] == transfer_output(d, hs, j as nat),
            forall|j: int|
                0 <= j < i ==> #[trigger] outputs@[j] == transfer_output(d, hs, (j + 1) as nat),
            forall|j: int| 0 <= j < i ==> #[trigger] amps@[j] == stage_amp(stages, j),
        decreases n - i,
    {
        let cfg = &dynasty.configs[i];
        proof {
            lemma_rdiv_bound((cfg.max_level - cfg.min_level) * 7, 10);
        }
        let span = div_round((cfg.max_level as i128 - cfg.min_level as i128) * 7, 10);
        let lvl = match narrow(cfg.min_level as i128 + span) {
            Some(v) => v,
            None => {
                assert(!transfer_stage_fits(d, hs, i as int));
                return Err(AnalysisError::OutOfRange);
            },
        };
        let se = match self_error_exec(hydraulics[i], stages, i as u32) {
            Some(v) => v,
            None => {
                assert(!transfer_stage_fits(d, hs, i as int));
                return Err(AnalysisError::OutOfRange);
            },
        };
        let amp = (1_000_000 + (stages as i128 - 1 - i as i128) * 150_000) as i64;
        proof {
            lemma_mul_bound(
                cumulative as int + se as int,
                amp as int,
                0x1_0000_0000_0000_0000,
                0x10_0000_0000_0000,
            );
        }
        let out = match narrow(div_round((cumulative as i128 + se as i128) * amp as i128, 1_000_000)) {
            Some(v) => v,
            None => {
                assert(!transfer_stage_fits(d, hs, i as int));
                return Err(AnalysisError::OutOfRange);
            },
        };
        let ts = match narrow(total_self as i128 + se as i128) {
            Some(v) => v,
            None => {
                assert(!transfer_stage_fits(d, hs, i as int));
                return Err(AnalysisError::OutOfRange);
            },
        };
        assert(transfer_stage_fits(d, hs, i as int));
        levels.push(lvl);
        selfs.push(se);
        inputs.push(cumulative);
        outputs.push(out);
        amps.push(amp);
        cumulative = out;
        total_self = ts;
        i = i + 1;
    }
    let mut nodes: Vec<ErrorTransferNode> = Vec::new();
    let mut k: usize = 0;
    while k < n
        invariant
            d == *dynasty,
            hs == hydraulics@,
            n == d.configs@.len(),
            n == hs.len(),
            n <= 0x1_0000_0000,
            0 <= k <= n,
            stages == d.stage_count,
            total_self == transfer_self_sum(d, hs, n as nat),
            levels@.len() == n,
            selfs@.len() == n,
            inputs@.len() == n,
            outputs@.len() == n,
            amps@.len() == n,
            forall|j: int| 0 <= j < n ==> #[trigger] transfer_stage_fits(d, hs, j),
            forall|j: int| 0 <= j < n ==> #[trigger] levels@[j] == stage_level(d, j),
            forall|j: int| 0 <= j < n ==> #[trigger] selfs@[j] == transfer_self(d, hs, j),
            forall|j: int| 0 <= j < n ==> #[trigger] inputs@[j] == transfer_output(d, hs, j as nat),
            forall|j: int|
                0 <= j < n ==> #[trigger] outputs@[j] == transfer_output(d, hs, (j + 1) as nat),
            forall|j: int| 0 <= j < n ==> #[trigger] amps@[j] == stage_amp(stages, j),
            nodes@.len() == k,
            forall|j: int| 0 <= j < k ==> fits_i64(#[trigger] transfer_contribution(d, hs, j)),
            forall|j: int| 0 <= j < k ==> #[trigger] nodes@[j] == transfer_node(d, hs, j),
        decreases n - k,
    {
        let contribution: i64 = if total_self > 0 {
            proof {
                lemma_mul_bound(
                    selfs@[k as int] as int,
                    100_000_000,
                    0x8000_0000_0000_0000,
                    100_000_000,
                );
            }
            match narrow(div_round(selfs[k] as i128 * 100_000_000, total_self as i128)) {
                Some(v) => v,
                None => {
                    assert(!fits_i64(transfer_contribution(d, hs, k as int)));
                    return Err(AnalysisError::OutOfRange);
                },
            }
        } else {
            0
        };
        assert(contribution == transfer_contribution(d, hs, k as int));
        let node = ErrorTransferNode {
            stage_index: k as u32,
            clepsydra_id: dynasty.configs[k].clepsydra_id.clone(),
            input_error_seconds: inputs[k],
            self_error_seconds: selfs[k],
            output_error_seconds: outputs[k],
            amplification_factor: amps[k],
            contribution_percent: contribution,
            water_level_cm: levels[k],
            flow_rate_mlps: hydraulics[k].theoretical_flow,
        };
        assert(node == transfer_node(d, hs, k as int));
        nodes.push(node);
        k = k + 1;
    }
    assert(transfer_fits(d, hs));
    let mut best: usize = 0;
    let mut m: usize = 1;
    while m < n
        invariant
            d == *dynasty,
            hs == hydraulics@,
            n == d.configs@.len(),
            1 <= m <= n || n == 0,
            n == 0 ==> best == 0,
            selfs@.len() == n,
            forall|j: int| 0 <= j < n ==> #[trigger] selfs@[j] == transfer_self(d, hs, j),
            best < m || n == 0,
            best == last_argmax(transfer_selfs(d, hs), m as nat),
        decreases n - m,
    {
        if selfs[m] >= selfs[best] {
            best = m;
        }
        m = m + 1;
    }
    proof {
        if n != 0 {
            assert(m == n);
        }
    }
    assert(best as int == transfer_bottleneck(d, hs));
    let reason: String = if n == 0 {
        String::from_str("未知")
    } else {
        let mut t = String::from_str("第");
        push_nat(&mut t, (best + 1) as u64);
        t.append("级");
        t.append(dynasty.configs[best].clepsydra_id.as_str());
        if levels[best] < 30_000_000 {
            t.append("水位偏低，水头不足导致流量稳定性差");
        } else if amps[best] > 1_200_000 {
            t.append("误差放大系数过高（");
            let amp_text = micro_string(amps[best], 2);
            t.append(amp_text.as_str());
            t.append("x），需增加缓冲");
        } else {
            t.append("自身固有误差最大（");
            let self_text = micro_string(selfs[best], 2);
            t.append(self_text.as_str());
            t.append("s/日），建议优化孔口设计");
        }
        t
    };
    assert(reason@ == transfer_reason(d, hs));
    let mut recommendations: Vec<String> = Vec::new();
    if stages < 4 {
        let mut t = String::from_str("建议增加补偿壶级数至4级，可将误差再降低约");
        push_nat(&mut t, ((4 - stages) * 15) as u64);
        t.append("%");
        recommendations.push(t);
    }
    let mut focus = String::from_str("重点优化瓶颈级");
    let share: i64 = if best < n {
        focus.append(dynasty.configs[best].clepsydra_id.as_str());
        let c = nodes[best].contribution_percent;
        proof {
            assert(c == transfer_contribution(d, hs, best as int));
            lemma_rdiv_scaled(c as int, 6, 10);
        }
        div_round(c as i128 * 6, 10) as i64
    } else {
        25_000_000
    };
    focus.append("：采用漫流恒水位可减小误差约");
    let share_text = micro_string(share, 0);
    focus.append(share_text.as_str());
    focus.append("%");
    recommendations.push(focus);
    recommendations.push(String::from_str("恒温装置：将水温控制在±1°C范围内，可减少粘性引起的约8%误差"));
    if dynasty.typical_water_temp_c < 18_000_000 {
        recommendations.push(
            String::from_str("当前典型水温偏低，建议将环境温度维持在20°C左右以优化流量系数"),
        );
    }
    assert(recommendations@.map_values(|s: String| s@) =~= transfer_recommendations(d, hs));
    proof {
        lemma_rdiv_scaled(cumulative as int, 35, 100);
    }
    let compensation = div_round(cumulative as i128 * 35, 100) as i64;
    Ok(
        ErrorTransferAnalysis {
            total_error_seconds: cumulative,
            nodes,
            bottleneck_stage: best as u32,
            bottleneck_reason: reason,
            recommendations,
            compensation_potential_seconds: compensation,
        },
    )
}

/// Sum of the contributions of the first `k` nodes.
pub open spec fn node_contribution_sum(nodes: Seq<ErrorTransferNode>, k: nat) -> int
    decreases k,
{
    if k == 0 {
        0
    } else {
        node_contribution_sum(nodes, (k - 1) as nat) + nodes[k - 1].contribution_percent
    }
}

/// The first stage receives no error: the cascade starts clean.
pub proof fn law_transfer_starts_clean(
    d: DynastyClepsydraConfig,
    h: Seq<StageHydraulics>,
    a: ErrorTransferAnalysis,
)
    requires
        transfer_analysis_of(d, h, a),
        a.nodes@.len() > 0,
    ensures
        a.nodes@[0].input_error_seconds == 0,
{
    assert(a.nodes@[0] == transfer_node(d, h, 0));
}

/// Each stage receives exactly what the stage above it passes on, and the
/// total error is what the last stage passes on.
pub proof fn law_transfer_stages_chain(
    d: DynastyClepsydraConfig,
    h: Seq<StageHydraulics>,
    a: ErrorTransferAnalysis,
    i: int,
)
    requires
        transfer_fits(d, h),
        transfer_analysis_of(d, h, a),
        0 <= i < a.nodes@.len(),
    ensures
        i + 1 < a.nodes@.len() ==> a.nodes@[i + 1].input_error_seconds
            == a.nodes@[i].output_error_seconds,
        i + 1 == a.nodes@.len() ==> a.total_error_seconds == a.nodes@[i].output_error_seconds,
{
    assert(a.nodes@[i] == transfer_node(d, h, i));
    assert(transfer_stage_fits(d, h, i));
    if i + 1 < a.nodes@.len() {
        assert(a.nodes@[i + 1] == transfer_node(d, h, i + 1));
    }
}

/// Each stage amplifies 0.15 less than the stage above it, and the last
/// stage of the count passes its error on unchanged.
pub proof fn law_transfer_amplification_steps_down(
    d: DynastyClepsydraConfig,
    h: Seq<StageHydraulics>,
    a: ErrorTransferAnalysis,
    i: int,
)
    requires
        d.configs@.len() <= 0x1_0000_0000,
        transfer_analysis_of(d, h, a),
        0 <= i < a.nodes@.len(),
    ensures
        i + 1 < a.nodes@.len() ==> a.nodes@[i].amplification_factor
            == a.nodes@[i + 1].amplification_factor + 150_000,
        i + 1 == d.stage_count ==> a.nodes@[i].amplification_factor == 1_000_000,
{
    assert(a.nodes@[i] == transfer_node(d, h, i));
    if i + 1 < a.nodes@.len() {
        assert(a.nodes@[i + 1] == transfer_node(d, h, i + 1));
    }
}

proof fn lemma_transfer_contribution_partial(
    d: DynastyClepsydraConfig,
    h: Seq<StageHydraulics>,
    a: ErrorTransferAnalysis,
    k: nat,
)
    requires
        transfer_fits(d, h),
        transfer_analysis_of(d, h, a),
        transfer_self_sum(d, h, d.configs@.len()) > 0,
        k <= d.configs@.len(),
    ensures
        2 * 100_000_000 * transfer_self_sum(d, h, k) - k * transfer_self_sum(d, h, d.configs@.len())
            <= 2 * transfer_self_sum(d, h, d.configs@.len()) * node_contribution_sum(a.nodes@, k)
            <= 2 * 100_000_000 * transfer_self_sum(d, h, k) + k * transfer_self_sum(
            d,
            h,
            d.configs@.len(),
        ),
    decreases k,
{
    let t = transfer_self_sum(d, h, d.configs@.len());
    if k > 0 {
        let j = k - 1;
        lemma_transfer_contribution_partial(d, h, a, j as nat);
        assert(a.nodes@[j] == transfer_node(d, h, j));
        assert(fits_i64(transfer_contribution(d, h, j)));
        lemma_rdiv_within_half(transfer_self(d, h, j) * 100_000_000, t);
        let cj = transfer_contribution(d, h, j);
        assert(a.nodes@[j].contribution_percent == cj);
        let pc = node_contribution_sum(a.nodes@, j as nat);
        let ps = transfer_self_sum(d, h, j as nat);
        let sj = transfer_self(d, h, j);
        let jj = j as int;
        assert(2 * 100_000_000 * (ps + sj) - (jj + 1) * t <= 2 * t * (pc + cj) <= 2 * 100_000_000
            * (ps + sj) + (jj + 1) * t) by (nonlinear_arith)
            requires
                2 * 100_000_000 * ps - jj * t <= 2 * t * pc <= 2 * 100_000_000 * ps + jj * t,
                2 * (sj * 100_000_000) - t < 2 * t * cj <= 2 * (sj * 100_000_000) + t,
        ;
        assert(node_contribution_sum(a.nodes@, k) == pc + cj);
        assert(transfer_self_sum(d, h, k) == transfer_self_sum(d, h, j as nat) + transfer_self(d, h, j));
    }
}

/// When the self errors add up to a positive amount, the contributions add
/// up to 100% within half a millionth of a percent per stage.
pub proof fn law_transfer_contributions_make_the_whole(
    d: DynastyClepsydraConfig,
    h: Seq<StageHydraulics>,
    a: ErrorTransferAnalysis,
)
    requires
        transfer_fits(d, h),
        transfer_analysis_of(d, h, a),
        transfer_self_sum(d, h, d.configs@.len()) > 0,
    ensures
        -(a.nodes@.len() as int) <= 2 * node_contribution_sum(a.nodes@, a.nodes@.len())
            - 200_000_000 <= a.nodes@.len() as int,
{
    let n = d.configs@.len();
    let t = transfer_self_sum(d, h, n);
    lemma_transfer_contribution_partial(d, h, a, n);
    let c = node_contribution_sum(a.nodes@, n);
    assert(-(n as int) <= 2 * c - 200_000_000 <= n) by (nonlinear_arith)
        requires
            2 * 100_000_000 * t - n * t <= 2 * t * c <= 2 * 100_000_000 * t + n * t,
            t > 0,
    ;
}

/// The bottleneck is the stage with the largest self error, and no later
/// stage has as large a one.
pub proof fn law_transfer_bottleneck_is_the_largest(
    d: DynastyClepsydraConfig,
    h: Seq<StageHydraulics>,
    a: ErrorTransferAnalysis,
    i: int,
)
    requires
        transfer_fits(d, h),
        transfer_analysis_of(d, h, a),
        0 <= i < a.nodes@.len(),
    ensures
        a.nodes@[i].self_error_seconds <= a.nodes@[a.bottleneck_stage as int].self_error_seconds,
        i > a.bottleneck_stage ==> a.nodes@[i].self_error_seconds
            < a.nodes@[a.bottleneck_stage as int].self_error_seconds,
{
    let n = d.configs@.len();
    lemma_last_argmax(transfer_selfs(d, h), n);
    let b = transfer_bottleneck(d, h);
    assert(a.nodes@[i] == transfer_node(d, h, i));
    assert(a.nodes@[b] == transfer_node(d, h, b));
    assert(transfer_stage_fits(d, h, i));
    assert(transfer_stage_fits(d, h, b));
    assert(transfer_selfs(d, h)[i] == transfer_self(d, h, i));
    assert(transfer_selfs(d, h)[b] == transfer_self(d, h, b));
    lemma_rdiv_bound(vessel_day_error(h[i], d.stage_count, i), d.stage_count as int);
    lemma_rdiv_bound(vessel_day_error(h[b], d.stage_count, b), d.stage_count as int);
}

/// Why the service could not answer.
#[derive(Debug, Clone, PartialEq, Eq)]
pub enum ServiceError {
    /// No design has the requested id, which the error carries.
    DynastyNotFound(String),
    /// A value left the fixed-point range (or had no finite value).
    OutOfRange,
}

/// Index of the last of the first `k` designs with id `id`; -1 if none.
pub open spec fn last_dynasty(ds: Seq<DynastyClepsydraConfig>, id: Seq<char>, k: nat) -> int
    decreases k,
{
    if k == 0 {
        -1
    } else if ds[k - 1].dynasty_id@ == id {
        k - 1
    } else {
        last_dynasty(ds, id, (k - 1) as nat)
    }
}

/// Index of the last of the first `k` timepieces with id `id`; -1 if none.
pub open spec fn last_piece(ms: Seq<ModernTimepiece>, id: Seq<char>, k: nat) -> int
    decreases k,
{
    if k == 0 {
        -1
    } else if ms[k - 1].piece_id@ == id {
        k - 1
    } else {
        last_piece(ms, id, (k - 1) as nat)
    }
}

proof fn lemma_last_dynasty_found(ds: Seq<DynastyClepsydraConfig>, id: Seq<char>, k: nat)
    requires
        k <= ds.len(),
    ensures
        -1 <= last_dynasty(ds, id, k) < k,
        last_dynasty(ds, id, k) >= 0 ==> ds[last_dynasty(ds, id, k)].dynasty_id@ == id,
    decreases k,
{
    if k > 0 {
        lemma_last_dynasty_found(ds, id, (k - 1) as nat);
    }
}

proof fn lemma_last_dynasty_unique(ds: Seq<DynastyClepsydraConfig>, i: int, k: nat)
    requires
        0 <= i < k <= ds.len(),
        forall|a: int, b: int| 0 <= a < b < ds.len() ==> ds[a].dynasty_id@ != ds[b].dynasty_id@,
    ensures
        last_dynasty(ds, ds[i].dynasty_id@, k) == i,
    decreases k,
{
    if k - 1 > i {
        lemma_last_dynasty_unique(ds, i, (k - 1) as nat);
    }
}

proof fn lemma_last_piece_found(ms: Seq<ModernTimepiece>, id: Seq<char>, k: nat)
    requires
        k <= ms.len(),
    ensures
        -1 <= last_piece(ms, id, k) < k,
        last_piece(ms, id, k) >= 0 ==> ms[last_piece(ms, id, k)].piece_id@ == id,
    decreases k,
{
    if k > 0 {
        lemma_last_piece_found(ms, id, (k - 1) as nat);
    }
}

proof fn lemma_last_piece_unique(ms: Seq<ModernTimepiece>, i: int, k: nat)
    requires
        0 <= i < k <= ms.len(),
        forall|a: int, b: int| 0 <= a < b < ms.len() ==> ms[a].piece_id@ != ms[b].piece_id@,
    ensures
        last_piece(ms, ms[i].piece_id@, k) == i,
    decreases k,
{
    if k - 1 > i {
        lemma_last_piece_unique(ms, i, (k - 1) as nat);
    }
}

/// The design found for `id`, as the service's map holds it.
pub open spec fn dynasty_for(s: AnalysisService, id: Seq<char>) -> Option<DynastyClepsydraConfig> {
    let j = last_dynasty(s.dynasties@, id, s.dynasties@.len());
    if j >= 0 {
        Some(s.dynasties@[j])
    } else {
        None
    }
}

/// The daily error the service models for `d` with the hydraulics `h` of
/// its vessels; without stages to share over there is no finite error.
pub open spec fn service_daily_error(d: DynastyClepsydraConfig, h: Seq<StageHydraulics>) -> Option<int> {
    if d.stage_count == 0 && h.len() > 0 {
        None
    } else {
        dynasty_daily_error_spec(d, h)
    }
}

/// The service's daily errors of its designs, given their hydraulics.
pub open spec fn service_errors(ds: Seq<DynastyClepsydraConfig>, hs: Seq<Vec<StageHydraulics>>) -> Seq<
    Option<int>,
> {
    Seq::new(ds.len(), |i: int| service_daily_error(ds[i], hs[i]@))
}

/// A copy of the timepiece `m`.
fn copy_timepiece(m: &ModernTimepiece) -> (r: ModernTimepiece)
    ensures
        r == *m,
{
    let iso_class = match &m.iso_class {
        Some(c) => Some(c.clone()),
        None => None,
    };
    ModernTimepiece {
        piece_id: m.piece_id.clone(),
        name: m.name.clone(),
        category: m.category.clone(),
        daily_error_seconds: m.daily_error_seconds,
        yearly_error_seconds: m.yearly_error_seconds,
        technology: m.technology.clone(),
        invention_year: m.invention_year,
        description: m.description.clone(),
        accuracy_class: m.accuracy_class.clone(),
        standard_reference: m.standard_reference.clone(),
        iso_class,
    }
}

/// The built-in designs and timepieces, and the vessels of the deployment,
/// with the analyses run on them.
pub struct AnalysisService {
    pub dynasties: Vec<DynastyClepsydraConfig>,
    pub modern_pieces: Vec<ModernTimepiece>,
    pub clepsydras: Vec<ClepsydraConfig>,
}

impl AnalysisService {
    /// No two designs, and no two timepieces, share an id.
    pub open spec fn wf(&self) -> bool {
        &&& forall|i: int, j: int|
            0 <= i < j < self.dynasties@.len() ==> self.dynasties@[i].dynasty_id@
                != self.dynasties@[j].dynasty_id@
        &&& forall|i: int, j: int|
            0 <= i < j < self.modern_pieces@.len() ==> self.modern_pieces@[i].piece_id@
                != self.modern_pieces@[j].piece_id@
    }

    /// The service over the built-in designs and timepieces, running the
    /// vessels `clepsydras`.
    pub fn new(clepsydras: Vec<ClepsydraConfig>) -> (r: Self)
        ensures
            r.wf(),
            default_dynasties_spec(r.dynasties@),
            default_timepieces_spec(r.modern_pieces@),
            r.clepsydras@ == clepsydras@,
    {
        let dynasties = default_dynasties();
        let modern_pieces = default_modern_timepieces();
        proof {
            reveal_strlit("HAN_CHENJIAN");
            reveal_strlit("HAN_FUJIAN");
            reveal_strlit("TANG_JINGLU");
            reveal_strlit("SONG_LIANHUA");
            reveal_strlit("SONG_YITIAN");
            reveal_strlit("YONG_LE");
            reveal_strlit("MECH_WATCH");
            reveal_strlit("QUARTZ_WATCH");
            reveal_strlit("HI_ACC_QUARTZ");
            reveal_strlit("ATOMIC_CS");
            reveal_strlit("ATOMIC_RB");
            reveal_strlit("GPS_CLOCK");
            reveal_strlit("PENDULUM");
            reveal_strlit("MECH_CHRONO");
            let ds = dynasties@;
            assert forall|i: int, j: int| 0 <= i < j < ds.len() implies ds[i].dynasty_id@
                != ds[j].dynasty_id@ by {
                assert(ds[i].dynasty_id@[0] != ds[j].dynasty_id@[0] || ds[i].dynasty_id@.len()
                    != ds[j].dynasty_id@.len() || ds[i].dynasty_id@[5] != ds[j].dynasty_id@[5]);
            }
            let ms = modern_pieces@;
            assert forall|i: int, j: int| 0 <= i < j < ms.len() implies ms[i].piece_id@
                != ms[j].piece_id@ by {
                assert(ms[i].piece_id@[0] != ms[j].piece_id@[0] || ms[i].piece_id@.len()
                    != ms[j].piece_id@.len() || ms[i].piece_id@[7] != ms[j].piece_id@[7]);
            }
        }
        AnalysisService { dynasties, modern_pieces, clepsydras }
    }

    fn find_dynasty(&self, id: &str) -> (r: Option<usize>)
        ensures
            r is None <==> last_dynasty(self.dynasties@, id@, self.dynasties@.len()) == -1,
            r matches Some(j) ==> j == last_dynasty(self.dynasties@, id@, self.dynasties@.len())
                && j < self.dynasties@.len(),
    {
        let n = self.dynasties.len();
        let mut found: Option<usize> = None;
        let mut i: usize = 0;
        while i < n
            invariant
                n == self.dynasties@.len(),
                0 <= i <= n,
                match found {
                    None => last_dynasty(self.dynasties@, id@, i as nat) == -1,
                    Some(j) => j < i && j == last_dynasty(self.dynasties@, id@, i as nat),
                },
            decreases n - i,
        {
            if str_eq(self.dynasties[i].dynasty_id.as_str(), id) {
                found = Some(i);
            }
            i = i + 1;
        }
        found
    }

    /// Every design, in the order the service holds them.
    pub fn get_all_dynasties(&self) -> (r: Vec<DynastyClepsydraConfig>)
        requires
            self.wf(),
        ensures
            r@.len() == self.dynasties@.len(),
            forall|i: int| 0 <= i < r@.len() ==> same_dynasty(#[trigger] r@[i], self.dynasties@[i]),
    {
        let mut r: Vec<DynastyClepsydraConfig> = Vec::new();
        let mut i: usize = 0;
        while i < self.dynasties.len()
            invariant
                0 <= i <= self.dynasties@.len(),
                r@.len() == i,
                forall|k: int| 0 <= k < i ==> same_dynasty(#[trigger] r@[k], self.dynasties@[k]),
            decreases self.dynasties@.len() - i,
        {
            r.push(copy_dynasty(&self.dynasties[i]));
            i = i + 1;
        }
        r
    }

    /// The design with id `id`, if any.
    pub fn get_dynasty(&self, id: &str) -> (r: Option<DynastyClepsydraConfig>)
        ensures
            r is Some <==> dynasty_for(*self, id@) is Some,
            r matches Some(d) ==> same_dynasty(d, dynasty_for(*self, id@)->0) && d.dynasty_id@
                == id@,
    {
        proof {
            lemma_last_dynasty_found(self.dynasties@, id@, self.dynasties@.len());
        }
        match self.find_dynasty(id) {
            Some(j) => Some(copy_dynasty(&self.dynasties[j])),
            None => None,
        }
    }

    /// Every modern timepiece, in the order the service holds them.
    pub fn get_all_modern(&self) -> (r: Vec<ModernTimepiece>)
        requires
            self.wf(),
        ensures
            r@ == self.modern_pieces@,
    {
        let mut r: Vec<ModernTimepiece> = Vec::new();
        let mut i: usize = 0;
        while i < self.modern_pieces.len()
            invariant
                0 <= i <= self.modern_pieces@.len(),
                r@ == self.modern_pieces@.take(i as int),
            decreases self.modern_pieces@.len() - i,
        {
            r.push(copy_timepiece(&self.modern_pieces[i]));
            assert(r@ =~= self.modern_pieces@.take(i + 1));
            i = i + 1;
        }
        assert(self.modern_pieces@.take(self.modern_pieces@.len() as int) =~= self.modern_pieces@);
        r
    }

    /// The modern timepiece with id `id`, if any.
    pub fn get_modern(&self, id: &str) -> (r: Option<ModernTimepiece>)
        ensures
            r is Some <==> last_piece(self.modern_pieces@, id@, self.modern_pieces@.len()) >= 0,
            r matches Some(m) ==> m == self.modern_pieces@[last_piece(
                self.modern_pieces@,
                id@,
                self.modern_pieces@.len(),
            )] && m.piece_id@ == id@,
    {
        proof {
            lemma_last_piece_found(self.modern_pieces@, id@, self.modern_pieces@.len());
        }
        let n = self.modern_pieces.len();
        let mut found: Option<usize> = None;
        let mut i: usize = 0;
        while i < n
            invariant
                n == self.modern_pieces@.len(),
                0 <= i <= n,
                match found {
                    None => last_piece(self.modern_pieces@, id@, i as nat) == -1,
                    Some(j) => j < i && j == last_piece(self.modern_pieces@, id@, i as nat),
                },
            decreases n - i,
        {
            if str_eq(self.modern_pieces[i].piece_id.as_str(), id) {
                found = Some(i);
            }
            i = i + 1;
        }
        match found {
            Some(j) => Some(copy_timepiece(&self.modern_pieces[j])),
            None => None,
        }
    }
    /// The daily error the service models for `d`.
    fn daily_error(d: &DynastyClepsydraConfig, h: &[StageHydraulics]) -> (r: Option<i64>)
        requires
            h@.len() == d.configs@.len(),
        ensures
            r is Some <==> service_daily_error(*d, h@) is Some,
            r matches Some(e) ==> service_daily_error(*d, h@) == Some(e as int),
    {
        if d.stage_count == 0 && h.len() > 0 {
            return None;
        }
        match EraPrecisionComparator::new().calc_dynasty_daily_error(d, h) {
            Ok(e) => Some(e),
            Err(_) => None,
        }
    }

    /// Compares the designs `left_id` and `right_id` by the daily errors
    /// modelled from the hydraulics of their vessels.
    pub fn compare_dynasties(
        &self,
        left_id: &str,
        right_id: &str,
        left_hydraulics: &[StageHydraulics],
        right_hydraulics: &[StageHydraulics],
    ) -> (r: Result<DynastyComparison, ServiceError>)
        requires
            dynasty_for(*self, left_id@) matches Some(d) ==> left_hydraulics@.len()
                == d.configs@.len(),
            dynasty_for(*self, right_id@) matches Some(d) ==> right_hydraulics@.len()
                == d.configs@.len(),
        ensures
            r matches Err(e) ==> (e is DynastyNotFound <==> (dynasty_for(*self, left_id@) is None
                || dynasty_for(*self, right_id@) is None)),
            r matches Err(ServiceError::DynastyNotFound(missing)) ==> missing@ == if dynasty_for(
                *self,
                left_id@,
            ) is None {
                left_id@
            } else {
                right_id@
            },
            r is Ok <==> {
                &&& dynasty_for(*self, left_id@) matches Some(l)
                &&& dynasty_for(*self, right_id@) matches Some(d)
                &&& service_daily_error(l, left_hydraulics@) matches Some(le)
                &&& service_daily_error(d, right_hydraulics@) matches Some(re)
                &&& comparison_fits(le, re)
            },
            r matches Ok(c) ==> comparison_is(
                c,
                dynasty_for(*self, left_id@)->0,
                dynasty_for(*self, right_id@)->0,
                service_daily_error(dynasty_for(*self, left_id@)->0, left_hydraulics@)->0,
                service_daily_error(dynasty_for(*self, right_id@)->0, right_hydraulics@)->0,
            ),
    {
        let li = match self.find_dynasty(left_id) {
            Some(j) => j,
            None => {
                return Err(ServiceError::DynastyNotFound(String::from_str(left_id)));
            },
        };
        let ri = match self.find_dynasty(right_id) {
            Some(j) => j,
            None => {
                return Err(ServiceError::DynastyNotFound(String::from_str(right_id)));
            },
        };
        let left = &self.dynasties[li];
        let right = &self.dynasties[ri];
        let le = match Self::daily_error(left, left_hydraulics) {
            Some(e) => e,
            None => {
                return Err(ServiceError::OutOfRange);
            },
        };
        let re = match Self::daily_error(right, right_hydraulics) {
            Some(e) => e,
            None => {
                return Err(ServiceError::OutOfRange);
            },
        };
        match compare_with_errors(left, right, le, re) {
            Ok(c) => Ok(c),
            Err(_) => Err(ServiceError::OutOfRange),
        }
    }

    /// Propagates the error of the design `dynasty_id` through its vessels,
    /// given their hydraulics at their working levels.
    pub fn analyze_error_transfer(&self, dynasty_id: &str, hydraulics: &[StageHydraulics]) -> (r:
        Result<ErrorTransferAnalysis, ServiceError>)
        requires
            dynasty_for(*self, dynasty_id@) matches Some(d) ==> {
                &&& hydraulics@.len() == d.configs@.len()
                &&& d.configs@.len() <= 0x1_0000_0000
            },
        ensures
            r matches Err(e) ==> (e is DynastyNotFound <==> dynasty_for(*self, dynasty_id@) is None),
            r matches Err(ServiceError::DynastyNotFound(missing)) ==> missing@ == dynasty_id@,
            r is Ok <==> (dynasty_for(*self, dynasty_id@) matches Some(d) && transfer_fits(
                d,
                hydraulics@,
            )),
            r matches Ok(a) ==> transfer_analysis_of(
                dynasty_for(*self, dynasty_id@)->0,
                hydraulics@,
                a,
            ),
    {
        let j = match self.find_dynasty(dynasty_id) {
            Some(j) => j,
            None => {
                return Err(ServiceError::DynastyNotFound(String::from_str(dynasty_id)));
            },
        };
        match transfer_analysis(&self.dynasties[j], hydraulics) {
            Ok(a) => Ok(a),
            Err(_) => Err(ServiceError::OutOfRange),
        }
    }

    /// Charts every design, with the daily error modelled from the
    /// hydraulics `hydraulics[i]` of its vessels, beside the modern
    /// timepieces.
    pub fn cross_era_comparison(&self, hydraulics: &[Vec<StageHydraulics>]) -> (r: Result<
        CrossEraComparison,
        ServiceError,
    >)
        requires
            hydraulics@.len() == self.dynasties@.len(),
            forall|i: int|
                0 <= i < hydraulics@.len() ==> (#[trigger] hydraulics@[i])@.len()
                    == self.dynasties@[i].configs@.len(),
            self.dynasties@.len() > 0,
            self.modern_pieces@.len() > 0,
        ensures
            r matches Err(e) ==> e == ServiceError::OutOfRange,
            r is Ok <==> {
                &&& forall|i: int|
                    0 <= i < self.dynasties@.len() ==> (#[trigger] service_errors(
                        self.dynasties@,
                        hydraulics@,
                    )[i]) is Some
                &&& cross_era_fits(
                    Seq::new(
                        self.dynasties@.len(),
                        |i: int| service_errors(self.dynasties@, hydraulics@)[i]->0 as i64,
                    ),
                    self.modern_pieces@,
                )
            },
            r matches Ok(c) ==> cross_era_is(
                c,
                self.dynasties@,
                self.modern_pieces@,
                Seq::new(
                    self.dynasties@.len(),
                    |i: int| service_errors(self.dynasties@, hydraulics@)[i]->0 as i64,
                ),
            ),
    {
        let n = self.dynasties.len();
        let ghost all = service_errors(self.dynasties@, hydraulics@);
        let mut errors: Vec<i64> = Vec::new();
        let mut i: usize = 0;
        while i < n
            invariant
                n == self.dynasties@.len(),
                n == hydraulics@.len(),
                all == service_errors(self.dynasties@, hydraulics@),
                forall|k: int|
                    0 <= k < hydraulics@.len() ==> (#[trigger] hydraulics@[k])@.len()
                        == self.dynasties@[k].configs@.len(),
                0 <= i <= n,
                errors@.len() == i,
                forall|k: int| 0 <= k < i ==> (#[trigger] all[k]) is Some,
                forall|k: int| 0 <= k < i ==> all[k] == Some(#[trigger] errors@[k] as int),
            decreases n - i,
        {
            let e = match Self::daily_error(&self.dynasties[i], hydraulics[i].as_slice()) {
                Some(e) => e,
                None => {
                    assert(all[i as int] is None);
                    return Err(ServiceError::OutOfRange);
                },
            };
            errors.push(e);
            i = i + 1;
        }
        assert(errors@ =~= Seq::new(n as nat, |k: int| all[k]->0 as i64));
        match ChronometryComparator::new().cross_era_comparison(
            self.dynasties.as_slice(),
            self.modern_pieces.as_slice(),
            errors.as_slice(),
        ) {
            Ok(c) => Ok(c),
            Err(_) => Err(ServiceError::OutOfRange),
        }
    }

    /// Runs the vessel of `req` at a steady pace (see
    /// [`SimulationProfile::Steady`]), with the outflow scale and the
    /// evaporation the hydraulic model gives for it.
    pub fn virtual_operate(
        &self,
        req: &VirtualOperationRequest,
        flow_scale: i64,
        evaporation: i64,
    ) -> (r: Result<VirtualOperationResult, VirtualOperationError>)
        requires
            last_with_id(self.clepsydras@, req.clepsydra_id@, self.clepsydras@.len()) >= 0
                ==> self.clepsydras@[last_with_id(
                self.clepsydras@,
                req.clepsydra_id@,
                self.clepsydras@.len(),
            )].min_level <= self.clepsydras@[last_with_id(
                self.clepsydras@,
                req.clepsydra_id@,
                self.clepsydras@.len(),
            )].max_level,
        ensures
            r matches Err(e) ==> (e == VirtualOperationError::UnknownClepsydra <==> last_with_id(
                self.clepsydras@,
                req.clepsydra_id@,
                self.clepsydras@.len(),
            ) < 0),
            r is Ok <==> last_with_id(self.clepsydras@, req.clepsydra_id@, self.clepsydras@.len())
                >= 0 && simulation_fits(
                planned(self.clepsydras@, *req, SimulationProfile::Steady),
                flow_scale as int,
                evaporation as int,
            ),
            r matches Ok(res) ==> simulation_result_is(
                res,
                planned(self.clepsydras@, *req, SimulationProfile::Steady),
                flow_scale as int,
                evaporation as int,
            ),
    {
        let plan = prepare_virtual_operation(
            self.clepsydras.as_slice(),
            req,
            SimulationProfile::Steady,
        )?;
        simulate(&plan, flow_scale, evaporation)
    }
}

/// Every design the service lists is found again by its id, and so is
/// every timepiece.
pub proof fn law_listed_items_are_found(s: AnalysisService, i: int, j: int)
    requires
        s.wf(),
        0 <= i < s.dynasties@.len(),
        0 <= j < s.modern_pieces@.len(),
    ensures
        dynasty_for(s, s.dynasties@[i].dynasty_id@) == Some(s.dynasties@[i]),
        last_piece(s.modern_pieces@, s.modern_pieces@[j].piece_id@, s.modern_pieces@.len()) == j,
{
    lemma_last_dynasty_unique(s.dynasties@, i, s.dynasties@.len());
    lemma_last_piece_unique(s.modern_pieces@, j, s.modern_pieces@.len());
}

/// Each stage's self error is its vessel's error for a whole day shared
/// over the stages: the flow it loses (its inherent loss plus evaporation)
/// over its theoretical flow, times 86 400 s, divided by the stage count.
/// Writing `x` for that loss in millionths of mL/s, `f` for the flow and
/// `n` for the stage count, `n * f * self_error` lies within `(n + 1) * f / 2`
/// of `x * 86 400 * 10^6` (the self error is in millionths of a second).
pub proof fn law_transfer_self_error_is_the_shared_day_error(
    d: DynastyClepsydraConfig,
    h: Seq<StageHydraulics>,
    a: ErrorTransferAnalysis,
    i: int,
)
    requires
        transfer_fits(d, h),
        transfer_analysis_of(d, h, a),
        0 <= i < a.nodes@.len(),
        h[i].theoretical_flow > 0,
    ensures
        ({
            let n = d.stage_count as int;
            let f = h[i].theoretical_flow as int;
            let x = (inherent_deviation(h[i], d.stage_count, i) + h[i].evaporation) * 86_400_000_000;
            let s = a.nodes@[i].self_error_seconds as int;
            &&& 2 * x - (n + 1) * f < 2 * n * f * s
            &&& 2 * n * f * s <= 2 * x + (n + 1) * f
        }),
{
    let n = d.stage_count as int;
    let f = h[i].theoretical_flow as int;
    let x = (inherent_deviation(h[i], d.stage_count, i) + h[i].evaporation) * 86_400_000_000;
    assert(a.nodes@[i] == transfer_node(d, h, i));
    assert(transfer_stage_fits(d, h, i));
    let day = vessel_day_error(h[i], d.stage_count, i);
    assert(day == rdiv(((inherent_deviation(h[i], d.stage_count, i) + h[i].evaporation) * 86_400)
        * 1_000_000, f));
    assert(((inherent_deviation(h[i], d.stage_count, i) + h[i].evaporation) * 86_400) * 1_000_000 == x);
    lemma_rdiv_within_half(x, f);
    lemma_rdiv_within_half(day, n);
    lemma_rdiv_bound(day, n);
    let s = rdiv(day, n);
    assert(a.nodes@[i].self_error_seconds as int == s);
    assert(2 * x - (n + 1) * f < 2 * n * f * s && 2 * n * f * s <= 2 * x + (n + 1) * f) by (nonlinear_arith)
        requires
            f >= 1,
            n >= 1,
            2 * x - f < 2 * f * day <= 2 * x + f,
            2 * day - n < 2 * n * s <= 2 * day + n,
    {
        assert(f * (2 * day - n) < f * (2 * n * s)) by (nonlinear_arith)
            requires f >= 1, 2 * day - n < 2 * n * s;
        assert(f * (2 * n * s) <= f * (2 * day + n)) by (nonlinear_arith)
            requires f >= 1, 2 * n * s <= 2 * day + n;
    }
}

/// The compensation potential of a transfer analysis is 35% of its own
/// total error, rounded to the nearest millionth.
pub proof fn law_transfer_compensation_is_35_percent_of_the_total(
    d: DynastyClepsydraConfig,
    h: Seq<StageHydraulics>,
    a: ErrorTransferAnalysis,
)
    requires
        transfer_analysis_of(d, h, a),
    ensures
        a.compensation_potential_seconds == rdiv(a.total_error_seconds * 35, 100),
{
}

} // verus!
