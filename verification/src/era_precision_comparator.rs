//! Two historical clepsydra designs compared.
use vstd::prelude::*;

use crate::fixed::{
    div_round, fits_i64, isqrt, lemma_mul_bound, lemma_rdiv_bound, lemma_rdiv_within_half, narrow, quotient_micro, quotient_micro_exec, quotient_micro_exec_wide, rdiv,
};
use crate::cascade_error_analyzer::sqrt_scale;
use crate::models::{
    AnalysisError, StageHydraulics, ClepsydraConfig, DynastyClepsydraConfig, DynastyComparison,
    FlowComparisonPoint,
};
use crate::text::{micro_string, micro_text, nat_text, push_nat};

verus! {

/// Left error over right error (millionths); one when the right error is zero.
pub open spec fn error_ratio_spec(left: int, right: int) -> int {
    match quotient_micro(left, right) {
        Some(q) => q,
        None => 1_000_000,
    }
}

/// How many times the left design beats the right one, as printed with one
/// decimal: the reciprocal of the error ratio (`-inf` for a zero ratio of
/// negative sign, which a zero left error over a negative right one gives).
pub open spec fn reciprocal_text(left: int, right: int) -> Seq<char> {
    if right == 0 {
        "1.0"@
    } else if left == 0 {
        "-inf"@
    } else {
        micro_text(quotient_micro(right, left)->0, 1)
    }
}

pub open spec fn comparison_fits(left: int, right: int) -> bool {
    &&& fits_i64(error_ratio_spec(left, right))
    &&& (left >= right && right != 0 && left != 0) ==> fits_i64(quotient_micro(right, left)->0)
}

/// Mid level of a vessel (millionths).
pub open spec fn mid_level(c: ClepsydraConfig) -> int {
    rdiv(c.max_level + c.min_level, 2)
}

/// The key differences of two designs, in order.
pub open spec fn key_differences_spec(
    l: DynastyClepsydraConfig,
    r: DynastyClepsydraConfig,
    le: int,
    re: int,
) -> Seq<Seq<char>> {
    let stages: Seq<Seq<char>> = if l.stage_count != r.stage_count {
        seq![
            "级数差异："@ + l.dynasty_name@ + nat_text(l.stage_count as nat) + "级 vs "@
                + r.dynasty_name@ + nat_text(r.stage_count as nat) + "级"@,
        ]
    } else {
        seq![]
    };
    let gain = if le < re {
        "精度提升："@ + r.dynasty_name@ + "比"@ + l.dynasty_name@ + "精确"@ + micro_text(
            error_ratio_spec(le, re),
            1,
        ) + "倍"@
    } else {
        "精度提升："@ + l.dynasty_name@ + "比"@ + r.dynasty_name@ + "精确"@ + reciprocal_text(le, re)
            + "倍"@
    };
    stages + seq![
        "材质差异："@ + l.material@ + " vs "@ + r.material@,
        "典型水温："@ + micro_text(l.typical_water_temp_c as int, 0) + "°C vs "@ + micro_text(
            r.typical_water_temp_c as int,
            0,
        ) + "°C"@,
        gain,
    ]
}

/// `p` is stage `i` of the side-by-side view of `l` and `r`.
pub open spec fn flow_point_is(
    p: FlowComparisonPoint,
    l: DynastyClepsydraConfig,
    r: DynastyClepsydraConfig,
    i: int,
) -> bool {
    &&& p.stage@ == "第"@ + nat_text((i + 1) as nat) + "级"@
    &&& p.left_flow_mlps == if i < l.configs@.len() {
        l.configs@[i].standard_flow as int
    } else {
        0
    }
    &&& p.right_flow_mlps == if i < r.configs@.len() {
        r.configs@[i].standard_flow as int
    } else {
        0
    }
    &&& p.left_level_cm == if i < l.configs@.len() {
        mid_level(l.configs@[i])
    } else {
        0
    }
    &&& p.right_level_cm == if i < r.configs@.len() {
        mid_level(r.configs@[i])
    } else {
        0
    }
}

/// A copy of the vessel `c`.
pub fn copy_config(c: &ClepsydraConfig) -> (r: ClepsydraConfig)
    ensures
        r == *c,
{
    ClepsydraConfig {
        clepsydra_id: c.clepsydra_id.clone(),
        name: c.name.clone(),
        max_level: c.max_level,
        min_level: c.min_level,
        standard_flow: c.standard_flow,
        cross_section_area: c.cross_section_area,
        orifice_diameter: c.orifice_diameter,
        flow_coefficient: c.flow_coefficient,
    }
}

fn copy_strings(v: &Vec<String>) -> (r: Vec<String>)
    ensures
        r@ == v@,
{
    let mut r: Vec<String> = Vec::new();
    let mut i: usize = 0;
    while i < v.len()
        invariant
            0 <= i <= v@.len(),
            r@ == v@.take(i as int),
        decreases v@.len() - i,
    {
        r.push(v[i].clone());
        assert(r@ =~= v@.take(i + 1));
        i = i + 1;
    }
    assert(v@.take(v@.len() as int) =~= v@);
    r
}

/// `a` and `b` describe the same design.
pub open spec fn same_dynasty(a: DynastyClepsydraConfig, b: DynastyClepsydraConfig) -> bool {
    &&& a.dynasty_id == b.dynasty_id
    &&& a.dynasty_name == b.dynasty_name
    &&& a.era == b.era
    &&& a.clepsydra_type == b.clepsydra_type
    &&& a.stage_count == b.stage_count
    &&& a.description == b.description
    &&& a.historical_daily_error_seconds == b.historical_daily_error_seconds
    &&& a.typical_water_temp_c == b.typical_water_temp_c
    &&& a.material == b.material
    &&& a.configs@ == b.configs@
    &&& a.reference_year == b.reference_year
    &&& a.historical_references@ == b.historical_references@
    &&& a.data_source == b.data_source
    &&& a.uncertainty_percent == b.uncertainty_percent
}

/// A copy of the design `d`.
pub fn copy_dynasty(d: &DynastyClepsydraConfig) -> (r: DynastyClepsydraConfig)
    ensures
        same_dynasty(r, *d),
{
    let mut configs: Vec<ClepsydraConfig> = Vec::new();
    let mut i: usize = 0;
    while i < d.configs.len()
        invariant
            0 <= i <= d.configs@.len(),
            configs@ == d.configs@.take(i as int),
        decreases d.configs@.len() - i,
    {
        configs.push(copy_config(&d.configs[i]));
        assert(configs@ =~= d.configs@.take(i + 1));
        i = i + 1;
    }
    assert(d.configs@.take(d.configs@.len() as int) =~= d.configs@);
    let iso = d.uncertainty_percent;
    let r = DynastyClepsydraConfig {
        dynasty_id: d.dynasty_id.clone(),
        dynasty_name: d.dynasty_name.clone(),
        era: d.era.clone(),
        clepsydra_type: d.clepsydra_type.clone(),
        stage_count: d.stage_count,
        description: d.description.clone(),
        historical_daily_error_seconds: d.historical_daily_error_seconds,
        typical_water_temp_c: d.typical_water_temp_c,
        material: d.material.clone(),
        configs,
        reference_year: d.reference_year,
        historical_references: copy_strings(&d.historical_references),
        data_source: d.data_source.clone(),
        uncertainty_percent: iso,
    };
    assert(r.configs@ =~= d.configs@);
    assert(r.historical_references@ =~= d.historical_references@);
    r
}

fn mid_level_exec(c: &ClepsydraConfig) -> (r: i64)
    ensures
        r == mid_level(*c),
{
    proof {
        lemma_rdiv_bound(c.max_level + c.min_level, 2);
        assert(c.max_level + c.min_level >= 0 ==> rdiv(c.max_level + c.min_level, 2) <= c.max_level + c.min_level);
    }
    let r = div_round(c.max_level as i128 + c.min_level as i128, 2);
    proof {
        let s = c.max_level + c.min_level;
        let q = rdiv(s, 2);
        assert(q == (2 * s + 2) / 4);
        assert(i64::MIN <= q <= i64::MAX);
    }
    r as i64
}

/// `c` compares the designs `left` and `right`, whose daily errors are
/// `left_error` and `right_error`: their error ratio, the more accurate one
/// (the right one on a tie), their key differences and their vessels side
/// by side.
pub open spec fn comparison_is(
    c: DynastyComparison,
    left: DynastyClepsydraConfig,
    right: DynastyClepsydraConfig,
    left_error: int,
    right_error: int,
) -> bool {
    &&& same_dynasty(c.left_dynasty, left)
    &&& same_dynasty(c.right_dynasty, right)
    &&& c.left_daily_error_seconds == left_error
    &&& c.right_daily_error_seconds == right_error
    &&& c.error_ratio == error_ratio_spec(left_error, right_error)
    &&& c.winner@ == if left_error < right_error {
        left.dynasty_name@
    } else {
        right.dynasty_name@
    }
    &&& c.key_differences@.map_values(|s: String| s@) == key_differences_spec(
        left,
        right,
        left_error,
        right_error,
    )
    &&& c.flow_comparison@.len() == if left.configs@.len() >= right.configs@.len() {
        left.configs@.len()
    } else {
        right.configs@.len()
    }
    &&& forall|i: int|
        0 <= i < c.flow_comparison@.len() ==> flow_point_is(
            #[trigger] c.flow_comparison@[i],
            left,
            right,
            i,
        )
}

/// Compares the designs `left` and `right`, whose daily errors are
/// `left_error` and `right_error` (millionths of a second). Fails only when
/// the ratio leaves the fixed-point range.
pub fn compare_with_errors(
    left: &DynastyClepsydraConfig,
    right: &DynastyClepsydraConfig,
    left_error: i64,
    right_error: i64,
) -> (r: Result<DynastyComparison, AnalysisError>)
    ensures
        r is Ok <==> comparison_fits(left_error as int, right_error as int),
        r matches Ok(c) ==> comparison_is(c, *left, *right, left_error as int, right_error as int),
{
    let error_ratio: i64 = if right_error != 0 {
        match quotient_micro_exec(left_error, right_error) {
            Some(q) => q,
            None => {
                return Err(AnalysisError::OutOfRange);
            },
        }
    } else {
        1_000_000
    };
    let winner = if left_error < right_error {
        left.dynasty_name.clone()
    } else {
        right.dynasty_name.clone()
    };
    let mut key_differences: Vec<String> = Vec::new();
    if left.stage_count != right.stage_count {
        let mut t = String::from_str("级数差异：");
        t.append(left.dynasty_name.as_str());
        push_nat(&mut t, left.stage_count as u64);
        t.append("级 vs ");
        t.append(right.dynasty_name.as_str());
        push_nat(&mut t, right.stage_count as u64);
        t.append("级");
        key_differences.push(t);
    }
    let mut material = String::from_str("材质差异：");
    material.append(left.material.as_str());
    material.append(" vs ");
    material.append(right.material.as_str());
    key_differences.push(material);
    let mut temperature = String::from_str("典型水温：");
    let lt = micro_string(left.typical_water_temp_c, 0);
    temperature.append(lt.as_str());
    temperature.append("°C vs ");
    let rt = micro_string(right.typical_water_temp_c, 0);
    temperature.append(rt.as_str());
    temperature.append("°C");
    key_differences.push(temperature);
    let mut gain = String::from_str("精度提升：");
    if left_error < right_error {
        gain.append(right.dynasty_name.as_str());
        gain.append("比");
        gain.append(left.dynasty_name.as_str());
        gain.append("精确");
        let q = micro_string(error_ratio, 1);
        gain.append(q.as_str());
    } else {
        gain.append(left.dynasty_name.as_str());
        gain.append("比");
        gain.append(right.dynasty_name.as_str());
        gain.append("精确");
        if right_error == 0 {
            gain.append("1.0");
        } else if left_error == 0 {
            gain.append("-inf");
        } else {
            let q = match quotient_micro_exec(right_error, left_error) {
                Some(q) => q,
                None => {
                    return Err(AnalysisError::OutOfRange);
                },
            };
            let t = micro_string(q, 1);
            gain.append(t.as_str());
        }
    }
    gain.append("倍");
    key_differences.push(gain);
    assert(key_differences@.map_values(|s: String| s@) =~= key_differences_spec(
        *left,
        *right,
        left_error as int,
        right_error as int,
    ));
    let ln = left.configs.len();
    let rn = right.configs.len();
    let n = if ln >= rn {
        ln
    } else {
        rn
    };
    let mut flow_comparison: Vec<FlowComparisonPoint> = Vec::new();
    let mut i: usize = 0;
    while i < n
        invariant
            ln == left.configs@.len(),
            rn == right.configs@.len(),
            n == if ln >= rn {
                ln
            } else {
                rn
            },
            0 <= i <= n,
            flow_comparison@.len() == i,
            forall|j: int|
                0 <= j < i ==> flow_point_is(#[trigger] flow_comparison@[j], *left, *right, j),
        decreases n - i,
    {
        let mut stage = String::from_str("第");
        push_nat(&mut stage, (i + 1) as u64);
        stage.append("级");
        let (left_flow_mlps, left_level_cm) = if i < ln {
            (left.configs[i].standard_flow, mid_level_exec(&left.configs[i]))
        } else {
            (0, 0)
        };
        let (right_flow_mlps, right_level_cm) = if i < rn {
            (right.configs[i].standard_flow, mid_level_exec(&right.configs[i]))
        } else {
            (0, 0)
        };
        flow_comparison.push(
            FlowComparisonPoint {
                stage,
                left_flow_mlps,
                right_flow_mlps,
                left_level_cm,
                right_level_cm,
            },
        );
        i = i + 1;
    }
    Ok(
        DynastyComparison {
            left_dynasty: copy_dynasty(left),
            right_dynasty: copy_dynasty(right),
            left_daily_error_seconds: left_error,
            right_daily_error_seconds: right_error,
            error_ratio,
            winner,
            key_differences,
            flow_comparison,
        },
    )
}

/// Share of the nominal flow lost as the level drops, by stage count
/// (millionths).
pub open spec fn level_drop_ratio(stages: u32) -> int {
    if stages <= 1 {
        250_000
    } else if stages == 2 {
        100_000
    } else if stages == 3 {
        35_000
    } else {
        18_000
    }
}

/// Daily error of one vessel before it is shared over the stages: the flow
/// lost to the level drop plus evaporation, over the theoretical flow, for a
/// whole day (s, millionths); `None` when the theoretical flow is zero.
pub open spec fn vessel_daily_error(h: StageHydraulics, stages: u32) -> Option<int> {
    let deviation = rdiv(h.theoretical_flow * level_drop_ratio(stages), 1_000_000);
    quotient_micro((deviation + h.evaporation) * 86_400, h.theoretical_flow as int)
}

/// The vessel's error shared over `sqrt(max(stages, 1))`.
pub open spec fn vessel_share(e: int, stages: u32) -> int {
    rdiv(e * 1_000_000, sqrt_scale(stages))
}

/// Sum of the shares of the first `k` vessels, if every step is representable.
pub open spec fn shares_sum(h: Seq<StageHydraulics>, stages: u32, k: nat) -> Option<int>
    decreases k,
{
    if k == 0 {
        Some(0)
    } else {
        match shares_sum(h, stages, (k - 1) as nat) {
            Some(prev) => match vessel_daily_error(h[k - 1], stages) {
                Some(e) => if fits_i64(rdiv(h[k - 1].theoretical_flow * level_drop_ratio(stages), 1_000_000))
                    && fits_i64(e) && fits_i64(vessel_share(e, stages)) && fits_i64(
                    prev + vessel_share(e, stages),
                ) {
                    Some(prev + vessel_share(e, stages))
                } else {
                    None
                },
                None => None,
            },
            None => None,
        }
    }
}

proof fn lemma_shares_none_persists(h: Seq<StageHydraulics>, stages: u32, k: nat, m: nat)
    requires
        k <= m,
        shares_sum(h, stages, k) is None,
    ensures
        shares_sum(h, stages, m) is None,
    decreases m,
{
    if k < m {
        lemma_shares_none_persists(h, stages, k, (m - 1) as nat);
    }
}

/// The modelled daily error of a design: the mean of its documented error
/// and the summed shares of its vessels.
pub open spec fn dynasty_daily_error_spec(d: DynastyClepsydraConfig, h: Seq<StageHydraulics>) -> Option<int> {
    match shares_sum(h, d.stage_count, h.len()) {
        Some(total) => Some(rdiv(d.historical_daily_error_seconds + total, 2)),
        None => None,
    }
}

/// Ranks historical designs by their modelled daily error.
#[derive(Debug, Clone, Copy)]
pub struct EraPrecisionComparator;

impl EraPrecisionComparator {
    pub fn new() -> (r: Self)
        ensures
            r == EraPrecisionComparator,
    {
        EraPrecisionComparator
    }

    /// Daily error of `dynasty` (millionths of a second) from the hydraulics of
    /// its vessels at their working levels; fails when a vessel has no
    /// theoretical flow or a value leaves the fixed-point range.
    pub fn calc_dynasty_daily_error(
        &self,
        dynasty: &DynastyClepsydraConfig,
        hydraulics: &[StageHydraulics],
    ) -> (r: Result<i64, AnalysisError>)
        requires
            hydraulics@.len() == dynasty.configs@.len(),
        ensures
            r is Ok <==> dynasty_daily_error_spec(*dynasty, hydraulics@) is Some,
            r matches Ok(e) ==> dynasty_daily_error_spec(*dynasty, hydraulics@) == Some(e as int),
    {
        let stages = dynasty.stage_count;
        let clamped: u32 = if stages < 1 {
            1
        } else {
            stages
        };
        let sq = isqrt(clamped as u128 * 1_000_000_000_000u128);
        proof {
            assert(sq >= 1_000_000) by {
                if sq < 1_000_000 {
                    assert((sq + 1) * (sq + 1) <= 1_000_000_000_000) by (nonlinear_arith)
                        requires
                            0 <= sq < 1_000_000,
                    ;
                }
            }
        }
        let drop: i64 = if stages <= 1 {
            250_000
        } else if stages == 2 {
            100_000
        } else if stages == 3 {
            35_000
        } else {
            18_000
        };
        let n = hydraulics.len();
        let mut total: i64 = 0;
        let mut i: usize = 0;
        while i < n
            invariant
                n == hydraulics@.len(),
                0 <= i <= n,
                stages == dynasty.stage_count,
                drop == level_drop_ratio(stages),
                0 <= drop <= 250_000,
                sq == sqrt_scale(stages),
                sq >= 1_000_000,
                shares_sum(hydraulics@, stages, i as nat) == Some(total as int),
            decreases n - i,
        {
            let h = hydraulics[i];
            proof {
                lemma_mul_bound(h.theoretical_flow as int, drop as int, 0x8000_0000_0000_0000, 250_000);
            }
            let deviation = match narrow(div_round(h.theoretical_flow as i128 * drop as i128, 1_000_000)) {
                Some(v) => v,
                None => {
                    proof {
                        assert(shares_sum(hydraulics@, stages, (i + 1) as nat) is None);
                        lemma_shares_none_persists(hydraulics@, stages, (i + 1) as nat, n as nat);
                    }
                    return Err(AnalysisError::OutOfRange);
                },
            };
            if h.theoretical_flow == 0 {
                proof {
                    assert(shares_sum(hydraulics@, stages, (i + 1) as nat) is None);
                    lemma_shares_none_persists(hydraulics@, stages, (i + 1) as nat, n as nat);
                }
                return Err(AnalysisError::OutOfRange);
            }
            let e = match quotient_micro_exec_wide((deviation as i128 + h.evaporation as i128) * 86_400, h.theoretical_flow) {
                Some(v) => v,
                None => {
                    proof {
                        assert(shares_sum(hydraulics@, stages, (i + 1) as nat) is None);
                        lemma_shares_none_persists(hydraulics@, stages, (i + 1) as nat, n as nat);
                    }
                    return Err(AnalysisError::OutOfRange);
                },
            };
            let share = match narrow(div_round(e as i128 * 1_000_000, sq as i128)) {
                Some(v) => v,
                None => {
                    proof {
                        assert(shares_sum(hydraulics@, stages, (i + 1) as nat) is None);
                        lemma_shares_none_persists(hydraulics@, stages, (i + 1) as nat, n as nat);
                    }
                    return Err(AnalysisError::OutOfRange);
                },
            };
            total = match narrow(total as i128 + share as i128) {
                Some(v) => v,
                None => {
                    proof {
                        assert(shares_sum(hydraulics@, stages, (i + 1) as nat) is None);
                        lemma_shares_none_persists(hydraulics@, stages, (i + 1) as nat, n as nat);
                    }
                    return Err(AnalysisError::OutOfRange);
                },
            };
            i = i + 1;
        }
        proof {
            lemma_rdiv_bound(dynasty.historical_daily_error_seconds + total, 2);
            let s = dynasty.historical_daily_error_seconds + total;
            assert(rdiv(s, 2) == (2 * s + 2) / 4);
        }
        Ok(div_round(dynasty.historical_daily_error_seconds as i128 + total as i128, 2) as i64)
    }

    /// Compares `left` and `right` by the daily errors modelled from the
    /// hydraulics of their vessels. Fails when either error or their ratio
    /// cannot be had.
    pub fn compare_dynasties(
        &self,
        left: &DynastyClepsydraConfig,
        right: &DynastyClepsydraConfig,
        left_hydraulics: &[StageHydraulics],
        right_hydraulics: &[StageHydraulics],
    ) -> (r: Result<DynastyComparison, AnalysisError>)
        requires
            left_hydraulics@.len() == left.configs@.len(),
            right_hydraulics@.len() == right.configs@.len(),
        ensures
            r is Ok <==> {
                &&& dynasty_daily_error_spec(*left, left_hydraulics@) matches Some(le)
                &&& dynasty_daily_error_spec(*right, right_hydraulics@) matches Some(re)
                &&& comparison_fits(le, re)
            },
            r matches Ok(c) ==> comparison_is(
                c,
                *left,
                *right,
                dynasty_daily_error_spec(*left, left_hydraulics@)->0,
                dynasty_daily_error_spec(*right, right_hydraulics@)->0,
            ),
    {
        let left_error = self.calc_dynasty_daily_error(left, left_hydraulics)?;
        let right_error = self.calc_dynasty_daily_error(right, right_hydraulics)?;
        compare_with_errors(left, right, left_error, right_error)
    }
}

/// Comparing two designs the other way round swaps the two sides: each
/// design and its daily error move to the other side, every stage's flows
/// and levels change places, and, when the errors differ, the same design
/// wins.
pub proof fn law_swapping_sides_swaps_the_comparison(
    c: DynastyComparison,
    swapped: DynastyComparison,
    left: DynastyClepsydraConfig,
    right: DynastyClepsydraConfig,
    left_error: int,
    right_error: int,
    i: int,
)
    requires
        comparison_is(c, left, right, left_error, right_error),
        comparison_is(swapped, right, left, right_error, left_error),
        0 <= i < c.flow_comparison@.len(),
    ensures
        same_dynasty(c.left_dynasty, swapped.right_dynasty),
        same_dynasty(c.right_dynasty, swapped.left_dynasty),
        c.left_daily_error_seconds == swapped.right_daily_error_seconds,
        c.right_daily_error_seconds == swapped.left_daily_error_seconds,
        left_error != right_error ==> c.winner@ == swapped.winner@,
        c.flow_comparison@.len() == swapped.flow_comparison@.len(),
        c.flow_comparison@[i].stage@ == swapped.flow_comparison@[i].stage@,
        c.flow_comparison@[i].left_flow_mlps == swapped.flow_comparison@[i].right_flow_mlps,
        c.flow_comparison@[i].right_flow_mlps == swapped.flow_comparison@[i].left_flow_mlps,
        c.flow_comparison@[i].left_level_cm == swapped.flow_comparison@[i].right_level_cm,
        c.flow_comparison@[i].right_level_cm == swapped.flow_comparison@[i].left_level_cm,
{
    assert(flow_point_is(c.flow_comparison@[i], left, right, i));
    assert(flow_point_is(swapped.flow_comparison@[i], right, left, i));
}

/// A design of four or more stages loses a smaller share of each vessel's
/// flow to the falling level than a three-stage one (1.8% against 3.5%):
/// for a vessel with a flow of at least 1 mL/s, the same hydraulics give a
/// strictly smaller daily error in the deeper cascade.
pub proof fn law_four_stages_lose_less_than_three(h: StageHydraulics, stages: u32)
    requires
        stages >= 4,
        h.theoretical_flow >= 1_000_000,
    ensures
        vessel_daily_error(h, stages) matches Some(deep) && vessel_daily_error(h, 3) matches Some(
            shallow,
        ) && deep < shallow,
{
    let f = h.theoretical_flow as int;
    let e = h.evaporation as int;
    let d3 = rdiv(f * 35_000, 1_000_000);
    let d4 = rdiv(f * 18_000, 1_000_000);
    assert(level_drop_ratio(3) == 35_000);
    assert(level_drop_ratio(stages) == 18_000);
    lemma_rdiv_within_half(f * 35_000, 1_000_000);
    lemma_rdiv_within_half(f * 18_000, 1_000_000);
    assert(100 * (d3 - d4) >= f);
    let a3 = (d3 + e) * 86_400 * 1_000_000;
    let a4 = (d4 + e) * 86_400 * 1_000_000;
    assert(a3 - a4 >= 2 * f);
    let r3 = rdiv(a3, f);
    let r4 = rdiv(a4, f);
    lemma_rdiv_within_half(a3, f);
    lemma_rdiv_within_half(a4, f);
    assert(r4 < r3) by (nonlinear_arith)
        requires
            f >= 1,
            2 * a3 - f < 2 * f * r3,
            2 * f * r4 <= 2 * a4 + f,
            a3 - a4 >= 2 * f,
    ;
    assert(vessel_daily_error(h, stages) == Some(r4));
    assert(vessel_daily_error(h, 3) == Some(r3));
}

} // verus!
