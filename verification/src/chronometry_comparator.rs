//! Ancient clepsydrae against modern timekeepers.
use vstd::prelude::*;

use crate::catalog::{dynasty_color, dynasty_color_spec, modern_color, modern_color_spec};
use crate::fixed::{div_round, fits_i64, lemma_rdiv_bound, lemma_rdiv_within_half, narrow, rdiv};
use crate::models::{
    AccuracyComparisonPoint, AnalysisError, CrossEraComparison, DynastyClepsydraConfig,
    ModernTimepiece, TimelineAccuracy,
};

verus! {

/// `s` up to, and without, the first occurrence of `c`; all of `s` if `c` is absent.
pub open spec fn take_until(s: Seq<char>, c: char) -> Seq<char>
    decreases s.len(),
{
    if s.len() == 0 {
        s
    } else if s[0] == c {
        Seq::empty()
    } else {
        seq![s[0]] + take_until(s.drop_first(), c)
    }
}

proof fn lemma_take_until_step(s: Seq<char>, c: char, k: int)
    requires
        0 <= k < s.len(),
        s[k] != c,
    ensures
        take_until(s.skip(k), c) == seq![s[k]] + take_until(s.skip(k + 1), c),
{
    assert(s.skip(k).drop_first() =~= s.skip(k + 1));
}

/// The characters of `s` before the first `c`.
pub fn text_before(s: &str, c: char) -> (r: String)
    ensures
        r@ == take_until(s@, c),
{
    let n = s.unicode_len();
    let mut k: usize = 0;
    assert(s@.take(0) + take_until(s@.skip(0), c) =~= take_until(s@, c)) by {
        assert(s@.skip(0) =~= s@);
    }
    while k < n && s.get_char(k) != c
        invariant
            n == s@.len(),
            0 <= k <= n,
            take_until(s@, c) == s@.take(k as int) + take_until(s@.skip(k as int), c),
        decreases n - k,
    {
        proof {
            lemma_take_until_step(s@, c, k as int);
            assert(s@.take(k as int) + seq![s@[k as int]] =~= s@.take(k + 1));
            assert(s@.take(k as int) + (seq![s@[k as int]] + take_until(s@.skip(k + 1), c))
                =~= s@.take(k + 1) + take_until(s@.skip(k + 1), c));
        }
        k = k + 1;
    }
    proof {
        if k == n {
            assert(s@.skip(k as int) =~= Seq::<char>::empty());
        } else {
            assert(s@.skip(k as int)[0] == c);
        }
        assert(s@.take(k as int) =~= s@.subrange(0, k as int));
    }
    String::from_str(s.substring_char(0, k))
}

/// `p` charts the historical design `d` whose daily error is `err`.
pub open spec fn ancient_point_is(p: AccuracyComparisonPoint, d: DynastyClepsydraConfig, err: int) -> bool {
    &&& p.label@ == d.dynasty_name@ + "·"@ + take_until(d.clepsydra_type@, '（')
    &&& p.category@ == d.clepsydra_type@
    &&& p.daily_error_seconds == err
    &&& p.yearly_error_minutes == rdiv(err * 365, 60)
    &&& p.color_hex@ == dynasty_color_spec(d.dynasty_id@)
    &&& p.era@ == "古代"@
}

/// `p` charts the modern timepiece `m`.
pub open spec fn modern_point_is(p: AccuracyComparisonPoint, m: ModernTimepiece) -> bool {
    &&& p.label@ == m.name@
    &&& p.category@ == m.category@
    &&& p.daily_error_seconds == m.daily_error_seconds
    &&& p.yearly_error_minutes == rdiv(m.yearly_error_seconds as int, 60)
    &&& p.color_hex@ == modern_color_spec(m.category@)
    &&& p.era@ == "现代"@
}

/// Index of the first minimum among the first `k` values (0 when `k <= 1`).
pub open spec fn first_argmin(s: Seq<int>, k: nat) -> int
    decreases k,
{
    if k <= 1 {
        0
    } else {
        let j = first_argmin(s, (k - 1) as nat);
        if s[k - 1] < s[j] {
            k - 1
        } else {
            j
        }
    }
}

pub open spec fn modern_errors(m: Seq<ModernTimepiece>) -> Seq<int> {
    Seq::new(m.len(), |i: int| m[i].daily_error_seconds as int)
}

/// The best ancient and best modern errors, and how many times the second
/// beats the first (millionths); 10^9 when the best modern error is zero.
pub open spec fn improvement_spec(best_ancient: int, best_modern: int) -> int {
    if best_modern > 0 {
        rdiv(best_ancient * 1_000_000, best_modern)
    } else {
        1_000_000_000_000_000
    }
}

/// The milestones of the accuracy timeline: year, label, daily error
/// (millionths of a second) and period.
pub open spec fn timeline_spec() -> Seq<(int, Seq<char>, int, Seq<char>)> {
    seq![
        (-100, "西汉沉箭漏"@, 900_000_000, "古代"@),
        (125, "东汉浮箭漏"@, 300_000_000, "古代"@),
        (650, "唐吕才漏"@, 120_000_000, "古代"@),
        (1030, "宋莲花漏"@, 45_000_000, "古代"@),
        (1088, "水运仪象台"@, 50_000_000, "古代"@),
        (1420, "明永乐漏"@, 65_000_000, "古代"@),
        (1656, "惠更斯摆钟"@, 60_000_000, "近代"@),
        (1730, "精密摆钟"@, 200_000, "近代"@),
        (1870, "精密机械表"@, 10_000_000, "近代"@),
        (1920, "天文台机械表"@, 2_000_000, "现代"@),
        (1955, "铯原子钟"@, 1, "现代"@),
        (1969, "石英手表"@, 500_000, "现代"@),
        (1978, "GPS授时"@, 10, "现代"@),
    ]
}

pub open spec fn milestone_view(t: TimelineAccuracy) -> (int, Seq<char>, int, Seq<char>) {
    (t.year as int, t.label@, t.daily_error_seconds as int, t.category@)
}

pub open spec fn cross_era_fits(errors: Seq<i64>, modern: Seq<ModernTimepiece>) -> bool {
    &&& forall|i: int| 0 <= i < errors.len() ==> fits_i64(#[trigger] rdiv(errors[i] * 365, 60))
    &&& fits_i64(
        improvement_spec(
            errors[first_argmin(errors.map_values(|e: i64| e as int), errors.len())] as int,
            modern[first_argmin(modern_errors(modern), modern.len())].daily_error_seconds as int,
        ),
    )
}

fn milestone(year: i32, label: &str, daily_error_seconds: i64, category: &str) -> (t: TimelineAccuracy)
    ensures
        milestone_view(t) == (year as int, label@, daily_error_seconds as int, category@),
{
    TimelineAccuracy {
        year,
        label: String::from_str(label),
        daily_error_seconds,
        category: String::from_str(category),
    }
}

fn copy_point(p: &AccuracyComparisonPoint) -> (q: AccuracyComparisonPoint)
    ensures
        q == *p,
{
    AccuracyComparisonPoint {
        label: p.label.clone(),
        category: p.category.clone(),
        daily_error_seconds: p.daily_error_seconds,
        yearly_error_minutes: p.yearly_error_minutes,
        color_hex: p.color_hex.clone(),
        era: p.era.clone(),
    }
}

fn timeline() -> (r: Vec<TimelineAccuracy>)
    ensures
        r@.map_values(|t: TimelineAccuracy| milestone_view(t)) == timeline_spec(),
{
    let mut r: Vec<TimelineAccuracy> = Vec::new();
    r.push(milestone(-100, "西汉沉箭漏", 900_000_000, "古代"));
    r.push(milestone(125, "东汉浮箭漏", 300_000_000, "古代"));
    r.push(milestone(650, "唐吕才漏", 120_000_000, "古代"));
    r.push(milestone(1030, "宋莲花漏", 45_000_000, "古代"));
    r.push(milestone(1088, "水运仪象台", 50_000_000, "古代"));
    r.push(milestone(1420, "明永乐漏", 65_000_000, "古代"));
    r.push(milestone(1656, "惠更斯摆钟", 60_000_000, "近代"));
    r.push(milestone(1730, "精密摆钟", 200_000, "近代"));
    r.push(milestone(1870, "精密机械表", 10_000_000, "近代"));
    r.push(milestone(1920, "天文台机械表", 2_000_000, "现代"));
    r.push(milestone(1955, "铯原子钟", 1, "现代"));
    r.push(milestone(1969, "石英手表", 500_000, "现代"));
    r.push(milestone(1978, "GPS授时", 10, "现代"));
    assert(r@.map_values(|t: TimelineAccuracy| milestone_view(t)) =~= timeline_spec());
    r
}

/// `c` charts each design of `dynasties` with its daily error `errors[i]`
/// beside the modern timepieces, with the best of each era (the first on
/// ties), their improvement factor and the accuracy timeline.
pub open spec fn cross_era_is(
    c: CrossEraComparison,
    dynasties: Seq<DynastyClepsydraConfig>,
    modern_pieces: Seq<ModernTimepiece>,
    errors: Seq<i64>,
) -> bool {
    let ba = first_argmin(errors.map_values(|e: i64| e as int), errors.len());
    let bm = first_argmin(modern_errors(modern_pieces), modern_pieces.len());
    &&& c.ancient_devices@.len() == dynasties.len()
    &&& forall|i: int|
        0 <= i < dynasties.len() ==> ancient_point_is(
            #[trigger] c.ancient_devices@[i],
            dynasties[i],
            errors[i] as int,
        )
    &&& c.modern_devices@.len() == modern_pieces.len()
    &&& forall|i: int|
        0 <= i < modern_pieces.len() ==> modern_point_is(
            #[trigger] c.modern_devices@[i],
            modern_pieces[i],
        )
    &&& c.best_ancient == c.ancient_devices@[ba]
    &&& c.best_modern == c.modern_devices@[bm]
    &&& c.improvement_factor == improvement_spec(
        c.best_ancient.daily_error_seconds as int,
        c.best_modern.daily_error_seconds as int,
    )
    &&& c.timeline_data@.map_values(|t: TimelineAccuracy| milestone_view(t)) == timeline_spec()
}

/// The first minimum is a minimum, and every earlier value is larger.
pub proof fn lemma_first_argmin(s: Seq<int>, k: nat)
    requires
        1 <= k <= s.len(),
    ensures
        0 <= first_argmin(s, k) < k,
        forall|i: int| 0 <= i < k ==> s[first_argmin(s, k)] <= #[trigger] s[i],
        forall|i: int| 0 <= i < first_argmin(s, k) ==> s[first_argmin(s, k)] < #[trigger] s[i],
    decreases k,
{
    if k > 1 {
        lemma_first_argmin(s, (k - 1) as nat);
    }
}

/// The best device of each era is as accurate as any device of its era.
pub proof fn law_best_devices_are_the_most_accurate(
    c: CrossEraComparison,
    dynasties: Seq<DynastyClepsydraConfig>,
    modern_pieces: Seq<ModernTimepiece>,
    errors: Seq<i64>,
    i: int,
    j: int,
)
    requires
        cross_era_is(c, dynasties, modern_pieces, errors),
        dynasties.len() == errors.len(),
        0 <= i < dynasties.len(),
        0 <= j < modern_pieces.len(),
    ensures
        c.best_ancient.daily_error_seconds <= c.ancient_devices@[i].daily_error_seconds,
        c.best_modern.daily_error_seconds <= c.modern_devices@[j].daily_error_seconds,
{
    let errs = errors.map_values(|e: i64| e as int);
    let ba = first_argmin(errs, errors.len());
    let bm = first_argmin(modern_errors(modern_pieces), modern_pieces.len());
    lemma_first_argmin(errs, errors.len());
    lemma_first_argmin(modern_errors(modern_pieces), modern_pieces.len());
    assert(ancient_point_is(c.ancient_devices@[i], dynasties[i], errors[i] as int));
    assert(ancient_point_is(c.ancient_devices@[ba], dynasties[ba], errors[ba] as int));
    assert(errs[i] == errors[i]);
    assert(errs[ba] == errors[ba]);
    assert(modern_point_is(c.modern_devices@[j], modern_pieces[j]));
    assert(modern_point_is(c.modern_devices@[bm], modern_pieces[bm]));
    assert(modern_errors(modern_pieces)[j] == modern_pieces[j].daily_error_seconds);
    assert(modern_errors(modern_pieces)[bm] == modern_pieces[bm].daily_error_seconds);
}

#[derive(Debug, Clone)]
pub struct ChronometryComparator;

impl ChronometryComparator {
    pub fn new() -> (r: Self)
        ensures
            r == ChronometryComparator,
    {
        ChronometryComparator
    }

    /// Charts each design of `dynasties` with its daily error `dynasty_errors[i]`
    /// beside the modern timepieces, picks the best of each era (the first on
    /// ties), and adds the accuracy timeline.
    pub fn cross_era_comparison(
        &self,
        dynasties: &[DynastyClepsydraConfig],
        modern_pieces: &[ModernTimepiece],
        dynasty_errors: &[i64],
    ) -> (r: Result<CrossEraComparison, AnalysisError>)
        requires
            dynasties@.len() == dynasty_errors@.len(),
            dynasties@.len() > 0,
            modern_pieces@.len() > 0,
        ensures
            r is Ok <==> cross_era_fits(dynasty_errors@, modern_pieces@),
            r matches Ok(c) ==> cross_era_is(c, dynasties@, modern_pieces@, dynasty_errors@),
    {
        let ghost errs = dynasty_errors@.map_values(|e: i64| e as int);
        let n = dynasties.len();
        let mut ancient: Vec<AccuracyComparisonPoint> = Vec::new();
        let mut i: usize = 0;
        while i < n
            invariant
                n == dynasties@.len(),
                n == dynasty_errors@.len(),
                0 <= i <= n,
                ancient@.len() == i,
                forall|j: int|
                    0 <= j < i ==> ancient_point_is(
                        #[trigger] ancient@[j],
                        dynasties@[j],
                        dynasty_errors@[j] as int,
                    ),
                forall|j: int| 0 <= j < i ==> fits_i64(#[trigger] rdiv(dynasty_errors@[j] * 365, 60)),
            decreases n - i,
        {
            let d = &dynasties[i];
            let err = dynasty_errors[i];
            let yearly = match narrow(div_round(err as i128 * 365, 60)) {
                Some(v) => v,
                None => {
                    assert(!fits_i64(rdiv(dynasty_errors@[i as int] * 365, 60)));
                    return Err(AnalysisError::OutOfRange);
                },
            };
            let mut label = d.dynasty_name.clone();
            label.append("·");
            let head = text_before(d.clepsydra_type.as_str(), '（');
            label.append(head.as_str());
            ancient.push(
                AccuracyComparisonPoint {
                    label,
                    category: d.clepsydra_type.clone(),
                    daily_error_seconds: err,
                    yearly_error_minutes: yearly,
                    color_hex: String::from_str(dynasty_color(d.dynasty_id.as_str())),
                    era: String::from_str("古代"),
                },
            );
            i = i + 1;
        }
        let m = modern_pieces.len();
        let mut modern: Vec<AccuracyComparisonPoint> = Vec::new();
        let mut j: usize = 0;
        while j < m
            invariant
                m == modern_pieces@.len(),
                0 <= j <= m,
                modern@.len() == j,
                forall|k: int|
                    0 <= k < j ==> modern_point_is(#[trigger] modern@[k], modern_pieces@[k]),
            decreases m - j,
        {
            let p = &modern_pieces[j];
            proof {
                lemma_rdiv_bound(p.yearly_error_seconds as int, 60);
            }
            let yearly = div_round(p.yearly_error_seconds as i128, 60) as i64;
            modern.push(
                AccuracyComparisonPoint {
                    label: p.name.clone(),
                    category: p.category.clone(),
                    daily_error_seconds: p.daily_error_seconds,
                    yearly_error_minutes: yearly,
                    color_hex: String::from_str(modern_color(p.category.as_str())),
                    era: String::from_str("现代"),
                },
            );
            j = j + 1;
        }
        let mut ba: usize = 0;
        let mut k: usize = 1;
        while k < n
            invariant
                n == dynasty_errors@.len(),
                n == ancient@.len(),
                1 <= k <= n,
                ba < k,
                errs == dynasty_errors@.map_values(|e: i64| e as int),
                forall|q: int| 0 <= q < n ==> #[trigger] ancient@[q].daily_error_seconds == dynasty_errors@[q],
                ba == first_argmin(errs, k as nat),
            decreases n - k,
        {
            if ancient[k].daily_error_seconds < ancient[ba].daily_error_seconds {
                ba = k;
            }
            k = k + 1;
        }
        let mut bm: usize = 0;
        let mut k: usize = 1;
        while k < m
            invariant
                m == modern_pieces@.len(),
                m == modern@.len(),
                1 <= k <= m,
                bm < k,
                forall|q: int|
                    0 <= q < m ==> #[trigger] modern@[q].daily_error_seconds
                        == modern_pieces@[q].daily_error_seconds,
                bm == first_argmin(modern_errors(modern_pieces@), k as nat),
            decreases m - k,
        {
            if modern[k].daily_error_seconds < modern[bm].daily_error_seconds {
                bm = k;
            }
            k = k + 1;
        }
        let best_ancient = copy_point(&ancient[ba]);
        let best_modern = copy_point(&modern[bm]);
        let a = best_ancient.daily_error_seconds;
        let b = best_modern.daily_error_seconds;
        let improvement: i64 = if b > 0 {
            match narrow(div_round(a as i128 * 1_000_000, b as i128)) {
                Some(v) => v,
                None => {
                    return Err(AnalysisError::OutOfRange);
                },
            }
        } else {
            1_000_000_000_000_000
        };
        Ok(
            CrossEraComparison {
                ancient_devices: ancient,
                modern_devices: modern,
                best_ancient,
                best_modern,
                improvement_factor: improvement,
                timeline_data: timeline(),
            },
        )
    }
}

/// A charted device as plain values: label, category, daily error, yearly
/// error, colour and era.
pub open spec fn point_view(p: AccuracyComparisonPoint) -> (
    Seq<char>,
    Seq<char>,
    int,
    int,
    Seq<char>,
    Seq<char>,
) {
    (
        p.label@,
        p.category@,
        p.daily_error_seconds as int,
        p.yearly_error_minutes as int,
        p.color_hex@,
        p.era@,
    )
}

/// A comparison depends on its inputs alone: two charts of the same designs,
/// errors and timepieces agree in every device, best pick, factor and
/// milestone, whichever comparator drew them. (The chart needs at least one
/// design and one timepiece.)
pub proof fn law_comparison_depends_only_on_its_inputs(
    a: CrossEraComparison,
    b: CrossEraComparison,
    dynasties: Seq<DynastyClepsydraConfig>,
    modern_pieces: Seq<ModernTimepiece>,
    errors: Seq<i64>,
)
    requires
        cross_era_is(a, dynasties, modern_pieces, errors),
        cross_era_is(b, dynasties, modern_pieces, errors),
        errors.len() == dynasties.len(),
        dynasties.len() >= 1,
        modern_pieces.len() >= 1,
    ensures
        a.ancient_devices@.map_values(|p: AccuracyComparisonPoint| point_view(p))
            == b.ancient_devices@.map_values(|p: AccuracyComparisonPoint| point_view(p)),
        a.modern_devices@.map_values(|p: AccuracyComparisonPoint| point_view(p))
            == b.modern_devices@.map_values(|p: AccuracyComparisonPoint| point_view(p)),
        point_view(a.best_ancient) == point_view(b.best_ancient),
        point_view(a.best_modern) == point_view(b.best_modern),
        a.improvement_factor == b.improvement_factor,
        a.timeline_data@.map_values(|t: TimelineAccuracy| milestone_view(t))
            == b.timeline_data@.map_values(|t: TimelineAccuracy| milestone_view(t)),
{
    let ba = first_argmin(errors.map_values(|e: i64| e as int), errors.len());
    let bm = first_argmin(modern_errors(modern_pieces), modern_pieces.len());
    assert forall|i: int| 0 <= i < dynasties.len() implies point_view(a.ancient_devices@[i])
        == point_view(b.ancient_devices@[i]) by {
        assert(ancient_point_is(a.ancient_devices@[i], dynasties[i], errors[i] as int));
        assert(ancient_point_is(b.ancient_devices@[i], dynasties[i], errors[i] as int));
    }
    assert forall|i: int| 0 <= i < modern_pieces.len() implies point_view(a.modern_devices@[i])
        == point_view(b.modern_devices@[i]) by {
        assert(modern_point_is(a.modern_devices@[i], modern_pieces[i]));
        assert(modern_point_is(b.modern_devices@[i], modern_pieces[i]));
    }
    assert(a.ancient_devices@.map_values(|p: AccuracyComparisonPoint| point_view(p))
        =~= b.ancient_devices@.map_values(|p: AccuracyComparisonPoint| point_view(p)));
    assert(a.modern_devices@.map_values(|p: AccuracyComparisonPoint| point_view(p))
        =~= b.modern_devices@.map_values(|p: AccuracyComparisonPoint| point_view(p)));
    lemma_first_argmin(errors.map_values(|e: i64| e as int), errors.len());
    lemma_first_argmin(modern_errors(modern_pieces), modern_pieces.len());
    assert(point_view(a.ancient_devices@[ba]) == point_view(b.ancient_devices@[ba]));
    assert(point_view(a.modern_devices@[bm]) == point_view(b.modern_devices@[bm]));
}

/// Every charted device reports its yearly error in minutes: sixty times
/// the minutes lies within 30 s of the yearly error in seconds, the
/// timepiece's own for a modern device, 365 days of the design's daily
/// error for an ancient one (all in millionths).
pub proof fn law_yearly_errors_are_in_minutes(
    c: CrossEraComparison,
    dynasties: Seq<DynastyClepsydraConfig>,
    modern_pieces: Seq<ModernTimepiece>,
    errors: Seq<i64>,
)
    requires
        cross_era_is(c, dynasties, modern_pieces, errors),
    ensures
        forall|i: int|
            0 <= i < modern_pieces.len() ==> {
                let m = #[trigger] c.modern_devices@[i].yearly_error_minutes as int;
                let y = modern_pieces[i].yearly_error_seconds as int;
                y - 30 < 60 * m <= y + 30
            },
        forall|i: int|
            0 <= i < dynasties.len() ==> {
                let m = #[trigger] c.ancient_devices@[i].yearly_error_minutes as int;
                let y = errors[i] as int * 365;
                y - 30 < 60 * m <= y + 30
            },
{
    assert forall|i: int| 0 <= i < modern_pieces.len() implies {
        let m = #[trigger] c.modern_devices@[i].yearly_error_minutes as int;
        let y = modern_pieces[i].yearly_error_seconds as int;
        y - 30 < 60 * m <= y + 30
    } by {
        assert(modern_point_is(c.modern_devices@[i], modern_pieces[i]));
        lemma_rdiv_within_half(modern_pieces[i].yearly_error_seconds as int, 60);
    }
    assert forall|i: int| 0 <= i < dynasties.len() implies {
        let m = #[trigger] c.ancient_devices@[i].yearly_error_minutes as int;
        let y = errors[i] as int * 365;
        y - 30 < 60 * m <= y + 30
    } by {
        assert(ancient_point_is(c.ancient_devices@[i], dynasties[i], errors[i] as int));
        lemma_rdiv_within_half(errors[i] as int * 365, 60);
    }
}

} // verus!
