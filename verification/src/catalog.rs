//! Built-in historical clepsydrae, modern timepieces, and their chart colours.
use vstd::prelude::*;

use crate::models::{ClepsydraConfig, DynastyClepsydraConfig, ModernTimepiece};
use crate::text::str_eq;

verus! {

/// `c` is the vessel `id` named `name`, with the given upper level, lower
/// level and flow, and the given cross-section, orifice diameter and flow
/// coefficient (all in millionths).
pub open spec fn vessel_is(
    c: ClepsydraConfig,
    id: Seq<char>,
    name: Seq<char>,
    max: int,
    min: int,
    flow: int,
    area: int,
    orifice: int,
    coefficient: int,
) -> bool {
    &&& c.clepsydra_id@ == id
    &&& c.name@ == name
    &&& c.max_level == max
    &&& c.min_level == min
    &&& c.standard_flow == flow
    &&& c.cross_section_area == area
    &&& c.orifice_diameter == orifice
    &&& c.flow_coefficient == coefficient
}

/// `d` is the design `id` of dynasty `name` and era `era`, of type `kind`
/// and made of `material`, with the given stage count, documented daily
/// error, typical temperature (millionths), reference year and vessel count.
pub open spec fn dynasty_is(
    d: DynastyClepsydraConfig,
    id: Seq<char>,
    name: Seq<char>,
    era: Seq<char>,
    kind: Seq<char>,
    material: Seq<char>,
    stages: u32,
    error: int,
    temp: int,
    year: int,
    vessels: nat,
) -> bool {
    &&& d.dynasty_id@ == id
    &&& d.dynasty_name@ == name
    &&& d.era@ == era
    &&& d.clepsydra_type@ == kind
    &&& d.material@ == material
    &&& d.stage_count == stages
    &&& d.historical_daily_error_seconds == error
    &&& d.typical_water_temp_c == temp
    &&& d.reference_year == year
    &&& d.configs@.len() == vessels
}

/// `m` is the timepiece `id` named `name`, of `category`, with the given
/// daily and yearly errors (millionths of a second).
pub open spec fn timepiece_is(
    m: ModernTimepiece,
    id: Seq<char>,
    name: Seq<char>,
    category: Seq<char>,
    daily: int,
    yearly: int,
) -> bool {
    &&& m.piece_id@ == id
    &&& m.name@ == name
    &&& m.category@ == category
    &&& m.daily_error_seconds == daily
    &&& m.yearly_error_seconds == yearly
}

fn vessel(
    id: &str,
    name: &str,
    max_level: i64,
    min_level: i64,
    standard_flow: i64,
    cross_section_area: i64,
    orifice_diameter: i64,
    flow_coefficient: i64,
) -> (c: ClepsydraConfig)
    ensures
        c.clepsydra_id@ == id@,
        c.name@ == name@,
        c.max_level == max_level,
        c.min_level == min_level,
        c.standard_flow == standard_flow,
        c.cross_section_area == cross_section_area,
        c.orifice_diameter == orifice_diameter,
        c.flow_coefficient == flow_coefficient,
{
    ClepsydraConfig {
        clepsydra_id: String::from_str(id),
        name: String::from_str(name),
        max_level,
        min_level,
        standard_flow,
        cross_section_area,
        orifice_diameter,
        flow_coefficient,
    }
}

/// `r` holds the built-in historical designs, in order.
pub open spec fn default_dynasties_spec(r: Seq<DynastyClepsydraConfig>) -> bool {
    &&& r.len() == 6
    &&& dynasty_is(
        r[0],
        "HAN_CHENJIAN"@,
        "汉代"@,
        "西汉"@,
        "沉箭漏（单级浮箭）"@,
        "青铜"@,
        1,
        900_000_000,
        15_000_000,
        -100,
        1,
    )
    &&& vessel_is(
        r[0].configs@[0],
        "HAN01"@,
        "沉箭壶"@,
        80_000_000,
        5_000_000,
        1_800_000,
        113_100_000,
        250_000,
        580_000,
    )
    &&& dynasty_is(
        r[1],
        "HAN_FUJIAN"@,
        "汉代"@,
        "东汉"@,
        "浮箭漏（二级补偿）"@,
        "青铜"@,
        2,
        300_000_000,
        15_000_000,
        125,
        2,
    )
    &&& vessel_is(
        r[1].configs@[0],
        "HF01"@,
        "上壶"@,
        90_000_000,
        10_000_000,
        2_000_000,
        95_000_000,
        280_000,
        600_000,
    )
    &&& vessel_is(
        r[1].configs@[1],
        "HF02"@,
        "下壶"@,
        70_000_000,
        5_000_000,
        2_000_000,
        78_500_000,
        280_000,
        600_000,
    )
    &&& dynasty_is(
        r[2],
        "TANG_JINGLU"@,
        "唐代"@,
        "盛唐"@,
        "四级浮箭漏（吕才）"@,
        "铜鎏金"@,
        4,
        120_000_000,
        18_000_000,
        650,
        4,
    )
    &&& vessel_is(
        r[2].configs@[0],
        "TJ01"@,
        "夜天池"@,
        110_000_000,
        15_000_000,
        2_300_000,
        85_000_000,
        290_000,
        610_000,
    )
    &&& vessel_is(
        r[2].configs@[1],
        "TJ02"@,
        "日天池"@,
        95_000_000,
        12_000_000,
        2_300_000,
        85_000_000,
        290_000,
        610_000,
    )
    &&& vessel_is(
        r[2].configs@[2],
        "TJ03"@,
        "平壶"@,
        75_000_000,
        10_000_000,
        2_300_000,
        85_000_000,
        290_000,
        610_000,
    )
    &&& vessel_is(
        r[2].configs@[3],
        "TJ04"@,
        "万分水"@,
        55_000_000,
        5_000_000,
        2_300_000,
        70_000_000,
        290_000,
        610_000,
    )
    &&& dynasty_is(
        r[3],
        "SONG_LIANHUA"@,
        "宋代"@,
        "北宋"@,
        "莲花漏（燕肃）"@,
        "精铜"@,
        3,
        45_000_000,
        20_000_000,
        1030,
        3,
    )
    &&& vessel_is(
        r[3].configs@[0],
        "SL01"@,
        "上匮"@,
        100_000_000,
        20_000_000,
        2_450_000,
        80_000_000,
        300_000,
        620_000,
    )
    &&& vessel_is(
        r[3].configs@[1],
        "SL02"@,
        "次匮"@,
        85_000_000,
        15_000_000,
        2_450_000,
        80_000_000,
        300_000,
        620_000,
    )
    &&& vessel_is(
        r[3].configs@[2],
        "SL03"@,
        "下匮"@,
        65_000_000,
        10_000_000,
        2_450_000,
        70_000_000,
        300_000,
        620_000,
    )
    &&& dynasty_is(
        r[4],
        "SONG_YITIAN"@,
        "宋代"@,
        "北宋"@,
        "水运仪象台（苏颂）"@,
        "精铜"@,
        4,
        50_000_000,
        20_000_000,
        1088,
        4,
    )
    &&& vessel_is(
        r[4].configs@[0],
        "KD1"@,
        "天上壶"@,
        120_000_000,
        20_000_000,
        2_500_000,
        78_540_000,
        300_000,
        620_000,
    )
    &&& vessel_is(
        r[4].configs@[1],
        "KD2"@,
        "夜漏壶"@,
        100_000_000,
        15_000_000,
        2_500_000,
        78_540_000,
        300_000,
        620_000,
    )
    &&& vessel_is(
        r[4].configs@[2],
        "KD3"@,
        "平水壶"@,
        80_000_000,
        10_000_000,
        2_500_000,
        78_540_000,
        300_000,
        620_000,
    )
    &&& vessel_is(
        r[4].configs@[3],
        "KD4"@,
        "万分水"@,
        60_000_000,
        5_000_000,
        2_500_000,
        78_540_000,
        300_000,
        620_000,
    )
    &&& dynasty_is(
        r[5],
        "YONG_LE"@,
        "明代"@,
        "明初"@,
        "永乐漏刻"@,
        "黄铜"@,
        4,
        65_000_000,
        18_000_000,
        1420,
        4,
    )
    &&& vessel_is(
        r[5].configs@[0],
        "YL01"@,
        "子壶"@,
        115_000_000,
        18_000_000,
        2_480_000,
        82_000_000,
        300_000,
        620_000,
    )
    &&& vessel_is(
        r[5].configs@[1],
        "YL02"@,
        "丑壶"@,
        95_000_000,
        14_000_000,
        2_480_000,
        82_000_000,
        300_000,
        620_000,
    )
    &&& vessel_is(
        r[5].configs@[2],
        "YL03"@,
        "寅壶"@,
        75_000_000,
        9_000_000,
        2_480_000,
        78_000_000,
        300_000,
        620_000,
    )
    &&& vessel_is(
        r[5].configs@[3],
        "YL04"@,
        "卯壶"@,
        55_000_000,
        4_500_000,
        2_480_000,
        72_000_000,
        300_000,
        620_000,
    )
}

/// The built-in historical designs, from the Han sinking-arrow clepsydra to
/// the Ming Yongle water clock.
pub fn default_dynasties() -> (r: Vec<DynastyClepsydraConfig>)
    ensures
        default_dynasties_spec(r@),
{
    let mut r: Vec<DynastyClepsydraConfig> = Vec::new();
    let mut configs: Vec<ClepsydraConfig> = Vec::new();
    configs.push(vessel("HAN01", "沉箭壶", 80_000_000, 5_000_000, 1_800_000, 113_100_000, 250_000, 580_000));
    r.push(DynastyClepsydraConfig {
        dynasty_id: String::from_str("HAN_CHENJIAN"),
        dynasty_name: String::from_str("汉代"),
        era: String::from_str("西汉"),
        clepsydra_type: String::from_str("沉箭漏（单级浮箭）"),
        stage_count: 1,
        description: String::from_str("汉代沉箭漏为早期单级漏壶，箭尺随水位下沉指示时间，结构简单但精度较低。"),
        historical_daily_error_seconds: 900_000_000,
        typical_water_temp_c: 15_000_000,
        material: String::from_str("青铜"),
        configs,
        reference_year: -100,
        historical_references: Vec::new(),
        data_source: String::new(),
        uncertainty_percent: 0,
    });
    let mut configs: Vec<ClepsydraConfig> = Vec::new();
    configs.push(vessel("HF01", "上壶", 90_000_000, 10_000_000, 2_000_000, 95_000_000, 280_000, 600_000));
    configs.push(vessel("HF02", "下壶", 70_000_000, 5_000_000, 2_000_000, 78_500_000, 280_000, 600_000));
    r.push(DynastyClepsydraConfig {
        dynasty_id: String::from_str("HAN_FUJIAN"),
        dynasty_name: String::from_str("汉代"),
        era: String::from_str("东汉"),
        clepsydra_type: String::from_str("浮箭漏（二级补偿）"),
        stage_count: 2,
        description: String::from_str("东汉张衡改进的二级浮箭漏，增加补偿壶以稳定水位，精度较单级大幅提升。"),
        historical_daily_error_seconds: 300_000_000,
        typical_water_temp_c: 15_000_000,
        material: String::from_str("青铜"),
        configs,
        reference_year: 125,
        historical_references: Vec::new(),
        data_source: String::new(),
        uncertainty_percent: 0,
    });
    let mut configs: Vec<ClepsydraConfig> = Vec::new();
    configs.push(vessel("TJ01", "夜天池", 110_000_000, 15_000_000, 2_300_000, 85_000_000, 290_000, 610_000));
    configs.push(vessel("TJ02", "日天池", 95_000_000, 12_000_000, 2_300_000, 85_000_000, 290_000, 610_000));
    configs.push(vessel("TJ03", "平壶", 75_000_000, 10_000_000, 2_300_000, 85_000_000, 290_000, 610_000));
    configs.push(vessel("TJ04", "万分水", 55_000_000, 5_000_000, 2_300_000, 70_000_000, 290_000, 610_000));
    r.push(DynastyClepsydraConfig {
        dynasty_id: String::from_str("TANG_JINGLU"),
        dynasty_name: String::from_str("唐代"),
        era: String::from_str("盛唐"),
        clepsydra_type: String::from_str("四级浮箭漏（吕才）"),
        stage_count: 4,
        description: String::from_str("唐代吕才设计的四级漏壶，从单级发展到多级补偿，是宋代水运仪象台的前驱。"),
        historical_daily_error_seconds: 120_000_000,
        typical_water_temp_c: 18_000_000,
        material: String::from_str("铜鎏金"),
        configs,
        reference_year: 650,
        historical_references: Vec::new(),
        data_source: String::new(),
        uncertainty_percent: 0,
    });
    let mut configs: Vec<ClepsydraConfig> = Vec::new();
    configs.push(vessel("SL01", "上匮", 100_000_000, 20_000_000, 2_450_000, 80_000_000, 300_000, 620_000));
    configs.push(vessel("SL02", "次匮", 85_000_000, 15_000_000, 2_450_000, 80_000_000, 300_000, 620_000));
    configs.push(vessel("SL03", "下匮", 65_000_000, 10_000_000, 2_450_000, 70_000_000, 300_000, 620_000));
    r.push(DynastyClepsydraConfig {
        dynasty_id: String::from_str("SONG_LIANHUA"),
        dynasty_name: String::from_str("宋代"),
        era: String::from_str("北宋"),
        clepsydra_type: String::from_str("莲花漏（燕肃）"),
        stage_count: 3,
        description: String::from_str("北宋燕肃发明的莲花漏，采用漫流系统恒定水位，刻花莲花装饰，精度极高，是宋代漏壶之冠。"),
        historical_daily_error_seconds: 45_000_000,
        typical_water_temp_c: 20_000_000,
        material: String::from_str("精铜"),
        configs,
        reference_year: 1030,
        historical_references: Vec::new(),
        data_source: String::new(),
        uncertainty_percent: 0,
    });
    let mut configs: Vec<ClepsydraConfig> = Vec::new();
    configs.push(vessel("KD1", "天上壶", 120_000_000, 20_000_000, 2_500_000, 78_540_000, 300_000, 620_000));
    configs.push(vessel("KD2", "夜漏壶", 100_000_000, 15_000_000, 2_500_000, 78_540_000, 300_000, 620_000));
    configs.push(vessel("KD3", "平水壶", 80_000_000, 10_000_000, 2_500_000, 78_540_000, 300_000, 620_000));
    configs.push(vessel("KD4", "万分水", 60_000_000, 5_000_000, 2_500_000, 78_540_000, 300_000, 620_000));
    r.push(DynastyClepsydraConfig {
        dynasty_id: String::from_str("SONG_YITIAN"),
        dynasty_name: String::from_str("宋代"),
        era: String::from_str("北宋"),
        clepsydra_type: String::from_str("水运仪象台（苏颂）"),
        stage_count: 4,
        description: String::from_str("苏颂、韩公廉于元祐三年建造的水运仪象台四级漏壶，天上壶、夜漏壶、平水壶、万分水串联，驱动浑仪浑象，精度日误差<1分钟。"),
        historical_daily_error_seconds: 50_000_000,
        typical_water_temp_c: 20_000_000,
        material: String::from_str("精铜"),
        configs,
        reference_year: 1088,
        historical_references: Vec::new(),
        data_source: String::new(),
        uncertainty_percent: 0,
    });
    let mut configs: Vec<ClepsydraConfig> = Vec::new();
    configs.push(vessel("YL01", "子壶", 115_000_000, 18_000_000, 2_480_000, 82_000_000, 300_000, 620_000));
    configs.push(vessel("YL02", "丑壶", 95_000_000, 14_000_000, 2_480_000, 82_000_000, 300_000, 620_000));
    configs.push(vessel("YL03", "寅壶", 75_000_000, 9_000_000, 2_480_000, 78_000_000, 300_000, 620_000));
    configs.push(vessel("YL04", "卯壶", 55_000_000, 4_500_000, 2_480_000, 72_000_000, 300_000, 620_000));
    r.push(DynastyClepsydraConfig {
        dynasty_id: String::from_str("YONG_LE"),
        dynasty_name: String::from_str("明代"),
        era: String::from_str("明初"),
        clepsydra_type: String::from_str("永乐漏刻"),
        stage_count: 4,
        description: String::from_str("明代永乐年间造漏刻，继承宋代技术，在皇宫和钦天监使用，结构稳定。"),
        historical_daily_error_seconds: 65_000_000,
        typical_water_temp_c: 18_000_000,
        material: String::from_str("黄铜"),
        configs,
        reference_year: 1420,
        historical_references: Vec::new(),
        data_source: String::new(),
        uncertainty_percent: 0,
    });
    r
}

/// The vessels a deployment runs by default: the four stages of the Song
/// water-driven armillary clock, from the heavenly pot down to the
/// ten-thousand-part divider.
pub fn default_clepsydras() -> (r: Vec<ClepsydraConfig>)
    ensures
        r@.len() == 4,
        vessel_is(r@[0], "KD1"@, "天上壶"@, 120_000_000, 20_000_000, 2_500_000, 78_540_000, 300_000, 620_000),
        vessel_is(r@[1], "KD2"@, "夜漏壶"@, 100_000_000, 15_000_000, 2_500_000, 78_540_000, 300_000, 620_000),
        vessel_is(r@[2], "KD3"@, "平水壶"@, 80_000_000, 10_000_000, 2_500_000, 78_540_000, 300_000, 620_000),
        vessel_is(r@[3], "KD4"@, "万分水"@, 60_000_000, 5_000_000, 2_500_000, 78_540_000, 300_000, 620_000),
{
    let mut r: Vec<ClepsydraConfig> = Vec::new();
    r.push(vessel("KD1", "天上壶", 120_000_000, 20_000_000, 2_500_000, 78_540_000, 300_000, 620_000));
    r.push(vessel("KD2", "夜漏壶", 100_000_000, 15_000_000, 2_500_000, 78_540_000, 300_000, 620_000));
    r.push(vessel("KD3", "平水壶", 80_000_000, 10_000_000, 2_500_000, 78_540_000, 300_000, 620_000));
    r.push(vessel("KD4", "万分水", 60_000_000, 5_000_000, 2_500_000, 78_540_000, 300_000, 620_000));
    r
}

/// `r` holds the built-in modern timepieces, in order.
pub open spec fn default_timepieces_spec(r: Seq<ModernTimepiece>) -> bool {
    &&& r.len() == 8
    &&& timepiece_is(r[0], "MECH_WATCH"@, "机械手表"@, "机械"@, 10_000_000, 3_650_000_000)
    &&& timepiece_is(r[1], "QUARTZ_WATCH"@, "石英手表"@, "电子"@, 500_000, 182_500_000)
    &&& timepiece_is(r[2], "HI_ACC_QUARTZ"@, "高精度石英表"@, "电子"@, 50_000, 18_250_000)
    &&& timepiece_is(r[3], "ATOMIC_CS"@, "铯原子钟"@, "原子"@, 1, 365)
    &&& timepiece_is(r[4], "ATOMIC_RB"@, "铷原子钟"@, "原子"@, 50, 18_250)
    &&& timepiece_is(r[5], "GPS_CLOCK"@, "GPS授时"@, "卫星"@, 10, 3_650)
    &&& timepiece_is(r[6], "PENDULUM"@, "精密摆钟"@, "机械"@, 200_000, 73_000_000)
    &&& timepiece_is(r[7], "MECH_CHRONO"@, "机械天文台表"@, "机械"@, 2_000_000, 730_000_000)
}

/// The built-in modern timepieces, from the mechanical watch to GPS time.
pub fn default_modern_timepieces() -> (r: Vec<ModernTimepiece>)
    ensures
        default_timepieces_spec(r@),
{
    let mut r: Vec<ModernTimepiece> = Vec::new();
    r.push(ModernTimepiece {
        piece_id: String::from_str("MECH_WATCH"),
        name: String::from_str("机械手表"),
        category: String::from_str("机械"),
        daily_error_seconds: 10_000_000,
        yearly_error_seconds: 3_650_000_000,
        technology: String::from_str("摆轮游丝"),
        invention_year: 1675,
        description: String::from_str("传统机械手表，日误差±10秒属天文台级别。"),
        accuracy_class: String::from_str("中等"),
        standard_reference: String::new(),
        iso_class: None,
    });
    r.push(ModernTimepiece {
        piece_id: String::from_str("QUARTZ_WATCH"),
        name: String::from_str("石英手表"),
        category: String::from_str("电子"),
        daily_error_seconds: 500_000,
        yearly_error_seconds: 182_500_000,
        technology: String::from_str("石英晶体振荡器"),
        invention_year: 1969,
        description: String::from_str("普通石英手表，日误差0.5秒，年误差约3分钟。"),
        accuracy_class: String::from_str("良好"),
        standard_reference: String::new(),
        iso_class: None,
    });
    r.push(ModernTimepiece {
        piece_id: String::from_str("HI_ACC_QUARTZ"),
        name: String::from_str("高精度石英表"),
        category: String::from_str("电子"),
        daily_error_seconds: 50_000,
        yearly_error_seconds: 18_250_000,
        technology: String::from_str("恒温石英晶体"),
        invention_year: 1960,
        description: String::from_str("高精度石英表（如Grand Seiko 9F），年误差10-20秒。"),
        accuracy_class: String::from_str("优秀"),
        standard_reference: String::new(),
        iso_class: None,
    });
    r.push(ModernTimepiece {
        piece_id: String::from_str("ATOMIC_CS"),
        name: String::from_str("铯原子钟"),
        category: String::from_str("原子"),
        daily_error_seconds: 1,
        yearly_error_seconds: 365,
        technology: String::from_str("铯原子超精细跃迁"),
        invention_year: 1955,
        description: String::from_str("NIST-F1铯原子钟，3000万年误差1秒，定义秒的基准。"),
        accuracy_class: String::from_str("顶级"),
        standard_reference: String::new(),
        iso_class: None,
    });
    r.push(ModernTimepiece {
        piece_id: String::from_str("ATOMIC_RB"),
        name: String::from_str("铷原子钟"),
        category: String::from_str("原子"),
        daily_error_seconds: 50,
        yearly_error_seconds: 18_250,
        technology: String::from_str("铷原子跃迁"),
        invention_year: 1958,
        description: String::from_str("商业铷原子钟，体积小，常用于通信基站。"),
        accuracy_class: String::from_str("极高"),
        standard_reference: String::new(),
        iso_class: None,
    });
    r.push(ModernTimepiece {
        piece_id: String::from_str("GPS_CLOCK"),
        name: String::from_str("GPS授时"),
        category: String::from_str("卫星"),
        daily_error_seconds: 10,
        yearly_error_seconds: 3_650,
        technology: String::from_str("原子钟群+相对论修正"),
        invention_year: 1978,
        description: String::from_str("GPS卫星系统授时，误差纳秒级，含广义相对论修正。"),
        accuracy_class: String::from_str("顶级"),
        standard_reference: String::new(),
        iso_class: None,
    });
    r.push(ModernTimepiece {
        piece_id: String::from_str("PENDULUM"),
        name: String::from_str("精密摆钟"),
        category: String::from_str("机械"),
        daily_error_seconds: 200_000,
        yearly_error_seconds: 73_000_000,
        technology: String::from_str("重力摆"),
        invention_year: 1656,
        description: String::from_str("惠更斯发明的精密摆钟，天文台级摆钟可达日误差0.2秒。"),
        accuracy_class: String::from_str("良好"),
        standard_reference: String::new(),
        iso_class: None,
    });
    r.push(ModernTimepiece {
        piece_id: String::from_str("MECH_CHRONO"),
        name: String::from_str("机械天文台表"),
        category: String::from_str("机械"),
        daily_error_seconds: 2_000_000,
        yearly_error_seconds: 730_000_000,
        technology: String::from_str("陀飞轮/补偿摆轮"),
        invention_year: 1920,
        description: String::from_str("通过COSC认证的天文台机械表，日误差-4~+6秒。"),
        accuracy_class: String::from_str("良好"),
        standard_reference: String::new(),
        iso_class: None,
    });
    r
}

/// Chart colour of a historical design, by its id.
pub open spec fn dynasty_color_spec(key: Seq<char>) -> Seq<char> {
    if key == "HAN_CHENJIAN"@ {
        "#8B4513"@
    } else if key == "HAN_FUJIAN"@ {
        "#A0522D"@
    } else if key == "TANG_JINGLU"@ {
        "#DAA520"@
    } else if key == "SONG_LIANHUA"@ {
        "#FF6B6B"@
    } else if key == "SONG_YITIAN"@ {
        "#4ECDC4"@
    } else if key == "YONG_LE"@ {
        "#9B59B6"@
    } else {
        "#666666"@
    }
}

pub fn dynasty_color(dynasty: &str) -> (r: &'static str)
    ensures
        r@ == dynasty_color_spec(dynasty@),
{
    if str_eq(dynasty, "HAN_CHENJIAN") {
        "#8B4513"
    } else if str_eq(dynasty, "HAN_FUJIAN") {
        "#A0522D"
    } else if str_eq(dynasty, "TANG_JINGLU") {
        "#DAA520"
    } else if str_eq(dynasty, "SONG_LIANHUA") {
        "#FF6B6B"
    } else if str_eq(dynasty, "SONG_YITIAN") {
        "#4ECDC4"
    } else if str_eq(dynasty, "YONG_LE") {
        "#9B59B6"
    } else {
        "#666666"
    }
}

/// Chart colour of a modern timepiece, by its category.
pub open spec fn modern_color_spec(key: Seq<char>) -> Seq<char> {
    if key == "机械"@ {
        "#7F8C8D"@
    } else if key == "电子"@ {
        "#3498DB"@
    } else if key == "原子"@ {
        "#E74C3C"@
    } else if key == "卫星"@ {
        "#2ECC71"@
    } else {
        "#95A5A6"@
    }
}

pub fn modern_color(category: &str) -> (r: &'static str)
    ensures
        r@ == modern_color_spec(category@),
{
    if str_eq(category, "机械") {
        "#7F8C8D"
    } else if str_eq(category, "电子") {
        "#3498DB"
    } else if str_eq(category, "原子") {
        "#E74C3C"
    } else if str_eq(category, "卫星") {
        "#2ECC71"
    } else {
        "#95A5A6"
    }
}

} // verus!
