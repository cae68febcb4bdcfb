use clepsydra::text::{micro_string, str_eq};

#[test]
fn fixed_point_rendering() {
    assert_eq!(micro_string(22_500_000, 2), "22.50");
    assert_eq!(micro_string(1_450_000, 2), "1.45");
    assert_eq!(micro_string(25_116_279, 0), "25");
    assert_eq!(micro_string(500_000, 0), "0");
    assert_eq!(micro_string(1_500_000, 0), "2");
    assert_eq!(micro_string(1_005, 2), "0.00");
    assert_eq!(micro_string(-4_000, 2), "-0.00");
    assert_eq!(micro_string(-1_234_567, 1), "-1.2");
    assert_eq!(micro_string(i64::MIN, 6), "-9223372036854.775808");
    assert_eq!(micro_string(7, 6), "0.000007");
}

#[test]
fn string_equality() {
    assert!(str_eq("原子", "原子"));
    assert!(!str_eq("原子", "原"));
}
