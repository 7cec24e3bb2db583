use epo_ops::text::{fmt_u64, parse_u32, parse_u64};

#[test]
fn fmt_u64_renders_plain_decimal() {
    assert_eq!("0", fmt_u64(0));
    assert_eq!("7", fmt_u64(7));
    assert_eq!("1234", fmt_u64(1234));
    assert_eq!("18446744073709551615", fmt_u64(u64::MAX));
}

#[test]
fn parse_u64_accepts_exactly_decimal_text_that_fits() {
    assert_eq!(Some(0), parse_u64("0"));
    assert_eq!(Some(3600), parse_u64("3600"));
    assert_eq!(Some(1_700_000_000), parse_u64("1700000000"));
    assert_eq!(Some(u64::MAX), parse_u64("18446744073709551615"));
    assert_eq!(None, parse_u64(""));
    assert_eq!(None, parse_u64("12a"));
    assert_eq!(None, parse_u64("-5"));
    assert_eq!(None, parse_u64(" 5"));
    assert_eq!(None, parse_u64("18446744073709551616"));
}

#[test]
fn parse_u32_narrows_the_same_contract() {
    assert_eq!(Some(250), parse_u32("250"));
    assert_eq!(Some(u32::MAX), parse_u32("4294967295"));
    assert_eq!(None, parse_u32("4294967296"));
    assert_eq!(None, parse_u32("ten"));
}
