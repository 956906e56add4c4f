use ledger_engine::format_amount;
use ledger_engine::parse_amount;

#[test]
fn whole_numbers_are_read_as_ten_thousandths() {
    assert_eq!(parse_amount("0"), Some(0));
    assert_eq!(parse_amount("1"), Some(10_000));
    assert_eq!(parse_amount("10"), Some(100_000));
    assert_eq!(parse_amount("007"), Some(70_000));
}

#[test]
fn up_to_four_decimals_are_read() {
    assert_eq!(parse_amount("10.0"), Some(100_000));
    assert_eq!(parse_amount("12.5"), Some(125_000));
    assert_eq!(parse_amount("2.742"), Some(27_420));
    assert_eq!(parse_amount("0.0001"), Some(1));
    assert_eq!(parse_amount("1.2345"), Some(12_345));
    assert_eq!(parse_amount("5."), Some(50_000));
    assert_eq!(parse_amount(".5"), Some(5_000));
}

#[test]
fn other_texts_are_refused() {
    assert_eq!(parse_amount(""), None);
    assert_eq!(parse_amount("."), None);
    assert_eq!(parse_amount("1.23456"), None);
    assert_eq!(parse_amount("1.2.3"), None);
    assert_eq!(parse_amount("1..2"), None);
    assert_eq!(parse_amount("-1"), None);
    assert_eq!(parse_amount("+1"), None);
    assert_eq!(parse_amount("1e3"), None);
    assert_eq!(parse_amount("1,5"), None);
    assert_eq!(parse_amount(" 1"), None);
    assert_eq!(parse_amount("1 "), None);
    assert_eq!(parse_amount("12a"), None);
    assert_eq!(parse_amount("1.5x"), None);
    assert_eq!(parse_amount("١٢"), None);
}

#[test]
fn the_largest_amount_is_read_and_the_next_is_refused() {
    assert_eq!(parse_amount("1844674407370955.1615"), Some(u64::MAX));
    assert_eq!(parse_amount("1844674407370955.1616"), None);
    assert_eq!(parse_amount("1844674407370956"), None);
    assert_eq!(parse_amount("1844674407370955"), Some(18_446_744_073_709_550_000));
    assert_eq!(parse_amount("99999999999999999999999999999999999999999999"), None);
    assert_eq!(
        parse_amount("00000000000000000000000000000000000000000001.5"),
        Some(15_000)
    );
}

#[test]
fn amounts_are_written_with_four_decimals() {
    assert_eq!(format_amount(0), "0.0000");
    assert_eq!(format_amount(1), "0.0001");
    assert_eq!(format_amount(50_000), "5.0000");
    assert_eq!(format_amount(100_000), "10.0000");
    assert_eq!(format_amount(27_420), "2.7420");
    assert_eq!(format_amount(12_345), "1.2345");
    assert_eq!(format_amount(1_000_700), "100.0700");
    assert_eq!(format_amount(u64::MAX as u128), "1844674407370955.1615");
    assert_eq!(
        format_amount(u128::MAX),
        "34028236692093846346337460743176821.1455"
    );
}

#[test]
fn what_is_written_reads_back() {
    for units in [0u64, 1, 9, 10, 9_999, 10_000, 10_001, 123_456_789, u64::MAX] {
        assert_eq!(parse_amount(&format_amount(units as u128)), Some(units));
    }
}
