use tui_diagnostics::text::decimal_string;

#[test]
fn zero_is_a_single_digit() {
    assert_eq!(decimal_string(0), "0");
}

#[test]
fn single_digits_are_written_as_themselves() {
    let expected = ["0", "1", "2", "3", "4", "5", "6", "7", "8", "9"];
    let mut n: u128 = 0;
    while n < 10 {
        assert_eq!(decimal_string(n), expected[n as usize]);
        n += 1;
    }
}

#[test]
fn digits_come_most_significant_first() {
    assert_eq!(decimal_string(10), "10");
    assert_eq!(decimal_string(120), "120");
    assert_eq!(decimal_string(1_000_000), "1000000");
    assert_eq!(decimal_string(9_876_543_210), "9876543210");
}

#[test]
fn the_largest_number_is_written_in_full() {
    assert_eq!(decimal_string(u128::MAX), "340282366920938463463374607431768211455");
}

#[test]
fn numerals_agree_with_the_standard_formatting() {
    let mut n: u128 = 1;
    let mut steps: u32 = 0;
    while steps < 120 {
        assert_eq!(decimal_string(n), format!("{}", n));
        assert_eq!(decimal_string(n - 1), format!("{}", n - 1));
        n = n.wrapping_mul(3).wrapping_add(7);
        steps += 1;
    }
}

#[test]
fn numerals_read_back_as_their_number() {
    let samples: [u128; 6] = [0, 7, 42, 1_700_000_000_000_000, 99_999, u128::MAX];
    for n in samples {
        let text = decimal_string(n);
        assert_eq!(text.parse::<u128>(), Ok(n));
        assert!(text.chars().all(|c| c.is_ascii_digit()));
        assert!(n == 0 || !text.starts_with('0'));
    }
}
