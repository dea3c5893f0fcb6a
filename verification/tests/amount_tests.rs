use liquidity_watch::helpers::{pow10_u128, to_1e18, token_amount, Amount};
use liquidity_watch::uint::U256;

fn as_float(a: &Amount) -> f64 {
    a.whole as f64 + a.frac as f64 / 10.0_f64.powi(a.decimals as i32)
}

#[test]
fn token_amount_splits_whole_and_fraction() {
    let a = token_amount(1_234_567, 6);
    assert_eq!(a, Amount { whole: 1, frac: 234_567, decimals: 6 });
    let b = token_amount(500_000_000_000_000_000, 18);
    assert_eq!(b, Amount { whole: 0, frac: 500_000_000_000_000_000, decimals: 18 });
    let c = token_amount(42, 0);
    assert_eq!(c, Amount { whole: 42, frac: 0, decimals: 0 });
}

#[test]
fn token_amount_of_one_ether_is_one() {
    let a = token_amount(1_000_000_000_000_000_000, 18);
    assert_eq!(a, Amount { whole: 1, frac: 0, decimals: 18 });
    assert_eq!(as_float(&a), 1.0);
}

#[test]
fn token_amount_at_the_largest_power_that_fits() {
    let raw = u128::MAX;
    let a = token_amount(raw, 38);
    assert_eq!(a.whole, 3);
    assert_eq!(a.frac, raw - 3 * 10u128.pow(38));
    assert_eq!(a.to_raw(), raw);
}

#[test]
fn token_amount_with_more_places_than_fit_is_all_fraction() {
    let a = token_amount(u128::MAX, 39);
    assert_eq!(a, Amount { whole: 0, frac: u128::MAX, decimals: 39 });
    assert_eq!(a.to_raw(), u128::MAX);
    let b = token_amount(7, 255);
    assert_eq!(b, Amount { whole: 0, frac: 7, decimals: 255 });
    assert_eq!(b.to_raw(), 7);
}

#[test]
fn scaling_back_recovers_the_raw_amount() {
    let raws: [u128; 7] = [
        0,
        1,
        999,
        1_000_000,
        123_456_789_012_345_678_901,
        u64::MAX as u128,
        u128::MAX,
    ];
    for raw in raws {
        for decimals in [0u8, 1, 6, 8, 18, 30, 38, 39, 77, 255] {
            assert_eq!(token_amount(raw, decimals).to_raw(), raw);
        }
    }
}

#[test]
fn conversion_matches_float_division_for_small_decimals() {
    let raws: [u128; 5] = [0, 1, 1_500_000, 2_000_000_000, 5 * 10u128.pow(17)];
    for raw in raws {
        for decimals in [0u8, 6, 9, 18] {
            let exact = as_float(&token_amount(raw, decimals));
            let float = raw as f64 / 10.0_f64.powi(decimals as i32);
            let tolerance = float.abs() * 1e-12;
            assert!((exact - float).abs() <= tolerance);
        }
    }
}

#[test]
fn amount_text_drops_a_zero_fraction() {
    assert_eq!(token_amount(1_000_000_000_000_000_000, 18).to_text(), "1");
    assert_eq!(token_amount(2_000_000_000, 6).to_text(), "2000");
    assert_eq!(token_amount(0, 18).to_text(), "0");
}

#[test]
fn amount_text_writes_the_fraction_to_its_last_digit() {
    assert_eq!(token_amount(500_000_000_000_000_000, 18).to_text(), "0.5");
    assert_eq!(token_amount(1_234_567, 6).to_text(), "1.234567");
    assert_eq!(token_amount(1_000_001, 6).to_text(), "1.000001");
    assert_eq!(token_amount(1_200_000, 6).to_text(), "1.2");
    assert_eq!(token_amount(1, 18).to_text(), "0.000000000000000001");
    assert_eq!(
        token_amount(123_456_789_012_345_678_901, 18).to_text(),
        "123.456789012345678901"
    );
}

#[test]
fn amount_text_with_more_places_than_fit() {
    // 7 parts of 10^40: thirty-nine zeros, then the 7
    let text = token_amount(7, 40).to_text();
    let mut expected = String::from("0.");
    expected.push_str(&"0".repeat(39));
    expected.push('7');
    assert_eq!(text, expected);
}

#[test]
fn amount_text_of_the_largest_amount() {
    assert_eq!(
        token_amount(u128::MAX, 0).to_text(),
        "340282366920938463463374607431768211455"
    );
}

#[test]
fn pow10_values() {
    assert_eq!(pow10_u128(0), 1);
    assert_eq!(pow10_u128(1), 10);
    assert_eq!(pow10_u128(18), 1_000_000_000_000_000_000);
    assert_eq!(pow10_u128(38), 10u128.pow(38));
}

#[test]
fn to_1e18_scales_by_ten_to_the_eighteenth() {
    assert_eq!(to_1e18(0), U256::zero());
    assert_eq!(to_1e18(1).as_u128(), 1_000_000_000_000_000_000);
    assert_eq!(to_1e18(3).as_u128(), 3_000_000_000_000_000_000);
    assert_eq!(
        to_1e18(u64::MAX).as_u128(),
        (u64::MAX as u128) * 1_000_000_000_000_000_000
    );
}

#[test]
fn exp10_is_a_power_of_ten() {
    assert_eq!(U256::exp10(0), U256::from_u64(1));
    assert_eq!(U256::exp10(2), U256::from_u64(100));
    assert_eq!(U256::exp10(38).as_u128(), 10u128.pow(38));
    // 10^39 = 2 * 2^128 + 319435266158123073073250785136463577088: it needs the third word
    assert!(!U256::exp10(39).fits_u128());
    assert_eq!(U256::exp10(39).limbs[2], 2);
    assert_eq!(U256::exp10(39).limbs[3], 0);
    assert!(U256::exp10(77).limbs[3] != 0);
}

#[test]
fn u256_holds_its_words_lowest_first() {
    let x = U256::from_u128((5u128 << 64) + 9);
    assert_eq!(x.limbs, [9, 5, 0, 0]);
    assert_eq!(x.as_u128(), (5u128 << 64) + 9);
    assert_eq!(x.to_u128(), Some((5u128 << 64) + 9));
    assert_eq!(U256::from_u128(u128::MAX).limbs, [u64::MAX, u64::MAX, 0, 0]);
    assert_eq!(U256::from_u64(7).limbs, [7, 0, 0, 0]);
}

#[test]
fn u256_above_128_bits_does_not_fit() {
    let big = U256 { limbs: [0, 0, 1, 0] };
    assert!(!big.fits_u128());
    assert_eq!(big.to_u128(), None);
    let bigger = U256 { limbs: [1, 0, 0, 1] };
    assert!(!bigger.fits_u128());
    assert_eq!(bigger.to_u128(), None);
}
