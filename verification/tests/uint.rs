use token_reader::uint::U256;

#[test]
fn checked_pow_overflows_past_2_256() {
    let ten = U256::from_u64(10);
    assert_eq!(ten.checked_pow(&U256::from_u64(3)), Some(U256::from_u64(1000)));
    assert!(ten.checked_pow(&U256::from_u64(77)).is_some());
    assert_eq!(ten.checked_pow(&U256::from_u64(78)), None);
    assert_eq!(ten.checked_pow(&U256::zero()), Some(U256::from_u64(1)));
}

#[test]
fn checked_div_and_rem() {
    let a = U256::from_u64(123456);
    let b = U256::from_u64(1000);
    assert_eq!(a.checked_div(&b), Some(U256::from_u64(123)));
    assert_eq!(a.checked_rem(&b), Some(U256::from_u64(456)));
    assert_eq!(a.checked_div(&U256::zero()), None);
    assert_eq!(a.checked_rem(&U256::zero()), None);
    // 2^64 / 2 == 2^63, across a limb boundary.
    let big = U256::from_limbs([0, 1, 0, 0]);
    assert_eq!(big.checked_div(&U256::from_u64(2)), Some(U256::from_u64(1 << 63)));
}

#[test]
fn decimal_string() {
    assert_eq!(U256::zero().to_decimal_string(), "0");
    assert_eq!(U256::from_u64(1234567).to_decimal_string(), "1234567");
    assert_eq!(
        U256::from_limbs([0, 0, 1, 0]).to_decimal_string(),
        "340282366920938463463374607431768211456"
    );
}

#[test]
fn zero_and_limbs() {
    assert!(U256::zero().is_zero());
    assert!(!U256::from_limbs([0, 0, 0, 1]).is_zero());
    assert_eq!(U256::from_u64(7).into_limbs(), [7, 0, 0, 0]);
}
