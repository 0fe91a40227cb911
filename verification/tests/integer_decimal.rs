use token_reader::integer_decimal::IntegerDecimal;
use token_reader::uint::U256;

#[test]
fn test_integer() {
    let integer_decimal = IntegerDecimal {
        number: U256::from_u64(123456),
        decimals: U256::from_u64(3),
    };
    assert_eq!(integer_decimal.integer(), U256::from_u64(123));
    let zero_decimals = IntegerDecimal {
        number: U256::from_u64(123456),
        decimals: U256::from_u64(0),
    };
    assert_eq!(zero_decimals.integer(), U256::from_u64(123456));

    let zero_integer = IntegerDecimal {
        number: U256::from_u64(123),
        decimals: U256::from_u64(3),
    };
    assert_eq!(zero_integer.integer(), U256::from_u64(0));
}

#[test]
fn test_decimal() {
    let integer_decimal = IntegerDecimal {
        number: U256::from_u64(123456),
        decimals: U256::from_u64(3),
    };
    assert_eq!(integer_decimal.decimal(), U256::from_u64(456));

    let zero_decimals = IntegerDecimal {
        number: U256::from_u64(123456),
        decimals: U256::from_u64(0),
    };

    assert_eq!(zero_decimals.decimal(), U256::from_u64(0));

    let zero_integer = IntegerDecimal {
        number: U256::from_u64(123),
        decimals: U256::from_u64(3),
    };

    assert_eq!(zero_integer.decimal(), U256::from_u64(123));

    let zero_integer = IntegerDecimal {
        number: U256::from_u64(123),
        decimals: U256::from_u64(4),
    };

    assert_eq!(zero_integer.decimal(), U256::from_u64(123));
}

#[test]
fn to_string_joins_the_parts_with_a_point() {
    let amount = IntegerDecimal::new(U256::from_u64(123456), U256::from_u64(3));
    assert_eq!(amount.to_string(), "123.456");
    let whole = IntegerDecimal::new(U256::from_u64(42), U256::from_u64(0));
    assert_eq!(whole.to_string(), "42.0");
    let small = IntegerDecimal::new(U256::from_u64(7), U256::from_u64(6));
    assert_eq!(small.to_string(), "0.7");
}

#[test]
fn parts_recompose_the_number() {
    // integer * 10^decimals + decimal == number, on a value above 2^64.
    let number = U256::from_limbs([5, 9, 0, 0]);
    let amount = IntegerDecimal::new(number, U256::from_u64(18));
    let integer = amount.integer();
    let decimal = amount.decimal();
    let n = (9u128 << 64) + 5;
    let scale = 10u128.pow(18);
    assert_eq!(integer, U256::from_u64((n / scale) as u64));
    assert_eq!(decimal.into_limbs(), [(n % scale) as u64, ((n % scale) >> 64) as u64, 0, 0]);
}

#[test]
fn largest_scale_that_fits() {
    // 10^77 < 2^256 <= 10^78.
    let amount = IntegerDecimal::new(U256::from_u64(1_000_000), U256::from_u64(77));
    assert_eq!(amount.integer(), U256::zero());
    assert_eq!(amount.decimal(), U256::from_u64(1_000_000));
    assert_eq!(amount.to_string(), "0.1000000");
}

#[test]
fn new_keeps_its_fields() {
    let amount = IntegerDecimal::new(U256::from_u64(10), U256::from_u64(1));
    assert_eq!(amount.number, U256::from_u64(10));
    assert_eq!(amount.decimals, U256::from_u64(1));
}

#[test]
fn integer_grows_with_the_number() {
    let a = IntegerDecimal::new(U256::from_u64(1999), U256::from_u64(3));
    let b = IntegerDecimal::new(U256::from_u64(2000), U256::from_u64(3));
    assert_eq!(a.integer(), U256::from_u64(1));
    assert_eq!(b.integer(), U256::from_u64(2));
}

#[test]
fn fraction_rewrapped_keeps_its_value() {
    let x = IntegerDecimal::new(U256::from_u64(123456), U256::from_u64(3));
    let y = IntegerDecimal::new(x.decimal(), x.decimals);
    assert_eq!(y.decimal(), x.decimal());
    assert_eq!(y.integer(), U256::zero());
}
