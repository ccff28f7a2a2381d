use near_nft_cert::decimal::decimal_string;

#[test]
fn writes_single_digits() {
    let digits = ["0", "1", "2", "3", "4", "5", "6", "7", "8", "9"];
    for (n, text) in digits.iter().enumerate() {
        assert_eq!(decimal_string(n as u64), text.to_string());
    }
}

#[test]
fn writes_zero_as_one_digit() {
    assert_eq!(decimal_string(0), "0");
}

#[test]
fn writes_numbers_without_leading_zero() {
    assert_eq!(decimal_string(10), "10");
    assert_eq!(decimal_string(100), "100");
    assert_eq!(decimal_string(907), "907");
    assert_eq!(decimal_string(1234567890), "1234567890");
    assert_eq!(decimal_string(1_000_000_007), "1000000007");
}

#[test]
fn writes_the_largest_number() {
    assert_eq!(decimal_string(u64::MAX), "18446744073709551615");
}

#[test]
fn writes_a_block_timestamp() {
    // Nanoseconds since the epoch, as the host's clock gives them.
    assert_eq!(decimal_string(1_633_046_400_000_000_000), "1633046400000000000");
}

#[test]
fn agrees_with_the_standard_library() {
    let mut n: u64 = 1;
    for _ in 0..2000 {
        n = n.wrapping_mul(6364136223846793005).wrapping_add(1442695040888963407);
        let shift = (n >> 58) as u32;
        let value = n >> shift;
        assert_eq!(decimal_string(value), value.to_string());
    }
    for value in 0..1200u64 {
        assert_eq!(decimal_string(value), value.to_string());
    }
}
