use rescue_wasm::field::u128s_to_le_words;
use rescue_wasm::parse::{parse_decimal, parse_decimal_list, split_tokens};
use rescue_wasm::RescueError;

#[test]
fn split_on_commas() {
    let r = split_tokens(b"1,22,,333");
    assert_eq!(r, vec![b"1".to_vec(), b"22".to_vec(), vec![], b"333".to_vec()]);
    assert_eq!(split_tokens(b""), Vec::<Vec<u8>>::new());
    assert_eq!(split_tokens(b","), vec![vec![], vec![]]);
    assert_eq!(split_tokens(b"abc"), vec![b"abc".to_vec()]);
}

#[test]
fn decimal_tokens() {
    assert_eq!(parse_decimal(b"0", 10), Some(0));
    assert_eq!(parse_decimal(b"+12", 100), Some(12));
    assert_eq!(parse_decimal(b"12", 11), None);
    assert_eq!(parse_decimal(b"12", 12), Some(12));
    assert_eq!(parse_decimal(b"", 100), None);
    assert_eq!(parse_decimal(b"+", 100), None);
    assert_eq!(parse_decimal(b"1a", 100), None);
    assert_eq!(parse_decimal(b"007", 100), Some(7));
    assert_eq!(parse_decimal(b"340282366920938463463374607431768211455", u128::MAX), Some(u128::MAX));
    assert_eq!(parse_decimal(b"340282366920938463463374607431768211456", u128::MAX), None);
    assert_eq!(parse_decimal(b"18446744073709551615", u64::MAX as u128), Some(u64::MAX as u128));
    assert_eq!(parse_decimal(b"18446744073709551616", u64::MAX as u128), None);
}

#[test]
fn decimal_lists() {
    assert_eq!(parse_decimal_list(b"1,2,3,4", 4, u128::MAX), Ok(vec![1, 2, 3, 4]));
    assert_eq!(parse_decimal_list(b"", 4, u128::MAX), Err(RescueError::InvalidArity));
    assert_eq!(parse_decimal_list(b"1,2,3", 4, u128::MAX), Err(RescueError::InvalidArity));
    assert_eq!(parse_decimal_list(b"1,2,q,4", 4, u128::MAX), Err(RescueError::ParseFailure));
    assert_eq!(parse_decimal_list(b"", 0, 5), Ok(vec![]));
}

#[test]
fn u128_little_endian_words() {
    assert_eq!(u128s_to_le_words(&vec![1, 2, 3, 4]), vec![1, 0, 2, 0, 3, 0, 4, 0]);
    let x: u128 = 0x0102030405060708090a0b0c0d0e0f10;
    let w = u128s_to_le_words(&vec![x, u128::MAX]);
    assert_eq!(w, vec![0x090a0b0c0d0e0f10, 0x0102030405060708, u64::MAX, u64::MAX]);
    let bytes = x.to_le_bytes();
    assert_eq!(w[0].to_le_bytes(), bytes[..8]);
    assert_eq!(w[1].to_le_bytes(), bytes[8..]);
}
