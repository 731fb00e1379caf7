use sui_transactional_test_runner::base_types::{bytes_equal, ObjectID, SequenceNumber};
use sui_transactional_test_runner::u256::U256;

fn le(low: &[u8]) -> [u8; 32] {
    let mut bytes = [0u8; 32];
    bytes[..low.len()].copy_from_slice(low);
    bytes
}

#[test]
fn from_u64_writes_little_endian_bytes() {
    let n = U256::from_u64(0x0102_0304_0506_0708);
    assert_eq!(n.to_le_bytes(), le(&[8, 7, 6, 5, 4, 3, 2, 1]));
}

#[test]
fn from_u64_of_zero_and_max() {
    assert_eq!(U256::from_u64(0).to_le_bytes(), [0u8; 32]);
    assert_eq!(U256::from_u64(u64::MAX).to_le_bytes(), le(&[0xff; 8]));
}

#[test]
fn as_u64_reads_the_low_eight_bytes() {
    let n = U256::from_le_bytes(le(&[0x34, 0x12]));
    assert_eq!(n.as_u64(), Some(0x1234));
    assert_eq!(U256::from_le_bytes(le(&[0xff; 8])).as_u64(), Some(u64::MAX));
    assert_eq!(U256::from_le_bytes([0u8; 32]).as_u64(), Some(0));
}

#[test]
fn as_u64_refuses_what_is_above_u64_max() {
    let just_above = U256::from_le_bytes(le(&[0, 0, 0, 0, 0, 0, 0, 0, 1]));
    assert_eq!(just_above.as_u64(), None);
    let mut top = [0u8; 32];
    top[31] = 0x80;
    assert_eq!(U256::from_le_bytes(top).as_u64(), None);
}

#[test]
fn as_u64_inverts_from_u64() {
    for v in [0u64, 1, 255, 256, 0xdead_beef, u64::MAX - 1, u64::MAX] {
        assert_eq!(U256::from_u64(v).as_u64(), Some(v));
    }
}

#[test]
fn object_id_holds_the_number_most_significant_byte_first() {
    let id = ObjectID::from_u256(&U256::from_u64(0x0102));
    let mut expected = [0u8; 32];
    expected[30] = 0x01;
    expected[31] = 0x02;
    assert_eq!(id, ObjectID(expected));
}

#[test]
fn object_id_reverses_all_thirty_two_bytes() {
    let mut bytes = [0u8; 32];
    for (k, b) in bytes.iter_mut().enumerate() {
        *b = k as u8;
    }
    let id = ObjectID::from_u256(&U256::from_le_bytes(bytes));
    for k in 0..32 {
        assert_eq!(id.0[k], (31 - k) as u8);
    }
}

#[test]
fn same_compares_all_bytes() {
    let a = ObjectID([7u8; 32]);
    let mut other = [7u8; 32];
    assert!(a.same(&ObjectID(other)));
    other[31] = 8;
    assert!(!a.same(&ObjectID(other)));
    assert!(bytes_equal(&[1u8; 32], &[1u8; 32]));
    assert!(!bytes_equal(&[1u8; 32], &[2u8; 32]));
}

#[test]
fn sequence_number_keeps_its_value() {
    assert_eq!(SequenceNumber::from_u64(42).value(), 42);
    assert_eq!(SequenceNumber::from_u64(42), SequenceNumber(42));
}
