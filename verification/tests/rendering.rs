use marf_squash::ids::{BlockHeaderHash, ConsensusHash, SortitionId, StacksBlockId};
use marf_squash::text::{decimal, hex, same_bytes};

#[test]
fn decimal_has_no_leading_zeros() {
    assert_eq!(decimal(0), "0");
    assert_eq!(decimal(7), "7");
    assert_eq!(decimal(10), "10");
    assert_eq!(decimal(943_331), "943331");
    assert_eq!(decimal(u64::MAX), "18446744073709551615");
}

#[test]
fn hex_is_lower_case_high_half_first() {
    assert_eq!(hex(&[]), "");
    assert_eq!(hex(&[0x00, 0x0f, 0xf0, 0xab, 0x9c]), "000ff0ab9c");
}

#[test]
fn byte_strings_are_compared_whole() {
    assert!(same_bytes(&[], &[]));
    assert!(same_bytes(&[1, 2, 3], &[1, 2, 3]));
    assert!(!same_bytes(&[1, 2, 3], &[1, 2]));
    assert!(!same_bytes(&[1, 2, 3], &[1, 2, 4]));
}

#[test]
fn identifiers_render_as_hex() {
    assert_eq!(ConsensusHash([0x1a; 20]).to_hex(), "1a".repeat(20));
    assert_eq!(BlockHeaderHash([0xff; 32]).to_hex(), "ff".repeat(32));
    assert_eq!(SortitionId([0x00; 32]).to_hex(), "00".repeat(32));
    assert_eq!(StacksBlockId([0xc3; 32]).to_hex(), "c3".repeat(32));
}

#[test]
fn identifiers_differ_in_any_byte() {
    let mut bytes = [7u8; 32];
    let id = StacksBlockId(bytes);
    assert!(id == StacksBlockId([7; 32]));
    bytes[31] = 8;
    assert!(id != StacksBlockId(bytes));
    assert!(SortitionId([1; 32]) != SortitionId([2; 32]));
    assert!(ConsensusHash([1; 20]) == ConsensusHash([1; 20]));
    assert!(BlockHeaderHash([1; 32]) != BlockHeaderHash([3; 32]));
}
