use wasmer_engine_universal::executable::RelocationKind;
use wasmer_engine_universal::link::encode;

#[test]
fn widths_of_relocations() {
    assert_eq!(RelocationKind::Abs8.width(), 8);
    assert_eq!(RelocationKind::X86PCRel4.width(), 4);
    assert_eq!(RelocationKind::X86PCRel8.width(), 8);
    assert_eq!(RelocationKind::X86CallPCRel4.width(), 4);
}

#[test]
fn addresses_are_written_little_endian() {
    assert_eq!(
        encode(RelocationKind::Abs8, 0x0102_0304_0506_0708),
        Some(vec![8, 7, 6, 5, 4, 3, 2, 1])
    );
    assert_eq!(encode(RelocationKind::Abs8, 0), Some(vec![0; 8]));
    assert_eq!(encode(RelocationKind::Abs8, u64::MAX as i128), Some(vec![0xff; 8]));
    assert_eq!(encode(RelocationKind::Abs8, -1), None);
    assert_eq!(encode(RelocationKind::Abs8, u64::MAX as i128 + 1), None);
}

#[test]
fn distances_are_written_in_twos_complement() {
    for kind in [RelocationKind::X86PCRel4, RelocationKind::X86CallPCRel4] {
        assert_eq!(encode(kind, 0x0102_0304), Some(vec![4, 3, 2, 1]));
        assert_eq!(encode(kind, -1), Some(vec![0xff; 4]));
        assert_eq!(encode(kind, -4), Some(vec![0xfc, 0xff, 0xff, 0xff]));
        assert_eq!(encode(kind, i32::MAX as i128), Some(i32::MAX.to_le_bytes().to_vec()));
        assert_eq!(encode(kind, i32::MIN as i128), Some(i32::MIN.to_le_bytes().to_vec()));
        assert_eq!(encode(kind, i32::MAX as i128 + 1), None);
        assert_eq!(encode(kind, i32::MIN as i128 - 1), None);
    }
    assert_eq!(encode(RelocationKind::X86PCRel8, -2), Some((-2i64).to_le_bytes().to_vec()));
    assert_eq!(
        encode(RelocationKind::X86PCRel8, i64::MIN as i128),
        Some(i64::MIN.to_le_bytes().to_vec())
    );
    assert_eq!(
        encode(RelocationKind::X86PCRel8, i64::MAX as i128),
        Some(i64::MAX.to_le_bytes().to_vec())
    );
    assert_eq!(encode(RelocationKind::X86PCRel8, i64::MAX as i128 + 1), None);
    assert_eq!(encode(RelocationKind::X86PCRel8, i64::MIN as i128 - 1), None);
}
