use ethercat::{Error, Offset, OffsetTable, PdoEntryIndex, SdoData};

#[test]
fn table_keeps_the_latest_placement() {
    let mut table = OffsetTable::new();
    let a = PdoEntryIndex::new(0x6000, 1);
    let b = PdoEntryIndex::new(0x6000, 2);
    assert_eq!(table.get(a), None);
    table.insert(a, 16, Offset::new(0, 0));
    table.insert(b, 8, Offset::new(2, 0));
    assert_eq!(table.get(a), Some((16, Offset::new(0, 0))));
    assert_eq!(table.get(b), Some((8, Offset::new(2, 0))));
    table.insert(a, 32, Offset::new(3, 0));
    assert_eq!(table.get(a), Some((32, Offset::new(3, 0))));
    assert_eq!(table.get(b), Some((8, Offset::new(2, 0))));
    assert_eq!(table.get(PdoEntryIndex::new(0x6001, 1)), None);
}

#[test]
fn entries_are_read_at_their_offsets() {
    let image = [0x10u8, 0x11, 0x12, 0x13, 0x14, 0x15];
    let mut table = OffsetTable::new();
    let word = PdoEntryIndex::new(0x6000, 1);
    let byte = PdoEntryIndex::new(0x6000, 2);
    let tail = PdoEntryIndex::new(0x6000, 3);
    let none = PdoEntryIndex::new(0x6000, 4);
    table.insert(word, 16, Offset::new(1, 0));
    table.insert(byte, 8, Offset::new(5, 0));
    table.insert(tail, 24, Offset::new(3, 0));
    table.insert(none, 0, Offset::new(6, 0));
    assert_eq!(table.read(word, &image), Ok(vec![0x11, 0x12]));
    assert_eq!(table.read(byte, &image), Ok(vec![0x15]));
    assert_eq!(table.read(tail, &image), Ok(vec![0x13, 0x14, 0x15]));
    assert_eq!(table.read(none, &image), Ok(vec![]));
}

#[test]
fn reading_fails_rather_than_guessing() {
    let image = [0u8; 4];
    let mut table = OffsetTable::new();
    let bit = PdoEntryIndex::new(0x7000, 1);
    let shifted = PdoEntryIndex::new(0x7000, 2);
    let nibble = PdoEntryIndex::new(0x7000, 3);
    let long = PdoEntryIndex::new(0x7000, 4);
    let far = PdoEntryIndex::new(0x7000, 5);
    table.insert(bit, 1, Offset::new(0, 0));
    table.insert(shifted, 8, Offset::new(0, 1));
    table.insert(nibble, 4, Offset::new(0, 4));
    table.insert(long, 16, Offset::new(3, 0));
    table.insert(far, 8, Offset::new(usize::MAX, 0));
    assert_eq!(table.read(bit, &image), Err(Error::UnsupportedPacking));
    assert_eq!(table.read(shifted, &image), Err(Error::UnsupportedPacking));
    assert_eq!(table.read(nibble, &image), Err(Error::UnsupportedPacking));
    assert_eq!(table.read(long, &image), Err(Error::OutOfRange));
    assert_eq!(table.read(far, &image), Err(Error::OutOfRange));
    assert_eq!(table.read(PdoEntryIndex::new(0x7000, 6), &image), Err(Error::NotRegistered));
}

#[test]
fn offset_default_is_the_start_of_the_image() {
    assert_eq!(Offset::default(), Offset::new(0, 0));
    assert_eq!(Offset::new(3, 1), Offset { byte: 3, bit: 1 });
}

#[test]
fn sdo_data_of_unsigned_integers() {
    assert_eq!(0xabu8.data_bytes(), vec![0xab]);
    assert_eq!(0xabu8.data_size(), 1);
    assert_eq!(0x1234u16.data_bytes(), vec![0x34, 0x12]);
    assert_eq!(0x1234u16.data_size(), 2);
    assert_eq!(0x1234_5678u32.data_bytes(), vec![0x78, 0x56, 0x34, 0x12]);
    assert_eq!(0x1234_5678u32.data_size(), 4);
    assert_eq!(
        0x0102_0304_0506_0708u64.data_bytes(),
        vec![0x08, 0x07, 0x06, 0x05, 0x04, 0x03, 0x02, 0x01]
    );
    assert_eq!(u64::MAX.data_bytes(), vec![0xff; 8]);
    assert_eq!(0u64.data_size(), 8);
}

#[test]
fn sdo_data_of_signed_integers() {
    assert_eq!((-1i8).data_bytes(), vec![0xff]);
    assert_eq!(i8::MIN.data_bytes(), i8::MIN.to_le_bytes().to_vec());
    assert_eq!((-2i16).data_bytes(), vec![0xfe, 0xff]);
    assert_eq!(0x1234i16.data_bytes(), vec![0x34, 0x12]);
    assert_eq!((-0x1234_5678i32).data_bytes(), (-0x1234_5678i32).to_le_bytes().to_vec());
    assert_eq!(i32::MIN.data_bytes(), vec![0, 0, 0, 0x80]);
    assert_eq!((-1i64).data_bytes(), vec![0xff; 8]);
    assert_eq!(i64::MIN.data_bytes(), i64::MIN.to_le_bytes().to_vec());
    assert_eq!(i64::MAX.data_bytes(), i64::MAX.to_le_bytes().to_vec());
    assert_eq!((-5i8).data_size(), 1);
    assert_eq!((-5i16).data_size(), 2);
    assert_eq!((-5i32).data_size(), 4);
    assert_eq!((-5i64).data_size(), 8);
}

#[test]
fn sdo_data_of_bytes() {
    let bytes: &[u8] = &[1, 2, 3];
    assert_eq!(bytes.data_size(), 3);
    assert_eq!(bytes.data_bytes(), vec![1, 2, 3]);
    let empty: &[u8] = &[];
    assert_eq!(empty.data_size(), 0);
    assert!(empty.data_bytes().is_empty());
}
