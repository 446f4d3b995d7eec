use podders::reads::_build_signal_index;
use podders::signal::{handle_signal_data, read_int16_from_file, signal_schema, MAX_SIGNAL};
use podders::table::{Column, DataType, RecordBatch};
use podders::Pod5Error;

fn segment(row: &RecordBatch) -> &Vec<i16> {
    match &row.columns[1] {
        Column::LargeListInt16(segment) => segment,
        _ => panic!("the second column holds the segment"),
    }
}

fn sample_count(row: &RecordBatch) -> u32 {
    match &row.columns[2] {
        Column::UInt32(count) => *count,
        _ => panic!("the third column holds the sample count"),
    }
}

fn ramp(n: usize) -> Vec<i16> {
    (0..n).map(|v| (v % 32768) as i16).collect()
}

fn rows_of(n: usize) -> Vec<RecordBatch> {
    handle_signal_data(&signal_schema(&[7u8; 16]), &[1u8; 16], &ramp(n)).unwrap()
}

#[test]
fn a_read_of_45000_samples_takes_three_rows() {
    let rows = rows_of(45_000);
    let lengths: Vec<usize> = rows.iter().map(|row| segment(row).len()).collect();
    assert_eq!(lengths, vec![20000, 20000, 5000]);
    let counts: Vec<u32> = rows.iter().map(sample_count).collect();
    assert_eq!(counts, vec![20000, 20000, 5000]);
    let index = _build_signal_index(0..rows.len()).unwrap();
    match index {
        Column::ListUInt64(numbers) => assert_eq!(numbers, vec![0, 1, 2]),
        _ => panic!("a signal index is a list of row numbers"),
    }
}

#[test]
fn the_number_of_rows_is_the_rounded_up_quotient() {
    assert_eq!(MAX_SIGNAL, 20000);
    for (n, expected) in [
        (1usize, 1usize),
        (19_999, 1),
        (20_000, 1),
        (20_001, 2),
        (40_000, 2),
        (40_001, 3),
        (45_000, 3),
        (100_000, 5),
    ] {
        assert_eq!(rows_of(n).len(), expected, "rows for {} samples", n);
    }
}

#[test]
fn a_read_without_samples_takes_one_empty_row() {
    let rows = rows_of(0);
    assert_eq!(rows.len(), 1);
    assert!(segment(&rows[0]).is_empty());
    assert_eq!(sample_count(&rows[0]), 0);
}

#[test]
fn the_rows_joined_give_the_samples_back() {
    for n in [0usize, 1, 19_999, 20_000, 20_001, 45_000, 61_234] {
        let samples = ramp(n);
        let rows = handle_signal_data(&signal_schema(&[0u8; 16]), &[9u8; 16], &samples).unwrap();
        let mut joined: Vec<i16> = Vec::new();
        for row in &rows {
            assert!(segment(row).len() <= MAX_SIGNAL);
            assert_eq!(segment(row).len(), sample_count(row) as usize);
            joined.extend_from_slice(segment(row));
        }
        assert_eq!(joined, samples);
    }
}

#[test]
fn every_row_carries_the_identifier_of_the_read() {
    let id = [0x5au8; 16];
    let rows = handle_signal_data(&signal_schema(&[0u8; 16]), &id, &ramp(50_000)).unwrap();
    for row in &rows {
        assert_eq!(row.columns.len(), 3);
        match &row.columns[0] {
            Column::Uuid(bytes) => assert_eq!(bytes, &id),
            _ => panic!("the first column holds the identifier"),
        }
    }
}

#[test]
fn a_foreign_schema_is_refused() {
    let mut schema = signal_schema(&[0u8; 16]);
    schema.fields[2].data_type = DataType::UInt64;
    let result = handle_signal_data(&schema, &[1u8; 16], &ramp(10));
    assert_eq!(result.err(), Some(Pod5Error::SchemaMismatch));
    let mut short = signal_schema(&[0u8; 16]);
    short.fields.pop();
    assert_eq!(
        handle_signal_data(&short, &[1u8; 16], &[]).err(),
        Some(Pod5Error::SchemaMismatch)
    );
}

#[test]
fn a_signal_index_counts_from_the_first_row() {
    match _build_signal_index(7..10).unwrap() {
        Column::ListUInt64(numbers) => assert_eq!(numbers, vec![7, 8, 9]),
        _ => panic!("a signal index is a list of row numbers"),
    }
    match _build_signal_index(4..4).unwrap() {
        Column::ListUInt64(numbers) => assert!(numbers.is_empty()),
        _ => panic!("a signal index is a list of row numbers"),
    }
}

#[test]
fn raw_samples_are_read_in_the_byte_order_of_the_machine() {
    let bytes = [0x01u8, 0x02, 0xff, 0xff, 0x00, 0x80, 0x7f];
    let samples = read_int16_from_file(&bytes);
    let expected = vec![
        i16::from_ne_bytes([0x01, 0x02]),
        -1,
        i16::from_ne_bytes([0x00, 0x80]),
    ];
    assert_eq!(samples, expected);
    assert!(samples[0] == 0x0201 || samples[0] == 0x0102);
    assert!(read_int16_from_file(&[]).is_empty());
    assert!(read_int16_from_file(&[1]).is_empty());
}
