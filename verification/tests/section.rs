use podders::endian::{push_i64, to_unsigned_64};
use podders::section::{append_bytes, append_zeros, padding_needed};
use podders::{ContentType, EmbeddedFileArgs, Format, _write_table};

fn descriptor(kind: ContentType) -> EmbeddedFileArgs {
    EmbeddedFileArgs { offset: 0, length: 0, format: Format::FeatherV2, content_type: kind }
}

#[test]
fn padding_brings_the_cursor_to_a_multiple_of_eight() {
    let expected = [0usize, 7, 6, 5, 4, 3, 2, 1, 0, 7];
    for (pos, padding) in expected.iter().enumerate() {
        assert_eq!(padding_needed(pos), *padding);
    }
    assert_eq!(padding_needed(1023), 1);
    assert_eq!(padding_needed(1024), 0);
}

#[test]
fn a_section_is_the_payload_the_padding_and_the_marker() {
    let marker = [0xAAu8; 16];
    let mut file = vec![1u8; 24];
    let mut table = descriptor(ContentType::SignalTable);
    _write_table(&mut file, &marker, &[9, 8, 7, 6, 5], &mut table).unwrap();
    let mut expected = vec![1u8; 24];
    expected.extend_from_slice(&[9, 8, 7, 6, 5]);
    expected.extend_from_slice(&[0, 0, 0]);
    expected.extend_from_slice(&marker);
    assert_eq!(file, expected);
    assert_eq!(table.offset, 24);
    assert_eq!(table.length, 5);
    assert_eq!(table.format, Format::FeatherV2);
    assert_eq!(table.content_type, ContentType::SignalTable);
}

#[test]
fn the_cursor_is_aligned_after_every_section() {
    let marker = [3u8; 16];
    for start in 0..20usize {
        for size in 0..20usize {
            let mut file = vec![0x55u8; start];
            let payload: Vec<u8> = (0..size).map(|v| v as u8 + 1).collect();
            let mut table = descriptor(ContentType::ReadsTable);
            _write_table(&mut file, &marker, &payload, &mut table).unwrap();
            assert_eq!(file.len() % 8, 0, "start {} size {}", start, size);
            assert_eq!(table.offset as usize, start);
            assert_eq!(table.length as usize, size);
            let span = &file[table.offset as usize..(table.offset + table.length) as usize];
            assert_eq!(span, &payload[..]);
            assert_eq!(&file[file.len() - 16..], &marker);
        }
    }
}

#[test]
fn an_empty_payload_still_gets_its_marker() {
    let marker = [0x11u8; 16];
    let mut file = vec![0u8; 24];
    let mut table = descriptor(ContentType::RunInfoTable);
    _write_table(&mut file, &marker, &[], &mut table).unwrap();
    assert_eq!(file.len(), 40);
    assert_eq!(table.offset, 24);
    assert_eq!(table.length, 0);
}

#[test]
fn later_sections_leave_earlier_spans_alone() {
    let marker = [0xEEu8; 16];
    let mut file = vec![0u8; 24];
    let first: Vec<u8> = (0..13u8).collect();
    let second: Vec<u8> = (100..131u8).collect();
    let mut a = descriptor(ContentType::ReadsTable);
    let mut b = descriptor(ContentType::SignalTable);
    _write_table(&mut file, &marker, &first, &mut a).unwrap();
    _write_table(&mut file, &marker, &second, &mut b).unwrap();
    assert_eq!(&file[a.offset as usize..(a.offset + a.length) as usize], &first[..]);
    assert_eq!(&file[b.offset as usize..(b.offset + b.length) as usize], &second[..]);
    assert_eq!(a.offset, 24);
    assert_eq!(b.offset, 24 + 13 + 3 + 16);
}

#[test]
fn bytes_and_zeros_are_appended() {
    let mut out = vec![1u8, 2];
    append_bytes(&mut out, &[3, 4]);
    append_zeros(&mut out, 3);
    append_zeros(&mut out, 0);
    assert_eq!(out, vec![1, 2, 3, 4, 0, 0, 0]);
}

#[test]
fn sixty_four_bits_are_stored_lowest_byte_first() {
    for value in [0i64, 1, -1, 72, 0x0102_0304_0506_0708, i64::MAX, i64::MIN, -2_000_000_000_000] {
        let mut out = vec![0xFFu8];
        push_i64(&mut out, value);
        assert_eq!(out[0], 0xFF);
        assert_eq!(&out[1..], &value.to_le_bytes());
        assert_eq!(to_unsigned_64(value), value as u64);
    }
}
