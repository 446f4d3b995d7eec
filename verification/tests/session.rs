use std::io::Cursor;
use std::sync::Arc;

use arrow::array::{
    Array, BooleanArray, DictionaryArray, FixedSizeBinaryArray, Float32Array, Int16Array,
    LargeListArray, ListArray, MapArray, StringArray, TimestampMillisecondArray, UInt16Array,
    UInt32Array, UInt64Array, UInt8Array,
};
use arrow::datatypes::{DataType as ArrowType, Int16Type, Schema as ArrowSchema};
use arrow::error::ArrowError;
use arrow::ipc::reader::FileReader;
use arrow::record_batch::RecordBatch as ArrowBatch;
use podders::codec::encode_table;
use podders::footer::{read_pod5_footer, FileInfo};
use podders::reads::{
    create_read_batches, create_reads_arrow_schema, dummy_read_row, EndReason, PoreType, ReadInfo,
};
use podders::run_info::{create_run_info_batch, dummy_run_info, run_info_schema};
use podders::signal::signal_schema;
use podders::table::{Column, DataType, RecordBatch};
use podders::{ContentType, Pod5Error, Pod5File, SIGNATURE};

fn decode_table(bytes: &[u8]) -> Result<(Arc<ArrowSchema>, Vec<ArrowBatch>), ArrowError> {
    let reader = FileReader::try_new(Cursor::new(bytes.to_vec()), None)?;
    let schema = reader.schema();
    let mut batches = Vec::new();
    for batch in reader {
        batches.push(batch?);
    }
    Ok((schema, batches))
}

fn span<'a>(file: &'a [u8], info: FileInfo) -> &'a [u8] {
    &file[info.offset as usize..(info.offset + info.length) as usize]
}

fn samples(n: usize, seed: i16) -> Vec<i16> {
    (0..n).map(|v| ((v as i64 * 31 + seed as i64) % 2048 - 1024) as i16).collect()
}

fn read(id: u8, pore_type: PoreType, end_reason: EndReason, run: &str, signal: Vec<i16>) -> ReadInfo {
    ReadInfo {
        read_id: [id; 16],
        pore_type,
        num_samples: signal.len() as u64,
        signal_: signal,
        channel: 100 + id as u16,
        well: id,
        calibration_offset: (-264.0f32).to_bits(),
        calibration_scale: 0.187_069_85f32.to_bits(),
        read_number: 1000 + id as u32,
        start: 5_000_000_000 + id as u64,
        median_before: 100.0f32.to_bits(),
        tracked_scaling_shift: 0.1f32.to_bits(),
        tracked_scaling_scale: 1.0f32.to_bits(),
        predicted_scaling_shift: 0.15f32.to_bits(),
        predicted_scaling_scale: 1.5f32.to_bits(),
        num_reads_since_mux_change: 10,
        time_since_mux_change: 5.0f32.to_bits(),
        num_minknow_events: 100,
        end_reason,
        end_reason_forced: id % 2 == 0,
        run_info: run.to_string(),
    }
}

/// The bytes of the three tables of a session, made without the session:
/// of the reads, of the runs and of the signal.
fn expected_payloads(reads: &Vec<ReadInfo>, runs: usize) -> (Vec<u8>, Vec<u8>, Vec<u8>) {
    let id = [0x1D; 16];
    let run_schema = run_info_schema(&id).unwrap();
    let run_infos: Vec<_> = (0..runs).map(|_| dummy_run_info()).collect();
    let run_rows = create_run_info_batch(&run_schema, &run_infos).unwrap();
    let run_payload = encode_table(&run_schema, &Vec::new(), &run_rows).unwrap();
    let reads_schema = create_reads_arrow_schema(&id).unwrap();
    let signal = signal_schema(&id);
    let mut queue: Vec<RecordBatch> = Vec::new();
    let mut counter: usize = 0;
    let table = create_read_batches(&reads_schema, reads, &mut queue, &mut counter, &signal).unwrap();
    let reads_payload = encode_table(&reads_schema, &table.dictionary, &table.batches).unwrap();
    let signal_payload = encode_table(&signal, &Vec::new(), &queue).unwrap();
    (reads_payload, run_payload, signal_payload)
}

/// Runs a whole session as a caller without a codec does.
fn session_file(reads: Vec<ReadInfo>, runs: usize) -> Vec<u8> {
    let mut pod5 = Pod5File::with_identifiers([0xA5; 16], [0x1D; 16]).unwrap();
    for _ in 0..runs {
        pod5.push_run_info(dummy_run_info()).unwrap();
    }
    pod5.write_run_info_to_ipc().unwrap();
    for read in reads {
        pod5.push_read(read).unwrap();
    }
    pod5.write_reads_to_ipc().unwrap();
    pod5.write_signal_to_ipc().unwrap();
    pod5.write_footer().unwrap();
    pod5.into_bytes()
}

fn two_dummy_reads() -> Vec<ReadInfo> {
    let signal = samples(3_000, 17);
    vec![
        dummy_read_row(None, &signal).unwrap(),
        dummy_read_row(Some("9e81bb6a-8610-4907-b4dd-4ed834fc414d"), &signal).unwrap(),
    ]
}

#[test]
fn does_it_work() {
    let (reads_payload, run_payload, signal_payload) = expected_payloads(&two_dummy_reads(), 1);
    let file = session_file(two_dummy_reads(), 1);
    assert_eq!(session_file(two_dummy_reads(), 1), file);
    assert_eq!(&file[..8], &SIGNATURE);
    assert_eq!(&file[8..24], &[0xA5; 16]);
    assert_eq!(&file[file.len() - 8..], &SIGNATURE);
    assert_eq!(&file[file.len() - 24..file.len() - 8], &[0xA5; 16]);
    assert_eq!(file.len() % 8, 0);
    let run = read_pod5_footer(&file, ContentType::RunInfoTable).unwrap();
    let reads = read_pod5_footer(&file, ContentType::ReadsTable).unwrap();
    let signal = read_pod5_footer(&file, ContentType::SignalTable).unwrap();
    assert_eq!(run.offset, 24);
    assert!(run.offset < reads.offset && reads.offset < signal.offset);
    assert_eq!(span(&file, run), &run_payload[..]);
    assert_eq!(span(&file, reads), &reads_payload[..]);
    assert_eq!(span(&file, signal), &signal_payload[..]);
    for info in [run, reads, signal] {
        assert_eq!(info.offset % 8, 0);
        let end = (info.offset + info.length) as usize;
        let padded = (end + 7) / 8 * 8;
        assert!(file[end..padded].iter().all(|b| *b == 0));
        assert_eq!(&file[padded..padded + 16], &[0xA5; 16]);
    }
    assert_eq!(read_pod5_footer(&file, ContentType::ReadIdIndex), Err(Pod5Error::KindNotPresent));
    assert_eq!(read_pod5_footer(&file, ContentType::OtherIndex), Err(Pod5Error::KindNotPresent));
}

#[test]
fn test_reading_signal_table() {
    let file = session_file(two_dummy_reads(), 1);
    let file_info = read_pod5_footer(&file, ContentType::SignalTable).unwrap();
    let (schema, batches) = decode_table(span(&file, file_info)).unwrap();
    let names: Vec<&str> = schema.fields().iter().map(|f| f.name().as_str()).collect();
    assert_eq!(names, vec!["read_id", "signal", "samples"]);
    assert_eq!(schema.field(1).data_type().to_string(), "LargeList(Int16)");
    assert_eq!(
        schema.metadata().get("MINKNOW:file_identifier").map(|s| s.as_str()),
        Some("1d1d1d1d-1d1d-1d1d-1d1d-1d1d1d1d1d1d")
    );
    assert_eq!(schema.metadata().get("MINKNOW:pod5_version").map(|s| s.as_str()), Some("0.3.2"));
    assert_eq!(schema.metadata().get("MINKNOW:software").map(|s| s.as_str()), Some("PODDERS! v0.1.0"));
    assert_eq!(batches.len(), 4);
    let signal = batches[0].column_by_name("signal").unwrap();
    assert_eq!(signal.len(), 1);
    let list = signal.as_any().downcast_ref::<LargeListArray>().unwrap();
    assert_eq!(list.value(0).len(), 20_000);
}

#[test]
fn the_tables_read_back_as_they_were_written() {
    let first = samples(45_000, 3);
    let second = samples(0, 0);
    let third = samples(20_000, 9);
    let reads = vec![
        read(1, PoreType::R10, EndReason::SIGNAL_POSITIVE, "run-a", first.clone()),
        read(2, PoreType::R9, EndReason::UNKNOWN, "run-b", second.clone()),
        read(3, PoreType::R10, EndReason::UNBLOCK_MUX_CHANGE, "run-a", third.clone()),
    ];
    let file = session_file(reads, 2);

    let signal_info = read_pod5_footer(&file, ContentType::SignalTable).unwrap();
    let (_, signal_batches) = decode_table(span(&file, signal_info)).unwrap();
    assert_eq!(signal_batches.len(), 5);
    let mut rows: Vec<(Vec<u8>, Vec<i16>, u32)> = Vec::new();
    for batch in &signal_batches {
        assert_eq!(batch.num_rows(), 1);
        let id = batch.column(0).as_any().downcast_ref::<FixedSizeBinaryArray>().unwrap();
        let list = batch.column(1).as_any().downcast_ref::<LargeListArray>().unwrap();
        let values = list.value(0);
        let values = values.as_any().downcast_ref::<Int16Array>().unwrap();
        let count = batch.column(2).as_any().downcast_ref::<UInt32Array>().unwrap();
        rows.push((id.value(0).to_vec(), values.values().to_vec(), count.value(0)));
    }
    let lengths: Vec<usize> = rows.iter().map(|r| r.1.len()).collect();
    assert_eq!(lengths, vec![20_000, 20_000, 5_000, 0, 20_000]);
    for row in &rows {
        assert_eq!(row.1.len(), row.2 as usize);
    }

    let reads_info = read_pod5_footer(&file, ContentType::ReadsTable).unwrap();
    let (reads_schema, read_batches) = decode_table(span(&file, reads_info)).unwrap();
    assert_eq!(reads_schema.fields().len(), 21);
    assert_eq!(read_batches.len(), 3);
    let expected = [
        (1u8, "R10.4.1", "signal_positive", "run-a", vec![0u64, 1, 2], &first),
        (2u8, "R9.4.1", "unknown", "run-b", vec![3u64], &second),
        (3u8, "R10.4.1", "unblock_mux_change", "run-a", vec![4u64], &third),
    ];
    for (batch, (id, pore, end, run, index, pushed)) in read_batches.iter().zip(expected.iter()) {
        let read_id = batch.column(0).as_any().downcast_ref::<FixedSizeBinaryArray>().unwrap();
        assert_eq!(read_id.value(0), &[*id; 16]);
        let signal = batch.column(1).as_any().downcast_ref::<ListArray>().unwrap();
        let numbers = signal.value(0);
        let numbers = numbers.as_any().downcast_ref::<UInt64Array>().unwrap().values().to_vec();
        assert_eq!(&numbers, index);
        let mut joined: Vec<i16> = Vec::new();
        for number in &numbers {
            assert_eq!(rows[*number as usize].0, vec![*id; 16]);
            joined.extend_from_slice(&rows[*number as usize].1);
        }
        assert_eq!(&joined, *pushed);
        for (column, text) in [(4usize, pore), (17, end), (19, run)] {
            let dictionary =
                batch.column(column).as_any().downcast_ref::<DictionaryArray<Int16Type>>().unwrap();
            let values = dictionary.values().as_any().downcast_ref::<StringArray>().unwrap();
            assert_eq!(values.value(dictionary.keys().value(0) as usize), *text);
        }
        let channel = batch.column(2).as_any().downcast_ref::<UInt16Array>().unwrap();
        assert_eq!(channel.value(0), 100 + *id as u16);
        let well = batch.column(3).as_any().downcast_ref::<UInt8Array>().unwrap();
        assert_eq!(well.value(0), *id);
        let offset = batch.column(5).as_any().downcast_ref::<Float32Array>().unwrap();
        assert_eq!(offset.value(0), -264.0);
        let scale = batch.column(6).as_any().downcast_ref::<Float32Array>().unwrap();
        assert_eq!(scale.value(0), 0.187_069_85);
        let forced = batch.column(18).as_any().downcast_ref::<BooleanArray>().unwrap();
        assert_eq!(forced.value(0), id % 2 == 0);
        let count = batch.column(20).as_any().downcast_ref::<UInt64Array>().unwrap();
        assert_eq!(count.value(0), pushed.len() as u64);
    }

    let run_info = read_pod5_footer(&file, ContentType::RunInfoTable).unwrap();
    let (run_schema, run_batches) = decode_table(span(&file, run_info)).unwrap();
    assert_eq!(run_schema.fields().len(), 20);
    assert_eq!(run_batches.len(), 2);
    for batch in &run_batches {
        let id = batch.column(0).as_any().downcast_ref::<StringArray>().unwrap();
        assert_eq!(id.value(0), "value1");
        let start = batch.column(1).as_any().downcast_ref::<TimestampMillisecondArray>().unwrap();
        assert_eq!(start.value(0), 1625097600000);
        let adc_min = batch.column(3).as_any().downcast_ref::<Int16Array>().unwrap();
        assert_eq!(adc_min.value(0), -32768);
        let tags = batch.column(4).as_any().downcast_ref::<MapArray>().unwrap();
        let keys = tags.keys().as_any().downcast_ref::<StringArray>().unwrap();
        let values = tags.values().as_any().downcast_ref::<StringArray>().unwrap();
        assert_eq!((keys.value(0), values.value(0)), ("key1", "value1"));
        assert_eq!((keys.value(1), values.value(1)), ("key2", "value2"));
        let rate = batch.column(12).as_any().downcast_ref::<UInt16Array>().unwrap();
        assert_eq!(rate.value(0), 5000);
    }
}

#[test]
fn the_codec_refuses_rows_of_another_table() {
    let schema = signal_schema(&[0; 16]);
    let row = RecordBatch { columns: vec![Column::UInt8(1)] };
    assert_eq!(encode_table(&schema, &Vec::new(), &vec![row]).err(), Some(Pod5Error::Codec));
    let stray = RecordBatch {
        columns: vec![Column::Uuid([0; 16]), Column::LargeListInt16(vec![]), Column::UInt64(0)],
    };
    assert_eq!(encode_table(&schema, &Vec::new(), &vec![stray]).err(), Some(Pod5Error::Codec));
    let mut reads = podders::reads::create_reads_arrow_schema(&[0; 16]).unwrap();
    reads.fields.truncate(5);
    let row = || RecordBatch {
        columns: vec![
            Column::Uuid([0; 16]),
            Column::ListUInt64(vec![0]),
            Column::UInt16(1),
            Column::UInt8(1),
            Column::DictionaryInt16Utf8(1),
        ],
    };
    let dictionary = vec!["a".to_string(), "b".to_string()];
    let bytes = encode_table(&reads, &dictionary, &vec![row()]).unwrap();
    let (_, batches) = decode_table(&bytes).unwrap();
    let column = batches[0].column(4).as_any().downcast_ref::<DictionaryArray<Int16Type>>().unwrap();
    let values = column.values().as_any().downcast_ref::<StringArray>().unwrap();
    assert_eq!(values.value(column.keys().value(0) as usize), "b");
    assert_eq!(
        encode_table(&reads, &vec!["a".to_string()], &vec![row()]).err(),
        Some(Pod5Error::Codec)
    );
}

#[test]
fn the_columns_are_typed_as_the_format_asks() {
    let file = session_file(two_dummy_reads(), 1);
    let reads = read_pod5_footer(&file, ContentType::ReadsTable).unwrap();
    let (schema, _) = decode_table(span(&file, reads)).unwrap();
    let expected = [
        "FixedSizeBinary(16)",
        "List(UInt64)",
        "UInt16",
        "UInt8",
        "Dictionary(Int16, Utf8)",
        "Float32",
    ];
    for (field, text) in schema.fields().iter().zip(expected.iter()) {
        assert_eq!(&field.data_type().to_string(), text);
        assert!(!field.is_nullable());
    }
    assert_eq!(
        schema.field(0).metadata().get("ARROW:extension:name").map(|s| s.as_str()),
        Some("minknow.uuid")
    );
    assert_eq!(schema.field(0).metadata().get("ARROW:extension:metadata").map(|s| s.as_str()), Some(""));
    let run = read_pod5_footer(&file, ContentType::RunInfoTable).unwrap();
    let (schema, _) = decode_table(span(&file, run)).unwrap();
    assert!(matches!(schema.field(1).data_type(), ArrowType::Timestamp(_, Some(zone)) if zone.as_ref() == "UTC"));
    match schema.field(4).data_type() {
        ArrowType::Map(entries, sorted) => {
            assert!(!sorted);
            assert_eq!(entries.name(), "entries");
            match entries.data_type() {
                ArrowType::Struct(fields) => {
                    assert_eq!(fields[0].name(), "keys");
                    assert_eq!(fields[1].name(), "values");
                    assert!(!fields[0].is_nullable());
                    assert!(fields[1].is_nullable());
                }
                _ => panic!("the entries of a map are pairs"),
            }
        }
        _ => panic!("the tags are a map"),
    }
}

#[test]
fn an_empty_session_is_a_whole_file() {
    let (reads_payload, run_payload, signal_payload) = expected_payloads(&Vec::new(), 0);
    let file = session_file(Vec::new(), 0);
    assert_eq!(&file[..8], &SIGNATURE);
    assert_eq!(&file[file.len() - 8..], &SIGNATURE);
    let payloads = [
        (ContentType::ReadsTable, &reads_payload, 21usize),
        (ContentType::RunInfoTable, &run_payload, 20),
        (ContentType::SignalTable, &signal_payload, 3),
    ];
    for (kind, payload, columns) in payloads {
        let info = read_pod5_footer(&file, kind).unwrap();
        assert_eq!(span(&file, info), &payload[..]);
        let (schema, batches) = decode_table(span(&file, info)).unwrap();
        assert_eq!(schema.fields().len(), columns);
        assert!(batches.is_empty());
    }
    assert_eq!(read_pod5_footer(&file, ContentType::ReadIdIndex), Err(Pod5Error::KindNotPresent));
    assert_eq!(read_pod5_footer(&file, ContentType::OtherIndex), Err(Pod5Error::KindNotPresent));
}

#[test]
fn a_file_without_tables_has_three_empty_descriptors() {
    let mut pod5 = Pod5File::with_identifiers([1; 16], [2; 16]).unwrap();
    assert_eq!(pod5.bytes().len(), 24);
    pod5.write_footer().unwrap();
    let file = pod5.into_bytes();
    for kind in [ContentType::ReadsTable, ContentType::RunInfoTable, ContentType::SignalTable] {
        assert_eq!(read_pod5_footer(&file, kind), Ok(FileInfo { offset: 0, length: 0 }));
    }
    assert_eq!(read_pod5_footer(&file, ContentType::OtherIndex), Err(Pod5Error::KindNotPresent));
}

#[test]
fn a_new_session_has_written_its_header() {
    let pod5 = Pod5File::new().unwrap();
    let marker = pod5.section_marker();
    assert_ne!(marker, pod5.file_identifier());
    let image = pod5.bytes();
    assert_eq!(image.len(), 24);
    assert_eq!(&image[..8], &SIGNATURE);
    assert_eq!(&image[8..], &marker);
    assert!(!pod5.is_closed());
    let other = Pod5File::new().unwrap();
    assert_ne!(other.section_marker(), marker);
    let chosen = Pod5File::with_identifiers([3; 16], [4; 16]).unwrap();
    assert_eq!(chosen.section_marker(), [3; 16]);
    assert_eq!(chosen.file_identifier(), [4; 16]);
    assert_eq!(chosen.read_table().content_type, ContentType::ReadsTable);
    assert_eq!(chosen.run_table().content_type, ContentType::RunInfoTable);
    assert_eq!(chosen.signal_table().content_type, ContentType::SignalTable);
    assert_eq!(chosen.read_table().offset, 0);
}

#[test]
fn calls_out_of_turn_are_refused() {
    let mut pod5 = Pod5File::with_identifiers([1; 16], [2; 16]).unwrap();
    assert_eq!(pod5.write_signal_to_ipc(), Err(Pod5Error::OutOfOrder));
    assert_eq!(pod5.bytes().len(), 24);
    pod5.write_run_info_to_ipc().unwrap();
    let after_runs = pod5.bytes().len();
    assert_eq!(pod5.write_run_info_to_ipc(), Err(Pod5Error::OutOfOrder));
    assert_eq!(pod5.bytes().len(), after_runs);
    assert_eq!(pod5.run_table().offset, 24);
    pod5.write_reads_to_ipc().unwrap();
    let after_reads = pod5.bytes().len();
    assert_eq!(pod5.write_reads_to_ipc(), Err(Pod5Error::OutOfOrder));
    assert_eq!(pod5.bytes().len(), after_reads);
    assert_eq!(pod5.read_table().offset as usize, after_runs);
    pod5.write_signal_to_ipc().unwrap();
    assert_eq!(pod5.write_signal_to_ipc(), Err(Pod5Error::OutOfOrder));
    assert_eq!(pod5.signal_table().offset as usize, after_reads);
    pod5.push_read(read(1, PoreType::NotSet, EndReason::MUX_CHANGE, "r", vec![1])).unwrap();
    pod5.push_run_info(dummy_run_info()).unwrap();
    pod5.write_footer().unwrap();
    let closed = pod5.bytes().clone();
    assert_eq!(pod5.write_footer(), Err(Pod5Error::OutOfOrder));
    assert_eq!(pod5.push_run_info(dummy_run_info()), Err(Pod5Error::OutOfOrder));
    assert_eq!(
        pod5.push_read(read(1, PoreType::NotSet, EndReason::MUX_CHANGE, "r", vec![1])),
        Err(Pod5Error::OutOfOrder)
    );
    assert_eq!(pod5.write_run_info_to_ipc(), Err(Pod5Error::OutOfOrder));
    assert_eq!(pod5.write_reads_to_ipc(), Err(Pod5Error::OutOfOrder));
    assert_eq!(pod5.write_signal_to_ipc(), Err(Pod5Error::OutOfOrder));
    assert_eq!(pod5.bytes(), &closed);
    assert_eq!(read_pod5_footer(&closed, ContentType::RunInfoTable).unwrap().offset, 24);
    assert_eq!(read_pod5_footer(&closed, ContentType::ReadsTable).unwrap().offset as usize, after_runs);
    assert_eq!(read_pod5_footer(&closed, ContentType::SignalTable).unwrap().offset as usize, after_reads);
}

#[test]
fn a_session_without_tables_is_refused_after_the_footer() {
    let mut pod5 = Pod5File::with_identifiers([1; 16], [2; 16]).unwrap();
    pod5.write_footer().unwrap();
    assert_eq!(pod5.write_run_info_to_ipc(), Err(Pod5Error::OutOfOrder));
    assert_eq!(pod5.write_reads_to_ipc(), Err(Pod5Error::OutOfOrder));
    assert_eq!(pod5.write_signal_to_ipc(), Err(Pod5Error::OutOfOrder));
}

#[test]
fn a_run_with_a_key_twice_is_refused() {
    let mut pod5 = Pod5File::with_identifiers([1; 16], [2; 16]).unwrap();
    let mut run = dummy_run_info();
    run.tracking_id.push(("key1".to_string(), "other".to_string()));
    assert!(!run.is_well_formed());
    assert_eq!(pod5.push_run_info(run), Err(Pod5Error::DuplicateKey));
    assert!(pod5.run_infos().is_empty());
    let mut run = dummy_run_info();
    run.context_tags.push(("key3".to_string(), "value1".to_string()));
    assert!(run.is_well_formed());
    pod5.push_run_info(run).unwrap();
    assert_eq!(pod5.run_infos().len(), 1);
}

#[test]
fn every_write_empties_its_queue() {
    let mut pod5 = Pod5File::with_identifiers([1; 16], [2; 16]).unwrap();
    pod5.push_run_info(dummy_run_info()).unwrap();
    pod5.push_run_info(dummy_run_info()).unwrap();
    pod5.push_read(read(1, PoreType::R10, EndReason::UNKNOWN, "a", samples(45_000, 1))).unwrap();
    pod5.push_read(read(2, PoreType::R9, EndReason::UNKNOWN, "b", samples(0, 1))).unwrap();
    assert_eq!(pod5.run_infos().len(), 2);
    assert_eq!(pod5.reads().len(), 2);
    assert_eq!(pod5.signal_rows(), 0);
    pod5.write_run_info_to_ipc().unwrap();
    assert!(pod5.run_infos().is_empty());
    assert_eq!(pod5.reads().len(), 2);
    pod5.write_reads_to_ipc().unwrap();
    assert!(pod5.reads().is_empty());
    assert_eq!(pod5.signal_batches().len(), 4);
    assert_eq!(pod5.signal_rows(), 4);
    pod5.write_signal_to_ipc().unwrap();
    assert!(pod5.signal_batches().is_empty());
    assert_eq!(pod5.signal_rows(), 4);
    pod5.push_read(read(3, PoreType::R9, EndReason::UNKNOWN, "b", samples(5, 1))).unwrap();
    pod5.push_run_info(dummy_run_info()).unwrap();
    assert_eq!(pod5.reads().len(), 1);
    assert_eq!(pod5.run_infos().len(), 1);
    pod5.write_footer().unwrap();
    let file = pod5.into_bytes();
    let (_, run_rows) = decode_table(span(&file, read_pod5_footer(&file, ContentType::RunInfoTable).unwrap())).unwrap();
    let (_, read_rows) = decode_table(span(&file, read_pod5_footer(&file, ContentType::ReadsTable).unwrap())).unwrap();
    let (_, signal_rows) = decode_table(span(&file, read_pod5_footer(&file, ContentType::SignalTable).unwrap())).unwrap();
    assert_eq!((run_rows.len(), read_rows.len(), signal_rows.len()), (2, 2, 4));
}

#[test]
fn a_refused_reads_table_leaves_the_session_as_it_was() {
    let mut pod5 = Pod5File::with_identifiers([1; 16], [2; 16]).unwrap();
    for i in 0..32_767 {
        pod5.push_read(read(1, PoreType::R10, EndReason::UNKNOWN, &format!("run-{}", i), Vec::new())).unwrap();
    }
    assert_eq!(pod5.write_reads_to_ipc(), Err(Pod5Error::DictionaryOverflow));
    assert_eq!(pod5.reads().len(), 32_767);
    assert!(pod5.signal_batches().is_empty());
    assert_eq!(pod5.signal_rows(), 0);
    assert_eq!(pod5.bytes().len(), 24);
    assert_eq!(pod5.write_signal_to_ipc(), Err(Pod5Error::OutOfOrder));
}

#[test]
fn the_signal_index_counts_over_all_reads() {
    let reads = vec![
        read(1, PoreType::R10, EndReason::UNKNOWN, "a", samples(45_000, 1)),
        read(2, PoreType::R10, EndReason::UNKNOWN, "a", samples(1, 1)),
        read(3, PoreType::R9, EndReason::UNKNOWN, "b", samples(20_001, 1)),
    ];
    let reads_schema = create_reads_arrow_schema(&[2; 16]).unwrap();
    let signal = signal_schema(&[2; 16]);
    let mut queue: Vec<RecordBatch> = Vec::new();
    let mut counter: usize = 0;
    let table = create_read_batches(&reads_schema, &reads, &mut queue, &mut counter, &signal).unwrap();
    assert_eq!(table.dictionary, vec!["R10.4.1", "R9.4.1", "unknown", "a", "b"]);
    let index: Vec<Vec<u64>> = table
        .batches
        .iter()
        .map(|batch| match &batch.columns[1] {
            Column::ListUInt64(numbers) => numbers.clone(),
            _ => panic!("the second column holds the signal index"),
        })
        .collect();
    assert_eq!(index, vec![vec![0, 1, 2], vec![3], vec![4, 5]]);
    assert_eq!(queue.len(), 6);
    assert_eq!(counter, 6);
    let keys: Vec<(i16, i16, i16)> = table
        .batches
        .iter()
        .map(|batch| match (&batch.columns[4], &batch.columns[17], &batch.columns[19]) {
            (
                Column::DictionaryInt16Utf8(pore),
                Column::DictionaryInt16Utf8(end),
                Column::DictionaryInt16Utf8(run),
            ) => (*pore, *end, *run),
            _ => panic!("the categorical columns hold indices"),
        })
        .collect();
    assert_eq!(keys, vec![(0, 2, 3), (0, 2, 3), (1, 2, 4)]);
}
