use podders::reads::{
    _build_read_id, create_read_batches, create_read_row, create_reads_arrow_schema, dummy_read_row,
    EndReason, PoreType, ReadInfo, DUMMY_READ_ID,
};
use podders::run_info::{
    create_run_info_batch, dummy_run_info, has_distinct_keys, run_info_schema, RunInfoData,
};
use podders::signal::signal_schema;
use podders::table::{Column, DataType, RecordBatch, Schema};
use podders::Pod5Error;

fn names(schema: &Schema) -> Vec<&'static str> {
    schema.fields.iter().map(|f| f.name).collect()
}

fn types(schema: &Schema) -> Vec<DataType> {
    schema.fields.iter().map(|f| f.data_type).collect()
}

fn stamp(id: &str) -> Vec<(String, String)> {
    vec![
        ("MINKNOW:pod5_version".to_string(), "0.3.2".to_string()),
        ("MINKNOW:software".to_string(), "PODDERS! v0.1.0".to_string()),
        ("MINKNOW:file_identifier".to_string(), id.to_string()),
    ]
}

fn plain_read(run: &str, samples: usize) -> ReadInfo {
    ReadInfo {
        read_id: [8; 16],
        pore_type: PoreType::R9,
        signal_: vec![5; samples],
        channel: 12,
        well: 3,
        calibration_offset: 1,
        calibration_scale: 2,
        read_number: 77,
        start: 99,
        median_before: 3,
        tracked_scaling_shift: 4,
        tracked_scaling_scale: 5,
        predicted_scaling_shift: 6,
        predicted_scaling_scale: 7,
        num_reads_since_mux_change: 8,
        time_since_mux_change: 9,
        num_minknow_events: 10,
        end_reason: EndReason::DATA_SERVICE_UNBLOCK_MUX_CHANGE,
        end_reason_forced: false,
        run_info: run.to_string(),
        num_samples: samples as u64,
    }
}

#[test]
fn the_signal_schema_has_three_columns() {
    let schema = signal_schema(&[0xab; 16]);
    assert_eq!(names(&schema), vec!["read_id", "signal", "samples"]);
    assert_eq!(types(&schema), vec![DataType::Uuid, DataType::LargeListInt16, DataType::UInt32]);
    assert!(schema.fields.iter().all(|f| !f.nullable));
    assert_eq!(schema.metadata, stamp("abababab-abab-abab-abab-abababababab"));
}

#[test]
fn the_reads_schema_has_twenty_one_columns() {
    let schema = create_reads_arrow_schema(&[0; 16]).unwrap();
    assert_eq!(
        names(&schema),
        vec![
            "read_id",
            "signal",
            "channel",
            "well",
            "pore_type",
            "calibration_offset",
            "calibration_scale",
            "read_number",
            "start",
            "median_before",
            "tracked_scaling_scale",
            "tracked_scaling_shift",
            "predicted_scaling_scale",
            "predicted_scaling_shift",
            "num_reads_since_mux_change",
            "time_since_mux_change",
            "num_minknow_events",
            "end_reason",
            "end_reason_forced",
            "run_info",
            "num_samples",
        ]
    );
    assert_eq!(
        types(&schema),
        vec![
            DataType::Uuid,
            DataType::ListUInt64,
            DataType::UInt16,
            DataType::UInt8,
            DataType::DictionaryInt16Utf8,
            DataType::Float32,
            DataType::Float32,
            DataType::UInt32,
            DataType::UInt64,
            DataType::Float32,
            DataType::Float32,
            DataType::Float32,
            DataType::Float32,
            DataType::Float32,
            DataType::UInt32,
            DataType::Float32,
            DataType::UInt64,
            DataType::DictionaryInt16Utf8,
            DataType::Boolean,
            DataType::DictionaryInt16Utf8,
            DataType::UInt64,
        ]
    );
    assert!(schema.fields.iter().all(|f| !f.nullable));
    assert_eq!(schema.metadata, stamp("00000000-0000-0000-0000-000000000000"));
}

#[test]
fn the_run_info_schema_has_twenty_columns() {
    let schema = run_info_schema(&[0x10; 16]).unwrap();
    assert_eq!(
        names(&schema),
        vec![
            "acquisition_id",
            "acquisition_start_time",
            "adc_max",
            "adc_min",
            "context_tags",
            "experiment_name",
            "flow_cell_id",
            "flow_cell_product_code",
            "protocol_name",
            "protocol_run_id",
            "protocol_start_time",
            "sample_id",
            "sample_rate",
            "sequencing_kit",
            "sequencer_position",
            "sequencer_position_type",
            "software",
            "system_name",
            "system_type",
            "tracking_id",
        ]
    );
    let expected: Vec<DataType> = vec![
        DataType::Utf8,
        DataType::TimestampMillisUtc,
        DataType::Int16,
        DataType::Int16,
        DataType::MapUtf8Utf8,
        DataType::Utf8,
        DataType::Utf8,
        DataType::Utf8,
        DataType::Utf8,
        DataType::Utf8,
        DataType::TimestampMillisUtc,
        DataType::Utf8,
        DataType::UInt16,
        DataType::Utf8,
        DataType::Utf8,
        DataType::Utf8,
        DataType::Utf8,
        DataType::Utf8,
        DataType::Utf8,
        DataType::MapUtf8Utf8,
    ];
    assert_eq!(types(&schema), expected);
    assert!(schema.fields.iter().all(|f| !f.nullable));
    assert_eq!(schema.metadata, stamp("10101010-1010-1010-1010-101010101010"));
}

#[test]
fn the_dummy_run_has_its_values() {
    let run: RunInfoData = dummy_run_info();
    assert_eq!(run.acquisition_id, "value1");
    assert_eq!(run.acquisition_start_time, 1625097600000);
    assert_eq!(run.adc_max, 32767);
    assert_eq!(run.adc_min, -32768);
    assert_eq!(
        run.context_tags,
        vec![
            ("key1".to_string(), "value1".to_string()),
            ("key2".to_string(), "value2".to_string())
        ]
    );
    assert_eq!(run.experiment_name, "Experiment 1");
    assert_eq!(run.flow_cell_id, "FCID123");
    assert_eq!(run.flow_cell_product_code, "PC123");
    assert_eq!(run.protocol_name, "Protocol 1");
    assert_eq!(run.protocol_run_id, "PRID123");
    assert_eq!(run.protocol_start_time, 1625097600000);
    assert_eq!(run.sample_id, "Sample 1");
    assert_eq!(run.sample_rate, 5000);
    assert_eq!(run.sequencing_kit, "Kit X");
    assert_eq!(run.sequencer_position, "Position 1");
    assert_eq!(run.sequencer_position_type, "Type A");
    assert_eq!(run.software, "Software 1.0");
    assert_eq!(run.system_name, "System 1");
    assert_eq!(run.system_type, "System Type A");
    assert_eq!(run.tracking_id, vec![("key1".to_string(), "value1".to_string())]);
    assert!(run.is_well_formed());
}

#[test]
fn keys_that_stand_twice_are_found() {
    let pair = |k: &str| (k.to_string(), "v".to_string());
    assert!(has_distinct_keys(&Vec::new()));
    assert!(has_distinct_keys(&vec![pair("a")]));
    assert!(has_distinct_keys(&vec![pair("a"), pair("b"), pair("c")]));
    assert!(!has_distinct_keys(&vec![pair("a"), pair("b"), pair("a")]));
    assert!(!has_distinct_keys(&vec![pair("a"), pair("a")]));
}

#[test]
fn a_run_is_one_row_of_twenty_columns() {
    let schema = run_info_schema(&[0; 16]).unwrap();
    let rows = create_run_info_batch(&schema, &vec![dummy_run_info(), dummy_run_info()]).unwrap();
    assert_eq!(rows.len(), 2);
    let row: &RecordBatch = &rows[1];
    assert_eq!(row.columns.len(), 20);
    assert!(matches!(&row.columns[0], Column::Utf8(v) if v == "value1"));
    assert!(matches!(&row.columns[1], Column::TimestampMillisUtc(1625097600000)));
    assert!(matches!(&row.columns[2], Column::Int16(32767)));
    assert!(matches!(&row.columns[3], Column::Int16(-32768)));
    assert!(matches!(&row.columns[4], Column::MapUtf8Utf8(tags) if tags.len() == 2 && tags[1].0 == "key2"));
    assert!(matches!(&row.columns[12], Column::UInt16(5000)));
    assert!(matches!(&row.columns[18], Column::Utf8(v) if v == "System Type A"));
    assert!(matches!(&row.columns[19], Column::MapUtf8Utf8(tags) if tags.len() == 1));
    for (column, field) in row.columns.iter().zip(schema.fields.iter()) {
        assert_eq!(column.data_type(), field.data_type);
    }
    assert!(create_run_info_batch(&schema, &Vec::new()).unwrap().is_empty());
    let foreign = signal_schema(&[0; 16]);
    assert_eq!(
        create_run_info_batch(&foreign, &vec![dummy_run_info()]).err(),
        Some(Pod5Error::SchemaMismatch)
    );
    assert!(create_run_info_batch(&foreign, &Vec::new()).unwrap().is_empty());
}

#[test]
fn the_dummy_read_has_its_values() {
    let signal: Vec<i16> = vec![3, -1, 4];
    let read = dummy_read_row(None, &signal).unwrap();
    assert_eq!(DUMMY_READ_ID, "56202382-7cda-49e4-9403-2a4f6acc22ab");
    assert_eq!(
        read.read_id,
        [0x56, 0x20, 0x23, 0x82, 0x7c, 0xda, 0x49, 0xe4, 0x94, 0x03, 0x2a, 0x4f, 0x6a, 0xcc, 0x22, 0xab]
    );
    assert_eq!(read.signal_.len(), 30);
    for (i, sample) in read.signal_.iter().enumerate() {
        assert_eq!(*sample, signal[i % 3]);
    }
    assert_eq!(read.num_samples, 30);
    assert_eq!(read.pore_type, PoreType::R10);
    assert_eq!(read.channel, 1);
    assert_eq!(read.well, 1);
    assert_eq!(f32::from_bits(read.calibration_offset), -264.0);
    assert_eq!(f32::from_bits(read.calibration_scale), 0.187_069_85);
    assert_eq!(read.read_number, 1);
    assert_eq!(read.start, 1);
    assert_eq!(f32::from_bits(read.median_before), 100.0);
    assert_eq!(f32::from_bits(read.tracked_scaling_scale), 1.0);
    assert_eq!(f32::from_bits(read.tracked_scaling_shift), 0.1);
    assert_eq!(f32::from_bits(read.predicted_scaling_scale), 1.5);
    assert_eq!(f32::from_bits(read.predicted_scaling_shift), 0.15);
    assert_eq!(read.num_reads_since_mux_change, 10);
    assert_eq!(f32::from_bits(read.time_since_mux_change), 5.0);
    assert_eq!(read.num_minknow_events, 100);
    assert_eq!(read.end_reason, EndReason::SIGNAL_POSITIVE);
    assert!(read.end_reason_forced);
    assert_eq!(read.run_info, "value1");
    let other = dummy_read_row(Some("9e81bb6a-8610-4907-b4dd-4ed834fc414d"), &[]).unwrap();
    assert_eq!(other.read_id[0], 0x9e);
    assert!(other.signal_.is_empty());
    assert_eq!(other.num_samples, 0);
    assert_eq!(dummy_read_row(Some("no identifier"), &signal).err(), Some(Pod5Error::InvalidIdentifier));
}

#[test]
fn categories_are_stored_under_their_texts() {
    assert_eq!(PoreType::R9.to_string(), "R9.4.1");
    assert_eq!(PoreType::R10.to_string(), "R10.4.1");
    assert_eq!(PoreType::NotSet.to_string(), "not-set");
    assert_eq!(EndReason::UNKNOWN.to_string(), "unknown");
    assert_eq!(EndReason::MUX_CHANGE.to_string(), "mux_change");
    assert_eq!(EndReason::UNBLOCK_MUX_CHANGE.to_string(), "unblock_mux_change");
    assert_eq!(
        EndReason::DATA_SERVICE_UNBLOCK_MUX_CHANGE.to_string(),
        "data_service_unblock_mux_change"
    );
    assert_eq!(EndReason::SIGNAL_POSITIVE.to_string(), "signal_positive");
    assert_eq!(EndReason::SIGNAL_NEGATIVE.to_string(), "signal_negative");
}

#[test]
fn a_read_is_one_row_and_queues_its_signal() {
    let reads_schema = create_reads_arrow_schema(&[0; 16]).unwrap();
    let signal = signal_schema(&[0; 16]);
    let mut queue: Vec<RecordBatch> = Vec::new();
    let mut counter: usize = 0;
    let first =
        create_read_row(&reads_schema, &plain_read("r", 20_001), &mut queue, &mut counter, &signal, 4, 5, 6)
            .unwrap();
    assert_eq!(queue.len(), 2);
    assert_eq!(counter, 2);
    let second =
        create_read_row(&reads_schema, &plain_read("r", 0), &mut queue, &mut counter, &signal, 1, 2, 3).unwrap();
    assert_eq!(queue.len(), 3);
    assert_eq!(counter, 3);
    assert_eq!(first.columns.len(), 21);
    assert!(matches!(&first.columns[0], Column::Uuid(id) if id == &[8; 16]));
    assert!(matches!(&first.columns[1], Column::ListUInt64(index) if index == &vec![0, 1]));
    assert!(matches!(&second.columns[1], Column::ListUInt64(index) if index == &vec![2]));
    assert!(matches!(&first.columns[2], Column::UInt16(12)));
    assert!(matches!(&first.columns[3], Column::UInt8(3)));
    assert!(matches!(&first.columns[4], Column::DictionaryInt16Utf8(4)));
    assert!(matches!(&first.columns[5], Column::Float32(1)));
    assert!(matches!(&first.columns[6], Column::Float32(2)));
    assert!(matches!(&first.columns[7], Column::UInt32(77)));
    assert!(matches!(&first.columns[8], Column::UInt64(99)));
    assert!(matches!(&first.columns[9], Column::Float32(3)));
    assert!(matches!(&first.columns[10], Column::Float32(5)));
    assert!(matches!(&first.columns[11], Column::Float32(4)));
    assert!(matches!(&first.columns[12], Column::Float32(7)));
    assert!(matches!(&first.columns[13], Column::Float32(6)));
    assert!(matches!(&first.columns[14], Column::UInt32(8)));
    assert!(matches!(&first.columns[15], Column::Float32(9)));
    assert!(matches!(&first.columns[16], Column::UInt64(10)));
    assert!(matches!(&first.columns[17], Column::DictionaryInt16Utf8(5)));
    assert!(matches!(&first.columns[18], Column::Boolean(false)));
    assert!(matches!(&first.columns[19], Column::DictionaryInt16Utf8(6)));
    assert!(matches!(&first.columns[20], Column::UInt64(20_001)));
    assert!(matches!(_build_read_id(&[4; 16]), Ok(Column::Uuid(id)) if id == [4; 16]));
}

#[test]
fn the_signal_rows_are_numbered_by_the_counter_not_by_the_queue() {
    let reads_schema = create_reads_arrow_schema(&[0; 16]).unwrap();
    let signal = signal_schema(&[0; 16]);
    let mut queue: Vec<RecordBatch> = Vec::new();
    let mut counter: usize = 100;
    let row = create_read_row(&reads_schema, &plain_read("r", 40_001), &mut queue, &mut counter, &signal, 0, 0, 0)
        .unwrap();
    assert!(matches!(&row.columns[1], Column::ListUInt64(index) if index == &vec![100, 101, 102]));
    assert_eq!(counter, 103);
    assert_eq!(queue.len(), 3);
    queue.clear();
    let table =
        create_read_batches(&reads_schema, &vec![plain_read("a", 1), plain_read("b", 20_001)], &mut queue, &mut counter, &signal)
            .unwrap();
    assert!(matches!(&table.batches[0].columns[1], Column::ListUInt64(index) if index == &vec![103]));
    assert!(matches!(&table.batches[1].columns[1], Column::ListUInt64(index) if index == &vec![104, 105]));
    assert_eq!(counter, 106);
    assert_eq!(queue.len(), 3);
}

#[test]
fn a_foreign_schema_leaves_the_queue_alone() {
    let reads_schema = create_reads_arrow_schema(&[0; 16]).unwrap();
    let signal = signal_schema(&[0; 16]);
    let mut queue: Vec<RecordBatch> = Vec::new();
    let mut counter: usize = 0;
    create_read_row(&reads_schema, &plain_read("r", 7), &mut queue, &mut counter, &signal, 0, 0, 0).unwrap();
    assert_eq!(
        create_read_row(&signal, &plain_read("r", 7), &mut queue, &mut counter, &signal, 0, 0, 0).err(),
        Some(Pod5Error::SchemaMismatch)
    );
    assert_eq!(
        create_read_row(&reads_schema, &plain_read("r", 7), &mut queue, &mut counter, &reads_schema, 0, 0, 0)
            .err(),
        Some(Pod5Error::SchemaMismatch)
    );
    assert_eq!(queue.len(), 1);
    assert_eq!(counter, 1);
    let reads = vec![plain_read("a", 1), plain_read("b", 1)];
    assert_eq!(
        create_read_batches(&signal, &reads, &mut queue, &mut counter, &signal).err(),
        Some(Pod5Error::SchemaMismatch)
    );
    assert_eq!(queue.len(), 1);
    assert_eq!(counter, 1);
    let table = create_read_batches(&signal, &Vec::new(), &mut queue, &mut counter, &reads_schema).unwrap();
    assert!(table.batches.is_empty());
    assert!(table.dictionary.is_empty());
}

#[test]
fn the_three_categories_share_one_dictionary() {
    let reads_schema = create_reads_arrow_schema(&[0; 16]).unwrap();
    let signal = signal_schema(&[0; 16]);
    let mut queue: Vec<RecordBatch> = vec![];
    let mut counter: usize = 0;
    let mut first = plain_read("unknown", 3);
    first.end_reason = EndReason::UNKNOWN;
    let mut second = plain_read("R9.4.1", 3);
    second.pore_type = PoreType::NotSet;
    let reads = vec![first, second];
    let table = create_read_batches(&reads_schema, &reads, &mut queue, &mut counter, &signal).unwrap();
    assert_eq!(
        table.dictionary,
        vec!["R9.4.1", "not-set", "unknown", "data_service_unblock_mux_change"]
    );
    let keys: Vec<i16> = table
        .batches
        .iter()
        .flat_map(|batch| [4usize, 17, 19].map(|c| match &batch.columns[c] {
            Column::DictionaryInt16Utf8(key) => *key,
            _ => panic!("the categorical columns hold indices"),
        }))
        .collect();
    assert_eq!(keys, vec![0, 2, 2, 1, 3, 0]);
    let texts: Vec<String> = reads
        .iter()
        .flat_map(|r| [r.pore_type.to_string(), r.end_reason.to_string(), r.run_info.clone()])
        .collect();
    for (key, text) in keys.iter().zip(texts.iter()) {
        assert_eq!(&table.dictionary[*key as usize], text);
    }
}

#[test]
fn too_many_run_references_overflow_the_dictionary() {
    let reads_schema = create_reads_arrow_schema(&[0; 16]).unwrap();
    let signal = signal_schema(&[0; 16]);
    let mut queue: Vec<RecordBatch> = vec![];
    let mut counter: usize = 5;
    let reads: Vec<ReadInfo> = (0..32_767).map(|i| plain_read(&format!("run-{}", i), 0)).collect();
    let error = create_read_batches(&reads_schema, &reads, &mut queue, &mut counter, &signal).err();
    assert_eq!(error, Some(Pod5Error::DictionaryOverflow));
    assert!(queue.is_empty());
    assert_eq!(counter, 5);
}

#[test]
fn rows_that_can_no_longer_be_counted_are_refused() {
    let reads_schema = create_reads_arrow_schema(&[0; 16]).unwrap();
    let signal = signal_schema(&[0; 16]);
    let mut queue: Vec<RecordBatch> = Vec::new();
    let mut counter: usize = usize::MAX;
    assert_eq!(
        create_read_row(&reads_schema, &plain_read("r", 7), &mut queue, &mut counter, &signal, 0, 0, 0).err(),
        Some(Pod5Error::TooLarge)
    );
    assert_eq!(
        create_read_row(&reads_schema, &plain_read("r", 7), &mut queue, &mut counter, &reads_schema, 0, 0, 0)
            .err(),
        Some(Pod5Error::SchemaMismatch)
    );
    let reads = vec![plain_read("a", 1), plain_read("b", 1)];
    assert_eq!(
        create_read_batches(&reads_schema, &reads, &mut queue, &mut counter, &signal).err(),
        Some(Pod5Error::TooLarge)
    );
    assert_eq!(
        create_read_batches(&signal, &reads, &mut queue, &mut counter, &signal).err(),
        Some(Pod5Error::SchemaMismatch)
    );
    assert_eq!(
        create_read_batches(&reads_schema, &reads, &mut queue, &mut counter, &reads_schema).err(),
        Some(Pod5Error::SchemaMismatch)
    );
    assert!(queue.is_empty());
    assert_eq!(counter, usize::MAX);
    counter = usize::MAX - 1;
    assert_eq!(
        create_read_batches(&reads_schema, &reads, &mut queue, &mut counter, &signal).err(),
        Some(Pod5Error::TooLarge)
    );
    assert!(queue.is_empty());
    assert_eq!(counter, usize::MAX - 1);
    counter = usize::MAX - 2;
    let table = create_read_batches(&reads_schema, &reads, &mut queue, &mut counter, &signal).unwrap();
    assert_eq!(table.batches.len(), 2);
    assert_eq!(queue.len(), 2);
    assert_eq!(counter, usize::MAX);
}

#[test]
fn a_schema_knows_whether_it_has_given_column_types() {
    let signal = signal_schema(&[0; 16]);
    assert!(signal.has_column_types(&[DataType::Uuid, DataType::LargeListInt16, DataType::UInt32]));
    assert!(!signal.has_column_types(&[DataType::Uuid, DataType::LargeListInt16]));
    assert!(!signal.has_column_types(&[DataType::Uuid, DataType::LargeListInt16, DataType::UInt64]));
    assert!(!signal.has_column_types(&[]));
    let reads_schema = create_reads_arrow_schema(&[0; 16]).unwrap();
    assert!(reads_schema.has_column_types(&types(&reads_schema)));
    assert!(!reads_schema.has_column_types(&types(&signal)));
}
