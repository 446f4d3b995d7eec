//! The reads table: the metadata of a read, the dictionary that numbers its
//! categorical values, and the list of signal rows that hold its samples.

use vstd::prelude::*;
use core::ops::Range;
use crate::dictionary::{
    build_dictionary, distinct, key_of, lemma_dictionary_sound, lemma_distinct, position,
    MAX_DICTIONARY,
};
use crate::error::Pod5Error;
use crate::ident::{parse_identifier, parsed_identifier};
use crate::signal::{
    batches_view, chunk_count, handle_signal_data, signal_column_types, signal_rows, stamp,
    table_metadata,
};
use crate::table::{columns_view, types_of, Column, ColumnView, DataType, Field, RecordBatch, Schema};

verus! {

/// The kind of pore that a read went through.
#[derive(Clone, Copy, PartialEq, Eq, Structural, Debug)]
pub enum PoreType {
    R9,
    R10,
    NotSet,
}

impl PoreType {
    /// The text under which the kind is stored.
    pub open spec fn spec_to_string(&self) -> Seq<char> {
        match self {
            PoreType::R9 => "R9.4.1"@,
            PoreType::R10 => "R10.4.1"@,
            PoreType::NotSet => "not-set"@,
        }
    }

    /// The text under which the kind is stored.
    pub fn to_string(&self) -> (text: String)
        ensures
            text@ == self.spec_to_string(),
    {
        match self {
            PoreType::R9 => "R9.4.1".to_owned(),
            PoreType::R10 => "R10.4.1".to_owned(),
            PoreType::NotSet => "not-set".to_owned(),
        }
    }
}

/// Why a read ended.
#[allow(non_camel_case_types)]
#[derive(Clone, Copy, PartialEq, Eq, Structural, Debug)]
pub enum EndReason {
    UNKNOWN,
    MUX_CHANGE,
    UNBLOCK_MUX_CHANGE,
    DATA_SERVICE_UNBLOCK_MUX_CHANGE,
    SIGNAL_POSITIVE,
    SIGNAL_NEGATIVE,
}

impl EndReason {
    /// The text under which the reason is stored.
    pub open spec fn spec_to_string(&self) -> Seq<char> {
        match self {
            EndReason::UNKNOWN => "unknown"@,
            EndReason::MUX_CHANGE => "mux_change"@,
            EndReason::UNBLOCK_MUX_CHANGE => "unblock_mux_change"@,
            EndReason::DATA_SERVICE_UNBLOCK_MUX_CHANGE => "data_service_unblock_mux_change"@,
            EndReason::SIGNAL_POSITIVE => "signal_positive"@,
            EndReason::SIGNAL_NEGATIVE => "signal_negative"@,
        }
    }

    /// The text under which the reason is stored.
    pub fn to_string(&self) -> (text: String)
        ensures
            text@ == self.spec_to_string(),
    {
        match self {
            EndReason::UNKNOWN => "unknown".to_owned(),
            EndReason::MUX_CHANGE => "mux_change".to_owned(),
            EndReason::UNBLOCK_MUX_CHANGE => "unblock_mux_change".to_owned(),
            EndReason::DATA_SERVICE_UNBLOCK_MUX_CHANGE => "data_service_unblock_mux_change"
                .to_owned(),
            EndReason::SIGNAL_POSITIVE => "signal_positive".to_owned(),
            EndReason::SIGNAL_NEGATIVE => "signal_negative".to_owned(),
        }
    }
}

/// The metadata and the samples of one read. The single-precision numbers
/// are held as their 32 bits: the library carries them, it does not compute
/// with them.
#[derive(Debug)]
pub struct ReadInfo {
    pub read_id: [u8; 16],
    pub pore_type: PoreType,
    pub signal_: Vec<i16>,
    pub channel: u16,
    pub well: u8,
    pub calibration_offset: u32,
    pub calibration_scale: u32,
    pub read_number: u32,
    pub start: u64,
    pub median_before: u32,
    pub tracked_scaling_shift: u32,
    pub tracked_scaling_scale: u32,
    pub predicted_scaling_shift: u32,
    pub predicted_scaling_scale: u32,
    pub num_reads_since_mux_change: u32,
    pub time_since_mux_change: u32,
    pub num_minknow_events: u64,
    pub end_reason: EndReason,
    pub end_reason_forced: bool,
    pub run_info: String,
    pub num_samples: u64,
}

/// Holds the identifier of a read as the value of an identifier column.
pub fn _build_read_id(read_id: &[u8; 16]) -> (result: Result<Column, Pod5Error>)
    ensures
        result matches Ok(column) && column@ == ColumnView::Uuid(read_id@),
{
    Ok(Column::Uuid(*read_id))
}

/// The row numbers from `start` up to `end`, in order.
pub open spec fn row_numbers(start: int, end: int) -> Seq<u64> {
    Seq::new(
        if start <= end {
            (end - start) as nat
        } else {
            0
        },
        |i: int| (start + i) as u64,
    )
}

/// Builds the signal index of a read: the numbers of the rows of the signal
/// table that hold its samples.
pub fn _build_signal_index(values: Range<usize>) -> (result: Result<Column, Pod5Error>)
    ensures
        result matches Ok(column) && column@ == ColumnView::ListUInt64(
            row_numbers(values.start as int, values.end as int),
        ),
{
    let mut index: Vec<u64> = Vec::new();
    let mut i: usize = values.start;
    while i < values.end
        invariant
            values.start <= i,
            i <= values.end || values.end < values.start,
            values.end < values.start ==> i == values.start,
            index@ == row_numbers(values.start as int, i as int),
        decreases values.end - i,
    {
        index.push(i as u64);
        i += 1;
        assert(index@ =~= row_numbers(values.start as int, i as int));
    }
    assert(index@ =~= row_numbers(values.start as int, values.end as int));
    Ok(Column::ListUInt64(index))
}

/// The names of the reads table's columns.
pub open spec fn reads_column_names() -> Seq<Seq<char>> {
    seq![
        "read_id"@,
        "signal"@,
        "channel"@,
        "well"@,
        "pore_type"@,
        "calibration_offset"@,
        "calibration_scale"@,
        "read_number"@,
        "start"@,
        "median_before"@,
        "tracked_scaling_scale"@,
        "tracked_scaling_shift"@,
        "predicted_scaling_scale"@,
        "predicted_scaling_shift"@,
        "num_reads_since_mux_change"@,
        "time_since_mux_change"@,
        "num_minknow_events"@,
        "end_reason"@,
        "end_reason_forced"@,
        "run_info"@,
        "num_samples"@,
    ]
}

/// The types of the reads table's columns.
pub open spec fn reads_column_types() -> Seq<DataType> {
    seq![
        DataType::Uuid,
        DataType::ListUInt64,
        DataType::UInt16,
        DataType::UInt8,
        DataType::DictionaryInt16Utf8,
        DataType::Float32,
        DataType::Float32,
        DataType::UInt32,
        DataType::UInt64,
        DataType::Float32,
        DataType::Float32,
        DataType::Float32,
        DataType::Float32,
        DataType::Float32,
        DataType::UInt32,
        DataType::Float32,
        DataType::UInt64,
        DataType::DictionaryInt16Utf8,
        DataType::Boolean,
        DataType::DictionaryInt16Utf8,
        DataType::UInt64,
    ]
}

/// The columns of the reads table, none of them nullable.
pub open spec fn reads_fields() -> Seq<Field> {
    seq![
        Field { name: "read_id", data_type: DataType::Uuid, nullable: false },
        Field { name: "signal", data_type: DataType::ListUInt64, nullable: false },
        Field { name: "channel", data_type: DataType::UInt16, nullable: false },
        Field { name: "well", data_type: DataType::UInt8, nullable: false },
        Field { name: "pore_type", data_type: DataType::DictionaryInt16Utf8, nullable: false },
        Field { name: "calibration_offset", data_type: DataType::Float32, nullable: false },
        Field { name: "calibration_scale", data_type: DataType::Float32, nullable: false },
        Field { name: "read_number", data_type: DataType::UInt32, nullable: false },
        Field { name: "start", data_type: DataType::UInt64, nullable: false },
        Field { name: "median_before", data_type: DataType::Float32, nullable: false },
        Field { name: "tracked_scaling_scale", data_type: DataType::Float32, nullable: false },
        Field { name: "tracked_scaling_shift", data_type: DataType::Float32, nullable: false },
        Field { name: "predicted_scaling_scale", data_type: DataType::Float32, nullable: false },
        Field { name: "predicted_scaling_shift", data_type: DataType::Float32, nullable: false },
        Field { name: "num_reads_since_mux_change", data_type: DataType::UInt32, nullable: false },
        Field { name: "time_since_mux_change", data_type: DataType::Float32, nullable: false },
        Field { name: "num_minknow_events", data_type: DataType::UInt64, nullable: false },
        Field { name: "end_reason", data_type: DataType::DictionaryInt16Utf8, nullable: false },
        Field { name: "end_reason_forced", data_type: DataType::Boolean, nullable: false },
        Field { name: "run_info", data_type: DataType::DictionaryInt16Utf8, nullable: false },
        Field { name: "num_samples", data_type: DataType::UInt64, nullable: false },
    ]
}

fn required(name: &'static str, data_type: DataType) -> (field: Field)
    ensures
        field.name == name,
        field.data_type == data_type,
        !field.nullable,
{
    Field { name, data_type, nullable: false }
}

/// The schema of the reads table of the given file: 21 columns, none of
/// them nullable.
pub fn create_reads_arrow_schema(file_identifier: &[u8; 16]) -> (result: Result<Schema, Pod5Error>)
    ensures
        result matches Ok(schema) && {
            &&& schema.fields@ == reads_fields()
            &&& schema.column_names() == reads_column_names()
            &&& schema.column_types() == reads_column_types()
            &&& forall|i: int| 0 <= i < schema.fields@.len() ==> !schema.fields@[i].nullable
            &&& schema.metadata.deep_view() == table_metadata(file_identifier@)
        },
{
    let mut fields: Vec<Field> = Vec::new();
    fields.push(required("read_id", DataType::Uuid));
    fields.push(required("signal", DataType::ListUInt64));
    fields.push(required("channel", DataType::UInt16));
    fields.push(required("well", DataType::UInt8));
    fields.push(required("pore_type", DataType::DictionaryInt16Utf8));
    fields.push(required("calibration_offset", DataType::Float32));
    fields.push(required("calibration_scale", DataType::Float32));
    fields.push(required("read_number", DataType::UInt32));
    fields.push(required("start", DataType::UInt64));
    fields.push(required("median_before", DataType::Float32));
    fields.push(required("tracked_scaling_scale", DataType::Float32));
    fields.push(required("tracked_scaling_shift", DataType::Float32));
    fields.push(required("predicted_scaling_scale", DataType::Float32));
    fields.push(required("predicted_scaling_shift", DataType::Float32));
    fields.push(required("num_reads_since_mux_change", DataType::UInt32));
    fields.push(required("time_since_mux_change", DataType::Float32));
    fields.push(required("num_minknow_events", DataType::UInt64));
    fields.push(required("end_reason", DataType::DictionaryInt16Utf8));
    fields.push(required("end_reason_forced", DataType::Boolean));
    fields.push(required("run_info", DataType::DictionaryInt16Utf8));
    fields.push(required("num_samples", DataType::UInt64));
    let schema = Schema { fields, metadata: stamp(file_identifier) };
    assert(schema.fields@ =~= reads_fields());
    assert(schema.column_names() =~= reads_column_names());
    assert(schema.column_types() =~= reads_column_types());
    Ok(schema)
}

/// The row of the reads table for one read whose samples start at row
/// `first_row` of the signal table, with the given indices for its three
/// categorical values.
pub open spec fn read_row(
    read: ReadInfo,
    first_row: int,
    pore_type: i16,
    end_reason: i16,
    run_info: i16,
) -> Seq<ColumnView> {
    seq![
        ColumnView::Uuid(read.read_id@),
        ColumnView::ListUInt64(
            row_numbers(first_row, first_row + chunk_count(read.signal_@.len() as int)),
        ),
        ColumnView::UInt16(read.channel),
        ColumnView::UInt8(read.well),
        ColumnView::DictionaryInt16Utf8(pore_type),
        ColumnView::Float32(read.calibration_offset),
        ColumnView::Float32(read.calibration_scale),
        ColumnView::UInt32(read.read_number),
        ColumnView::UInt64(read.start),
        ColumnView::Float32(read.median_before),
        ColumnView::Float32(read.tracked_scaling_scale),
        ColumnView::Float32(read.tracked_scaling_shift),
        ColumnView::Float32(read.predicted_scaling_scale),
        ColumnView::Float32(read.predicted_scaling_shift),
        ColumnView::UInt32(read.num_reads_since_mux_change),
        ColumnView::Float32(read.time_since_mux_change),
        ColumnView::UInt64(read.num_minknow_events),
        ColumnView::DictionaryInt16Utf8(end_reason),
        ColumnView::Boolean(read.end_reason_forced),
        ColumnView::DictionaryInt16Utf8(run_info),
        ColumnView::UInt64(read.num_samples),
    ]
}

/// A row built by `read_row` has the types of the reads table.
proof fn lemma_read_row_types(
    read: ReadInfo,
    first_row: int,
    pore_type: i16,
    end_reason: i16,
    run_info: i16,
)
    ensures
        types_of(read_row(read, first_row, pore_type, end_reason, run_info))
            == reads_column_types(),
{
    assert(types_of(read_row(read, first_row, pore_type, end_reason, run_info))
        =~= reads_column_types());
}

/// Joining the views of two lists of rows.
proof fn lemma_batches_view_add(a: Seq<RecordBatch>, b: Seq<RecordBatch>)
    ensures
        batches_view(a + b) == batches_view(a) + batches_view(b),
{
    assert(batches_view(a + b) =~= batches_view(a) + batches_view(b));
}

/// Builds the row of the reads table for one read. The samples of the read
/// are cut into rows of the signal table, which are queued in `_signal`. The
/// rows are numbered by `row_counter`, the number of signal rows that the
/// session has queued so far: the read's signal index lists the numbers from
/// the counter on, and the counter moves on by as many. The three
/// categorical columns take the given indices into the batch's dictionary.
///
/// Fails, and queues nothing, where a schema is not that of its table
/// (`SchemaMismatch`), or where the signal rows can no longer be counted
/// (`TooLarge`).
pub fn create_read_row(
    schema: &Schema,
    read: &ReadInfo,
    _signal: &mut Vec<RecordBatch>,
    row_counter: &mut usize,
    signal_schema: &Schema,
    pore_type: i16,
    end_reason: i16,
    run_info: i16,
) -> (result: Result<RecordBatch, Pod5Error>)
    ensures
        result is Ok <==> {
            &&& signal_schema.column_types() == signal_column_types()
            &&& schema.column_types() == reads_column_types()
            &&& *old(row_counter) + chunk_count(read.signal_@.len() as int) <= usize::MAX
        },
        result matches Ok(batch) ==> {
            &&& batch@ == read_row(
                *read,
                *old(row_counter) as int,
                pore_type,
                end_reason,
                run_info,
            )
            &&& *final(row_counter) == *old(row_counter) + chunk_count(
                read.signal_@.len() as int,
            )
            &&& final(_signal)@.len() == old(_signal)@.len() + chunk_count(
                read.signal_@.len() as int,
            )
            &&& final(_signal)@.subrange(0, old(_signal)@.len() as int) == old(_signal)@
            &&& batches_view(final(_signal)@) == batches_view(old(_signal)@) + signal_rows(
                read.read_id@,
                read.signal_@,
            )
        },
        result matches Err(e) ==> {
            &&& final(_signal)@ == old(_signal)@
            &&& *final(row_counter) == *old(row_counter)
            &&& e == Pod5Error::TooLarge <==> {
                &&& signal_schema.column_types() == signal_column_types()
                &&& *old(row_counter) + chunk_count(read.signal_@.len() as int) > usize::MAX
            }
            &&& e == Pod5Error::TooLarge || e == Pod5Error::SchemaMismatch
        },
{
    let read_id = match _build_read_id(&read.read_id) {
        Ok(column) => column,
        Err(e) => {
            return Err(e);
        },
    };
    let mut signal_batches = match handle_signal_data(
        signal_schema,
        &read.read_id,
        read.signal_.as_slice(),
    ) {
        Ok(batches) => batches,
        Err(e) => {
            return Err(e);
        },
    };
    let num_signal_rows: usize = signal_batches.len();
    let offset: usize = *row_counter;
    assert(batches_view(signal_batches@).len() == signal_batches@.len());
    assert(num_signal_rows == chunk_count(read.signal_@.len() as int));
    if num_signal_rows > usize::MAX - offset {
        return Err(Pod5Error::TooLarge);
    }
    let signal_index = match _build_signal_index(offset..(offset + num_signal_rows)) {
        Ok(column) => column,
        Err(e) => {
            return Err(e);
        },
    };
    let mut columns: Vec<Column> = Vec::new();
    columns.push(read_id);
    columns.push(signal_index);
    columns.push(Column::UInt16(read.channel));
    columns.push(Column::UInt8(read.well));
    columns.push(Column::DictionaryInt16Utf8(pore_type));
    columns.push(Column::Float32(read.calibration_offset));
    columns.push(Column::Float32(read.calibration_scale));
    columns.push(Column::UInt32(read.read_number));
    columns.push(Column::UInt64(read.start));
    columns.push(Column::Float32(read.median_before));
    columns.push(Column::Float32(read.tracked_scaling_scale));
    columns.push(Column::Float32(read.tracked_scaling_shift));
    columns.push(Column::Float32(read.predicted_scaling_scale));
    columns.push(Column::Float32(read.predicted_scaling_shift));
    columns.push(Column::UInt32(read.num_reads_since_mux_change));
    columns.push(Column::Float32(read.time_since_mux_change));
    columns.push(Column::UInt64(read.num_minknow_events));
    columns.push(Column::DictionaryInt16Utf8(end_reason));
    columns.push(Column::Boolean(read.end_reason_forced));
    columns.push(Column::DictionaryInt16Utf8(run_info));
    columns.push(Column::UInt64(read.num_samples));
    let ghost row = read_row(*read, offset as int, pore_type, end_reason, run_info);
    assert(columns_view(columns@) =~= row);
    proof {
        lemma_read_row_types(*read, offset as int, pore_type, end_reason, run_info);
    }
    let batch = match RecordBatch::try_new(schema, columns) {
        Ok(batch) => batch,
        Err(e) => {
            return Err(e);
        },
    };
    proof {
        lemma_batches_view_add(_signal@, signal_batches@);
    }
    let ghost queued = _signal@;
    _signal.append(&mut signal_batches);
    *row_counter = offset + num_signal_rows;
    assert(_signal@.subrange(0, queued.len() as int) =~= queued);
    Ok(batch)
}

/// The reads table of a batch, ready for the columnar codec: the dictionary
/// that the three categorical columns share, and one row for every read.
#[derive(Debug)]
pub struct ReadBatches {
    pub dictionary: Vec<String>,
    pub batches: Vec<RecordBatch>,
}

/// The categorical values of a batch of reads, pooled: the pore type of
/// every read, then the end reason of every read, then the run-info
/// reference of every read.
pub open spec fn pooled_values(reads: Seq<ReadInfo>) -> Seq<Seq<char>> {
    Seq::new(reads.len(), |i: int| reads[i].pore_type.spec_to_string()) + Seq::new(
        reads.len(),
        |i: int| reads[i].end_reason.spec_to_string(),
    ) + Seq::new(reads.len(), |i: int| reads[i].run_info@)
}

/// The number of signal rows that the first `k` reads take.
pub open spec fn total_rows(reads: Seq<ReadInfo>, k: int) -> int
    decreases k,
{
    if k <= 0 {
        0
    } else {
        total_rows(reads, k - 1) + chunk_count(reads[k - 1].signal_@.len() as int)
    }
}

/// The signal rows of the first `k` reads, read after read.
pub open spec fn all_signal_rows(reads: Seq<ReadInfo>, k: int) -> Seq<Seq<ColumnView>>
    decreases k,
{
    if k <= 0 {
        Seq::empty()
    } else {
        all_signal_rows(reads, k - 1) + signal_rows(reads[k - 1].read_id@, reads[k - 1].signal_@)
    }
}

/// The row of read `i` in a batch whose signal rows are queued from row
/// `first_row` on and whose categorical values are numbered by `dictionary`.
pub open spec fn batch_row(
    reads: Seq<ReadInfo>,
    i: int,
    first_row: int,
    dictionary: Seq<Seq<char>>,
) -> Seq<ColumnView> {
    read_row(
        reads[i],
        first_row + total_rows(reads, i),
        position(dictionary, reads[i].pore_type.spec_to_string()) as i16,
        position(dictionary, reads[i].end_reason.spec_to_string()) as i16,
        position(dictionary, reads[i].run_info@) as i16,
    )
}

/// The rows of the reads table for a batch of reads.
pub open spec fn reads_rows(reads: Seq<ReadInfo>, first_row: int, dictionary: Seq<Seq<char>>) -> Seq<
    Seq<ColumnView>,
> {
    Seq::new(reads.len(), |i: int| batch_row(reads, i, first_row, dictionary))
}

/// Every read takes at least one signal row, so the count of rows grows
/// with the reads.
pub proof fn lemma_total_rows_grows(reads: Seq<ReadInfo>, k: int, n: int)
    requires
        0 <= k <= n,
    ensures
        k <= total_rows(reads, k) <= total_rows(reads, n),
        all_signal_rows(reads, k).len() == total_rows(reads, k),
    decreases n,
{
    if k < n {
        lemma_total_rows_grows(reads, k, n - 1);
    } else if k > 0 {
        lemma_total_rows_grows(reads, k - 1, k - 1);
    }
}

/// The three categorical values of every read stand in the dictionary of
/// the batch, once each, at the index that the read's row holds.
pub proof fn lemma_read_keys_sound(reads: Seq<ReadInfo>, i: int)
    requires
        0 <= i < reads.len(),
    ensures
        ({
            let dictionary = distinct(pooled_values(reads));
            &&& dictionary.no_duplicates()
            &&& 0 <= position(dictionary, reads[i].pore_type.spec_to_string()) < dictionary.len()
            &&& dictionary[position(dictionary, reads[i].pore_type.spec_to_string())]
                == reads[i].pore_type.spec_to_string()
            &&& 0 <= position(dictionary, reads[i].end_reason.spec_to_string()) < dictionary.len()
            &&& dictionary[position(dictionary, reads[i].end_reason.spec_to_string())]
                == reads[i].end_reason.spec_to_string()
            &&& 0 <= position(dictionary, reads[i].run_info@) < dictionary.len()
            &&& dictionary[position(dictionary, reads[i].run_info@)] == reads[i].run_info@
        }),
{
    let pooled = pooled_values(reads);
    let n = reads.len() as int;
    assert(pooled[i] == reads[i].pore_type.spec_to_string());
    assert(pooled[n + i] == reads[i].end_reason.spec_to_string());
    assert(pooled[2 * n + i] == reads[i].run_info@);
    lemma_dictionary_sound(pooled, i);
    lemma_dictionary_sound(pooled, n + i);
    lemma_dictionary_sound(pooled, 2 * n + i);
}

/// The signal index of a read leads to the read's samples: among the signal
/// rows of a batch, the rows that the index of read `i` lists are the rows
/// of that read, and their samples, joined in the order of the index, are
/// the samples of the read.
pub proof fn lemma_signal_index_reads_back(reads: Seq<ReadInfo>, i: int, n: int)
    requires
        0 <= i < n <= reads.len(),
    ensures
        ({
            let rows = all_signal_rows(reads, n);
            let first = total_rows(reads, i);
            let count = chunk_count(reads[i].signal_@.len() as int);
            &&& 0 <= first
            &&& first + count <= rows.len()
            &&& rows.subrange(first, first + count) == signal_rows(
                reads[i].read_id@,
                reads[i].signal_@,
            )
            &&& crate::signal::joined_samples(rows.subrange(first, first + count), count)
                == reads[i].signal_@
        }),
    decreases n,
{
    let first = total_rows(reads, i);
    let count = chunk_count(reads[i].signal_@.len() as int);
    let own = signal_rows(reads[i].read_id@, reads[i].signal_@);
    lemma_total_rows_grows(reads, i, n);
    lemma_total_rows_grows(reads, i, i);
    lemma_total_rows_grows(reads, n - 1, n - 1);
    lemma_total_rows_grows(reads, n, n);
    if i + 1 < n {
        lemma_signal_index_reads_back(reads, i, n - 1);
        let shorter = all_signal_rows(reads, n - 1);
        lemma_total_rows_grows(reads, i + 1, n - 1);
        assert(all_signal_rows(reads, n).subrange(first, first + count) =~= shorter.subrange(
            first,
            first + count,
        ));
    } else {
        assert(all_signal_rows(reads, n).subrange(first, first + count) =~= own);
    }
    crate::signal::lemma_chunking_reproduces_samples(reads[i].read_id@, reads[i].signal_@);
}

/// Pools the categorical values of a batch of reads.
fn pool_values(reads: &Vec<ReadInfo>) -> (pooled: Vec<String>)
    ensures
        pooled.deep_view() == pooled_values(reads@),
        pooled@.len() == 3 * reads@.len(),
{
    let n = reads.len();
    let mut pooled: Vec<String> = Vec::new();
    let mut i: usize = 0;
    while i < n
        invariant
            i <= n,
            n == reads@.len(),
            pooled@.len() == i,
            forall|k: int| 0 <= k < i ==> pooled@[k]@ == reads@[k].pore_type.spec_to_string(),
        decreases n - i,
    {
        pooled.push(reads[i].pore_type.to_string());
        i += 1;
    }
    i = 0;
    while i < n
        invariant
            i <= n,
            n == reads@.len(),
            pooled@.len() == n + i,
            forall|k: int| 0 <= k < n ==> pooled@[k]@ == reads@[k].pore_type.spec_to_string(),
            forall|k: int|
                0 <= k < i ==> pooled@[n + k]@ == reads@[k].end_reason.spec_to_string(),
        decreases n - i,
    {
        pooled.push(reads[i].end_reason.to_string());
        i += 1;
    }
    i = 0;
    while i < n
        invariant
            i <= n,
            n == reads@.len(),
            pooled@.len() == 2 * n + i,
            forall|k: int| 0 <= k < n ==> pooled@[k]@ == reads@[k].pore_type.spec_to_string(),
            forall|k: int|
                0 <= k < n ==> pooled@[n + k]@ == reads@[k].end_reason.spec_to_string(),
            forall|k: int| 0 <= k < i ==> pooled@[2 * n + k]@ == reads@[k].run_info@,
        decreases n - i,
    {
        pooled.push(reads[i].run_info.clone());
        i += 1;
    }
    assert(pooled.deep_view() =~= pooled_values(reads@)) by {
        assert forall|k: int| 0 <= k < 3 * n implies pooled.deep_view()[k] == pooled_values(
            reads@,
        )[k] by {
            if k < n {
            } else if k < 2 * n {
                assert(pooled@[n + (k - n)]@ == reads@[k - n].end_reason.spec_to_string());
            } else {
                assert(pooled@[2 * n + (k - 2 * n)]@ == reads@[k - 2 * n].run_info@);
            }
        }
    }
    pooled
}

/// Whether a schema has the columns of the signal table.
fn has_signal_types(schema: &Schema) -> (same: bool)
    ensures
        same == (schema.column_types() == signal_column_types()),
{
    let types: [DataType; 3] = [DataType::Uuid, DataType::LargeListInt16, DataType::UInt32];
    assert(types@ =~= signal_column_types());
    schema.has_column_types(types.as_slice())
}

/// Whether a schema has the columns of the reads table.
fn has_reads_types(schema: &Schema) -> (same: bool)
    ensures
        same == (schema.column_types() == reads_column_types()),
{
    let types: [DataType; 21] = [
        DataType::Uuid,
        DataType::ListUInt64,
        DataType::UInt16,
        DataType::UInt8,
        DataType::DictionaryInt16Utf8,
        DataType::Float32,
        DataType::Float32,
        DataType::UInt32,
        DataType::UInt64,
        DataType::Float32,
        DataType::Float32,
        DataType::Float32,
        DataType::Float32,
        DataType::Float32,
        DataType::UInt32,
        DataType::Float32,
        DataType::UInt64,
        DataType::DictionaryInt16Utf8,
        DataType::Boolean,
        DataType::DictionaryInt16Utf8,
        DataType::UInt64,
    ];
    assert(types@ =~= reads_column_types());
    schema.has_column_types(types.as_slice())
}

/// Builds the reads table of a batch. The pore types, end reasons and
/// run-info references of all the reads are pooled into one dictionary, in
/// which each distinct text stands once, at the place of its first
/// occurrence in the pool. Every read then gets its row, and its samples are
/// queued as rows of the signal table in `_signal`, numbered from
/// `row_counter` on, which moves on by the number of the rows.
///
/// Fails, and leaves `_signal` and `row_counter` as they were, where the
/// pool has more distinct texts than a signed 16-bit index can number
/// (`DictionaryOverflow`); else where there is a read and a schema is not
/// that of its table (`SchemaMismatch`); else where the signal rows can no
/// longer be counted (`TooLarge`).
pub fn create_read_batches(
    schema: &Schema,
    reads: &Vec<ReadInfo>,
    _signal: &mut Vec<RecordBatch>,
    row_counter: &mut usize,
    signal_schema: &Schema,
) -> (result: Result<ReadBatches, Pod5Error>)
    ensures
        result is Ok <==> {
            &&& distinct(pooled_values(reads@)).len() <= MAX_DICTIONARY
            &&& reads@.len() > 0 ==> signal_schema.column_types() == signal_column_types()
                && schema.column_types() == reads_column_types()
            &&& *old(row_counter) + total_rows(reads@, reads@.len() as int) <= usize::MAX
        },
        result matches Ok(table) ==> {
            &&& table.dictionary.deep_view() == distinct(pooled_values(reads@))
            &&& batches_view(table.batches@) == reads_rows(
                reads@,
                *old(row_counter) as int,
                table.dictionary.deep_view(),
            )
            &&& *final(row_counter) == *old(row_counter) + total_rows(
                reads@,
                reads@.len() as int,
            )
            &&& final(_signal)@.len() == old(_signal)@.len() + total_rows(
                reads@,
                reads@.len() as int,
            )
            &&& batches_view(final(_signal)@) == batches_view(old(_signal)@) + all_signal_rows(
                reads@,
                reads@.len() as int,
            )
        },
        result matches Err(e) ==> {
            &&& final(_signal)@ == old(_signal)@
            &&& *final(row_counter) == *old(row_counter)
            &&& e == Pod5Error::DictionaryOverflow <==> distinct(pooled_values(reads@)).len()
                > MAX_DICTIONARY
            &&& e == Pod5Error::SchemaMismatch <==> distinct(pooled_values(reads@)).len()
                <= MAX_DICTIONARY && reads@.len() > 0 && !(signal_schema.column_types()
                == signal_column_types() && schema.column_types() == reads_column_types())
            &&& e == Pod5Error::DictionaryOverflow || e == Pod5Error::SchemaMismatch || e
                == Pod5Error::TooLarge
        },
{
    let n = reads.len();
    let pooled = pool_values(reads);
    let dictionary = build_dictionary(&pooled);
    if dictionary.len() > MAX_DICTIONARY {
        return Err(Pod5Error::DictionaryOverflow);
    }
    if n > 0 && !(has_signal_types(signal_schema) && has_reads_types(schema)) {
        return Err(Pod5Error::SchemaMismatch);
    }
    let queued_before: usize = _signal.len();
    let first_row: usize = *row_counter;
    let pooled_len: usize = pooled.len();
    let ghost queued = _signal@;
    let mut batches: Vec<RecordBatch> = Vec::new();
    let mut i: usize = 0;
    assert(batches_view(_signal@) =~= batches_view(queued) + all_signal_rows(reads@, 0));
    while i < n
        invariant
            i <= n,
            n == reads@.len(),
            queued_before == queued.len(),
            first_row == *old(row_counter),
            queued == old(_signal)@,
            distinct(pooled_values(reads@)).len() <= MAX_DICTIONARY,
            pooled.deep_view() == pooled_values(reads@),
            pooled@.len() == 3 * n,
            3 * n <= usize::MAX,
            0 <= total_rows(reads@, i as int),
            dictionary.deep_view() == distinct(pooled_values(reads@)),
            dictionary.deep_view().no_duplicates(),
            dictionary@.len() <= MAX_DICTIONARY,
            batches@.len() == i,
            forall|k: int|
                0 <= k < i ==> #[trigger] batches@[k]@ == batch_row(
                    reads@,
                    k,
                    first_row as int,
                    dictionary.deep_view(),
                ),
            *row_counter == first_row + total_rows(reads@, i as int),
            _signal@.len() == queued_before + total_rows(reads@, i as int),
            _signal@.subrange(0, queued_before as int) == queued,
            batches_view(_signal@) == batches_view(queued) + all_signal_rows(reads@, i as int),
            n > 0 ==> signal_schema.column_types() == signal_column_types()
                && schema.column_types() == reads_column_types(),
        decreases n - i,
    {
        proof {
            lemma_distinct(pooled_values(reads@));
            lemma_read_keys_sound(reads@, i as int);
            lemma_total_rows_grows(reads@, i as int + 1, n as int);
            lemma_total_rows_grows(reads@, i as int + 1, i as int + 1);
            assert(pooled.deep_view()[i as int] == pooled@[i as int]@);
            assert(pooled.deep_view()[n + i] == pooled@[n + i]@);
            assert(pooled.deep_view()[2 * n + i] == pooled@[2 * n + i]@);
            assert(pooled_values(reads@).contains(pooled@[i as int]@));
            assert(pooled_values(reads@).contains(pooled@[n + i]@));
            assert(pooled_values(reads@).contains(pooled@[2 * n + i]@));
        }
        let pore_type = key_of(&dictionary, &pooled[i]);
        let end_reason = key_of(&dictionary, &pooled[n + i]);
        let run_info = key_of(&dictionary, &pooled[2 * n + i]);
        let ghost before = _signal@;
        match create_read_row(
            schema,
            &reads[i],
            _signal,
            row_counter,
            signal_schema,
            pore_type,
            end_reason,
            run_info,
        ) {
            Ok(batch) => {
                batches.push(batch);
            },
            Err(e) => {
                assert(total_rows(reads@, i + 1) == total_rows(reads@, i as int) + chunk_count(
                    reads@[i as int].signal_@.len() as int,
                ));
                _signal.truncate(queued_before);
                *row_counter = first_row;
                return Err(e);
            },
        }
        proof {
            assert(_signal@.subrange(0, queued_before as int) =~= before.subrange(
                0,
                queued_before as int,
            ));
        }
        i += 1;
    }
    proof {
        assert(batches_view(batches@) =~= reads_rows(
            reads@,
            first_row as int,
            dictionary.deep_view(),
        ));
    }
    Ok(ReadBatches { dictionary, batches })
}

/// `times` copies of a sequence of samples, one after the other.
pub open spec fn repeated(samples: Seq<i16>, times: int) -> Seq<i16> {
    Seq::new((samples.len() * times) as nat, |i: int| samples[i % (samples.len() as int)])
}

/// The identifier that `dummy_read_row` takes where none is given.
pub const DUMMY_READ_ID: &'static str = "56202382-7cda-49e4-9403-2a4f6acc22ab";

/// The text from which `dummy_read_row` reads the identifier.
pub open spec fn dummy_read_id_text(read_id: Option<&str>) -> Seq<char> {
    match read_id {
        Some(text) => text@,
        None => DUMMY_READ_ID@,
    }
}

/// A read with made-up values, for trying the writer out. Its samples are
/// ten copies of the given samples; its identifier is read from the given
/// text, or from `DUMMY_READ_ID`. The single-precision fields hold the bits
/// of -264, 0.18706985, 100, 1, 0.1, 1.5, 0.15 and 5.
///
/// Fails where the text is no identifier (`InvalidIdentifier`), and where
/// ten times the samples cannot be counted (`TooLarge`).
pub fn dummy_read_row(read_id: Option<&str>, signal_data: &[i16]) -> (result: Result<
    ReadInfo,
    Pod5Error,
>)
    ensures
        result is Ok <==> parsed_identifier(dummy_read_id_text(read_id)) is Some
            && signal_data@.len() * 10 <= usize::MAX,
        result matches Ok(read) ==> {
            &&& Some(read.read_id@) == parsed_identifier(dummy_read_id_text(read_id))
            &&& read.pore_type == PoreType::R10
            &&& read.signal_@ == repeated(signal_data@, 10)
            &&& read.channel == 1
            &&& read.well == 1
            &&& read.calibration_offset == 0xc384_0000u32
            &&& read.calibration_scale == 0x3e3f_8f3du32
            &&& read.read_number == 1
            &&& read.start == 1
            &&& read.median_before == 0x42c8_0000u32
            &&& read.tracked_scaling_scale == 0x3f80_0000u32
            &&& read.tracked_scaling_shift == 0x3dcc_cccdu32
            &&& read.predicted_scaling_scale == 0x3fc0_0000u32
            &&& read.predicted_scaling_shift == 0x3e19_999au32
            &&& read.num_reads_since_mux_change == 10
            &&& read.time_since_mux_change == 0x40a0_0000u32
            &&& read.num_minknow_events == 100
            &&& read.end_reason == EndReason::SIGNAL_POSITIVE
            &&& read.end_reason_forced
            &&& read.run_info@ == "value1"@
            &&& read.num_samples == signal_data@.len() * 10
        },
        result matches Err(e) ==> {
            &&& e == Pod5Error::InvalidIdentifier <==> parsed_identifier(
                dummy_read_id_text(read_id),
            ) is None
            &&& e == Pod5Error::InvalidIdentifier || e == Pod5Error::TooLarge
        },
{
    let text: &str = match read_id {
        Some(text) => text,
        None => DUMMY_READ_ID,
    };
    let id = match parse_identifier(text) {
        Ok(id) => id,
        Err(e) => {
            return Err(e);
        },
    };
    let len: usize = signal_data.len();
    if len > usize::MAX / 10 {
        return Err(Pod5Error::TooLarge);
    }
    let total: usize = len * 10;
    let mut signal: Vec<i16> = Vec::new();
    let mut i: usize = 0;
    let mut within: usize = 0;
    while i < total
        invariant
            i <= total,
            total == len * 10,
            len == signal_data@.len(),
            len > 0 ==> within == i % len,
            signal@.len() == i,
            forall|k: int| 0 <= k < i ==> signal@[k] == signal_data@[k % (len as int)],
        decreases total - i,
    {
        signal.push(signal_data[within]);
        i += 1;
        within += 1;
        if within == len {
            within = 0;
        }
        assert(within == i % len) by (nonlinear_arith)
            requires
                len > 0,
                i >= 1,
                (within == 0 && (i - 1) % (len as int) == len - 1) || (0 < within < len && within
                    - 1 == (i - 1) % (len as int)),
        ;
    }
    assert(signal@ =~= repeated(signal_data@, 10));
    Ok(
        ReadInfo {
            read_id: id,
            pore_type: PoreType::R10,
            signal_: signal,
            channel: 1,
            well: 1,
            calibration_offset: 0xc384_0000,
            calibration_scale: 0x3e3f_8f3d,
            read_number: 1,
            start: 1,
            median_before: 0x42c8_0000,
            tracked_scaling_scale: 0x3f80_0000,
            tracked_scaling_shift: 0x3dcc_cccd,
            predicted_scaling_scale: 0x3fc0_0000,
            predicted_scaling_shift: 0x3e19_999a,
            num_reads_since_mux_change: 10,
            time_since_mux_change: 0x40a0_0000,
            num_minknow_events: 100,
            end_reason: EndReason::SIGNAL_POSITIVE,
            end_reason_forced: true,
            run_info: "value1".to_owned(),
            num_samples: total as u64,
        },
    )
}

} // verus!
