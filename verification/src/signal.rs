//! The signal table: the chunking policy that cuts the samples of a read into
//! rows of bounded length.

use vstd::prelude::*;
use crate::endian::le_i16_at;
use crate::error::Pod5Error;
use crate::ident::{hyphenated_text, identifier_text};
use crate::run_info::distinct_keys;
use crate::table::{Column, ColumnView, DataType, Field, RecordBatch, Schema};
use crate::{POD5_VERSION, SOFTWARE};

verus! {

/// Maximum signal data in a row.
pub const MAX_SIGNAL: usize = 20000;

/// The key-value pairs that stamp a table with the file it belongs to: the
/// format version, the writing software, and the file's identifier.
pub open spec fn table_metadata(file_identifier: Seq<u8>) -> Seq<(Seq<char>, Seq<char>)> {
    seq![
        ("MINKNOW:pod5_version"@, POD5_VERSION@),
        ("MINKNOW:software"@, SOFTWARE@),
        ("MINKNOW:file_identifier"@, hyphenated_text(file_identifier)),
    ]
}

/// The three keys of a table's metadata differ.
pub proof fn lemma_table_metadata_distinct(file_identifier: Seq<u8>)
    ensures
        distinct_keys(table_metadata(file_identifier)),
{
    reveal_strlit("MINKNOW:pod5_version");
    reveal_strlit("MINKNOW:software");
    reveal_strlit("MINKNOW:file_identifier");
    assert("MINKNOW:pod5_version"@[8] != "MINKNOW:software"@[8]);
    assert("MINKNOW:pod5_version"@[8] != "MINKNOW:file_identifier"@[8]);
    assert("MINKNOW:software"@[8] != "MINKNOW:file_identifier"@[8]);
}

/// Builds the metadata of a table of the given file.
pub fn stamp(file_identifier: &[u8; 16]) -> (metadata: Vec<(String, String)>)
    ensures
        metadata.deep_view() == table_metadata(file_identifier@),
{
    let mut metadata: Vec<(String, String)> = Vec::new();
    metadata.push(("MINKNOW:pod5_version".to_owned(), POD5_VERSION.to_owned()));
    metadata.push(("MINKNOW:software".to_owned(), SOFTWARE.to_owned()));
    metadata.push(("MINKNOW:file_identifier".to_owned(), identifier_text(file_identifier)));
    assert(metadata.deep_view() =~= table_metadata(file_identifier@));
    metadata
}

/// The names of the signal table's columns.
pub open spec fn signal_column_names() -> Seq<Seq<char>> {
    seq!["read_id"@, "signal"@, "samples"@]
}

/// The types of the signal table's columns.
pub open spec fn signal_column_types() -> Seq<DataType> {
    seq![DataType::Uuid, DataType::LargeListInt16, DataType::UInt32]
}

/// The columns of the signal table, none of them nullable.
pub open spec fn signal_fields() -> Seq<Field> {
    seq![
        Field { name: "read_id", data_type: DataType::Uuid, nullable: false },
        Field { name: "signal", data_type: DataType::LargeListInt16, nullable: false },
        Field { name: "samples", data_type: DataType::UInt32, nullable: false },
    ]
}

/// The schema of the signal table of the given file: the identifier of the
/// read, a segment of its samples, and the number of samples in the segment.
pub fn signal_schema(file_identifier: &[u8; 16]) -> (schema: Schema)
    ensures
        schema.fields@ == signal_fields(),
        schema.column_names() == signal_column_names(),
        schema.column_types() == signal_column_types(),
        forall|i: int| 0 <= i < schema.fields@.len() ==> !schema.fields@[i].nullable,
        schema.metadata.deep_view() == table_metadata(file_identifier@),
{
    let mut fields: Vec<Field> = Vec::new();
    fields.push(Field { name: "read_id", data_type: DataType::Uuid, nullable: false });
    fields.push(Field { name: "signal", data_type: DataType::LargeListInt16, nullable: false });
    fields.push(Field { name: "samples", data_type: DataType::UInt32, nullable: false });
    let schema = Schema { fields, metadata: stamp(file_identifier) };
    assert(schema.fields@ =~= signal_fields());
    assert(schema.column_names() =~= signal_column_names());
    assert(schema.column_types() =~= signal_column_types());
    schema
}

/// The number of rows into which `n` samples are cut: one row for every
/// `MAX_SIGNAL` samples begun, and one row, empty, where there is no sample.
pub open spec fn chunk_count(n: int) -> int {
    if n <= 0 {
        1
    } else {
        (n + MAX_SIGNAL - 1) / (MAX_SIGNAL as int)
    }
}

/// The samples of row `i`.
pub open spec fn chunk(samples: Seq<i16>, i: int) -> Seq<i16> {
    let start = i * MAX_SIGNAL;
    let end = if start + MAX_SIGNAL < samples.len() {
        start + MAX_SIGNAL
    } else {
        samples.len() as int
    };
    samples.subrange(start, end)
}

/// A row of the signal table.
pub open spec fn signal_row(read_id: Seq<u8>, segment: Seq<i16>) -> Seq<ColumnView> {
    seq![
        ColumnView::Uuid(read_id),
        ColumnView::LargeListInt16(segment),
        ColumnView::UInt32(segment.len() as u32),
    ]
}

/// The rows of the signal table that hold the samples of one read.
pub open spec fn signal_rows(read_id: Seq<u8>, samples: Seq<i16>) -> Seq<Seq<ColumnView>> {
    Seq::new(
        chunk_count(samples.len() as int) as nat,
        |i: int| signal_row(read_id, chunk(samples, i)),
    )
}

/// The views of a list of rows.
pub open spec fn batches_view(batches: Seq<RecordBatch>) -> Seq<Seq<ColumnView>> {
    Seq::new(batches.len(), |i: int| batches[i]@)
}

/// The samples that a row of the signal table holds.
pub open spec fn row_samples(row: Seq<ColumnView>) -> Seq<i16> {
    match row[1] {
        ColumnView::LargeListInt16(segment) => segment,
        _ => Seq::empty(),
    }
}

/// The samples of the first `k` of the given rows, one row after the other.
pub open spec fn joined_samples(rows: Seq<Seq<ColumnView>>, k: int) -> Seq<i16>
    decreases k,
{
    if k <= 0 {
        Seq::empty()
    } else {
        joined_samples(rows, k - 1) + row_samples(rows[k - 1])
    }
}

/// The bounds of the chunks: there are `chunk_count` of them, none is longer
/// than `MAX_SIGNAL`, all but the last are full, and only the one chunk of an
/// empty read is empty.
pub proof fn lemma_chunk_bounds(samples: Seq<i16>, i: int)
    requires
        0 <= i < chunk_count(samples.len() as int),
    ensures
        0 <= i * MAX_SIGNAL <= samples.len(),
        chunk(samples, i).len() <= MAX_SIGNAL,
        i + 1 < chunk_count(samples.len() as int) ==> chunk(samples, i).len() == MAX_SIGNAL,
        samples.len() > 0 ==> chunk(samples, i).len() > 0,
        i + 1 == chunk_count(samples.len() as int) ==> i * MAX_SIGNAL + chunk(samples, i).len()
            == samples.len(),
{
}

proof fn lemma_joined_prefix(read_id: Seq<u8>, samples: Seq<i16>, k: int)
    requires
        0 <= k <= chunk_count(samples.len() as int),
    ensures
        joined_samples(signal_rows(read_id, samples), k) == samples.subrange(
            0,
            if k * MAX_SIGNAL < samples.len() {
                k * MAX_SIGNAL
            } else {
                samples.len() as int
            },
        ),
    decreases k,
{
    let rows = signal_rows(read_id, samples);
    if k > 0 {
        lemma_joined_prefix(read_id, samples, k - 1);
        lemma_chunk_bounds(samples, k - 1);
        assert(row_samples(rows[k - 1]) == chunk(samples, k - 1));
        assert(joined_samples(rows, k) =~= samples.subrange(
            0,
            if k * MAX_SIGNAL < samples.len() {
                k * MAX_SIGNAL
            } else {
                samples.len() as int
            },
        ));
    } else {
        assert(joined_samples(rows, k) =~= samples.subrange(0, 0));
    }
}

/// The chunking law: a read of `n` samples is cut into the rounded-up
/// quotient of `n` by `MAX_SIGNAL` rows, a read without samples into one
/// row, and the rows' samples, joined in order, are the read's samples.
pub proof fn lemma_chunking_reproduces_samples(read_id: Seq<u8>, samples: Seq<i16>)
    ensures
        signal_rows(read_id, samples).len() == chunk_count(samples.len() as int),
        samples.len() > 0 ==> (chunk_count(samples.len() as int) - 1) * MAX_SIGNAL
            < samples.len() <= chunk_count(samples.len() as int) * MAX_SIGNAL,
        samples.len() == 0 ==> chunk_count(samples.len() as int) == 1,
        joined_samples(
            signal_rows(read_id, samples),
            chunk_count(samples.len() as int),
        ) == samples,
{
    let k = chunk_count(samples.len() as int);
    lemma_joined_prefix(read_id, samples, k);
    assert(samples.subrange(0, samples.len() as int) =~= samples);
}

/// Copies the samples from `start` up to `end` into a vector of their own.
fn copy_segment(samples: &[i16], start: usize, end: usize) -> (segment: Vec<i16>)
    requires
        start <= end <= samples@.len(),
    ensures
        segment@ == samples@.subrange(start as int, end as int),
{
    let mut segment: Vec<i16> = Vec::new();
    let mut i: usize = start;
    while i < end
        invariant
            start <= i <= end <= samples@.len(),
            segment@ == samples@.subrange(start as int, i as int),
        decreases end - i,
    {
        segment.push(samples[i]);
        i += 1;
        assert(segment@ =~= samples@.subrange(start as int, i as int));
    }
    segment
}

/// Cuts the samples of a read into rows of the signal table: segments of
/// `MAX_SIGNAL` samples in order, the last one as long as what is left. A
/// read without samples gets one row with an empty segment. Each row holds
/// the read's identifier, its segment, and the segment's length.
///
/// Fails where the schema is not that of the signal table.
pub fn handle_signal_data(schema: &Schema, read_id: &[u8; 16], signal_vec: &[i16]) -> (result:
    Result<Vec<RecordBatch>, Pod5Error>)
    ensures
        result is Ok <==> schema.column_types() == signal_column_types(),
        result matches Ok(batches) ==> batches_view(batches@) == signal_rows(
            read_id@,
            signal_vec@,
        ),
        result matches Err(e) ==> e == Pod5Error::SchemaMismatch,
{
    let total: usize = signal_vec.len();
    let mut batches: Vec<RecordBatch> = Vec::new();
    let mut start: usize = 0;
    let ghost rows = signal_rows(read_id@, signal_vec@);
    loop
        invariant_except_break
            total == signal_vec@.len(),
            rows == signal_rows(read_id@, signal_vec@),
            start == batches@.len() * MAX_SIGNAL,
            batches@.len() < chunk_count(total as int),
            forall|k: int| 0 <= k < batches@.len() ==> #[trigger] batches@[k]@ == rows[k],
            schema.column_types() == signal_column_types() || batches@.len() == 0,
        ensures
            schema.column_types() == signal_column_types(),
            batches@.len() == chunk_count(total as int),
            forall|k: int| 0 <= k < batches@.len() ==> #[trigger] batches@[k]@ == rows[k],
        decreases chunk_count(total as int) - batches@.len(),
    {
        proof {
            lemma_chunk_bounds(signal_vec@, batches@.len() as int);
        }
        let end: usize = if total - start > MAX_SIGNAL {
            start + MAX_SIGNAL
        } else {
            total
        };
        let segment = copy_segment(signal_vec, start, end);
        let count: u32 = (end - start) as u32;
        let mut columns: Vec<Column> = Vec::new();
        columns.push(Column::Uuid(*read_id));
        columns.push(Column::LargeListInt16(segment));
        columns.push(Column::UInt32(count));
        let ghost row = signal_row(read_id@, chunk(signal_vec@, batches@.len() as int));
        assert(crate::table::columns_view(columns@) =~= row);
        assert(crate::table::types_of(row) =~= signal_column_types());
        let batch = match RecordBatch::try_new(schema, columns) {
            Ok(batch) => batch,
            Err(e) => {
                return Err(e);
            },
        };
        batches.push(batch);
        if end == total {
            break ;
        }
        start = end;
    }
    assert(batches_view(batches@) =~= rows);
    Ok(batches)
}

/// The sample that two bytes hold with the lower byte first.
pub open spec fn sample_le(low: u8, high: u8) -> int {
    le_i16_at(seq![low, high], 0)
}

/// The samples that the bytes hold, two bytes for one sample, with the lower
/// byte of each sample first or second. A last odd byte is left out.
pub open spec fn raw_samples(bytes: Seq<u8>, lower_first: bool) -> Seq<i16> {
    Seq::new(
        bytes.len() / 2,
        |i: int|
            if lower_first {
                sample_le(bytes[2 * i], bytes[2 * i + 1]) as i16
            } else {
                sample_le(bytes[2 * i + 1], bytes[2 * i]) as i16
            },
    )
}

/// Calls `u16::from_ne_bytes` on the bytes 1 and 0, which gives 1 on a
/// machine that stores the lower byte first and 256 on one that stores it
/// second.
#[verifier::external_body]
fn from_ne_bytes() -> (value: u16)
    ensures
        value == 1 || value == 256,
{
    u16::from_ne_bytes([1, 0])
}

fn sample(low: u8, high: u8) -> (value: i16)
    ensures
        value == sample_le(low, high),
{
    let u: u16 = low as u16 + 0x100 * (high as u16);
    if u >= 0x8000 {
        let rest: i16 = (u - 0x8000) as i16;
        rest + i16::MIN
    } else {
        u as i16
    }
}

/// Reads samples from the bytes of a file of raw samples: two bytes for one
/// sample, in the byte order of the machine, which is the same for all of
/// them. A last odd byte is left out.
pub fn read_int16_from_file(buffer: &[u8]) -> (data: Vec<i16>)
    ensures
        data@ == raw_samples(buffer@, true) || data@ == raw_samples(buffer@, false),
{
    let lower_first: bool = from_ne_bytes() == 1;
    let n: usize = buffer.len() / 2;
    let mut data: Vec<i16> = Vec::new();
    let mut i: usize = 0;
    while i < n
        invariant
            i <= n,
            n == buffer@.len() / 2,
            buffer@.len() <= usize::MAX,
            data@.len() == i,
            forall|k: int| 0 <= k < i ==> data@[k] == raw_samples(buffer@, lower_first)[k],
        decreases n - i,
    {
        let first: u8 = buffer[2 * i];
        let second: u8 = buffer[2 * i + 1];
        if lower_first {
            data.push(sample(first, second));
        } else {
            data.push(sample(second, first));
        }
        i += 1;
    }
    assert(data@ =~= raw_samples(buffer@, lower_first));
    data
}

} // verus!
