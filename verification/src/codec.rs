//! The columnar codec: the `arrow` crate, which encodes the rows of a table
//! as one stream of bytes in the Arrow IPC file format.
//!
//! The values of the crate are outside values: nothing here looks inside
//! them. What is known of such a value is how it was made: by which
//! function of the crate, and of what. The rows of a table are turned into
//! its arrays column by column, the arrays of a row into a record batch, and
//! the batches into the bytes of a file. The bytes are named, not computed:
//! they are what the crate makes of the table, and the crate may refuse any
//! table.

use vstd::prelude::*;
use vstd::utf8::encode_utf8;
use std::sync::Arc;
use arrow::array::{
    ArrayRef, BooleanArray, DictionaryArray, FixedSizeBinaryArray, Float32Array, Int16Array,
    LargeListArray, ListArray, MapArray, StringArray, StructArray, TimestampMillisecondArray,
    UInt16Array, UInt32Array, UInt64Array, UInt8Array,
};
use arrow::buffer::{Buffer, OffsetBuffer, ScalarBuffer};
use arrow::datatypes::{
    DataType as ArrowDataType, Field as ArrowField, Int16Type, Schema as ArrowSchema, TimeUnit,
};
use arrow::error::ArrowError;
use arrow::ipc::writer::FileWriter;
use arrow::record_batch::RecordBatch as ArrowBatch;
use crate::error::Pod5Error;
use crate::run_info::{distinct_keys, has_distinct_keys};
use crate::table::{Column, ColumnView, DataType, Field, RecordBatch, Schema};

verus! {

#[verifier::external_type_specification]
#[verifier::external_body]
pub struct ExArrowError(ArrowError);

#[verifier::external_type_specification]
#[verifier::external_body]
pub struct ExArrowDataType(ArrowDataType);

#[verifier::external_type_specification]
#[verifier::external_body]
pub struct ExArrowField(ArrowField);

#[verifier::external_type_specification]
#[verifier::external_body]
pub struct ExArrowSchema(ArrowSchema);

#[verifier::external_type_specification]
#[verifier::external_body]
#[verifier::reject_recursive_types(W)]
pub struct ExFileWriter<W>(FileWriter<W>);

/// One array of the codec: the values of one column.
#[verifier::external_body]
pub struct ArrowColumn {
    inner: ArrayRef,
}

/// One record batch of the codec: the arrays of one row.
#[verifier::external_body]
pub struct ArrowRow {
    inner: ArrowBatch,
}

/// The functions of the codec that the library calls.
pub enum Maker {
    FixedSizeBinaryType,
    UInt8Type,
    UInt16Type,
    UInt32Type,
    UInt64Type,
    Int16Type,
    Float32Type,
    BooleanType,
    Utf8Type,
    ListType,
    LargeListType,
    DictionaryType,
    TimestampMillisecondType,
    StructType,
    MapType,
    NewField,
    WithMetadata,
    NewSchema,
    FixedSizeBinaryColumn,
    UInt8Column,
    UInt16Column,
    UInt32Column,
    UInt64Column,
    Int16Column,
    Float32Column,
    BooleanColumn,
    Utf8Column,
    TimestampMillisecondColumn,
    ListColumn,
    LargeListColumn,
    DictionaryColumn,
    MapColumn,
    RecordBatch,
    FileWriter,
    Write,
    Finish,
    IntoInner,
}

/// How a value that was handed to the codec, or that came out of it, was
/// made: a plain value is itself, an outside value is made by a function of
/// the codec of the values that were handed to the function, in their order.
pub enum Made {
    Number(int),
    Flag(bool),
    Text(Seq<char>),
    Numbers(Seq<int>),
    Flags(Seq<bool>),
    Texts(Seq<Seq<char>>),
    Pairs(Seq<(Seq<char>, Seq<char>)>),
    Identifiers(Seq<Seq<u8>>),
    Values(Seq<Made>),
    By(Maker, Seq<Made>),
}

/// How a type of the codec was made.
pub uninterp spec fn made_type(data_type: &ArrowDataType) -> Made;

/// How a field of the codec was made.
pub uninterp spec fn made_field(field: &ArrowField) -> Made;

/// How a schema of the codec was made.
pub uninterp spec fn made_schema(schema: &ArrowSchema) -> Made;

/// How an array of the codec was made.
pub uninterp spec fn made_column(column: &ArrowColumn) -> Made;

/// How a record batch of the codec was made.
pub uninterp spec fn made_row(row: &ArrowRow) -> Made;

/// How a writer of the codec, with what was written into it, was made.
pub uninterp spec fn made_writer(writer: &FileWriter<Vec<u8>>) -> Made;

/// Whether the codec carries a call out, or refuses it with an error: the
/// verdict of the function of the codec on the values that are handed to it.
pub uninterp spec fn codec_accepts(call: Made) -> bool;

/// The bytes that `FileWriter::into_inner` returns for a writer that was
/// made in the given way.
pub uninterp spec fn file_bytes(writer: Made) -> Seq<u8>;

/// How each field of a list was made.
pub open spec fn made_fields(fields: Seq<ArrowField>) -> Seq<Made> {
    Seq::new(fields.len(), |i: int| made_field(&fields[i]))
}

/// How each array of a list was made.
pub open spec fn made_columns(columns: Seq<ArrowColumn>) -> Seq<Made> {
    Seq::new(columns.len(), |i: int| made_column(&columns[i]))
}

/// The numbers of a list as integers.
pub open spec fn numbers_u8(values: Seq<u8>) -> Seq<int> {
    Seq::new(values.len(), |i: int| values[i] as int)
}

/// The numbers of a list as integers.
pub open spec fn numbers_u16(values: Seq<u16>) -> Seq<int> {
    Seq::new(values.len(), |i: int| values[i] as int)
}

/// The numbers of a list as integers.
pub open spec fn numbers_u32(values: Seq<u32>) -> Seq<int> {
    Seq::new(values.len(), |i: int| values[i] as int)
}

/// The numbers of a list as integers.
pub open spec fn numbers_u64(values: Seq<u64>) -> Seq<int> {
    Seq::new(values.len(), |i: int| values[i] as int)
}

/// The numbers of a list as integers.
pub open spec fn numbers_i16(values: Seq<i16>) -> Seq<int> {
    Seq::new(values.len(), |i: int| values[i] as int)
}

/// The numbers of a list as integers.
pub open spec fn numbers_i64(values: Seq<i64>) -> Seq<int> {
    Seq::new(values.len(), |i: int| values[i] as int)
}

/// The identifiers of a list as sequences of bytes.
pub open spec fn identifiers(values: Seq<[u8; 16]>) -> Seq<Seq<u8>> {
    Seq::new(values.len(), |i: int| values[i]@)
}

/// The greatest number of bytes or of items that an array with 32-bit
/// offsets holds.
pub const MAX_OFFSET: usize = 0x7fff_ffff;

/// The number of bytes that a list of texts takes in UTF-8.
pub open spec fn utf8_bytes(values: Seq<Seq<char>>) -> int
    decreases values.len(),
{
    if values.len() == 0 {
        0
    } else {
        utf8_bytes(values.drop_last()) + encode_utf8(values.last()).len()
    }
}

/// The `DataType::FixedSizeBinary` of the given width.
/// The result is known as what this call makes of its arguments.
#[verifier::external_body]
fn fixed_size_binary_type(width: i32) -> (data_type: ArrowDataType)
    ensures
        made_type(&data_type) == Made::By(
            Maker::FixedSizeBinaryType,
            seq![Made::Number(width as int)],
        ),
{
    ArrowDataType::FixedSizeBinary(width)
}

/// `DataType::UInt8`.
/// The result is known as what this call makes of its arguments.
#[verifier::external_body]
fn uint8_type() -> (data_type: ArrowDataType)
    ensures
        made_type(&data_type) == Made::By(Maker::UInt8Type, Seq::empty()),
{
    ArrowDataType::UInt8
}

/// `DataType::UInt16`.
/// The result is known as what this call makes of its arguments.
#[verifier::external_body]
fn uint16_type() -> (data_type: ArrowDataType)
    ensures
        made_type(&data_type) == Made::By(Maker::UInt16Type, Seq::empty()),
{
    ArrowDataType::UInt16
}

/// `DataType::UInt32`.
/// The result is known as what this call makes of its arguments.
#[verifier::external_body]
fn uint32_type() -> (data_type: ArrowDataType)
    ensures
        made_type(&data_type) == Made::By(Maker::UInt32Type, Seq::empty()),
{
    ArrowDataType::UInt32
}

/// `DataType::UInt64`.
/// The result is known as what this call makes of its arguments.
#[verifier::external_body]
fn uint64_type() -> (data_type: ArrowDataType)
    ensures
        made_type(&data_type) == Made::By(Maker::UInt64Type, Seq::empty()),
{
    ArrowDataType::UInt64
}

/// `DataType::Int16`.
/// The result is known as what this call makes of its arguments.
#[verifier::external_body]
fn int16_type() -> (data_type: ArrowDataType)
    ensures
        made_type(&data_type) == Made::By(Maker::Int16Type, Seq::empty()),
{
    ArrowDataType::Int16
}

/// `DataType::Float32`.
/// The result is known as what this call makes of its arguments.
#[verifier::external_body]
fn float32_type() -> (data_type: ArrowDataType)
    ensures
        made_type(&data_type) == Made::By(Maker::Float32Type, Seq::empty()),
{
    ArrowDataType::Float32
}

/// `DataType::Boolean`.
/// The result is known as what this call makes of its arguments.
#[verifier::external_body]
fn boolean_type() -> (data_type: ArrowDataType)
    ensures
        made_type(&data_type) == Made::By(Maker::BooleanType, Seq::empty()),
{
    ArrowDataType::Boolean
}

/// `DataType::Utf8`.
/// The result is known as what this call makes of its arguments.
#[verifier::external_body]
fn utf8_type() -> (data_type: ArrowDataType)
    ensures
        made_type(&data_type) == Made::By(Maker::Utf8Type, Seq::empty()),
{
    ArrowDataType::Utf8
}

/// The `DataType::List` of the given item field.
/// The result is known as what this call makes of its arguments.
#[verifier::external_body]
fn list_type(item: ArrowField) -> (data_type: ArrowDataType)
    ensures
        made_type(&data_type) == Made::By(Maker::ListType, seq![made_field(&item)]),
{
    ArrowDataType::List(Arc::new(item))
}

/// The `DataType::LargeList` of the given item field.
/// The result is known as what this call makes of its arguments.
#[verifier::external_body]
fn large_list_type(item: ArrowField) -> (data_type: ArrowDataType)
    ensures
        made_type(&data_type) == Made::By(Maker::LargeListType, seq![made_field(&item)]),
{
    ArrowDataType::LargeList(Arc::new(item))
}

/// The `DataType::Dictionary` of the given types of keys and of values.
/// The result is known as what this call makes of its arguments.
#[verifier::external_body]
fn dictionary_type(key: ArrowDataType, value: ArrowDataType) -> (data_type: ArrowDataType)
    ensures
        made_type(&data_type) == Made::By(
            Maker::DictionaryType,
            seq![made_type(&key), made_type(&value)],
        ),
{
    ArrowDataType::Dictionary(Box::new(key), Box::new(value))
}

/// The `DataType::Timestamp` in milliseconds in the given time zone.
/// The result is known as what this call makes of its arguments.
#[verifier::external_body]
fn timestamp_millisecond_type(timezone: &str) -> (data_type: ArrowDataType)
    ensures
        made_type(&data_type) == Made::By(
            Maker::TimestampMillisecondType,
            seq![Made::Text(timezone@)],
        ),
{
    ArrowDataType::Timestamp(TimeUnit::Millisecond, Some(timezone.into()))
}

/// The `DataType::Struct` of the given fields.
/// The result is known as what this call makes of its arguments.
#[verifier::external_body]
fn struct_type(fields: Vec<ArrowField>) -> (data_type: ArrowDataType)
    ensures
        made_type(&data_type) == Made::By(
            Maker::StructType,
            seq![Made::Values(made_fields(fields@))],
        ),
{
    ArrowDataType::Struct(fields.into())
}

/// The `DataType::Map` of the given field of entries.
/// The result is known as what this call makes of its arguments.
#[verifier::external_body]
fn map_type(entries: ArrowField, sorted: bool) -> (data_type: ArrowDataType)
    ensures
        made_type(&data_type) == Made::By(
            Maker::MapType,
            seq![made_field(&entries), Made::Flag(sorted)],
        ),
{
    ArrowDataType::Map(Arc::new(entries), sorted)
}

/// Calls `Field::new`.
/// The result is known as what this call makes of its arguments.
#[verifier::external_body]
fn new_field(name: &str, data_type: ArrowDataType, nullable: bool) -> (field: ArrowField)
    ensures
        made_field(&field) == Made::By(
            Maker::NewField,
            seq![Made::Text(name@), made_type(&data_type), Made::Flag(nullable)],
        ),
{
    ArrowField::new(name, data_type, nullable)
}

/// Calls `Field::with_metadata` with the given pairs, whose keys differ, as
/// the metadata.
/// The result is known as what this call makes of its arguments.
#[verifier::external_body]
fn with_metadata(field: ArrowField, metadata: &Vec<(String, String)>) -> (tagged: ArrowField)
    requires
        distinct_keys(metadata.deep_view()),
    ensures
        made_field(&tagged) == Made::By(
            Maker::WithMetadata,
            seq![made_field(&field), Made::Pairs(metadata.deep_view())],
        ),
{
    field.with_metadata(metadata.iter().cloned().collect::<std::collections::HashMap<_, _>>())
}

/// Calls `Schema::new_with_metadata` with the given pairs, whose keys
/// differ, as the metadata.
/// The result is known as what this call makes of its arguments.
#[verifier::external_body]
fn new_schema(fields: Vec<ArrowField>, metadata: &Vec<(String, String)>) -> (schema:
    ArrowSchema)
    requires
        distinct_keys(metadata.deep_view()),
    ensures
        made_schema(&schema) == Made::By(
            Maker::NewSchema,
            seq![Made::Values(made_fields(fields@)), Made::Pairs(metadata.deep_view())],
        ),
{
    let metadata = metadata.iter().cloned().collect::<std::collections::HashMap<_, _>>();
    ArrowSchema::new_with_metadata(fields, metadata)
}

/// Calls `FixedSizeBinaryArray::try_from_iter`, which refuses an empty list.
/// The result is known as what this call makes of its arguments.
/// Whether the call succeeds is named as the codec's verdict on it.
#[verifier::external_body]
fn fixed_size_binary_column(values: &Vec<[u8; 16]>) -> (column: Result<ArrowColumn, ArrowError>)
    ensures
        column is Ok <==> codec_accepts(
            Made::By(Maker::FixedSizeBinaryColumn, seq![Made::Identifiers(identifiers(values@))]),
        ),
        column matches Ok(c) ==> made_column(&c) == Made::By(
            Maker::FixedSizeBinaryColumn,
            seq![Made::Identifiers(identifiers(values@))],
        ),
{
    let array = FixedSizeBinaryArray::try_from_iter(values.iter())?;
    Ok(ArrowColumn { inner: Arc::new(array) })
}

/// Calls `UInt8Array::from`.
/// The result is known as what this call makes of its arguments.
#[verifier::external_body]
fn uint8_column(values: Vec<u8>) -> (column: ArrowColumn)
    ensures
        made_column(&column) == Made::By(
            Maker::UInt8Column,
            seq![Made::Numbers(numbers_u8(values@))],
        ),
{
    ArrowColumn { inner: Arc::new(UInt8Array::from(values)) }
}

/// Calls `UInt16Array::from`.
/// The result is known as what this call makes of its arguments.
#[verifier::external_body]
fn uint16_column(values: Vec<u16>) -> (column: ArrowColumn)
    ensures
        made_column(&column) == Made::By(
            Maker::UInt16Column,
            seq![Made::Numbers(numbers_u16(values@))],
        ),
{
    ArrowColumn { inner: Arc::new(UInt16Array::from(values)) }
}

/// Calls `UInt32Array::from`.
/// The result is known as what this call makes of its arguments.
#[verifier::external_body]
fn uint32_column(values: Vec<u32>) -> (column: ArrowColumn)
    ensures
        made_column(&column) == Made::By(
            Maker::UInt32Column,
            seq![Made::Numbers(numbers_u32(values@))],
        ),
{
    ArrowColumn { inner: Arc::new(UInt32Array::from(values)) }
}

/// Calls `UInt64Array::from`.
/// The result is known as what this call makes of its arguments.
#[verifier::external_body]
fn uint64_column(values: Vec<u64>) -> (column: ArrowColumn)
    ensures
        made_column(&column) == Made::By(
            Maker::UInt64Column,
            seq![Made::Numbers(numbers_u64(values@))],
        ),
{
    ArrowColumn { inner: Arc::new(UInt64Array::from(values)) }
}

/// Calls `Int16Array::from`.
/// The result is known as what this call makes of its arguments.
#[verifier::external_body]
fn int16_column(values: Vec<i16>) -> (column: ArrowColumn)
    ensures
        made_column(&column) == Made::By(
            Maker::Int16Column,
            seq![Made::Numbers(numbers_i16(values@))],
        ),
{
    ArrowColumn { inner: Arc::new(Int16Array::from(values)) }
}

/// Calls `Float32Array::new` on a buffer that holds the given bits, one
/// number for every 32 of them.
/// The result is known as what this call makes of its arguments.
#[verifier::external_body]
fn float32_column(bits: Vec<u32>) -> (column: ArrowColumn)
    ensures
        made_column(&column) == Made::By(
            Maker::Float32Column,
            seq![Made::Numbers(numbers_u32(bits@))],
        ),
{
    let values = ScalarBuffer::from(Buffer::from_vec(bits));
    ArrowColumn { inner: Arc::new(Float32Array::new(values, None)) }
}

/// Calls `BooleanArray::from`.
/// The result is known as what this call makes of its arguments.
#[verifier::external_body]
fn boolean_column(values: Vec<bool>) -> (column: ArrowColumn)
    ensures
        made_column(&column) == Made::By(Maker::BooleanColumn, seq![Made::Flags(values@)]),
{
    ArrowColumn { inner: Arc::new(BooleanArray::from(values)) }
}

/// Calls `StringArray::from_iter_values`, which takes texts of up to 2^31 - 1
/// bytes in all.
/// The result is known as what this call makes of its arguments.
#[verifier::external_body]
fn utf8_column(values: &Vec<String>) -> (column: ArrowColumn)
    requires
        utf8_bytes(values.deep_view()) <= MAX_OFFSET,
    ensures
        made_column(&column) == Made::By(
            Maker::Utf8Column,
            seq![Made::Texts(values.deep_view())],
        ),
{
    ArrowColumn { inner: Arc::new(StringArray::from_iter_values(values.iter())) }
}

/// Calls `TimestampMillisecondArray::with_timezone` on the array of the
/// given values.
/// The result is known as what this call makes of its arguments.
#[verifier::external_body]
fn timestamp_millisecond_column(values: Vec<i64>, timezone: &str) -> (column: ArrowColumn)
    ensures
        made_column(&column) == Made::By(
            Maker::TimestampMillisecondColumn,
            seq![Made::Numbers(numbers_i64(values@)), Made::Text(timezone@)],
        ),
{
    let array = TimestampMillisecondArray::from(values).with_timezone(timezone);
    ArrowColumn { inner: Arc::new(array) }
}

/// Calls `ListArray::try_new` for one list that holds the first `count`
/// values.
/// The result is known as what this call makes of its arguments.
/// Whether the call succeeds is named as the codec's verdict on it.
#[verifier::external_body]
fn list_column(item: ArrowField, values: ArrowColumn, count: usize) -> (column: Result<
    ArrowColumn,
    ArrowError,
>)
    requires
        count <= MAX_OFFSET,
    ensures
        column is Ok <==> codec_accepts(
            Made::By(
                Maker::ListColumn,
                seq![made_field(&item), made_column(&values), Made::Number(count as int)],
            ),
        ),
        column matches Ok(c) ==> made_column(&c) == Made::By(
            Maker::ListColumn,
            seq![made_field(&item), made_column(&values), Made::Number(count as int)],
        ),
{
    let offsets = OffsetBuffer::from_lengths([count]);
    let array = ListArray::try_new(Arc::new(item), offsets, values.inner, None)?;
    Ok(ArrowColumn { inner: Arc::new(array) })
}

/// Calls `LargeListArray::try_new` for one list that holds the first `count`
/// values.
/// The result is known as what this call makes of its arguments.
/// Whether the call succeeds is named as the codec's verdict on it.
#[verifier::external_body]
fn large_list_column(item: ArrowField, values: ArrowColumn, count: usize) -> (column: Result<
    ArrowColumn,
    ArrowError,
>)
    requires
        count <= i64::MAX,
    ensures
        column is Ok <==> codec_accepts(
            Made::By(
                Maker::LargeListColumn,
                seq![made_field(&item), made_column(&values), Made::Number(count as int)],
            ),
        ),
        column matches Ok(c) ==> made_column(&c) == Made::By(
            Maker::LargeListColumn,
            seq![made_field(&item), made_column(&values), Made::Number(count as int)],
        ),
{
    let offsets = OffsetBuffer::from_lengths([count]);
    let array = LargeListArray::try_new(Arc::new(item), offsets, values.inner, None)?;
    Ok(ArrowColumn { inner: Arc::new(array) })
}

/// Calls `DictionaryArray::try_new` with 16-bit keys, which refuses a key
/// without value.
/// The result is known as what this call makes of its arguments.
/// Whether the call succeeds is named as the codec's verdict on it.
#[verifier::external_body]
fn dictionary_column(keys: Vec<i16>, values: &ArrowColumn) -> (column: Result<
    ArrowColumn,
    ArrowError,
>)
    ensures
        column is Ok <==> codec_accepts(
            Made::By(
                Maker::DictionaryColumn,
                seq![Made::Numbers(numbers_i16(keys@)), made_column(values)],
            ),
        ),
        column matches Ok(c) ==> made_column(&c) == Made::By(
            Maker::DictionaryColumn,
            seq![Made::Numbers(numbers_i16(keys@)), made_column(values)],
        ),
{
    let keys = Int16Array::from(keys);
    let array = DictionaryArray::<Int16Type>::try_new(keys, values.inner.clone())?;
    Ok(ArrowColumn { inner: Arc::new(array) })
}

/// Calls `MapArray::try_new` for one map that holds the first `count`
/// entries, on the `StructArray` of the keys and the values.
/// The result is known as what this call makes of its arguments.
/// Whether the call succeeds is named as the codec's verdict on it.
#[verifier::external_body]
fn map_column(
    entries: ArrowField,
    fields: Vec<ArrowField>,
    keys: ArrowColumn,
    values: ArrowColumn,
    count: usize,
) -> (column: Result<ArrowColumn, ArrowError>)
    requires
        count <= MAX_OFFSET,
    ensures
        column is Ok <==> codec_accepts(
            Made::By(
                Maker::MapColumn,
                seq![
                    made_field(&entries),
                    Made::Values(made_fields(fields@)),
                    made_column(&keys),
                    made_column(&values),
                    Made::Number(count as int),
                ],
            ),
        ),
        column matches Ok(c) ==> made_column(&c) == Made::By(
            Maker::MapColumn,
            seq![
                made_field(&entries),
                Made::Values(made_fields(fields@)),
                made_column(&keys),
                made_column(&values),
                Made::Number(count as int),
            ],
        ),
{
    let pairs = StructArray::try_new(fields.into(), vec![keys.inner, values.inner], None)?;
    let offsets = OffsetBuffer::from_lengths([count]);
    let array = MapArray::try_new(Arc::new(entries), offsets, pairs, None, false)?;
    Ok(ArrowColumn { inner: Arc::new(array) })
}

/// Calls `RecordBatch::try_new`, which refuses columns that are not those of
/// the schema.
/// The result is known as what this call makes of its arguments.
/// Whether the call succeeds is named as the codec's verdict on it.
#[verifier::external_body]
fn record_batch(schema: &ArrowSchema, columns: Vec<ArrowColumn>) -> (row: Result<
    ArrowRow,
    ArrowError,
>)
    ensures
        row is Ok <==> codec_accepts(
            Made::By(
                Maker::RecordBatch,
                seq![made_schema(schema), Made::Values(made_columns(columns@))],
            ),
        ),
        row matches Ok(r) ==> made_row(&r) == Made::By(
            Maker::RecordBatch,
            seq![made_schema(schema), Made::Values(made_columns(columns@))],
        ),
{
    let arrays: Vec<ArrayRef> = columns.into_iter().map(|c| c.inner).collect();
    Ok(ArrowRow { inner: ArrowBatch::try_new(Arc::new(schema.clone()), arrays)? })
}

/// Calls `FileWriter::try_new` with an empty vector to write into.
/// The result is known as what this call makes of its arguments.
/// Whether the call succeeds is named as the codec's verdict on it.
#[verifier::external_body]
fn file_writer(schema: &ArrowSchema) -> (writer: Result<FileWriter<Vec<u8>>, ArrowError>)
    ensures
        writer is Ok <==> codec_accepts(Made::By(Maker::FileWriter, seq![made_schema(schema)])),
        writer matches Ok(w) ==> made_writer(&w) == Made::By(
            Maker::FileWriter,
            seq![made_schema(schema)],
        ),
{
    FileWriter::try_new(Vec::new(), schema)
}

/// Calls `FileWriter::write`.
/// Where the call succeeds, the writer is known as what this call makes of
/// the writer before it and the record batch.
/// Whether the call succeeds is named as the codec's verdict on it.
#[verifier::external_body]
fn write(writer: &mut FileWriter<Vec<u8>>, row: &ArrowRow) -> (written: Result<(), ArrowError>)
    ensures
        written is Ok <==> codec_accepts(
            Made::By(Maker::Write, seq![made_writer(old(writer)), made_row(row)]),
        ),
        written is Ok ==> made_writer(final(writer)) == Made::By(
            Maker::Write,
            seq![made_writer(old(writer)), made_row(row)],
        ),
{
    writer.write(&row.inner)
}

/// Calls `FileWriter::finish`.
/// Where the call succeeds, the writer is known as what this call makes of
/// the writer before it.
/// Whether the call succeeds is named as the codec's verdict on it.
#[verifier::external_body]
fn finish(writer: &mut FileWriter<Vec<u8>>) -> (finished: Result<(), ArrowError>)
    ensures
        finished is Ok <==> codec_accepts(
            Made::By(Maker::Finish, seq![made_writer(old(writer))]),
        ),
        finished is Ok ==> made_writer(final(writer)) == Made::By(
            Maker::Finish,
            seq![made_writer(old(writer))],
        ),
{
    writer.finish()
}

/// Calls `FileWriter::into_inner`, which gives the bytes that were written.
/// The bytes are named by how the writer was made.
/// Whether the call succeeds is named as the codec's verdict on it.
#[verifier::external_body]
fn into_inner(writer: FileWriter<Vec<u8>>) -> (bytes: Result<Vec<u8>, ArrowError>)
    ensures
        bytes is Ok <==> codec_accepts(Made::By(Maker::IntoInner, seq![made_writer(&writer)])),
        bytes matches Ok(b) ==> b@ == file_bytes(made_writer(&writer)),
{
    writer.into_inner()
}

/// A type of the codec that is made of nothing.
pub open spec fn plain_type(maker: Maker) -> Made {
    Made::By(maker, Seq::empty())
}

/// A field of the codec without metadata.
pub open spec fn plain_field(name: Seq<char>, data_type: Made, nullable: bool) -> Made {
    Made::By(Maker::NewField, seq![Made::Text(name), data_type, Made::Flag(nullable)])
}

/// The field of the items of a list: it is called `item` and may be null.
pub open spec fn item_field(data_type: Made) -> Made {
    plain_field("item"@, data_type, true)
}

/// The two fields of an entry of a map: `keys`, a text that is never null,
/// and `values`, a text.
pub open spec fn entry_fields_made() -> Seq<Made> {
    seq![
        plain_field("keys"@, plain_type(Maker::Utf8Type), false),
        plain_field("values"@, plain_type(Maker::Utf8Type), true),
    ]
}

/// The field `entries` that holds the entries of a map.
pub open spec fn entries_field_made() -> Made {
    plain_field(
        "entries"@,
        Made::By(Maker::StructType, seq![Made::Values(entry_fields_made())]),
        false,
    )
}

/// The type of the codec for a column type: an identifier is fixed-size
/// binary of 16 bytes, a categorical text a dictionary of texts with 16-bit
/// keys, a time a timestamp in milliseconds in `UTC`, and a tag map an
/// unsorted map of its entries.
pub open spec fn type_made(data_type: DataType) -> Made {
    match data_type {
        DataType::Uuid => Made::By(Maker::FixedSizeBinaryType, seq![Made::Number(16)]),
        DataType::UInt8 => plain_type(Maker::UInt8Type),
        DataType::UInt16 => plain_type(Maker::UInt16Type),
        DataType::UInt32 => plain_type(Maker::UInt32Type),
        DataType::UInt64 => plain_type(Maker::UInt64Type),
        DataType::Int16 => plain_type(Maker::Int16Type),
        DataType::Float32 => plain_type(Maker::Float32Type),
        DataType::Boolean => plain_type(Maker::BooleanType),
        DataType::Utf8 => plain_type(Maker::Utf8Type),
        DataType::ListUInt64 => Made::By(
            Maker::ListType,
            seq![item_field(plain_type(Maker::UInt64Type))],
        ),
        DataType::LargeListInt16 => Made::By(
            Maker::LargeListType,
            seq![item_field(plain_type(Maker::Int16Type))],
        ),
        DataType::DictionaryInt16Utf8 => Made::By(
            Maker::DictionaryType,
            seq![plain_type(Maker::Int16Type), plain_type(Maker::Utf8Type)],
        ),
        DataType::TimestampMillisUtc => Made::By(
            Maker::TimestampMillisecondType,
            seq![Made::Text("UTC"@)],
        ),
        DataType::MapUtf8Utf8 => Made::By(
            Maker::MapType,
            seq![entries_field_made(), Made::Flag(false)],
        ),
    }
}

/// The metadata that tags an identifier column as the extension type
/// `minknow.uuid`.
pub open spec fn extension_metadata() -> Seq<(Seq<char>, Seq<char>)> {
    seq![("ARROW:extension:name"@, "minknow.uuid"@), ("ARROW:extension:metadata"@, Seq::empty())]
}

/// The field of the codec for a column. An identifier column is tagged as
/// the extension type `minknow.uuid`.
pub open spec fn field_made(field: Field) -> Made {
    let plain = plain_field(field.name@, type_made(field.data_type), field.nullable);
    if field.data_type == DataType::Uuid {
        Made::By(Maker::WithMetadata, seq![plain, Made::Pairs(extension_metadata())])
    } else {
        plain
    }
}

/// The schema of the codec for the columns and the metadata of a table.
pub open spec fn schema_made(fields: Seq<Field>, metadata: Seq<(Seq<char>, Seq<char>)>) -> Made {
    Made::By(
        Maker::NewSchema,
        seq![
            Made::Values(Seq::new(fields.len(), |i: int| field_made(fields[i]))),
            Made::Pairs(metadata),
        ],
    )
}

/// The array of texts of the codec for a list of texts.
pub open spec fn texts_made(values: Seq<Seq<char>>) -> Made {
    Made::By(Maker::Utf8Column, seq![Made::Texts(values)])
}

/// The array of the codec for one column value: an array of one value. A
/// list is the one list of all its numbers, a tag map the one map of all
/// its entries, and a categorical text its index with the given array of
/// texts as its dictionary.
pub open spec fn column_made(column: ColumnView, dictionary: Made) -> Made {
    match column {
        ColumnView::Uuid(id) => Made::By(
            Maker::FixedSizeBinaryColumn,
            seq![Made::Identifiers(seq![id])],
        ),
        ColumnView::UInt8(v) => Made::By(Maker::UInt8Column, seq![Made::Numbers(seq![v as int])]),
        ColumnView::UInt16(v) => Made::By(Maker::UInt16Column, seq![Made::Numbers(seq![v as int])]),
        ColumnView::UInt32(v) => Made::By(Maker::UInt32Column, seq![Made::Numbers(seq![v as int])]),
        ColumnView::UInt64(v) => Made::By(Maker::UInt64Column, seq![Made::Numbers(seq![v as int])]),
        ColumnView::Int16(v) => Made::By(Maker::Int16Column, seq![Made::Numbers(seq![v as int])]),
        ColumnView::Float32(bits) => Made::By(
            Maker::Float32Column,
            seq![Made::Numbers(seq![bits as int])],
        ),
        ColumnView::Boolean(v) => Made::By(Maker::BooleanColumn, seq![Made::Flags(seq![v])]),
        ColumnView::Utf8(text) => texts_made(seq![text]),
        ColumnView::ListUInt64(values) => Made::By(
            Maker::ListColumn,
            seq![
                item_field(plain_type(Maker::UInt64Type)),
                Made::By(Maker::UInt64Column, seq![Made::Numbers(numbers_u64(values))]),
                Made::Number(values.len() as int),
            ],
        ),
        ColumnView::LargeListInt16(values) => Made::By(
            Maker::LargeListColumn,
            seq![
                item_field(plain_type(Maker::Int16Type)),
                Made::By(Maker::Int16Column, seq![Made::Numbers(numbers_i16(values))]),
                Made::Number(values.len() as int),
            ],
        ),
        ColumnView::DictionaryInt16Utf8(key) => Made::By(
            Maker::DictionaryColumn,
            seq![Made::Numbers(seq![key as int]), dictionary],
        ),
        ColumnView::TimestampMillisUtc(v) => Made::By(
            Maker::TimestampMillisecondColumn,
            seq![Made::Numbers(seq![v as int]), Made::Text("UTC"@)],
        ),
        ColumnView::MapUtf8Utf8(entries) => Made::By(
            Maker::MapColumn,
            seq![
                entries_field_made(),
                Made::Values(entry_fields_made()),
                texts_made(Seq::new(entries.len(), |i: int| entries[i].0)),
                texts_made(Seq::new(entries.len(), |i: int| entries[i].1)),
                Made::Number(entries.len() as int),
            ],
        ),
    }
}

/// The record batch of the codec for one row.
pub open spec fn row_made(schema: Made, row: Seq<ColumnView>, dictionary: Made) -> Made {
    Made::By(
        Maker::RecordBatch,
        seq![schema, Made::Values(Seq::new(row.len(), |j: int| column_made(row[j], dictionary)))],
    )
}

/// The writer of the codec after the first `k` rows were written into it.
pub open spec fn writer_made(
    schema: Made,
    rows: Seq<Seq<ColumnView>>,
    dictionary: Made,
    k: int,
) -> Made
    decreases k,
{
    if k <= 0 {
        Made::By(Maker::FileWriter, seq![schema])
    } else {
        Made::By(
            Maker::Write,
            seq![
                writer_made(schema, rows, dictionary, k - 1),
                row_made(schema, rows[k - 1], dictionary),
            ],
        )
    }
}

/// The writer of the codec for a table after all its rows were written into
/// it and it was finished.
pub open spec fn finished_made(
    fields: Seq<Field>,
    metadata: Seq<(Seq<char>, Seq<char>)>,
    dictionary: Seq<Seq<char>>,
    rows: Seq<Seq<ColumnView>>,
) -> Made {
    Made::By(
        Maker::Finish,
        seq![
            writer_made(
                schema_made(fields, metadata),
                rows,
                texts_made(dictionary),
                rows.len() as int,
            ),
        ],
    )
}

/// Whether the codec makes the array of a column value. Arrays of plain
/// numbers, flags and texts are always made; for an identifier, a list, a
/// categorical index and a tag map the codec decides.
pub open spec fn column_accepted(column: ColumnView, dictionary: Made) -> bool {
    match column {
        ColumnView::Uuid(_) => codec_accepts(column_made(column, dictionary)),
        ColumnView::ListUInt64(_) => codec_accepts(column_made(column, dictionary)),
        ColumnView::LargeListInt16(_) => codec_accepts(column_made(column, dictionary)),
        ColumnView::DictionaryInt16Utf8(_) => codec_accepts(column_made(column, dictionary)),
        ColumnView::MapUtf8Utf8(_) => codec_accepts(column_made(column, dictionary)),
        _ => true,
    }
}

/// Whether the codec makes the record batch of a row: the array of every
/// column value, and the batch of the arrays.
pub open spec fn row_accepted(schema: Made, row: Seq<ColumnView>, dictionary: Made) -> bool {
    &&& forall|j: int| 0 <= j < row.len() ==> column_accepted(#[trigger] row[j], dictionary)
    &&& codec_accepts(row_made(schema, row, dictionary))
}

/// Whether the codec encodes a table: it opens a writer for the schema,
/// makes the record batch of every row and writes it, finishes the writer
/// and gives the bytes.
pub open spec fn table_accepted(
    fields: Seq<Field>,
    metadata: Seq<(Seq<char>, Seq<char>)>,
    dictionary: Seq<Seq<char>>,
    rows: Seq<Seq<ColumnView>>,
) -> bool {
    let schema = schema_made(fields, metadata);
    let texts = texts_made(dictionary);
    &&& codec_accepts(writer_made(schema, rows, texts, 0))
    &&& forall|k: int|
        0 <= k < rows.len() ==> row_accepted(schema, #[trigger] rows[k], texts) && codec_accepts(
            writer_made(schema, rows, texts, k + 1),
        )
    &&& codec_accepts(finished_made(fields, metadata, dictionary, rows))
    &&& codec_accepts(
        Made::By(Maker::IntoInner, seq![finished_made(fields, metadata, dictionary, rows)]),
    )
}

/// The bytes of a table: what the codec returns for a writer that was opened
/// with the schema of the table, into which the rows of the table were
/// written one by one, and which was finished.
pub open spec fn table_bytes(
    fields: Seq<Field>,
    metadata: Seq<(Seq<char>, Seq<char>)>,
    dictionary: Seq<Seq<char>>,
    rows: Seq<Seq<ColumnView>>,
) -> Seq<u8> {
    file_bytes(finished_made(fields, metadata, dictionary, rows))
}

/// The type of the codec for a column type.
fn arrow_type(data_type: DataType) -> (converted: ArrowDataType)
    ensures
        made_type(&converted) == type_made(data_type),
{
    match data_type {
        DataType::Uuid => fixed_size_binary_type(16),
        DataType::UInt8 => uint8_type(),
        DataType::UInt16 => uint16_type(),
        DataType::UInt32 => uint32_type(),
        DataType::UInt64 => uint64_type(),
        DataType::Int16 => int16_type(),
        DataType::Float32 => float32_type(),
        DataType::Boolean => boolean_type(),
        DataType::Utf8 => utf8_type(),
        DataType::ListUInt64 => list_type(new_field("item", uint64_type(), true)),
        DataType::LargeListInt16 => large_list_type(new_field("item", int16_type(), true)),
        DataType::DictionaryInt16Utf8 => dictionary_type(int16_type(), utf8_type()),
        DataType::TimestampMillisUtc => timestamp_millisecond_type("UTC"),
        DataType::MapUtf8Utf8 => map_type(entries_field(), false),
    }
}

/// The two fields of an entry of a map: a key that is never null, and a
/// value.
fn entry_fields() -> (fields: Vec<ArrowField>)
    ensures
        made_fields(fields@) == entry_fields_made(),
{
    let mut fields: Vec<ArrowField> = Vec::new();
    fields.push(new_field("keys", utf8_type(), false));
    fields.push(new_field("values", utf8_type(), true));
    assert(made_fields(fields@) =~= entry_fields_made());
    fields
}

/// The field that holds the entries of a map.
fn entries_field() -> (field: ArrowField)
    ensures
        made_field(&field) == entries_field_made(),
{
    new_field("entries", struct_type(entry_fields()), false)
}

/// The field of the codec for a column. An identifier column is tagged as
/// the extension type `minknow.uuid`.
fn arrow_field(field: &Field) -> (converted: ArrowField)
    ensures
        made_field(&converted) == field_made(*field),
{
    let converted = new_field(field.name, arrow_type(field.data_type), field.nullable);
    match field.data_type {
        DataType::Uuid => {
            let mut metadata: Vec<(String, String)> = Vec::new();
            metadata.push(("ARROW:extension:name".to_owned(), "minknow.uuid".to_owned()));
            metadata.push(("ARROW:extension:metadata".to_owned(), String::new()));
            proof {
                reveal_strlit("ARROW:extension:name");
                reveal_strlit("ARROW:extension:metadata");
                assert(metadata.deep_view() =~= extension_metadata());
                assert("ARROW:extension:name"@[16] != "ARROW:extension:metadata"@[16]);
            }
            with_metadata(converted, &metadata)
        },
        _ => converted,
    }
}

/// The schema of the codec for the schema of a table.
fn arrow_schema(schema: &Schema) -> (converted: ArrowSchema)
    requires
        distinct_keys(schema.metadata.deep_view()),
    ensures
        made_schema(&converted) == schema_made(schema.fields@, schema.metadata.deep_view()),
{
    let mut fields: Vec<ArrowField> = Vec::new();
    let mut i: usize = 0;
    while i < schema.fields.len()
        invariant
            i <= schema.fields@.len(),
            fields@.len() == i,
            forall|k: int| 0 <= k < i ==> made_field(&fields@[k]) == field_made(schema.fields@[k]),
        decreases schema.fields@.len() - i,
    {
        fields.push(arrow_field(&schema.fields[i]));
        i += 1;
    }
    assert(made_fields(fields@) =~= Seq::new(
        schema.fields@.len(),
        |i: int| field_made(schema.fields@[i]),
    ));
    new_schema(fields, &schema.metadata)
}

/// Whether a column value is within what an array of the codec holds: a
/// text of up to 2^31 - 1 bytes, a list of up to 2^31 - 1 numbers, a large
/// list of up to 2^63 - 1 numbers, a map of up to 2^31 - 1 entries whose
/// keys and whose values take up to 2^31 - 1 bytes each.
pub open spec fn column_fits(column: ColumnView) -> bool {
    match column {
        ColumnView::Utf8(text) => encode_utf8(text).len() <= MAX_OFFSET,
        ColumnView::ListUInt64(values) => values.len() <= MAX_OFFSET,
        ColumnView::LargeListInt16(values) => values.len() <= i64::MAX,
        ColumnView::MapUtf8Utf8(entries) => {
            &&& entries.len() <= MAX_OFFSET
            &&& utf8_bytes(Seq::new(entries.len(), |i: int| entries[i].0)) <= MAX_OFFSET
            &&& utf8_bytes(Seq::new(entries.len(), |i: int| entries[i].1)) <= MAX_OFFSET
        },
        _ => true,
    }
}

/// Whether a table is within what the codec holds: its dictionary takes up
/// to 2^31 - 1 bytes, and every column value of every row fits.
pub open spec fn table_fits(dictionary: Seq<Seq<char>>, batches: Seq<Seq<ColumnView>>) -> bool {
    &&& utf8_bytes(dictionary) <= MAX_OFFSET
    &&& forall|i: int, j: int|
        0 <= i < batches.len() && 0 <= j < batches[i].len() ==> column_fits(#[trigger] batches[i][j])
}

/// The bytes of a list of texts never get fewer with one text more.
proof fn lemma_utf8_bytes_grow(values: Seq<Seq<char>>, k: int)
    requires
        0 <= k <= values.len(),
    ensures
        0 <= utf8_bytes(values.take(k)) <= utf8_bytes(values),
    decreases values.len() - k,
{
    if k < values.len() {
        lemma_utf8_bytes_grow(values, k + 1);
        lemma_utf8_bytes_nonnegative(values.take(k));
        assert(values.take(k + 1).drop_last() =~= values.take(k));
        assert(utf8_bytes(values.take(k + 1)) == utf8_bytes(values.take(k)) + encode_utf8(
            values.take(k + 1).last(),
        ).len());
    } else {
        assert(values.take(k) =~= values);
        lemma_utf8_bytes_nonnegative(values);
    }
}

proof fn lemma_utf8_bytes_nonnegative(values: Seq<Seq<char>>)
    ensures
        0 <= utf8_bytes(values),
    decreases values.len(),
{
    if values.len() > 0 {
        lemma_utf8_bytes_nonnegative(values.drop_last());
    }
}

/// Whether the texts take up to 2^31 - 1 bytes in all.
fn texts_fit(values: &Vec<String>) -> (fits: bool)
    ensures
        fits == (utf8_bytes(values.deep_view()) <= MAX_OFFSET),
{
    let ghost all = values.deep_view();
    let mut total: usize = 0;
    let mut i: usize = 0;
    assert(all.take(0) =~= Seq::<Seq<char>>::empty());
    while i < values.len()
        invariant
            i <= values@.len(),
            all == values.deep_view(),
            total == utf8_bytes(all.take(i as int)),
            total <= MAX_OFFSET,
        decreases values@.len() - i,
    {
        let size: usize = values[i].as_str().as_bytes().len();
        proof {
            assert(all.take(i + 1).drop_last() =~= all.take(i as int));
            assert(all.take(i + 1).last() == values@[i as int]@);
            lemma_utf8_bytes_grow(all, i + 1);
        }
        if size > MAX_OFFSET - total {
            return false;
        }
        total = total + size;
        i += 1;
    }
    assert(all.take(values@.len() as int) =~= all);
    true
}

/// A list with one item.
fn single<T>(value: T) -> (values: Vec<T>)
    ensures
        values@ == seq![value],
{
    let mut values: Vec<T> = Vec::new();
    values.push(value);
    values
}

/// Copies a list of numbers.
fn copy_u64(values: &Vec<u64>) -> (copy: Vec<u64>)
    ensures
        copy@ == values@,
{
    let mut copy: Vec<u64> = Vec::new();
    let mut i: usize = 0;
    while i < values.len()
        invariant
            i <= values@.len(),
            copy@ == values@.take(i as int),
        decreases values@.len() - i,
    {
        copy.push(values[i]);
        i += 1;
        assert(copy@ =~= values@.take(i as int));
    }
    assert(values@.take(values@.len() as int) =~= values@);
    copy
}

/// Copies a list of samples.
fn copy_i16(values: &Vec<i16>) -> (copy: Vec<i16>)
    ensures
        copy@ == values@,
{
    let mut copy: Vec<i16> = Vec::new();
    let mut i: usize = 0;
    while i < values.len()
        invariant
            i <= values@.len(),
            copy@ == values@.take(i as int),
        decreases values@.len() - i,
    {
        copy.push(values[i]);
        i += 1;
        assert(copy@ =~= values@.take(i as int));
    }
    assert(values@.take(values@.len() as int) =~= values@);
    copy
}

/// The keys and the values of the entries of a map, each as a list.
fn split_entries(entries: &Vec<(String, String)>) -> (parts: (Vec<String>, Vec<String>))
    ensures
        parts.0.deep_view() == Seq::new(
            entries.deep_view().len(),
            |i: int| entries.deep_view()[i].0,
        ),
        parts.1.deep_view() == Seq::new(
            entries.deep_view().len(),
            |i: int| entries.deep_view()[i].1,
        ),
{
    let mut keys: Vec<String> = Vec::new();
    let mut values: Vec<String> = Vec::new();
    let mut i: usize = 0;
    while i < entries.len()
        invariant
            i <= entries@.len(),
            keys@.len() == i,
            values@.len() == i,
            forall|k: int| 0 <= k < i ==> keys@[k]@ == entries@[k].0@,
            forall|k: int| 0 <= k < i ==> values@[k]@ == entries@[k].1@,
        decreases entries@.len() - i,
    {
        keys.push(entries[i].0.clone());
        values.push(entries[i].1.clone());
        i += 1;
    }
    assert(keys.deep_view() =~= Seq::new(
        entries.deep_view().len(),
        |i: int| entries.deep_view()[i].0,
    ));
    assert(values.deep_view() =~= Seq::new(
        entries.deep_view().len(),
        |i: int| entries.deep_view()[i].1,
    ));
    (keys, values)
}

/// Whether a column value is within what an array of the codec holds.
fn column_within(column: &Column) -> (fits: bool)
    ensures
        fits == column_fits(column@),
{
    match column {
        Column::Utf8(text) => text.as_str().as_bytes().len() <= MAX_OFFSET,
        Column::ListUInt64(values) => values.len() <= MAX_OFFSET,
        Column::LargeListInt16(values) => values.len() as u64 <= 0x7fff_ffff_ffff_ffff,
        Column::MapUtf8Utf8(entries) => {
            let (keys, values) = split_entries(entries);
            entries.len() <= MAX_OFFSET && texts_fit(&keys) && texts_fit(&values)
        },
        _ => true,
    }
}

/// Whether every column value of every row is within what the codec holds.
fn rows_within(batches: &Vec<RecordBatch>) -> (fits: bool)
    ensures
        fits == (forall|i: int, j: int|
            0 <= i < batches@.len() && 0 <= j < batches@[i]@.len() ==> column_fits(
                #[trigger] batches@[i]@[j],
            )),
{
    let mut i: usize = 0;
    while i < batches.len()
        invariant
            i <= batches@.len(),
            forall|k: int, j: int|
                0 <= k < i && 0 <= j < batches@[k]@.len() ==> column_fits(
                    #[trigger] batches@[k]@[j],
                ),
        decreases batches@.len() - i,
    {
        let batch = &batches[i];
        let mut j: usize = 0;
        while j < batch.columns.len()
            invariant
                i < batches@.len(),
                *batch == batches@[i as int],
                j <= batch.columns@.len(),
                batch@.len() == batch.columns@.len(),
                forall|k: int| 0 <= k < j ==> column_fits(#[trigger] batch@[k]),
            decreases batch.columns@.len() - j,
        {
            assert(batch@[j as int] == batch.columns@[j as int]@);
            if !column_within(&batch.columns[j]) {
                return false;
            }
            j += 1;
        }
        i += 1;
    }
    true
}

fn refused<T>(result: Result<T, ArrowError>) -> (mapped: Result<T, Pod5Error>)
    ensures
        match result {
            Ok(value) => mapped == Ok::<T, Pod5Error>(value),
            Err(_) => mapped == Err::<T, Pod5Error>(Pod5Error::Codec),
        },
{
    match result {
        Ok(value) => Ok(value),
        Err(_) => Err(Pod5Error::Codec),
    }
}

/// The array of the codec for one column value. A categorical column gets
/// its index, and the given dictionary as its values.
fn arrow_column(column: &Column, dictionary: &ArrowColumn) -> (result: Result<
    ArrowColumn,
    Pod5Error,
>)
    requires
        column_fits(column@),
    ensures
        result is Ok <==> column_accepted(column@, made_column(dictionary)),
        result matches Ok(converted) ==> made_column(&converted) == column_made(
            column@,
            made_column(dictionary),
        ),
        result matches Err(e) ==> e == Pod5Error::Codec,
{
    match column {
        Column::Uuid(id) => {
            let values = single(*id);
            assert(identifiers(values@) =~= seq![id@]);
            refused(fixed_size_binary_column(&values))
        },
        Column::UInt8(v) => {
            assert(numbers_u8(seq![*v]) =~= seq![*v as int]);
            Ok(uint8_column(single(*v)))
        },
        Column::UInt16(v) => {
            assert(numbers_u16(seq![*v]) =~= seq![*v as int]);
            Ok(uint16_column(single(*v)))
        },
        Column::UInt32(v) => {
            assert(numbers_u32(seq![*v]) =~= seq![*v as int]);
            Ok(uint32_column(single(*v)))
        },
        Column::UInt64(v) => {
            assert(numbers_u64(seq![*v]) =~= seq![*v as int]);
            Ok(uint64_column(single(*v)))
        },
        Column::Int16(v) => {
            assert(numbers_i16(seq![*v]) =~= seq![*v as int]);
            Ok(int16_column(single(*v)))
        },
        Column::Float32(bits) => {
            assert(numbers_u32(seq![*bits]) =~= seq![*bits as int]);
            Ok(float32_column(single(*bits)))
        },
        Column::Boolean(v) => Ok(boolean_column(single(*v))),
        Column::Utf8(text) => {
            let texts = single(text.clone());
            proof {
                let all = texts.deep_view();
                assert(all =~= seq![text@]);
                assert(all.drop_last() =~= Seq::<Seq<char>>::empty());
                assert(utf8_bytes(all.drop_last()) == 0);
                assert(utf8_bytes(all) == encode_utf8(text@).len());
            }
            Ok(utf8_column(&texts))
        },
        Column::ListUInt64(values) => {
            let count = values.len();
            let numbers = uint64_column(copy_u64(values));
            refused(list_column(new_field("item", uint64_type(), true), numbers, count))
        },
        Column::LargeListInt16(values) => {
            let count = values.len();
            let numbers = int16_column(copy_i16(values));
            refused(large_list_column(new_field("item", int16_type(), true), numbers, count))
        },
        Column::DictionaryInt16Utf8(key) => {
            assert(numbers_i16(seq![*key]) =~= seq![*key as int]);
            refused(dictionary_column(single(*key), dictionary))
        },
        Column::TimestampMillisUtc(v) => {
            assert(numbers_i64(seq![*v]) =~= seq![*v as int]);
            Ok(timestamp_millisecond_column(single(*v), "UTC"))
        },
        Column::MapUtf8Utf8(entries) => {
            let count = entries.len();
            let (keys, values) = split_entries(entries);
            refused(
                map_column(
                    entries_field(),
                    entry_fields(),
                    utf8_column(&keys),
                    utf8_column(&values),
                    count,
                ),
            )
        },
    }
}

/// The record batch of the codec for one row.
fn arrow_row(schema: &ArrowSchema, batch: &RecordBatch, dictionary: &ArrowColumn) -> (result:
    Result<ArrowRow, Pod5Error>)
    requires
        forall|j: int| 0 <= j < batch@.len() ==> column_fits(#[trigger] batch@[j]),
    ensures
        result is Ok <==> row_accepted(made_schema(schema), batch@, made_column(dictionary)),
        result matches Ok(row) ==> made_row(&row) == row_made(
            made_schema(schema),
            batch@,
            made_column(dictionary),
        ),
        result matches Err(e) ==> e == Pod5Error::Codec,
{
    let mut columns: Vec<ArrowColumn> = Vec::new();
    let mut j: usize = 0;
    while j < batch.columns.len()
        invariant
            j <= batch.columns@.len(),
            batch@.len() == batch.columns@.len(),
            columns@.len() == j,
            forall|k: int| 0 <= k < batch@.len() ==> column_fits(#[trigger] batch@[k]),
            forall|k: int|
                0 <= k < j ==> column_accepted(#[trigger] batch@[k], made_column(dictionary)),
            forall|k: int|
                0 <= k < j ==> made_column(&columns@[k]) == column_made(
                    batch@[k],
                    made_column(dictionary),
                ),
        decreases batch.columns@.len() - j,
    {
        assert(batch@[j as int] == batch.columns@[j as int]@);
        match arrow_column(&batch.columns[j], dictionary) {
            Ok(column) => {
                columns.push(column);
            },
            Err(e) => {
                return Err(e);
            },
        }
        j += 1;
    }
    assert(made_columns(columns@) =~= Seq::new(
        batch@.len(),
        |j: int| column_made(batch@[j], made_column(dictionary)),
    ));
    refused(record_batch(schema, columns))
}

/// Whether a table is encoded: the keys of the schema's metadata differ,
/// every value is within what the codec holds, and the codec accepts the
/// table.
pub open spec fn table_encodes(
    fields: Seq<Field>,
    metadata: Seq<(Seq<char>, Seq<char>)>,
    dictionary: Seq<Seq<char>>,
    rows: Seq<Seq<ColumnView>>,
) -> bool {
    &&& distinct_keys(metadata)
    &&& table_fits(dictionary, rows)
    &&& table_accepted(fields, metadata, dictionary, rows)
}

/// Encodes the rows of a table as the bytes of one Arrow IPC file. The
/// categorical columns of the rows index the given dictionary. The bytes
/// are what the codec makes of the table: `table_bytes`.
///
/// Fails where a key stands twice in the metadata of the schema
/// (`DuplicateKey`); else where a value is beyond what the codec holds
/// (`TooLarge`); else where the codec refuses the table (`Codec`): rows that
/// are not rows of the schema, and categorical indices without a value in
/// the dictionary, are refused.
pub fn encode_table(schema: &Schema, dictionary: &Vec<String>, batches: &Vec<RecordBatch>) -> (result:
    Result<Vec<u8>, Pod5Error>)
    ensures
        result is Ok <==> table_encodes(
            schema.fields@,
            schema.metadata.deep_view(),
            dictionary.deep_view(),
            crate::signal::batches_view(batches@),
        ),
        result matches Ok(bytes) ==> bytes@ == table_bytes(
            schema.fields@,
            schema.metadata.deep_view(),
            dictionary.deep_view(),
            crate::signal::batches_view(batches@),
        ),
        result == Err::<Vec<u8>, Pod5Error>(Pod5Error::DuplicateKey) <==> !distinct_keys(
            schema.metadata.deep_view(),
        ),
        result == Err::<Vec<u8>, Pod5Error>(Pod5Error::TooLarge) <==> distinct_keys(
            schema.metadata.deep_view(),
        ) && !table_fits(dictionary.deep_view(), crate::signal::batches_view(batches@)),
        result matches Err(e) ==> e == Pod5Error::DuplicateKey || e == Pod5Error::TooLarge || e
            == Pod5Error::Codec,
{
    if !has_distinct_keys(&schema.metadata) {
        return Err(Pod5Error::DuplicateKey);
    }
    let ghost rows = crate::signal::batches_view(batches@);
    if !texts_fit(dictionary) {
        return Err(Pod5Error::TooLarge);
    }
    if !rows_within(batches) {
        proof {
            let (i, j) = choose|i: int, j: int|
                0 <= i < batches@.len() && 0 <= j < batches@[i]@.len() && !column_fits(
                    #[trigger] batches@[i]@[j],
                );
            assert(rows[i] == batches@[i]@);
            assert(!column_fits(rows[i][j]));
        }
        return Err(Pod5Error::TooLarge);
    }
    proof {
        assert forall|k: int, j: int|
            0 <= k < rows.len() && 0 <= j < rows[k].len() implies column_fits(
            #[trigger] rows[k][j],
        ) by {
            assert(rows[k] == batches@[k]@);
        }
    }
    let values = utf8_column(dictionary);
    let converted = arrow_schema(schema);
    let ghost opened = schema_made(schema.fields@, schema.metadata.deep_view());
    let ghost texts = texts_made(dictionary.deep_view());
    let mut writer = match refused(file_writer(&converted)) {
        Ok(writer) => writer,
        Err(e) => {
            return Err(e);
        },
    };
    let mut i: usize = 0;
    while i < batches.len()
        invariant
            i <= batches@.len(),
            rows == crate::signal::batches_view(batches@),
            rows.len() == batches@.len(),
            opened == made_schema(&converted),
            opened == schema_made(schema.fields@, schema.metadata.deep_view()),
            texts == made_column(&values),
            texts == texts_made(dictionary.deep_view()),
            distinct_keys(schema.metadata.deep_view()),
            utf8_bytes(dictionary.deep_view()) <= MAX_OFFSET,
            codec_accepts(writer_made(opened, rows, texts, 0)),
            made_writer(&writer) == writer_made(opened, rows, texts, i as int),
            forall|k: int|
                0 <= k < i ==> row_accepted(opened, #[trigger] rows[k], texts) && codec_accepts(
                    writer_made(opened, rows, texts, k + 1),
                ),
            forall|k: int, j: int|
                0 <= k < rows.len() && 0 <= j < rows[k].len() ==> column_fits(
                    #[trigger] rows[k][j],
                ),
        decreases batches@.len() - i,
    {
        assert(rows[i as int] == batches@[i as int]@);
        let row = match arrow_row(&converted, &batches[i], &values) {
            Ok(row) => row,
            Err(e) => {
                assert(!row_accepted(opened, rows[i as int], texts));
                return Err(e);
            },
        };
        match refused(write(&mut writer, &row)) {
            Ok(()) => {},
            Err(e) => {
                assert(!codec_accepts(writer_made(opened, rows, texts, i + 1)));
                assert(row_accepted(opened, rows[i as int], texts));
                return Err(e);
            },
        }
        i += 1;
    }
    match refused(finish(&mut writer)) {
        Ok(()) => {},
        Err(e) => {
            return Err(e);
        },
    }
    refused(into_inner(writer))
}

} // verus!
