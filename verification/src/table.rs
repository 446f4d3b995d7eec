//! The rows of a table as plain values: what the columnar codec is handed.
//!
//! A schema lists the columns of a table, a record batch holds one row, one
//! value per column. A batch is only ever built against a schema, and only if
//! its columns have the schema's types in the schema's order.

use vstd::prelude::*;
use crate::error::Pod5Error;

verus! {

/// The type of a column.
#[derive(Clone, Copy, PartialEq, Eq, Structural, Debug)]
pub enum DataType {
    /// A 128-bit identifier: sixteen bytes of fixed-size binary.
    Uuid,
    UInt8,
    UInt16,
    UInt32,
    UInt64,
    Int16,
    /// A single-precision number, carried as its 32 bits.
    Float32,
    Boolean,
    Utf8,
    /// A list of unsigned 64-bit integers.
    ListUInt64,
    /// A large list of signed 16-bit integers.
    LargeListInt16,
    /// A text given as a signed 16-bit index into the table's dictionary.
    DictionaryInt16Utf8,
    /// Milliseconds since the epoch, in UTC.
    TimestampMillisUtc,
    /// Pairs of a text key and a text value.
    MapUtf8Utf8,
}

/// One column of a schema.
#[derive(Clone, Copy, Debug)]
pub struct Field {
    pub name: &'static str,
    pub data_type: DataType,
    pub nullable: bool,
}

/// The columns of a table, and the key-value pairs that stamp the table with
/// the file it belongs to.
#[derive(Debug)]
pub struct Schema {
    pub fields: Vec<Field>,
    pub metadata: Vec<(String, String)>,
}

impl Schema {
    /// The types of the columns, in order.
    pub open spec fn column_types(&self) -> Seq<DataType> {
        Seq::new(self.fields@.len(), |i: int| self.fields@[i].data_type)
    }

    /// The names of the columns, in order.
    pub open spec fn column_names(&self) -> Seq<Seq<char>> {
        Seq::new(self.fields@.len(), |i: int| self.fields@[i].name@)
    }

    /// Whether the columns have the given types, in the same order.
    pub fn has_column_types(&self, types: &[DataType]) -> (same: bool)
        ensures
            same == (self.column_types() == types@),
    {
        let n = types.len();
        if self.fields.len() != n {
            assert(self.column_types().len() != types@.len());
            return false;
        }
        let mut i: usize = 0;
        while i < n
            invariant
                i <= n,
                n == types@.len(),
                n == self.fields@.len(),
                forall|k: int| 0 <= k < i ==> self.fields@[k].data_type == types@[k],
            decreases n - i,
        {
            if self.fields[i].data_type != types[i] {
                assert(self.column_types()[i as int] != types@[i as int]);
                return false;
            }
            i += 1;
        }
        assert(self.column_types() =~= types@);
        true
    }
}

/// The value of one column in one row.
#[derive(Debug)]
pub enum Column {
    Uuid([u8; 16]),
    UInt8(u8),
    UInt16(u16),
    UInt32(u32),
    UInt64(u64),
    Int16(i16),
    Float32(u32),
    Boolean(bool),
    Utf8(String),
    ListUInt64(Vec<u64>),
    LargeListInt16(Vec<i16>),
    DictionaryInt16Utf8(i16),
    TimestampMillisUtc(i64),
    MapUtf8Utf8(Vec<(String, String)>),
}

/// A column value as a mathematical value.
pub enum ColumnView {
    Uuid(Seq<u8>),
    UInt8(u8),
    UInt16(u16),
    UInt32(u32),
    UInt64(u64),
    Int16(i16),
    Float32(u32),
    Boolean(bool),
    Utf8(Seq<char>),
    ListUInt64(Seq<u64>),
    LargeListInt16(Seq<i16>),
    DictionaryInt16Utf8(i16),
    TimestampMillisUtc(i64),
    MapUtf8Utf8(Seq<(Seq<char>, Seq<char>)>),
}

impl ColumnView {
    pub open spec fn data_type(self) -> DataType {
        match self {
            ColumnView::Uuid(_) => DataType::Uuid,
            ColumnView::UInt8(_) => DataType::UInt8,
            ColumnView::UInt16(_) => DataType::UInt16,
            ColumnView::UInt32(_) => DataType::UInt32,
            ColumnView::UInt64(_) => DataType::UInt64,
            ColumnView::Int16(_) => DataType::Int16,
            ColumnView::Float32(_) => DataType::Float32,
            ColumnView::Boolean(_) => DataType::Boolean,
            ColumnView::Utf8(_) => DataType::Utf8,
            ColumnView::ListUInt64(_) => DataType::ListUInt64,
            ColumnView::LargeListInt16(_) => DataType::LargeListInt16,
            ColumnView::DictionaryInt16Utf8(_) => DataType::DictionaryInt16Utf8,
            ColumnView::TimestampMillisUtc(_) => DataType::TimestampMillisUtc,
            ColumnView::MapUtf8Utf8(_) => DataType::MapUtf8Utf8,
        }
    }
}

impl View for Column {
    type V = ColumnView;

    open spec fn view(&self) -> ColumnView {
        match self {
            Column::Uuid(v) => ColumnView::Uuid(v@),
            Column::UInt8(v) => ColumnView::UInt8(*v),
            Column::UInt16(v) => ColumnView::UInt16(*v),
            Column::UInt32(v) => ColumnView::UInt32(*v),
            Column::UInt64(v) => ColumnView::UInt64(*v),
            Column::Int16(v) => ColumnView::Int16(*v),
            Column::Float32(v) => ColumnView::Float32(*v),
            Column::Boolean(v) => ColumnView::Boolean(*v),
            Column::Utf8(v) => ColumnView::Utf8(v@),
            Column::ListUInt64(v) => ColumnView::ListUInt64(v@),
            Column::LargeListInt16(v) => ColumnView::LargeListInt16(v@),
            Column::DictionaryInt16Utf8(v) => ColumnView::DictionaryInt16Utf8(*v),
            Column::TimestampMillisUtc(v) => ColumnView::TimestampMillisUtc(*v),
            Column::MapUtf8Utf8(v) => ColumnView::MapUtf8Utf8(v.deep_view()),
        }
    }
}

impl Column {
    /// The type of column that this value belongs in.
    pub fn data_type(&self) -> (data_type: DataType)
        ensures
            data_type == self@.data_type(),
    {
        match self {
            Column::Uuid(_) => DataType::Uuid,
            Column::UInt8(_) => DataType::UInt8,
            Column::UInt16(_) => DataType::UInt16,
            Column::UInt32(_) => DataType::UInt32,
            Column::UInt64(_) => DataType::UInt64,
            Column::Int16(_) => DataType::Int16,
            Column::Float32(_) => DataType::Float32,
            Column::Boolean(_) => DataType::Boolean,
            Column::Utf8(_) => DataType::Utf8,
            Column::ListUInt64(_) => DataType::ListUInt64,
            Column::LargeListInt16(_) => DataType::LargeListInt16,
            Column::DictionaryInt16Utf8(_) => DataType::DictionaryInt16Utf8,
            Column::TimestampMillisUtc(_) => DataType::TimestampMillisUtc,
            Column::MapUtf8Utf8(_) => DataType::MapUtf8Utf8,
        }
    }
}

/// The views of a list of column values.
pub open spec fn columns_view(columns: Seq<Column>) -> Seq<ColumnView> {
    Seq::new(columns.len(), |i: int| columns[i]@)
}

/// The types of a list of column values.
pub open spec fn types_of(columns: Seq<ColumnView>) -> Seq<DataType> {
    Seq::new(columns.len(), |i: int| columns[i].data_type())
}

/// One row of a table.
#[derive(Debug)]
pub struct RecordBatch {
    pub columns: Vec<Column>,
}

impl View for RecordBatch {
    type V = Seq<ColumnView>;

    open spec fn view(&self) -> Seq<ColumnView> {
        columns_view(self.columns@)
    }
}

impl RecordBatch {
    /// Makes a row of the given columns, if they are the columns of the
    /// schema: as many, and of the same types in the same order.
    pub fn try_new(schema: &Schema, columns: Vec<Column>) -> (result: Result<
        RecordBatch,
        Pod5Error,
    >)
        ensures
            result is Ok <==> types_of(columns_view(columns@)) == schema.column_types(),
            result matches Ok(batch) ==> batch.columns == columns,
            result matches Err(e) ==> e == Pod5Error::SchemaMismatch,
    {
        let n = columns.len();
        if schema.fields.len() != n {
            assert(types_of(columns_view(columns@)).len() != schema.column_types().len());
            return Err(Pod5Error::SchemaMismatch);
        }
        let mut i: usize = 0;
        while i < n
            invariant
                i <= n,
                n == columns@.len(),
                n == schema.fields@.len(),
                forall|k: int|
                    0 <= k < i ==> columns@[k]@.data_type() == schema.fields@[k].data_type,
            decreases n - i,
        {
            if columns[i].data_type() != schema.fields[i].data_type {
                assert(types_of(columns_view(columns@))[i as int]
                    != schema.column_types()[i as int]);
                return Err(Pod5Error::SchemaMismatch);
            }
            i += 1;
        }
        assert(types_of(columns_view(columns@)) =~= schema.column_types());
        Ok(RecordBatch { columns })
    }
}

} // verus!
