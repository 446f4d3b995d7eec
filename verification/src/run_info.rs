//! The run-info table: what is known of the acquisition, the protocol and
//! the system that produced the reads.

use vstd::prelude::*;
use crate::error::Pod5Error;
use crate::signal::{batches_view, stamp, table_metadata};
use crate::table::{columns_view, types_of, Column, ColumnView, DataType, Field, RecordBatch, Schema};

verus! {

/// The metadata of one run. The two tag maps are lists of pairs of a key and
/// a value, in the order in which they are to be written; in a map that is
/// well formed no key stands twice.
#[derive(Debug)]
pub struct RunInfoData {
    pub acquisition_id: String,
    /// Milliseconds since the epoch.
    pub acquisition_start_time: i64,
    pub adc_max: i16,
    pub adc_min: i16,
    pub context_tags: Vec<(String, String)>,
    pub experiment_name: String,
    pub flow_cell_id: String,
    pub flow_cell_product_code: String,
    pub protocol_name: String,
    pub protocol_run_id: String,
    /// Milliseconds since the epoch.
    pub protocol_start_time: i64,
    pub sample_id: String,
    pub sample_rate: u16,
    pub sequencing_kit: String,
    pub sequencer_position: String,
    pub sequencer_position_type: String,
    pub software: String,
    pub system_name: String,
    pub system_type: String,
    pub tracking_id: Vec<(String, String)>,
}

/// Whether no key stands twice in a tag map.
pub open spec fn distinct_keys(tags: Seq<(Seq<char>, Seq<char>)>) -> bool {
    forall|i: int, j: int| 0 <= i < j < tags.len() ==> tags[i].0 != tags[j].0
}

impl RunInfoData {
    /// Whether both tag maps are maps: no key stands twice in either.
    pub open spec fn well_formed(&self) -> bool {
        distinct_keys(self.context_tags.deep_view()) && distinct_keys(self.tracking_id.deep_view())
    }

    /// Tests whether both tag maps are maps.
    pub fn is_well_formed(&self) -> (ok: bool)
        ensures
            ok == self.well_formed(),
    {
        has_distinct_keys(&self.context_tags) && has_distinct_keys(&self.tracking_id)
    }
}

/// Tests whether no key stands twice in a tag map.
pub fn has_distinct_keys(tags: &Vec<(String, String)>) -> (ok: bool)
    ensures
        ok == distinct_keys(tags.deep_view()),
{
    let n = tags.len();
    let mut j: usize = 0;
    while j < n
        invariant
            j <= n,
            n == tags@.len(),
            forall|a: int, b: int| 0 <= a < b < j ==> tags@[a].0@ != tags@[b].0@,
        decreases n - j,
    {
        let mut i: usize = 0;
        while i < j
            invariant
                i <= j < n,
                n == tags@.len(),
                forall|a: int| 0 <= a < i ==> tags@[a].0@ != tags@[j as int].0@,
            decreases j - i,
        {
            if tags[i].0 == tags[j].0 {
                assert(tags.deep_view()[i as int].0 == tags.deep_view()[j as int].0);
                return false;
            }
            i += 1;
        }
        j += 1;
    }
    assert forall|a: int, b: int| 0 <= a < b < tags.deep_view().len() implies tags.deep_view()[a].0
        != tags.deep_view()[b].0 by {
        assert(tags.deep_view()[a].0 == tags@[a].0@);
        assert(tags.deep_view()[b].0 == tags@[b].0@);
    }
    true
}

/// Copies a tag map into the value of a map column, pair by pair.
fn tags_column(tags: &Vec<(String, String)>) -> (column: Column)
    ensures
        column@ == ColumnView::MapUtf8Utf8(tags.deep_view()),
{
    let mut copy: Vec<(String, String)> = Vec::new();
    let mut i: usize = 0;
    while i < tags.len()
        invariant
            i <= tags@.len(),
            copy@.len() == i,
            forall|k: int| 0 <= k < i ==> copy@[k].0@ == tags@[k].0@ && copy@[k].1@ == tags@[k].1@,
        decreases tags@.len() - i,
    {
        copy.push((tags[i].0.clone(), tags[i].1.clone()));
        i += 1;
    }
    assert(copy.deep_view() =~= tags.deep_view());
    Column::MapUtf8Utf8(copy)
}

/// The row of the run-info table for one run.
pub open spec fn run_info_row(info: RunInfoData) -> Seq<ColumnView> {
    seq![
        ColumnView::Utf8(info.acquisition_id@),
        ColumnView::TimestampMillisUtc(info.acquisition_start_time),
        ColumnView::Int16(info.adc_max),
        ColumnView::Int16(info.adc_min),
        ColumnView::MapUtf8Utf8(info.context_tags.deep_view()),
        ColumnView::Utf8(info.experiment_name@),
        ColumnView::Utf8(info.flow_cell_id@),
        ColumnView::Utf8(info.flow_cell_product_code@),
        ColumnView::Utf8(info.protocol_name@),
        ColumnView::Utf8(info.protocol_run_id@),
        ColumnView::TimestampMillisUtc(info.protocol_start_time),
        ColumnView::Utf8(info.sample_id@),
        ColumnView::UInt16(info.sample_rate),
        ColumnView::Utf8(info.sequencing_kit@),
        ColumnView::Utf8(info.sequencer_position@),
        ColumnView::Utf8(info.sequencer_position_type@),
        ColumnView::Utf8(info.software@),
        ColumnView::Utf8(info.system_name@),
        ColumnView::Utf8(info.system_type@),
        ColumnView::MapUtf8Utf8(info.tracking_id.deep_view()),
    ]
}

/// The rows of the run-info table for a list of runs.
pub open spec fn run_info_rows(run_infos: Seq<RunInfoData>) -> Seq<Seq<ColumnView>> {
    Seq::new(run_infos.len(), |i: int| run_info_row(run_infos[i]))
}

/// The names of the run-info table's columns.
pub open spec fn run_info_column_names() -> Seq<Seq<char>> {
    seq![
        "acquisition_id"@,
        "acquisition_start_time"@,
        "adc_max"@,
        "adc_min"@,
        "context_tags"@,
        "experiment_name"@,
        "flow_cell_id"@,
        "flow_cell_product_code"@,
        "protocol_name"@,
        "protocol_run_id"@,
        "protocol_start_time"@,
        "sample_id"@,
        "sample_rate"@,
        "sequencing_kit"@,
        "sequencer_position"@,
        "sequencer_position_type"@,
        "software"@,
        "system_name"@,
        "system_type"@,
        "tracking_id"@,
    ]
}

/// The types of the run-info table's columns.
pub open spec fn run_info_column_types() -> Seq<DataType> {
    seq![
        DataType::Utf8,
        DataType::TimestampMillisUtc,
        DataType::Int16,
        DataType::Int16,
        DataType::MapUtf8Utf8,
        DataType::Utf8,
        DataType::Utf8,
        DataType::Utf8,
        DataType::Utf8,
        DataType::Utf8,
        DataType::TimestampMillisUtc,
        DataType::Utf8,
        DataType::UInt16,
        DataType::Utf8,
        DataType::Utf8,
        DataType::Utf8,
        DataType::Utf8,
        DataType::Utf8,
        DataType::Utf8,
        DataType::MapUtf8Utf8,
    ]
}

/// A row built by `run_info_row` has the types of the run-info table.
proof fn lemma_run_info_row_types(info: RunInfoData)
    ensures
        types_of(run_info_row(info)) == run_info_column_types(),
{
    assert(types_of(run_info_row(info)) =~= run_info_column_types());
}

/// Builds the rows of the run-info table, one for each run.
///
/// Fails where there is a run and the schema is not that of the run-info
/// table.
pub fn create_run_info_batch(schema: &Schema, run_infos: &Vec<RunInfoData>) -> (result: Result<
    Vec<RecordBatch>,
    Pod5Error,
>)
    ensures
        result is Ok <==> run_infos@.len() == 0 || schema.column_types()
            == run_info_column_types(),
        result matches Ok(batches) ==> batches_view(batches@) == run_info_rows(run_infos@),
        result matches Err(e) ==> e == Pod5Error::SchemaMismatch,
{
    let mut batches: Vec<RecordBatch> = Vec::new();
    let n = run_infos.len();
    let mut i: usize = 0;
    while i < n
        invariant
            i <= n,
            n == run_infos@.len(),
            batches@.len() == i,
            forall|k: int| 0 <= k < i ==> #[trigger] batches@[k]@ == run_info_row(run_infos@[k]),
            i > 0 ==> schema.column_types() == run_info_column_types(),
        decreases n - i,
    {
        let run_info = &run_infos[i];
        let mut columns: Vec<Column> = Vec::new();
        columns.push(Column::Utf8(run_info.acquisition_id.clone()));
        columns.push(Column::TimestampMillisUtc(run_info.acquisition_start_time));
        columns.push(Column::Int16(run_info.adc_max));
        columns.push(Column::Int16(run_info.adc_min));
        columns.push(tags_column(&run_info.context_tags));
        columns.push(Column::Utf8(run_info.experiment_name.clone()));
        columns.push(Column::Utf8(run_info.flow_cell_id.clone()));
        columns.push(Column::Utf8(run_info.flow_cell_product_code.clone()));
        columns.push(Column::Utf8(run_info.protocol_name.clone()));
        columns.push(Column::Utf8(run_info.protocol_run_id.clone()));
        columns.push(Column::TimestampMillisUtc(run_info.protocol_start_time));
        columns.push(Column::Utf8(run_info.sample_id.clone()));
        columns.push(Column::UInt16(run_info.sample_rate));
        columns.push(Column::Utf8(run_info.sequencing_kit.clone()));
        columns.push(Column::Utf8(run_info.sequencer_position.clone()));
        columns.push(Column::Utf8(run_info.sequencer_position_type.clone()));
        columns.push(Column::Utf8(run_info.software.clone()));
        columns.push(Column::Utf8(run_info.system_name.clone()));
        columns.push(Column::Utf8(run_info.system_type.clone()));
        columns.push(tags_column(&run_info.tracking_id));
        assert(columns_view(columns@) =~= run_info_row(run_infos@[i as int]));
        proof {
            lemma_run_info_row_types(run_infos@[i as int]);
        }
        match RecordBatch::try_new(schema, columns) {
            Ok(batch) => {
                batches.push(batch);
            },
            Err(e) => {
                return Err(e);
            },
        }
        i += 1;
    }
    assert(batches_view(batches@) =~= run_info_rows(run_infos@));
    Ok(batches)
}

/// The columns of the run-info table, none of them nullable.
pub open spec fn run_info_fields() -> Seq<Field> {
    seq![
        Field { name: "acquisition_id", data_type: DataType::Utf8, nullable: false },
        Field { name: "acquisition_start_time", data_type: DataType::TimestampMillisUtc, nullable: false },
        Field { name: "adc_max", data_type: DataType::Int16, nullable: false },
        Field { name: "adc_min", data_type: DataType::Int16, nullable: false },
        Field { name: "context_tags", data_type: DataType::MapUtf8Utf8, nullable: false },
        Field { name: "experiment_name", data_type: DataType::Utf8, nullable: false },
        Field { name: "flow_cell_id", data_type: DataType::Utf8, nullable: false },
        Field { name: "flow_cell_product_code", data_type: DataType::Utf8, nullable: false },
        Field { name: "protocol_name", data_type: DataType::Utf8, nullable: false },
        Field { name: "protocol_run_id", data_type: DataType::Utf8, nullable: false },
        Field { name: "protocol_start_time", data_type: DataType::TimestampMillisUtc, nullable: false },
        Field { name: "sample_id", data_type: DataType::Utf8, nullable: false },
        Field { name: "sample_rate", data_type: DataType::UInt16, nullable: false },
        Field { name: "sequencing_kit", data_type: DataType::Utf8, nullable: false },
        Field { name: "sequencer_position", data_type: DataType::Utf8, nullable: false },
        Field { name: "sequencer_position_type", data_type: DataType::Utf8, nullable: false },
        Field { name: "software", data_type: DataType::Utf8, nullable: false },
        Field { name: "system_name", data_type: DataType::Utf8, nullable: false },
        Field { name: "system_type", data_type: DataType::Utf8, nullable: false },
        Field { name: "tracking_id", data_type: DataType::MapUtf8Utf8, nullable: false },
    ]
}

/// A column of tags: a map from text to text that is never null.
fn _tags_field(name: &'static str) -> (field: Field)
    ensures
        field.name == name,
        field.data_type == DataType::MapUtf8Utf8,
        !field.nullable,
{
    Field { name, data_type: DataType::MapUtf8Utf8, nullable: false }
}

fn required(name: &'static str, data_type: DataType) -> (field: Field)
    ensures
        field.name == name,
        field.data_type == data_type,
        !field.nullable,
{
    Field { name, data_type, nullable: false }
}

/// The schema of the run-info table of the given file: 20 columns, none
/// of them nullable.
pub fn run_info_schema(file_identifier: &[u8; 16]) -> (result: Result<Schema, Pod5Error>)
    ensures
        result matches Ok(schema) && {
            &&& schema.fields@ == run_info_fields()
            &&& schema.column_names() == run_info_column_names()
            &&& schema.column_types() == run_info_column_types()
            &&& forall|i: int| 0 <= i < schema.fields@.len() ==> !schema.fields@[i].nullable
            &&& schema.metadata.deep_view() == table_metadata(file_identifier@)
        },
{
    let mut fields: Vec<Field> = Vec::new();
    fields.push(required("acquisition_id", DataType::Utf8));
    fields.push(required("acquisition_start_time", DataType::TimestampMillisUtc));
    fields.push(required("adc_max", DataType::Int16));
    fields.push(required("adc_min", DataType::Int16));
    fields.push(_tags_field("context_tags"));
    fields.push(required("experiment_name", DataType::Utf8));
    fields.push(required("flow_cell_id", DataType::Utf8));
    fields.push(required("flow_cell_product_code", DataType::Utf8));
    fields.push(required("protocol_name", DataType::Utf8));
    fields.push(required("protocol_run_id", DataType::Utf8));
    fields.push(required("protocol_start_time", DataType::TimestampMillisUtc));
    fields.push(required("sample_id", DataType::Utf8));
    fields.push(required("sample_rate", DataType::UInt16));
    fields.push(required("sequencing_kit", DataType::Utf8));
    fields.push(required("sequencer_position", DataType::Utf8));
    fields.push(required("sequencer_position_type", DataType::Utf8));
    fields.push(required("software", DataType::Utf8));
    fields.push(required("system_name", DataType::Utf8));
    fields.push(required("system_type", DataType::Utf8));
    fields.push(_tags_field("tracking_id"));
    let schema = Schema { fields, metadata: stamp(file_identifier) };
    assert(schema.fields@ =~= run_info_fields());
    assert(schema.column_names() =~= run_info_column_names());
    assert(schema.column_types() =~= run_info_column_types());
    Ok(schema)
}

fn pair(key: &str, value: &str) -> (entry: (String, String))
    ensures
        entry.0@ == key@,
        entry.1@ == value@,
{
    (key.to_owned(), value.to_owned())
}

/// A run with made-up values, for trying the writer out.
pub fn dummy_run_info() -> (info: RunInfoData)
    ensures
        info.acquisition_id@ == "value1"@,
        info.acquisition_start_time == 1625097600000,
        info.adc_max == 32767,
        info.adc_min == -32768,
        info.context_tags.deep_view() == seq![
            ("key1"@, "value1"@),
            ("key2"@, "value2"@),
        ],
        info.experiment_name@ == "Experiment 1"@,
        info.flow_cell_id@ == "FCID123"@,
        info.flow_cell_product_code@ == "PC123"@,
        info.protocol_name@ == "Protocol 1"@,
        info.protocol_run_id@ == "PRID123"@,
        info.protocol_start_time == 1625097600000,
        info.sample_id@ == "Sample 1"@,
        info.sample_rate == 5000,
        info.sequencing_kit@ == "Kit X"@,
        info.sequencer_position@ == "Position 1"@,
        info.sequencer_position_type@ == "Type A"@,
        info.software@ == "Software 1.0"@,
        info.system_name@ == "System 1"@,
        info.system_type@ == "System Type A"@,
        info.tracking_id.deep_view() == seq![("key1"@, "value1"@)],
        info.well_formed(),
{
    let mut context_tags: Vec<(String, String)> = Vec::new();
    context_tags.push(pair("key1", "value1"));
    context_tags.push(pair("key2", "value2"));
    let mut tracking_id: Vec<(String, String)> = Vec::new();
    tracking_id.push(pair("key1", "value1"));
    proof {
        reveal_strlit("key1");
        reveal_strlit("key2");
        assert("key1"@ != "key2"@) by {
            assert("key1"@[3] != "key2"@[3]);
        }
        assert(context_tags.deep_view() =~= seq![("key1"@, "value1"@), ("key2"@, "value2"@)]);
        assert(tracking_id.deep_view() =~= seq![("key1"@, "value1"@)]);
    }
    RunInfoData {
        acquisition_id: "value1".to_owned(),
        acquisition_start_time: 1625097600000,
        adc_max: 32767,
        adc_min: -32768,
        context_tags,
        experiment_name: "Experiment 1".to_owned(),
        flow_cell_id: "FCID123".to_owned(),
        flow_cell_product_code: "PC123".to_owned(),
        protocol_name: "Protocol 1".to_owned(),
        protocol_run_id: "PRID123".to_owned(),
        protocol_start_time: 1625097600000,
        sample_id: "Sample 1".to_owned(),
        sample_rate: 5000,
        sequencing_kit: "Kit X".to_owned(),
        sequencer_position: "Position 1".to_owned(),
        sequencer_position_type: "Type A".to_owned(),
        software: "Software 1.0".to_owned(),
        system_name: "System 1".to_owned(),
        system_type: "System Type A".to_owned(),
        tracking_id,
    }
}

} // verus!
