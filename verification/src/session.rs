//! The file session: the one writer of a file, from the header over the
//! tables to the footer.
//!
//! The session holds the file image and composes it in memory; storing the
//! image is left to the caller. Rows are queued with `push_run_info` and
//! `push_read`. `write_run_info_to_ipc`, `write_reads_to_ipc` and
//! `write_signal_to_ipc` each drain their buffer: they make the rows of
//! their table, have the columnar codec encode them, and write the bytes
//! into the file as a section. `write_footer` closes the file. Every call is
//! checked against the state of the session, and a call out of turn is
//! refused with `OutOfOrder`. The signal rows are numbered by a counter of
//! the session.

use vstd::prelude::*;
use crate::codec::{encode_table, table_accepted, table_bytes, table_encodes, table_fits};
use crate::dictionary::{distinct, MAX_DICTIONARY};
use crate::error::Pod5Error;
use crate::footer::{
    file_info_of, find_kind, footer_closes, footer_sized, located_table, table_among,
    trailer_bytes, write_flatbuffer_footer, written_footer, FileInfo,
};
use crate::ident::_generate_section_marker;
use crate::reads::{
    all_signal_rows, create_read_batches, create_reads_arrow_schema, lemma_total_rows_grows,
    pooled_values, reads_column_types, reads_fields, reads_rows, total_rows, ReadInfo,
};
use crate::reads_format::{ContentType, EmbeddedFileArgs, Format};
use crate::run_info::{
    create_run_info_batch, run_info_column_types, run_info_fields, run_info_rows, run_info_schema,
    RunInfoData,
};
use crate::section::{_write_table, append_bytes, section_bytes, section_fits};
use crate::signal::{
    batches_view, lemma_table_metadata_distinct, signal_column_types, signal_fields,
    signal_schema, table_metadata,
};
use crate::table::{ColumnView, RecordBatch, Schema};
use crate::SIGNATURE;

verus! {

/// A POD5 file under construction.
pub struct Pod5File {
    /// The file image: everything written so far.
    filehandle: Vec<u8>,
    /// Where the reads table lies in the file.
    read_table: EmbeddedFileArgs,
    /// Where the run-info table lies in the file.
    run_table: EmbeddedFileArgs,
    /// Where the signal table lies in the file.
    signal_table: EmbeddedFileArgs,
    /// The reads that wait to be written.
    _reads: Vec<ReadInfo>,
    /// The rows of the signal table that wait to be written.
    _signal: Vec<RecordBatch>,
    /// The runs that wait to be written.
    _run_info: Vec<RunInfoData>,
    _reads_schema: Schema,
    _run_schema: Schema,
    _signal_schema: Schema,
    /// The marker that closes every section of this file.
    _section_marker: [u8; 16],
    /// The identifier of this file.
    _file_identifier: [u8; 16],
    /// The number of signal rows that were queued since the session began.
    _signal_rows: usize,
    reads_written: bool,
    run_info_written: bool,
    signal_written: bool,
    footer_written: bool,
    written_reads: Ghost<Seq<ReadInfo>>,
    written_run_infos: Ghost<Seq<RunInfoData>>,
    written_signal: Ghost<Seq<Seq<ColumnView>>>,
    reads_payload: Ghost<Seq<u8>>,
    run_info_payload: Ghost<Seq<u8>>,
    signal_payload: Ghost<Seq<u8>>,
}

/// A session as a mathematical value.
pub struct SessionView {
    /// The file image.
    pub image: Seq<u8>,
    pub section_marker: Seq<u8>,
    pub file_identifier: Seq<u8>,
    /// The reads that are queued: pushed and not written.
    pub reads: Seq<ReadInfo>,
    /// The runs that are queued: pushed and not written.
    pub run_infos: Seq<RunInfoData>,
    /// The rows of the signal table that are queued.
    pub signal: Seq<Seq<ColumnView>>,
    /// The number of signal rows that were queued since the session began.
    pub signal_rows: nat,
    /// The reads that the reads table holds.
    pub written_reads: Seq<ReadInfo>,
    /// The runs that the run-info table holds.
    pub written_run_infos: Seq<RunInfoData>,
    /// The rows that the signal table holds.
    pub written_signal: Seq<Seq<ColumnView>>,
    pub read_table: EmbeddedFileArgs,
    pub run_table: EmbeddedFileArgs,
    pub signal_table: EmbeddedFileArgs,
    pub reads_written: bool,
    pub run_info_written: bool,
    pub signal_written: bool,
    pub footer_written: bool,
    /// The bytes that were written as the reads table.
    pub reads_payload: Seq<u8>,
    /// The bytes that were written as the run-info table.
    pub run_info_payload: Seq<u8>,
    /// The bytes that were written as the signal table.
    pub signal_payload: Seq<u8>,
}

/// The dictionary of the reads table for a batch of reads.
pub open spec fn reads_dictionary(reads: Seq<ReadInfo>) -> Seq<Seq<char>> {
    distinct(pooled_values(reads))
}

/// Whether the codec encodes the reads table of a file for the given reads.
pub open spec fn reads_table_encodes(file_identifier: Seq<u8>, reads: Seq<ReadInfo>) -> bool {
    table_encodes(
        reads_fields(),
        table_metadata(file_identifier),
        reads_dictionary(reads),
        reads_rows(reads, 0, reads_dictionary(reads)),
    )
}

/// Whether the codec refuses the reads table of a file for the given reads,
/// though every value of it is within what the codec holds.
pub open spec fn reads_table_refused(file_identifier: Seq<u8>, reads: Seq<ReadInfo>) -> bool {
    &&& table_fits(reads_dictionary(reads), reads_rows(reads, 0, reads_dictionary(reads)))
    &&& !table_accepted(
        reads_fields(),
        table_metadata(file_identifier),
        reads_dictionary(reads),
        reads_rows(reads, 0, reads_dictionary(reads)),
    )
}

/// The bytes of the reads table of a file for the given reads: what the
/// codec makes of the reads schema, the dictionary of the reads, and one row
/// for every read, with signal rows numbered from 0.
pub open spec fn reads_table_bytes(file_identifier: Seq<u8>, reads: Seq<ReadInfo>) -> Seq<u8> {
    table_bytes(
        reads_fields(),
        table_metadata(file_identifier),
        reads_dictionary(reads),
        reads_rows(reads, 0, reads_dictionary(reads)),
    )
}

/// Whether the codec encodes the run-info table of a file for the given
/// runs.
pub open spec fn run_info_table_encodes(file_identifier: Seq<u8>, run_infos: Seq<RunInfoData>)
    -> bool {
    table_encodes(
        run_info_fields(),
        table_metadata(file_identifier),
        Seq::empty(),
        run_info_rows(run_infos),
    )
}

/// Whether the codec refuses the run-info table of a file for the given
/// runs, though every value of it is within what the codec holds.
pub open spec fn run_info_table_refused(file_identifier: Seq<u8>, run_infos: Seq<RunInfoData>)
    -> bool {
    &&& table_fits(Seq::empty(), run_info_rows(run_infos))
    &&& !table_accepted(
        run_info_fields(),
        table_metadata(file_identifier),
        Seq::empty(),
        run_info_rows(run_infos),
    )
}

/// The bytes of the run-info table of a file for the given runs.
pub open spec fn run_info_table_bytes(file_identifier: Seq<u8>, run_infos: Seq<RunInfoData>)
    -> Seq<u8> {
    table_bytes(
        run_info_fields(),
        table_metadata(file_identifier),
        Seq::empty(),
        run_info_rows(run_infos),
    )
}

/// Whether the codec encodes the signal table of a file for the given rows.
pub open spec fn signal_table_encodes(file_identifier: Seq<u8>, rows: Seq<Seq<ColumnView>>)
    -> bool {
    table_encodes(signal_fields(), table_metadata(file_identifier), Seq::empty(), rows)
}

/// Whether the codec refuses the signal table of a file for the given rows,
/// though every value of it is within what the codec holds.
pub open spec fn signal_table_refused(file_identifier: Seq<u8>, rows: Seq<Seq<ColumnView>>)
    -> bool {
    &&& table_fits(Seq::empty(), rows)
    &&& !table_accepted(signal_fields(), table_metadata(file_identifier), Seq::empty(), rows)
}

/// The bytes of the signal table of a file for the given rows.
pub open spec fn signal_table_bytes(file_identifier: Seq<u8>, rows: Seq<Seq<ColumnView>>)
    -> Seq<u8> {
    table_bytes(signal_fields(), table_metadata(file_identifier), Seq::empty(), rows)
}

/// Whether a descriptor and the file agree: before its table is written the
/// descriptor is empty, afterwards it names a span of the file behind the
/// header, on a multiple of 8, that holds the table's bytes and nothing
/// else.
pub open spec fn table_consistent(
    image: Seq<u8>,
    table: EmbeddedFileArgs,
    written: bool,
    payload: Seq<u8>,
    kind: ContentType,
) -> bool {
    &&& table.format == Format::FeatherV2
    &&& table.content_type == kind
    &&& !written ==> table.offset == 0 && table.length == 0
    &&& written ==> {
        &&& 24 <= table.offset
        &&& table.offset % 8 == 0
        &&& table.length == payload.len()
        &&& table.offset + table.length <= image.len()
        &&& image.subrange(table.offset as int, table.offset + table.length) == payload
    }
}

impl SessionView {
    /// The three descriptors in the order of the footer: reads, run info,
    /// signal.
    pub open spec fn descriptors(self) -> Seq<EmbeddedFileArgs> {
        seq![self.read_table, self.run_table, self.signal_table]
    }

    /// What holds of every session. The file begins with the signature and
    /// the section marker, its cursor stands on a multiple of 8, and every
    /// descriptor agrees with the file. A table that is written holds the
    /// codec's bytes of what was queued for it. The signal rows are those of
    /// the reads that were written, numbered from 0, and queued until the
    /// signal table is written. A buffer that was not written yet has
    /// nothing written to its name.
    pub open spec fn well_formed(self) -> bool {
        &&& self.section_marker.len() == 16
        &&& self.file_identifier.len() == 16
        &&& self.image.len() >= 24
        &&& self.image.len() % 8 == 0
        &&& self.image.subrange(0, 8) == SIGNATURE@
        &&& self.image.subrange(8, 24) == self.section_marker
        &&& table_consistent(
            self.image,
            self.read_table,
            self.reads_written,
            self.reads_payload,
            ContentType::ReadsTable,
        )
        &&& table_consistent(
            self.image,
            self.run_table,
            self.run_info_written,
            self.run_info_payload,
            ContentType::RunInfoTable,
        )
        &&& table_consistent(
            self.image,
            self.signal_table,
            self.signal_written,
            self.signal_payload,
            ContentType::SignalTable,
        )
        &&& self.signal_written ==> self.reads_written
        &&& forall|i: int| 0 <= i < self.run_infos.len() ==> self.run_infos[i].well_formed()
        &&& !self.reads_written ==> self.written_reads == Seq::<ReadInfo>::empty()
        &&& !self.run_info_written ==> self.written_run_infos == Seq::<RunInfoData>::empty()
        &&& !self.signal_written ==> self.written_signal == Seq::<Seq<ColumnView>>::empty()
        &&& self.signal_rows == total_rows(self.written_reads, self.written_reads.len() as int)
        &&& self.signal == if self.signal_written {
            Seq::empty()
        } else {
            all_signal_rows(self.written_reads, self.written_reads.len() as int)
        }
        &&& self.signal_written ==> self.written_signal == all_signal_rows(
            self.written_reads,
            self.written_reads.len() as int,
        )
        &&& self.reads_written ==> reads_dictionary(self.written_reads).len() <= MAX_DICTIONARY
            && self.reads_payload == reads_table_bytes(self.file_identifier, self.written_reads)
        &&& self.run_info_written ==> self.run_info_payload == run_info_table_bytes(
            self.file_identifier,
            self.written_run_infos,
        )
        &&& self.signal_written ==> self.signal_payload == signal_table_bytes(
            self.file_identifier,
            self.written_signal,
        )
        &&& self.footer_written ==> forall|kind: ContentType| #[trigger]
            located_table(self.image, kind) == table_among(self.descriptors(), kind)
    }
}

impl View for Pod5File {
    type V = SessionView;

    closed spec fn view(&self) -> SessionView {
        SessionView {
            image: self.filehandle@,
            section_marker: self._section_marker@,
            file_identifier: self._file_identifier@,
            reads: self._reads@,
            run_infos: self._run_info@,
            signal: batches_view(self._signal@),
            signal_rows: self._signal_rows as nat,
            written_reads: self.written_reads@,
            written_run_infos: self.written_run_infos@,
            written_signal: self.written_signal@,
            read_table: self.read_table,
            run_table: self.run_table,
            signal_table: self.signal_table,
            reads_written: self.reads_written,
            run_info_written: self.run_info_written,
            signal_written: self.signal_written,
            footer_written: self.footer_written,
            reads_payload: self.reads_payload@,
            run_info_payload: self.run_info_payload@,
            signal_payload: self.signal_payload@,
        }
    }
}

impl Pod5File {
    /// Whether the session is in order: its view is well formed, and its
    /// three schemas are those of the tables of this file.
    pub closed spec fn wf(&self) -> bool {
        &&& self@.well_formed()
        &&& self._reads_schema.fields@ == reads_fields()
        &&& self._run_schema.fields@ == run_info_fields()
        &&& self._signal_schema.fields@ == signal_fields()
        &&& self._reads_schema.column_types() == reads_column_types()
        &&& self._run_schema.column_types() == run_info_column_types()
        &&& self._signal_schema.column_types() == signal_column_types()
        &&& self._reads_schema.metadata.deep_view() == table_metadata(self._file_identifier@)
        &&& self._run_schema.metadata.deep_view() == table_metadata(self._file_identifier@)
        &&& self._signal_schema.metadata.deep_view() == table_metadata(self._file_identifier@)
    }

    /// A session that is in order has a view that is well formed.
    pub proof fn lemma_view_well_formed(&self)
        requires
            self.wf(),
        ensures
            self@.well_formed(),
    {
    }

    /// The view of a session that has written its header and nothing else.
    pub open spec fn fresh(section_marker: Seq<u8>, file_identifier: Seq<u8>) -> SessionView {
        SessionView {
            image: SIGNATURE@ + section_marker,
            section_marker,
            file_identifier,
            reads: Seq::empty(),
            run_infos: Seq::empty(),
            signal: Seq::empty(),
            signal_rows: 0,
            written_reads: Seq::empty(),
            written_run_infos: Seq::empty(),
            written_signal: Seq::empty(),
            read_table: EmbeddedFileArgs {
                offset: 0,
                length: 0,
                format: Format::FeatherV2,
                content_type: ContentType::ReadsTable,
            },
            run_table: EmbeddedFileArgs {
                offset: 0,
                length: 0,
                format: Format::FeatherV2,
                content_type: ContentType::RunInfoTable,
            },
            signal_table: EmbeddedFileArgs {
                offset: 0,
                length: 0,
                format: Format::FeatherV2,
                content_type: ContentType::SignalTable,
            },
            reads_written: false,
            run_info_written: false,
            signal_written: false,
            footer_written: false,
            reads_payload: Seq::empty(),
            run_info_payload: Seq::empty(),
            signal_payload: Seq::empty(),
        }
    }

    /// Starts a file with the given section marker and file identifier: the
    /// signature and the marker are written, and the schemas of the three
    /// tables are stamped with the identifier.
    pub fn with_identifiers(section_marker: [u8; 16], file_identifier: [u8; 16]) -> (result: Result<
        Pod5File,
        Pod5Error,
    >)
        ensures
            result matches Ok(file) && file.wf() && file@ == Pod5File::fresh(
                section_marker@,
                file_identifier@,
            ),
    {
        let mut filehandle: Vec<u8> = Vec::new();
        append_bytes(&mut filehandle, SIGNATURE.as_slice());
        append_bytes(&mut filehandle, section_marker.as_slice());
        let reads_schema = match create_reads_arrow_schema(&file_identifier) {
            Ok(schema) => schema,
            Err(e) => {
                return Err(e);
            },
        };
        let run_schema = match run_info_schema(&file_identifier) {
            Ok(schema) => schema,
            Err(e) => {
                return Err(e);
            },
        };
        let file = Pod5File {
            filehandle,
            read_table: EmbeddedFileArgs {
                format: Format::FeatherV2,
                content_type: ContentType::ReadsTable,
                offset: 0,
                length: 0,
            },
            run_table: EmbeddedFileArgs {
                format: Format::FeatherV2,
                content_type: ContentType::RunInfoTable,
                offset: 0,
                length: 0,
            },
            signal_table: EmbeddedFileArgs {
                format: Format::FeatherV2,
                content_type: ContentType::SignalTable,
                offset: 0,
                length: 0,
            },
            _reads: Vec::new(),
            _signal: Vec::new(),
            _run_info: Vec::new(),
            _reads_schema: reads_schema,
            _run_schema: run_schema,
            _signal_schema: signal_schema(&file_identifier),
            _section_marker: section_marker,
            _file_identifier: file_identifier,
            _signal_rows: 0,
            reads_written: false,
            run_info_written: false,
            signal_written: false,
            footer_written: false,
            written_reads: Ghost(Seq::empty()),
            written_run_infos: Ghost(Seq::empty()),
            written_signal: Ghost(Seq::empty()),
            reads_payload: Ghost(Seq::empty()),
            run_info_payload: Ghost(Seq::empty()),
            signal_payload: Ghost(Seq::empty()),
        };
        proof {
            let view = file@;
            assert(view.image =~= SIGNATURE@ + section_marker@);
            assert(view.image.subrange(0, 8) =~= SIGNATURE@);
            assert(view.image.subrange(8, 24) =~= section_marker@);
            assert(view.signal =~= Seq::empty());
            assert(view.reads =~= Seq::empty());
            assert(view.run_infos =~= Seq::empty());
        }
        Ok(file)
    }

    /// Starts a file with a fresh random section marker and a fresh random
    /// file identifier.
    pub fn new() -> (result: Result<Pod5File, Pod5Error>)
        ensures
            result matches Ok(file) && file.wf() && file@ == Pod5File::fresh(
                file@.section_marker,
                file@.file_identifier,
            ) && file@.section_marker[6] / 16 == 4 && file@.section_marker[8] / 64 == 2
                && file@.file_identifier[6] / 16 == 4 && file@.file_identifier[8] / 64 == 2,
    {
        let section_marker = _generate_section_marker();
        let file_identifier = _generate_section_marker();
        Pod5File::with_identifiers(section_marker, file_identifier)
    }

    /// Queues a run for the run-info table. A run that is pushed after the
    /// run-info table was written is held, and not written.
    ///
    /// Fails, and queues nothing, after the footer (`OutOfOrder`), and where
    /// a key stands twice in a tag map of the run (`DuplicateKey`).
    pub fn push_run_info(&mut self, run_info: RunInfoData) -> (result: Result<(), Pod5Error>)
        requires
            old(self).wf(),
        ensures
            final(self).wf(),
            result is Ok <==> !old(self)@.footer_written && run_info.well_formed(),
            result is Ok ==> final(self)@ == (SessionView {
                run_infos: old(self)@.run_infos.push(run_info),
                ..old(self)@
            }),
            result matches Err(e) ==> {
                &&& final(self)@ == old(self)@
                &&& e == Pod5Error::OutOfOrder <==> old(self)@.footer_written
                &&& e == Pod5Error::OutOfOrder || e == Pod5Error::DuplicateKey
            },
    {
        if self.footer_written {
            return Err(Pod5Error::OutOfOrder);
        }
        if !run_info.is_well_formed() {
            return Err(Pod5Error::DuplicateKey);
        }
        self._run_info.push(run_info);
        Ok(())
    }

    /// Queues a read for the reads table. A read that is pushed after the
    /// reads table was written is held, and not written.
    ///
    /// Fails, and queues nothing, after the footer.
    pub fn push_read(&mut self, read: ReadInfo) -> (result: Result<(), Pod5Error>)
        requires
            old(self).wf(),
        ensures
            final(self).wf(),
            result is Ok <==> !old(self)@.footer_written,
            result is Ok ==> final(self)@ == (SessionView {
                reads: old(self)@.reads.push(read),
                ..old(self)@
            }),
            result matches Err(e) ==> final(self)@ == old(self)@ && e == Pod5Error::OutOfOrder,
    {
        if self.footer_written {
            return Err(Pod5Error::OutOfOrder);
        }
        self._reads.push(read);
        Ok(())
    }

    /// The schema of the reads table of this file.
    pub fn reads_schema(&self) -> (schema: &Schema)
        requires
            self.wf(),
        ensures
            schema.fields@ == reads_fields(),
            schema.column_types() == reads_column_types(),
            schema.metadata.deep_view() == table_metadata(self@.file_identifier),
    {
        &self._reads_schema
    }

    /// The schema of the run-info table of this file.
    pub fn run_schema(&self) -> (schema: &Schema)
        requires
            self.wf(),
        ensures
            schema.fields@ == run_info_fields(),
            schema.column_types() == run_info_column_types(),
            schema.metadata.deep_view() == table_metadata(self@.file_identifier),
    {
        &self._run_schema
    }

    /// The schema of the signal table of this file.
    pub fn signal_schema(&self) -> (schema: &Schema)
        requires
            self.wf(),
        ensures
            schema.fields@ == signal_fields(),
            schema.column_types() == signal_column_types(),
            schema.metadata.deep_view() == table_metadata(self@.file_identifier),
    {
        &self._signal_schema
    }

    /// The reads that are queued.
    pub fn reads(&self) -> (reads: &Vec<ReadInfo>)
        ensures
            reads@ == self@.reads,
    {
        &self._reads
    }

    /// The runs that are queued.
    pub fn run_infos(&self) -> (run_infos: &Vec<RunInfoData>)
        ensures
            run_infos@ == self@.run_infos,
    {
        &self._run_info
    }

    /// The number of signal rows that were queued since the session began.
    pub fn signal_rows(&self) -> (rows: usize)
        ensures
            rows == self@.signal_rows,
    {
        self._signal_rows
    }

    /// The rows of the signal table that are queued.
    pub fn signal_batches(&self) -> (batches: &Vec<RecordBatch>)
        requires
            self.wf(),
        ensures
            batches_view(batches@) == self@.signal,
    {
        &self._signal
    }

    /// Encodes the run-info table, one row for every run that is queued,
    /// writes it into the file as a section, notes where it lies, and
    /// empties the queue of the runs. The bytes of the table are what the
    /// codec makes of the schema and the rows.
    ///
    /// Succeeds where the table was not written yet, the footer is not
    /// written, the codec encodes the table, and the file with the section
    /// stays within the format. Otherwise it changes nothing: the table is
    /// already written or the footer is (`OutOfOrder`), the codec refuses the
    /// table (`Codec`), or the table or the file would outgrow the format
    /// (`TooLarge`).
    pub fn write_run_info_to_ipc(&mut self) -> (result: Result<(), Pod5Error>)
        requires
            old(self).wf(),
        ensures
            final(self).wf(),
            result is Ok <==> {
                &&& !old(self)@.run_info_written
                &&& !old(self)@.footer_written
                &&& run_info_table_encodes(old(self)@.file_identifier, old(self)@.run_infos)
                &&& section_fits(
                    old(self)@.image.len() as int,
                    run_info_table_bytes(old(self)@.file_identifier, old(self)@.run_infos).len() as int,
                )
            },
            result is Ok ==> final(self)@ == (SessionView {
                image: old(self)@.image + section_bytes(
                    old(self)@.image.len() as int,
                    run_info_table_bytes(old(self)@.file_identifier, old(self)@.run_infos),
                    old(self)@.section_marker,
                ),
                run_table: EmbeddedFileArgs {
                    offset: old(self)@.image.len() as i64,
                    length: run_info_table_bytes(
                        old(self)@.file_identifier,
                        old(self)@.run_infos,
                    ).len() as i64,
                    ..old(self)@.run_table
                },
                run_info_written: true,
                run_info_payload: run_info_table_bytes(
                    old(self)@.file_identifier,
                    old(self)@.run_infos,
                ),
                run_infos: Seq::empty(),
                written_run_infos: old(self)@.run_infos,
                ..old(self)@
            }),
            result matches Err(e) ==> {
                &&& final(self)@ == old(self)@
                &&& e == Pod5Error::OutOfOrder <==> old(self)@.run_info_written
                    || old(self)@.footer_written
                &&& e == Pod5Error::Codec <==> !old(self)@.run_info_written
                    && !old(self)@.footer_written && run_info_table_refused(
                    old(self)@.file_identifier,
                    old(self)@.run_infos,
                )
                &&& e == Pod5Error::OutOfOrder || e == Pod5Error::TooLarge || e
                    == Pod5Error::Codec
            },
    {
        if self.run_info_written || self.footer_written {
            return Err(Pod5Error::OutOfOrder);
        }
        proof {
            lemma_table_metadata_distinct(self._file_identifier@);
        }
        let batches = match create_run_info_batch(&self._run_schema, &self._run_info) {
            Ok(batches) => batches,
            Err(e) => {
                return Err(e);
            },
        };
        let dictionary: Vec<String> = Vec::new();
        assert(dictionary.deep_view() =~= Seq::<Seq<char>>::empty());
        let payload = match encode_table(&self._run_schema, &dictionary, &batches) {
            Ok(payload) => payload,
            Err(e) => {
                return Err(e);
            },
        };
        let ghost before = self@;
        match _write_table(
            &mut self.filehandle,
            &self._section_marker,
            payload.as_slice(),
            &mut self.run_table,
        ) {
            Ok(()) => {},
            Err(e) => {
                return Err(e);
            },
        }
        self.run_info_written = true;
        self.run_info_payload = Ghost(payload@);
        self.written_run_infos = Ghost(self._run_info@);
        self._run_info = Vec::new();
        proof {
            lemma_tables_stay(
                before.image,
                section_bytes(before.image.len() as int, payload@, before.section_marker),
            );
            assert(self@.run_infos =~= Seq::<RunInfoData>::empty());
        }
        Ok(())
    }

    /// Encodes the reads table, one row for every read that is queued,
    /// writes it into the file as a section, notes where it lies, and
    /// empties the queue of the reads. The samples of the reads are cut into
    /// rows of the signal table and queued; the signal index of every read
    /// lists the rows that hold its samples, numbered by the session's
    /// counter of signal rows. The bytes of the table are what the codec
    /// makes of the schema, the dictionary and the rows.
    ///
    /// Succeeds where the table was not written yet, the footer is not
    /// written, the reads have no more distinct categorical values than a
    /// signed 16-bit index can number, their signal rows can be counted, the
    /// codec encodes the table, and the file with the section stays within
    /// the format. Otherwise it changes nothing: the table is already written
    /// or the footer is (`OutOfOrder`), there are too many categorical values
    /// (`DictionaryOverflow`), the codec refuses the table (`Codec`), or the
    /// rows, the table or the file would outgrow the format (`TooLarge`).
    pub fn write_reads_to_ipc(&mut self) -> (result: Result<(), Pod5Error>)
        requires
            old(self).wf(),
        ensures
            final(self).wf(),
            result is Ok <==> {
                &&& !old(self)@.reads_written
                &&& !old(self)@.footer_written
                &&& reads_dictionary(old(self)@.reads).len() <= MAX_DICTIONARY
                &&& total_rows(old(self)@.reads, old(self)@.reads.len() as int) <= usize::MAX
                &&& reads_table_encodes(old(self)@.file_identifier, old(self)@.reads)
                &&& section_fits(
                    old(self)@.image.len() as int,
                    reads_table_bytes(old(self)@.file_identifier, old(self)@.reads).len() as int,
                )
            },
            result is Ok ==> final(self)@ == (SessionView {
                image: old(self)@.image + section_bytes(
                    old(self)@.image.len() as int,
                    reads_table_bytes(old(self)@.file_identifier, old(self)@.reads),
                    old(self)@.section_marker,
                ),
                read_table: EmbeddedFileArgs {
                    offset: old(self)@.image.len() as i64,
                    length: reads_table_bytes(
                        old(self)@.file_identifier,
                        old(self)@.reads,
                    ).len() as i64,
                    ..old(self)@.read_table
                },
                reads_written: true,
                reads_payload: reads_table_bytes(old(self)@.file_identifier, old(self)@.reads),
                reads: Seq::empty(),
                written_reads: old(self)@.reads,
                signal: all_signal_rows(old(self)@.reads, old(self)@.reads.len() as int),
                signal_rows: total_rows(old(self)@.reads, old(self)@.reads.len() as int) as nat,
                ..old(self)@
            }),
            result matches Err(e) ==> {
                &&& final(self)@ == old(self)@
                &&& e == Pod5Error::OutOfOrder <==> old(self)@.reads_written
                    || old(self)@.footer_written
                &&& e == Pod5Error::DictionaryOverflow <==> !old(self)@.reads_written
                    && !old(self)@.footer_written && reads_dictionary(old(self)@.reads).len()
                    > MAX_DICTIONARY
                &&& e == Pod5Error::Codec <==> !old(self)@.reads_written
                    && !old(self)@.footer_written && reads_dictionary(old(self)@.reads).len()
                    <= MAX_DICTIONARY && total_rows(
                    old(self)@.reads,
                    old(self)@.reads.len() as int,
                ) <= usize::MAX && reads_table_refused(
                    old(self)@.file_identifier,
                    old(self)@.reads,
                )
                &&& e == Pod5Error::OutOfOrder || e == Pod5Error::DictionaryOverflow || e
                    == Pod5Error::TooLarge || e == Pod5Error::Codec
            },
    {
        if self.reads_written || self.footer_written {
            return Err(Pod5Error::OutOfOrder);
        }
        let ghost before = self@;
        proof {
            lemma_table_metadata_distinct(self._file_identifier@);
            lemma_total_rows_grows(self._reads@, 0, self._reads@.len() as int);
            assert(batches_view(self._signal@) =~= Seq::<Seq<ColumnView>>::empty());
            assert(self._signal@.len() == 0);
        }
        let table = match create_read_batches(
            &self._reads_schema,
            &self._reads,
            &mut self._signal,
            &mut self._signal_rows,
            &self._signal_schema,
        ) {
            Ok(table) => table,
            Err(e) => {
                return Err(e);
            },
        };
        let payload = match encode_table(&self._reads_schema, &table.dictionary, &table.batches) {
            Ok(payload) => payload,
            Err(e) => {
                self._signal.clear();
                self._signal_rows = 0;
                assert(batches_view(self._signal@) =~= Seq::<Seq<ColumnView>>::empty());
                return Err(e);
            },
        };
        match _write_table(
            &mut self.filehandle,
            &self._section_marker,
            payload.as_slice(),
            &mut self.read_table,
        ) {
            Ok(()) => {},
            Err(e) => {
                self._signal.clear();
                self._signal_rows = 0;
                assert(batches_view(self._signal@) =~= Seq::<Seq<ColumnView>>::empty());
                return Err(e);
            },
        }
        self.reads_written = true;
        self.reads_payload = Ghost(payload@);
        self.written_reads = Ghost(self._reads@);
        self._reads = Vec::new();
        proof {
            lemma_tables_stay(
                before.image,
                section_bytes(before.image.len() as int, payload@, before.section_marker),
            );
            assert(self@.reads =~= Seq::<ReadInfo>::empty());
            assert(batches_view(self._signal@) =~= all_signal_rows(
                before.reads,
                before.reads.len() as int,
            ));
        }
        Ok(())
    }

    /// Encodes the signal table, the rows that were queued with the reads
    /// table, writes it into the file as a section, notes where it lies, and
    /// empties the queue of the rows. The bytes of the table are what the
    /// codec makes of the schema and the rows.
    ///
    /// Succeeds where the reads table is written, the signal table was not
    /// written yet, the footer is not written, the codec encodes the table,
    /// and the file with the section stays within the format. Otherwise it
    /// changes nothing: the samples of the reads were not queued yet, the
    /// table is already written or the footer is (`OutOfOrder`), the codec
    /// refuses the table (`Codec`), or the table or the file would outgrow
    /// the format (`TooLarge`).
    pub fn write_signal_to_ipc(&mut self) -> (result: Result<(), Pod5Error>)
        requires
            old(self).wf(),
        ensures
            final(self).wf(),
            result is Ok <==> {
                &&& old(self)@.reads_written
                &&& !old(self)@.signal_written
                &&& !old(self)@.footer_written
                &&& signal_table_encodes(old(self)@.file_identifier, old(self)@.signal)
                &&& section_fits(
                    old(self)@.image.len() as int,
                    signal_table_bytes(old(self)@.file_identifier, old(self)@.signal).len() as int,
                )
            },
            result is Ok ==> final(self)@ == (SessionView {
                image: old(self)@.image + section_bytes(
                    old(self)@.image.len() as int,
                    signal_table_bytes(old(self)@.file_identifier, old(self)@.signal),
                    old(self)@.section_marker,
                ),
                signal_table: EmbeddedFileArgs {
                    offset: old(self)@.image.len() as i64,
                    length: signal_table_bytes(
                        old(self)@.file_identifier,
                        old(self)@.signal,
                    ).len() as i64,
                    ..old(self)@.signal_table
                },
                signal_written: true,
                signal_payload: signal_table_bytes(
                    old(self)@.file_identifier,
                    old(self)@.signal,
                ),
                signal: Seq::empty(),
                written_signal: old(self)@.signal,
                ..old(self)@
            }),
            result matches Err(e) ==> {
                &&& final(self)@ == old(self)@
                &&& e == Pod5Error::OutOfOrder <==> !old(self)@.reads_written
                    || old(self)@.signal_written || old(self)@.footer_written
                &&& e == Pod5Error::Codec <==> old(self)@.reads_written
                    && !old(self)@.signal_written && !old(self)@.footer_written
                    && signal_table_refused(old(self)@.file_identifier, old(self)@.signal)
                &&& e == Pod5Error::OutOfOrder || e == Pod5Error::TooLarge || e
                    == Pod5Error::Codec
            },
    {
        if !self.reads_written || self.signal_written || self.footer_written {
            return Err(Pod5Error::OutOfOrder);
        }
        proof {
            lemma_table_metadata_distinct(self._file_identifier@);
        }
        let dictionary: Vec<String> = Vec::new();
        assert(dictionary.deep_view() =~= Seq::<Seq<char>>::empty());
        let payload = match encode_table(&self._signal_schema, &dictionary, &self._signal) {
            Ok(payload) => payload,
            Err(e) => {
                return Err(e);
            },
        };
        let ghost before = self@;
        match _write_table(
            &mut self.filehandle,
            &self._section_marker,
            payload.as_slice(),
            &mut self.signal_table,
        ) {
            Ok(()) => {},
            Err(e) => {
                return Err(e);
            },
        }
        self.signal_written = true;
        self.signal_payload = Ghost(payload@);
        self.written_signal = Ghost(batches_view(self._signal@));
        self._signal = Vec::new();
        proof {
            lemma_tables_stay(
                before.image,
                section_bytes(before.image.len() as int, payload@, before.section_marker),
            );
            assert(batches_view(self._signal@) =~= Seq::<Seq<ColumnView>>::empty());
        }
        Ok(())
    }

    /// Writes the footer with the descriptors of the reads, the run-info and
    /// the signal table, in this order, and closes the file. In the closed
    /// file a reader finds each of the three tables where its descriptor
    /// says, and the typed `KindNotPresent` for the two index kinds.
    ///
    /// Fails, and changes nothing, where the footer is already written
    /// (`OutOfOrder`), where the file would outgrow the format (`TooLarge`),
    /// or where the footer does not read back (`MalformedFooter`).
    pub fn write_footer(&mut self) -> (result: Result<(), Pod5Error>)
        requires
            old(self).wf(),
        ensures
            final(self).wf(),
            result is Ok <==> !old(self)@.footer_written && footer_closes(
                old(self)@.image.len() as int,
                old(self)@.file_identifier,
                old(self)@.descriptors(),
                old(self)@.section_marker,
            ),
            result is Ok ==> final(self)@ == (SessionView {
                image: old(self)@.image + trailer_bytes(
                    old(self)@.image.len() as int,
                    crate::footer::footer_bytes(
                        written_footer(old(self)@.file_identifier, old(self)@.descriptors()),
                    ),
                    old(self)@.section_marker,
                ),
                footer_written: true,
                ..old(self)@
            }),
            result matches Err(e) ==> {
                &&& final(self)@ == old(self)@
                &&& e == Pod5Error::OutOfOrder <==> old(self)@.footer_written
                &&& e == Pod5Error::TooLarge <==> !old(self)@.footer_written && !footer_sized(
                    old(self)@.image.len() as int,
                    old(self)@.file_identifier,
                    old(self)@.descriptors(),
                )
                &&& e == Pod5Error::OutOfOrder || e == Pod5Error::TooLarge || e
                    == Pod5Error::MalformedFooter
            },
    {
        if self.footer_written {
            return Err(Pod5Error::OutOfOrder);
        }
        let ghost before = self@;
        let mut embedded_args: Vec<&EmbeddedFileArgs> = Vec::new();
        embedded_args.push(&self.read_table);
        embedded_args.push(&self.run_table);
        embedded_args.push(&self.signal_table);
        assert(crate::footer::pointed(embedded_args@) =~= before.descriptors());
        match write_flatbuffer_footer(
            &mut self.filehandle,
            embedded_args,
            &self._file_identifier,
            &self._section_marker,
        ) {
            Ok(()) => {},
            Err(e) => {
                return Err(e);
            },
        }
        self.footer_written = true;
        proof {
            lemma_tables_stay(
                before.image,
                trailer_bytes(
                    before.image.len() as int,
                    crate::footer::footer_bytes(
                        written_footer(before.file_identifier, before.descriptors()),
                    ),
                    before.section_marker,
                ),
            );
        }
        Ok(())
    }

    /// The file image: everything that was written so far.
    pub fn bytes(&self) -> (image: &Vec<u8>)
        ensures
            image@ == self@.image,
    {
        &self.filehandle
    }

    /// Ends the session and gives the file image.
    pub fn into_bytes(self) -> (image: Vec<u8>)
        ensures
            image@ == self@.image,
    {
        self.filehandle
    }

    /// Whether the footer is written.
    pub fn is_closed(&self) -> (closed: bool)
        ensures
            closed == self@.footer_written,
    {
        self.footer_written
    }

    /// The descriptor of the reads table.
    pub fn read_table(&self) -> (table: EmbeddedFileArgs)
        ensures
            table == self@.read_table,
    {
        self.read_table
    }

    /// The descriptor of the run-info table.
    pub fn run_table(&self) -> (table: EmbeddedFileArgs)
        ensures
            table == self@.run_table,
    {
        self.run_table
    }

    /// The descriptor of the signal table.
    pub fn signal_table(&self) -> (table: EmbeddedFileArgs)
        ensures
            table == self@.signal_table,
    {
        self.signal_table
    }

    /// The section marker of this file.
    pub fn section_marker(&self) -> (marker: [u8; 16])
        ensures
            marker@ == self@.section_marker,
    {
        self._section_marker
    }

    /// The identifier of this file.
    pub fn file_identifier(&self) -> (identifier: [u8; 16])
        ensures
            identifier@ == self@.file_identifier,
    {
        self._file_identifier
    }
}

/// What is written stays: when a file grows at its end, every descriptor
/// that agreed with the file still agrees with it, and the header is still
/// the header.
proof fn lemma_tables_stay(image: Seq<u8>, added: Seq<u8>)
    ensures
        forall|table: EmbeddedFileArgs, written: bool, payload: Seq<u8>, kind: ContentType|
            #[trigger] table_consistent(image, table, written, payload, kind)
                ==> table_consistent(image + added, table, written, payload, kind),
        image.len() >= 24 ==> (image + added).subrange(0, 8) == image.subrange(0, 8) && (image
            + added).subrange(8, 24) == image.subrange(8, 24),
{
    let longer = image + added;
    assert forall|table: EmbeddedFileArgs, written: bool, payload: Seq<u8>, kind: ContentType|
        #[trigger] table_consistent(image, table, written, payload, kind) implies table_consistent(
        longer,
        table,
        written,
        payload,
        kind,
    ) by {
        if written {
            assert(longer.subrange(table.offset as int, table.offset + table.length)
                =~= image.subrange(table.offset as int, table.offset + table.length));
        }
    }
    if image.len() >= 24 {
        assert(longer.subrange(0, 8) =~= image.subrange(0, 8));
        assert(longer.subrange(8, 24) =~= image.subrange(8, 24));
    }
}

/// The closed file: once the footer is written, a reader of the file finds
/// the reads table, the run-info table and the signal table where their
/// descriptors say, and for the two index kinds the typed `KindNotPresent`.
/// For every table that was written the span that the reader is given lies
/// behind the header and inside the file, and holds the codec's bytes of
/// what the session wrote: of the runs, of the reads with their dictionary,
/// and of the signal rows of these reads, and no other bytes.
pub proof fn lemma_closed_file(session: SessionView)
    requires
        session.well_formed(),
        session.footer_written,
    ensures
        located_table(session.image, ContentType::ReadsTable) == Ok::<FileInfo, Pod5Error>(
            file_info_of(session.read_table),
        ),
        located_table(session.image, ContentType::RunInfoTable) == Ok::<FileInfo, Pod5Error>(
            file_info_of(session.run_table),
        ),
        located_table(session.image, ContentType::SignalTable) == Ok::<FileInfo, Pod5Error>(
            file_info_of(session.signal_table),
        ),
        located_table(session.image, ContentType::ReadIdIndex) == Err::<FileInfo, Pod5Error>(
            Pod5Error::KindNotPresent,
        ),
        located_table(session.image, ContentType::OtherIndex) == Err::<FileInfo, Pod5Error>(
            Pod5Error::KindNotPresent,
        ),
        session.reads_written ==> spans_payload(
            session.image,
            file_info_of(session.read_table),
            reads_table_bytes(session.file_identifier, session.written_reads),
        ),
        session.run_info_written ==> spans_payload(
            session.image,
            file_info_of(session.run_table),
            run_info_table_bytes(session.file_identifier, session.written_run_infos),
        ),
        session.signal_written ==> spans_payload(
            session.image,
            file_info_of(session.signal_table),
            signal_table_bytes(
                session.file_identifier,
                all_signal_rows(session.written_reads, session.written_reads.len() as int),
            ),
        ),
{
    let all = session.descriptors();
    let rest = all.drop_first();
    let last = rest.drop_first();
    assert(rest =~= seq![session.run_table, session.signal_table]);
    assert(last =~= seq![session.signal_table]);
    assert(last.drop_first() =~= Seq::<EmbeddedFileArgs>::empty());
    assert(all[0] == session.read_table);
    assert(rest[0] == session.run_table);
    assert(last[0] == session.signal_table);
    assert(find_kind(last, ContentType::SignalTable) == Some(session.signal_table));
    assert(find_kind(rest, ContentType::SignalTable) == Some(session.signal_table));
    assert(find_kind(all, ContentType::SignalTable) == Some(session.signal_table));
    assert(find_kind(rest, ContentType::RunInfoTable) == Some(session.run_table));
    assert(find_kind(all, ContentType::RunInfoTable) == Some(session.run_table));
    assert(find_kind(all, ContentType::ReadsTable) == Some(session.read_table));
    assert(find_kind(last.drop_first(), ContentType::ReadIdIndex) is None);
    assert(find_kind(last, ContentType::ReadIdIndex) is None);
    assert(find_kind(rest, ContentType::ReadIdIndex) is None);
    assert(find_kind(all, ContentType::ReadIdIndex) is None);
    assert(find_kind(last.drop_first(), ContentType::OtherIndex) is None);
    assert(find_kind(last, ContentType::OtherIndex) is None);
    assert(find_kind(rest, ContentType::OtherIndex) is None);
    assert(find_kind(all, ContentType::OtherIndex) is None);
    assert(located_table(session.image, ContentType::ReadsTable) == table_among(
        all,
        ContentType::ReadsTable,
    ));
    assert(located_table(session.image, ContentType::RunInfoTable) == table_among(
        all,
        ContentType::RunInfoTable,
    ));
    assert(located_table(session.image, ContentType::SignalTable) == table_among(
        all,
        ContentType::SignalTable,
    ));
    assert(located_table(session.image, ContentType::ReadIdIndex) == table_among(
        all,
        ContentType::ReadIdIndex,
    ));
    assert(located_table(session.image, ContentType::OtherIndex) == table_among(
        all,
        ContentType::OtherIndex,
    ));
}

/// Whether the span that a reader is given for a table lies behind the
/// header and inside the file, and holds exactly the given bytes.
pub open spec fn spans_payload(image: Seq<u8>, info: FileInfo, payload: Seq<u8>) -> bool {
    &&& 24 <= info.offset
    &&& info.length == payload.len()
    &&& info.offset + info.length <= image.len()
    &&& image.subrange(info.offset as int, info.offset + info.length) == payload
}

} // verus!
