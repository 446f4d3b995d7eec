//! The footer's record schema: the kinds of embedded table, their encoding
//! format, and the descriptor that locates one table inside the file.

use vstd::prelude::*;
use vstd::slice::slice_subrange;
use vstd::utf8::{decode_utf8, valid_utf8};
use crate::endian::{
    le_i16_at, le_i32_at, le_i64_at, le_u16_at, le_u32_at, read_i16, read_i32, read_i64, read_u16,
    read_u32,
};
use crate::error::Pod5Error;
use crate::flat::{
    builder_calls, end_table, finish, finish_size_prefixed, finished, issued, lemma_after_call,
    open_bound, open_start, open_width, push_slot_always, push_slot_i16, push_slot_i64,
    record_bound, start_table, table_end, table_open, table_start, BuilderCall, RecordBuilder,
    MAX_RECORD,
};

verus! {

/// Which logical table an embedded file holds. The writer fills in the reads,
/// run-info and signal tables; the two index kinds are reserved. A footer
/// from elsewhere may hold a number that the schema does not know: it is
/// kept as it is.
#[derive(Clone, Copy, PartialEq, Eq, Structural, Debug, Hash)]
pub enum ContentType {
    ReadsTable,
    SignalTable,
    ReadIdIndex,
    OtherIndex,
    RunInfoTable,
    /// A number outside the schema.
    Unknown(i16),
}

impl ContentType {
    /// The number that stands for this kind inside a footer record.
    pub open spec fn spec_wire(self) -> i16 {
        match self {
            ContentType::ReadsTable => 0,
            ContentType::SignalTable => 1,
            ContentType::ReadIdIndex => 2,
            ContentType::OtherIndex => 3,
            ContentType::RunInfoTable => 4,
            ContentType::Unknown(value) => value,
        }
    }

    /// The kind that a number of a footer record stands for.
    pub open spec fn spec_from_wire(value: i16) -> ContentType {
        if value == 0 {
            ContentType::ReadsTable
        } else if value == 1 {
            ContentType::SignalTable
        } else if value == 2 {
            ContentType::ReadIdIndex
        } else if value == 3 {
            ContentType::OtherIndex
        } else if value == 4 {
            ContentType::RunInfoTable
        } else {
            ContentType::Unknown(value)
        }
    }

    /// The name of the kind that the number of this value stands for,
    /// `None` for a number outside the schema.
    pub open spec fn spec_variant_name(self) -> Option<Seq<char>> {
        let number = self.spec_wire();
        if number == 0 {
            Some("ReadsTable"@)
        } else if number == 1 {
            Some("SignalTable"@)
        } else if number == 2 {
            Some("ReadIdIndex"@)
        } else if number == 3 {
            Some("OtherIndex"@)
        } else if number == 4 {
            Some("RunInfoTable"@)
        } else {
            None
        }
    }

    /// The number that stands for this kind inside a footer record.
    #[verifier::when_used_as_spec(spec_wire)]
    pub fn wire(self) -> (value: i16)
        ensures
            value == self.spec_wire(),
    {
        match self {
            ContentType::ReadsTable => 0,
            ContentType::SignalTable => 1,
            ContentType::ReadIdIndex => 2,
            ContentType::OtherIndex => 3,
            ContentType::RunInfoTable => 4,
            ContentType::Unknown(value) => value,
        }
    }

    /// The kind that a number of a footer record stands for: one of the five
    /// kinds of the schema for the numbers 0 to 4, and `Unknown` with the
    /// number for any other.
    pub fn from_wire(value: i16) -> (kind: ContentType)
        ensures
            kind == ContentType::spec_from_wire(value),
            kind.spec_wire() == value,
    {
        if value == 0 {
            ContentType::ReadsTable
        } else if value == 1 {
            ContentType::SignalTable
        } else if value == 2 {
            ContentType::ReadIdIndex
        } else if value == 3 {
            ContentType::OtherIndex
        } else if value == 4 {
            ContentType::RunInfoTable
        } else {
            ContentType::Unknown(value)
        }
    }

    /// Returns the name of the kind that the number of this value stands
    /// for, or `None` if the number is outside the schema.
    pub fn variant_name(self) -> (name: Option<&'static str>)
        ensures
            name is Some <==> 0 <= self.spec_wire() <= 4,
            match name {
                Some(text) => self.spec_variant_name() == Some(text@),
                None => self.spec_variant_name() is None,
            },
    {
        let number = self.wire();
        if number == 0 {
            Some("ReadsTable")
        } else if number == 1 {
            Some("SignalTable")
        } else if number == 2 {
            Some("ReadIdIndex")
        } else if number == 3 {
            Some("OtherIndex")
        } else if number == 4 {
            Some("RunInfoTable")
        } else {
            None
        }
    }
}

impl Default for ContentType {
    fn default() -> (kind: ContentType)
        ensures
            kind == ContentType::ReadsTable,
    {
        ContentType::ReadsTable
    }
}

/// How an embedded table is encoded. The schema knows one encoding; a number
/// that it does not know is kept as it is.
#[derive(Clone, Copy, PartialEq, Eq, Structural, Debug, Hash)]
pub enum Format {
    FeatherV2,
    /// A number outside the schema.
    Unknown(i16),
}

impl Format {
    /// The number that stands for this format inside a footer record.
    pub open spec fn spec_wire(self) -> i16 {
        match self {
            Format::FeatherV2 => 0,
            Format::Unknown(value) => value,
        }
    }

    /// The format that a number of a footer record stands for.
    pub open spec fn spec_from_wire(value: i16) -> Format {
        if value == 0 {
            Format::FeatherV2
        } else {
            Format::Unknown(value)
        }
    }

    /// The name of the format that the number of this value stands for,
    /// `None` for a number outside the schema.
    pub open spec fn spec_variant_name(self) -> Option<Seq<char>> {
        if self.spec_wire() == 0 {
            Some("FeatherV2"@)
        } else {
            None
        }
    }

    /// The number that stands for this format inside a footer record.
    #[verifier::when_used_as_spec(spec_wire)]
    pub fn wire(self) -> (value: i16)
        ensures
            value == self.spec_wire(),
    {
        match self {
            Format::FeatherV2 => 0,
            Format::Unknown(value) => value,
        }
    }

    /// The format that a number of a footer record stands for.
    pub fn from_wire(value: i16) -> (format: Format)
        ensures
            format == Format::spec_from_wire(value),
            format.spec_wire() == value,
    {
        if value == 0 {
            Format::FeatherV2
        } else {
            Format::Unknown(value)
        }
    }

    /// Returns the name of the format that the number of this value stands
    /// for, or `None` if the number is outside the schema.
    pub fn variant_name(self) -> (name: Option<&'static str>)
        ensures
            name is Some <==> self.spec_wire() == 0,
            match name {
                Some(text) => self.spec_variant_name() == Some(text@),
                None => self.spec_variant_name() is None,
            },
    {
        if self.wire() == 0 {
            Some("FeatherV2")
        } else {
            None
        }
    }
}

impl Default for Format {
    fn default() -> (format: Format)
        ensures
            format == Format::FeatherV2,
    {
        Format::FeatherV2
    }
}

/// Where one embedded table lies in the file: the position of its first byte
/// from the start of the file, and the number of bytes of the table itself,
/// without the padding and the section marker that follow it.
#[derive(Clone, Copy, PartialEq, Eq, Structural, Debug)]
pub struct EmbeddedFileArgs {
    pub offset: i64,
    pub length: i64,
    pub format: Format,
    pub content_type: ContentType,
}

impl Default for EmbeddedFileArgs {
    fn default() -> (args: EmbeddedFileArgs)
        ensures
            args == (EmbeddedFileArgs {
                offset: 0,
                length: 0,
                format: Format::FeatherV2,
                content_type: ContentType::ReadsTable,
            }),
    {
        EmbeddedFileArgs {
            offset: 0,
            length: 0,
            format: Format::FeatherV2,
            content_type: ContentType::ReadsTable,
        }
    }
}

/// The slot of an embedded file's offset in its record.
pub const VT_OFFSET: u16 = 4;

/// The slot of an embedded file's length in its record.
pub const VT_LENGTH: u16 = 6;

/// The slot of an embedded file's format in its record.
pub const VT_FORMAT: u16 = 8;

/// The slot of an embedded file's content kind in its record.
pub const VT_CONTENT_TYPE: u16 = 10;

/// The slot of a footer's file identifier in its record.
pub const VT_FILE_IDENTIFIER: u16 = 4;

/// The slot of a footer's software tag in its record.
pub const VT_SOFTWARE: u16 = 6;

/// The slot of a footer's version tag in its record.
pub const VT_POD5_VERSION: u16 = 8;

/// The slot of a footer's list of embedded files in its record.
pub const VT_CONTENTS: u16 = 10;

/// One entry of a footer that was read from a file.
#[derive(Clone, Copy, PartialEq, Eq, Structural, Debug)]
pub struct EmbeddedFile {
    args: EmbeddedFileArgs,
}

impl View for EmbeddedFile {
    type V = EmbeddedFileArgs;

    closed spec fn view(&self) -> EmbeddedFileArgs {
        self.args
    }
}

impl EmbeddedFile {
    /// The position of the table's first byte, from the start of the file.
    pub fn offset(&self) -> (offset: i64)
        ensures
            offset == self@.offset,
    {
        self.args.offset
    }

    /// The number of bytes of the table.
    pub fn length(&self) -> (length: i64)
        ensures
            length == self@.length,
    {
        self.args.length
    }

    /// The encoding of the table.
    pub fn format(&self) -> (format: Format)
        ensures
            format == self@.format,
    {
        self.args.format
    }

    /// The kind of the table.
    pub fn content_type(&self) -> (content_type: ContentType)
        ensures
            content_type == self@.content_type,
    {
        self.args.content_type
    }
}

/// A footer that was read from a file. A field that the record leaves out
/// is not there.
#[derive(Debug)]
pub struct Footer {
    file_identifier: Option<String>,
    software: Option<String>,
    pod5_version: Option<String>,
    contents: Option<Vec<EmbeddedFile>>,
}

/// A footer that was read, as a mathematical value.
pub struct FooterView {
    pub file_identifier: Option<Seq<char>>,
    pub software: Option<Seq<char>>,
    pub pod5_version: Option<Seq<char>>,
    pub contents: Option<Seq<EmbeddedFileArgs>>,
}

/// What a footer says, as a mathematical value: the footer that a writer
/// means.
pub struct FooterContent {
    pub file_identifier: Seq<char>,
    pub software: Seq<char>,
    pub pod5_version: Seq<char>,
    pub contents: Seq<EmbeddedFileArgs>,
}

impl FooterContent {
    /// The footer as it is read where the record holds all four fields.
    pub open spec fn present(self) -> FooterView {
        FooterView {
            file_identifier: Some(self.file_identifier),
            software: Some(self.software),
            pod5_version: Some(self.pod5_version),
            contents: Some(self.contents),
        }
    }
}

/// The views of a list of entries.
pub open spec fn entries_view(entries: Seq<EmbeddedFile>) -> Seq<EmbeddedFileArgs> {
    Seq::new(entries.len(), |i: int| entries[i]@)
}

impl View for Footer {
    type V = FooterView;

    closed spec fn view(&self) -> FooterView {
        FooterView {
            file_identifier: match self.file_identifier {
                Some(text) => Some(text@),
                None => None,
            },
            software: match self.software {
                Some(text) => Some(text@),
                None => None,
            },
            pod5_version: match self.pod5_version {
                Some(text) => Some(text@),
                None => None,
            },
            contents: match self.contents {
                Some(entries) => Some(entries_view(entries@)),
                None => None,
            },
        }
    }
}

impl Footer {
    /// The identifier of the file, in its canonical text, where the record
    /// holds it.
    pub fn file_identifier(&self) -> (text: Option<&str>)
        ensures
            match text {
                Some(t) => self@.file_identifier == Some(t@),
                None => self@.file_identifier is None,
            },
    {
        match &self.file_identifier {
            Some(text) => Some(text.as_str()),
            None => None,
        }
    }

    /// The name of the software that wrote the file, where the record holds
    /// it.
    pub fn software(&self) -> (text: Option<&str>)
        ensures
            match text {
                Some(t) => self@.software == Some(t@),
                None => self@.software is None,
            },
    {
        match &self.software {
            Some(text) => Some(text.as_str()),
            None => None,
        }
    }

    /// The version of the format in which the file is written, where the
    /// record holds it.
    pub fn pod5_version(&self) -> (text: Option<&str>)
        ensures
            match text {
                Some(t) => self@.pod5_version == Some(t@),
                None => self@.pod5_version is None,
            },
    {
        match &self.pod5_version {
            Some(text) => Some(text.as_str()),
            None => None,
        }
    }

    /// The entries of the footer, in the order in which they were written,
    /// where the record holds the list.
    pub fn contents(&self) -> (entries: Option<&Vec<EmbeddedFile>>)
        ensures
            match entries {
                Some(e) => self@.contents == Some(entries_view(e@)),
                None => self@.contents is None,
            },
    {
        match &self.contents {
            Some(entries) => Some(entries),
            None => None,
        }
    }

    /// Whether the footer holds all four fields, with exactly the given
    /// texts and entries.
    pub fn holds(
        &self,
        file_identifier: &String,
        software: &String,
        pod5_version: &String,
        contents: &Vec<EmbeddedFileArgs>,
    ) -> (same: bool)
        ensures
            same == (self@ == (FooterContent {
                file_identifier: file_identifier@,
                software: software@,
                pod5_version: pod5_version@,
                contents: contents@,
            }).present()),
    {
        let ghost expected = (FooterContent {
            file_identifier: file_identifier@,
            software: software@,
            pod5_version: pod5_version@,
            contents: contents@,
        }).present();
        let same_texts = match (&self.file_identifier, &self.software, &self.pod5_version) {
            (Some(a), Some(b), Some(c)) => *a == *file_identifier && *b == *software && *c
                == *pod5_version,
            _ => false,
        };
        if !same_texts {
            return false;
        }
        let entries = match &self.contents {
            Some(entries) => entries,
            None => {
                return false;
            },
        };
        if entries.len() != contents.len() {
            assert(entries_view(entries@).len() != contents@.len());
            return false;
        }
        let n = contents.len();
        let mut i: usize = 0;
        while i < n
            invariant
                i <= n,
                n == contents@.len(),
                n == entries@.len(),
                self@.contents == Some(entries_view(entries@)),
                expected.contents == Some(contents@),
                forall|k: int| 0 <= k < i ==> entries@[k]@ == contents@[k],
            decreases n - i,
        {
            if entries[i].args != contents[i] {
                assert(entries_view(entries@)[i as int] != contents@[i as int]);
                return false;
            }
            i += 1;
        }
        assert(entries_view(entries@) =~= contents@);
        true
    }
}

/// The limits within which a footer is read.
#[derive(Clone, Copy, PartialEq, Eq, Structural, Debug)]
pub struct VerifierOptions {
    /// How deep records may lie in records.
    pub max_depth: usize,
    /// How many records a footer may hold, each counted as often as an
    /// offset leads to it.
    pub max_tables: usize,
    /// How many bytes a footer may take, each counted as often as it is
    /// looked at.
    pub max_apparent_size: usize,
    /// Whether a text may end without a zero byte.
    pub ignore_missing_null_terminator: bool,
}

/// The limits that a reader keeps when it is given none: records
/// at most 64 deep, 1,000,000 records, 2^31 bytes, and a zero byte behind
/// every text.
pub open spec fn default_options() -> VerifierOptions {
    VerifierOptions {
        max_depth: 64,
        max_tables: 1_000_000,
        max_apparent_size: 0x8000_0000,
        ignore_missing_null_terminator: false,
    }
}

impl Default for VerifierOptions {
    fn default() -> (options: VerifierOptions)
        ensures
            options == default_options(),
    {
        VerifierOptions {
            max_depth: 64,
            max_tables: 1_000_000,
            max_apparent_size: 0x8000_0000,
            ignore_missing_null_terminator: false,
        }
    }
}

/// Whether an integer of `size` bytes can stand at `pos`: on a multiple of
/// its size, and inside the bytes.
pub open spec fn aligned_inside(bytes: Seq<u8>, pos: int, size: int) -> bool {
    0 <= pos && pos % size == 0 && pos + size <= bytes.len()
}

/// The position that the offset stored at `pos` points to: as far behind
/// `pos` as the unsigned 32-bit integer there says. `None` where no such
/// integer stands at `pos`, or where it points beyond the bytes.
pub open spec fn target_of(bytes: Seq<u8>, pos: int) -> Option<int> {
    if aligned_inside(bytes, pos, 4) && pos + le_u32_at(bytes, pos) <= bytes.len() {
        Some(pos + le_u32_at(bytes, pos))
    } else {
        None
    }
}

/// The position of the field table of the record at `table`: as far before
/// the record as the signed 32-bit integer at its start says. The field
/// table begins with its own length, an even number of bytes that lie
/// inside the bytes. `None` where any of this fails.
pub open spec fn vtable_of(bytes: Seq<u8>, table: int) -> Option<int> {
    if !aligned_inside(bytes, table, 4) {
        None
    } else {
        let vtable = table - le_i32_at(bytes, table);
        if 0 <= vtable < bytes.len() && aligned_inside(bytes, vtable, 2) && le_u16_at(
            bytes,
            vtable,
        ) % 2 == 0 && vtable + le_u16_at(bytes, vtable) <= bytes.len() {
            Some(vtable)
        } else {
            None
        }
    }
}

/// The position of the field in `slot` of the record at `table`, or 0 where
/// the record leaves the field out.
pub open spec fn field_of(bytes: Seq<u8>, table: int, vtable: int, slot: int) -> int {
    if slot < le_u16_at(bytes, vtable) && le_u16_at(bytes, vtable + slot) > 0 {
        table + le_u16_at(bytes, vtable + slot)
    } else {
        0
    }
}

/// The number in a 64-bit field: 0 where the record leaves it out, `None`
/// where it does not lie inside the bytes on a multiple of 8.
pub open spec fn i64_field(bytes: Seq<u8>, table: int, vtable: int, slot: int) -> Option<int> {
    let pos = field_of(bytes, table, vtable, slot);
    if pos == 0 {
        Some(0)
    } else if aligned_inside(bytes, pos, 8) {
        Some(le_i64_at(bytes, pos))
    } else {
        None
    }
}

/// The number in a 16-bit field: 0 where the record leaves it out, `None`
/// where it does not lie inside the bytes on a multiple of 2.
pub open spec fn i16_field(bytes: Seq<u8>, table: int, vtable: int, slot: int) -> Option<int> {
    let pos = field_of(bytes, table, vtable, slot);
    if pos == 0 {
        Some(0)
    } else if aligned_inside(bytes, pos, 2) {
        Some(le_i16_at(bytes, pos))
    } else {
        None
    }
}

/// The embedded-file record at `table`. `None` where the record is out of
/// shape.
pub open spec fn embedded_file_at(bytes: Seq<u8>, table: int) -> Option<EmbeddedFileArgs> {
    match vtable_of(bytes, table) {
        None => None,
        Some(vtable) => match (
            i64_field(bytes, table, vtable, VT_OFFSET as int),
            i64_field(bytes, table, vtable, VT_LENGTH as int),
            i16_field(bytes, table, vtable, VT_FORMAT as int),
            i16_field(bytes, table, vtable, VT_CONTENT_TYPE as int),
        ) {
            (Some(offset), Some(length), Some(format), Some(kind)) => Some(
                EmbeddedFileArgs {
                    offset: offset as i64,
                    length: length as i64,
                    format: Format::spec_from_wire(format as i16),
                    content_type: ContentType::spec_from_wire(kind as i16),
                },
            ),
            _ => None,
        },
    }
}

/// The text stored at `pos`: its length in bytes as an unsigned 32-bit
/// integer, and the bytes, valid UTF-8. Unless the reader is `lenient`, a
/// zero byte stands after them.
pub open spec fn string_at(bytes: Seq<u8>, pos: int, lenient: bool) -> Option<Seq<char>> {
    if !aligned_inside(bytes, pos, 4) {
        None
    } else {
        let start = pos + 4;
        let end = start + le_u32_at(bytes, pos);
        if end <= bytes.len() && (lenient || (end < bytes.len() && bytes[end] == 0)) && valid_utf8(
            bytes.subrange(start, end),
        ) {
            Some(decode_utf8(bytes.subrange(start, end)))
        } else {
            None
        }
    }
}

/// The text in a field, which is not there where the record leaves the
/// field out. `None` where the field is out of shape.
pub open spec fn string_field(
    bytes: Seq<u8>,
    table: int,
    vtable: int,
    slot: int,
    lenient: bool,
) -> Option<Option<Seq<char>>> {
    let pos = field_of(bytes, table, vtable, slot);
    if pos == 0 {
        Some(None)
    } else {
        match target_of(bytes, pos) {
            Some(target) => match string_at(bytes, target, lenient) {
                Some(text) => Some(Some(text)),
                None => None,
            },
            None => None,
        }
    }
}

/// The embedded-file record that the offset at `pos` points to.
pub open spec fn element_at(bytes: Seq<u8>, pos: int) -> Option<EmbeddedFileArgs> {
    match target_of(bytes, pos) {
        Some(target) => embedded_file_at(bytes, target),
        None => None,
    }
}

/// The list of records stored at `pos`: their number as an unsigned 32-bit
/// integer, then one offset to each.
pub open spec fn files_at(bytes: Seq<u8>, pos: int) -> Option<Seq<EmbeddedFileArgs>> {
    if !aligned_inside(bytes, pos, 4) {
        None
    } else {
        let n = le_u32_at(bytes, pos);
        if pos + 4 + 4 * n <= bytes.len() && (forall|k: int|
            0 <= k < n ==> (#[trigger] element_at(bytes, pos + 4 + 4 * k)) is Some) {
            Some(Seq::new(n as nat, |k: int| element_at(bytes, pos + 4 + 4 * k)->0))
        } else {
            None
        }
    }
}

/// The list in a field, which is not there where the record leaves the
/// field out. `None` where the field is out of shape.
pub open spec fn files_field(bytes: Seq<u8>, table: int, vtable: int, slot: int) -> Option<
    Option<Seq<EmbeddedFileArgs>>,
> {
    let pos = field_of(bytes, table, vtable, slot);
    if pos == 0 {
        Some(None)
    } else {
        match target_of(bytes, pos) {
            Some(target) => match files_at(bytes, target) {
                Some(files) => Some(Some(files)),
                None => None,
            },
            None => None,
        }
    }
}

/// The bytes that a reader looks at to find a slot in a field table: the
/// two bytes of the slot, where the field table has it.
pub open spec fn slot_size(bytes: Seq<u8>, vtable: int, slot: int) -> int {
    if slot < le_u16_at(bytes, vtable) {
        2
    } else {
        0
    }
}

/// The bytes that a reader looks at to enter a record: the four bytes that
/// lead to its field table, the two bytes of the field table's length, and
/// the field table.
pub open spec fn table_size(bytes: Seq<u8>, vtable: int) -> int {
    6 + le_u16_at(bytes, vtable)
}

/// The bytes that a reader looks at for a number of `size` bytes in a
/// field.
pub open spec fn scalar_size(bytes: Seq<u8>, table: int, vtable: int, slot: int, size: int) -> int {
    slot_size(bytes, vtable, slot) + if field_of(bytes, table, vtable, slot) != 0 {
        size
    } else {
        0
    }
}

/// The bytes that a reader looks at for the embedded-file record at
/// `table`.
pub open spec fn embedded_file_size(bytes: Seq<u8>, table: int) -> int {
    let vtable = vtable_of(bytes, table)->0;
    table_size(bytes, vtable) + scalar_size(bytes, table, vtable, VT_OFFSET as int, 8)
        + scalar_size(bytes, table, vtable, VT_LENGTH as int, 8) + scalar_size(
        bytes,
        table,
        vtable,
        VT_FORMAT as int,
        2,
    ) + scalar_size(bytes, table, vtable, VT_CONTENT_TYPE as int, 2)
}

/// The bytes that a reader looks at for a text in a field: the offset to
/// the text, its length, and its bytes.
pub open spec fn string_size(bytes: Seq<u8>, table: int, vtable: int, slot: int) -> int {
    let pos = field_of(bytes, table, vtable, slot);
    slot_size(bytes, vtable, slot) + if pos != 0 {
        8 + le_u32_at(bytes, target_of(bytes, pos)->0)
    } else {
        0
    }
}

/// The bytes that a reader looks at for the first `k` records of the list
/// whose offsets begin at `start`: for each the offset and the record.
pub open spec fn elements_size(bytes: Seq<u8>, start: int, k: int) -> int
    decreases k,
{
    if k <= 0 {
        0
    } else {
        elements_size(bytes, start, k - 1) + 4 + embedded_file_size(
            bytes,
            target_of(bytes, start + 4 * (k - 1))->0,
        )
    }
}

/// The bytes that a reader looks at for the list stored at `pos`: the
/// number of the records, their offsets, and the records.
pub open spec fn files_at_size(bytes: Seq<u8>, pos: int) -> int {
    let n = le_u32_at(bytes, pos);
    4 + 4 * n + elements_size(bytes, pos + 4, n)
}

/// The bytes that a reader looks at for a list in a field.
pub open spec fn files_size(bytes: Seq<u8>, table: int, vtable: int, slot: int) -> int {
    let pos = field_of(bytes, table, vtable, slot);
    slot_size(bytes, vtable, slot) + if pos != 0 {
        4 + files_at_size(bytes, target_of(bytes, pos)->0)
    } else {
        0
    }
}

/// The apparent size of the footer whose root offset stands at `start`: the
/// bytes that a reader looks at, each counted as often as it is looked at.
pub open spec fn apparent_size(bytes: Seq<u8>, start: int) -> int {
    let table = target_of(bytes, start)->0;
    let vtable = vtable_of(bytes, table)->0;
    4 + table_size(bytes, vtable) + string_size(
        bytes,
        table,
        vtable,
        VT_FILE_IDENTIFIER as int,
    ) + string_size(bytes, table, vtable, VT_SOFTWARE as int) + string_size(
        bytes,
        table,
        vtable,
        VT_POD5_VERSION as int,
    ) + files_size(bytes, table, vtable, VT_CONTENTS as int)
}

/// The number of records in a footer: its own and its entries.
pub open spec fn records(contents: Option<Seq<EmbeddedFileArgs>>) -> int {
    match contents {
        Some(entries) => 1 + entries.len() as int,
        None => 1,
    }
}

/// Whether a footer of the given entries and apparent size is within the
/// limits: its records are no more than allowed, its own record and, where
/// there is one, an entry are no deeper than allowed, and its apparent size
/// is no greater than allowed.
pub open spec fn within_limits(
    contents: Option<Seq<EmbeddedFileArgs>>,
    size: int,
    options: VerifierOptions,
) -> bool {
    &&& records(contents) <= options.max_tables
    &&& 1 <= options.max_depth
    &&& records(contents) > 1 ==> 2 <= options.max_depth
    &&& size <= options.max_apparent_size
}

/// The footer that a sequence of bytes holds, read within the given limits:
/// the offset at `start` points to the footer's record. Bytes that no offset
/// leads to are not looked at. `None` where the bytes are no footer, or the
/// footer is beyond the limits.
#[verifier::opaque]
pub open spec fn parse_footer_from(bytes: Seq<u8>, start: int, options: VerifierOptions) -> Option<
    FooterView,
> {
    let lenient = options.ignore_missing_null_terminator;
    match target_of(bytes, start) {
        None => None,
        Some(table) => match vtable_of(bytes, table) {
            None => None,
            Some(vtable) => match (
                string_field(bytes, table, vtable, VT_FILE_IDENTIFIER as int, lenient),
                string_field(bytes, table, vtable, VT_SOFTWARE as int, lenient),
                string_field(bytes, table, vtable, VT_POD5_VERSION as int, lenient),
                files_field(bytes, table, vtable, VT_CONTENTS as int),
            ) {
                (Some(file_identifier), Some(software), Some(pod5_version), Some(contents)) => {
                    if within_limits(contents, apparent_size(bytes, start), options) {
                        Some(FooterView { file_identifier, software, pod5_version, contents })
                    } else {
                        None
                    }
                },
                _ => None,
            },
        },
    }
}

/// The footer that a sequence of bytes holds, with the root offset at its
/// start, read within the default limits.
pub open spec fn parse_footer(bytes: Seq<u8>) -> Option<FooterView> {
    parse_footer_from(bytes, 0, default_options())
}

/// Calls `core::str::from_utf8`, which accepts exactly the valid UTF-8
/// sequences and gives the text that they encode.
#[verifier::external_body]
fn from_utf8(bytes: &[u8]) -> (text: Option<&str>)
    ensures
        text is Some <==> valid_utf8(bytes@),
        text matches Some(t) ==> t@ == decode_utf8(bytes@),
{
    core::str::from_utf8(bytes).ok()
}

fn fits(bytes: &[u8], pos: usize, size: usize) -> (ok: bool)
    requires
        size > 0,
    ensures
        ok == aligned_inside(bytes@, pos as int, size as int),
{
    let len = bytes.len();
    pos % size == 0 && size <= len && pos <= len - size
}

fn follow(bytes: &[u8], pos: usize) -> (target: Option<usize>)
    ensures
        match target {
            Some(t) => target_of(bytes@, pos as int) == Some(t as int),
            None => target_of(bytes@, pos as int) is None,
        },
{
    if !fits(bytes, pos, 4) {
        return None;
    }
    let distance: u32 = read_u32(bytes, pos);
    let room: usize = bytes.len() - pos;
    if distance as u64 > room as u64 {
        return None;
    }
    Some(pos + distance as usize)
}

fn vtable_position(bytes: &[u8], table: usize) -> (vtable: Option<usize>)
    ensures
        match vtable {
            Some(v) => vtable_of(bytes@, table as int) == Some(v as int),
            None => vtable_of(bytes@, table as int) is None,
        },
{
    if !fits(bytes, table, 4) {
        return None;
    }
    let len = bytes.len();
    let back: i64 = read_i32(bytes, table) as i64;
    let vtable: usize = if back > 0 {
        if back as u64 > table as u64 {
            return None;
        }
        table - back as usize
    } else {
        let forward: u64 = (-back) as u64;
        if forward >= (len - table) as u64 {
            return None;
        }
        table + forward as usize
    };
    if !fits(bytes, vtable, 2) {
        return None;
    }
    let size: u16 = read_u16(bytes, vtable);
    if size % 2 != 0 || size as usize > len - vtable {
        return None;
    }
    Some(vtable)
}

/// The position of a field, 0 where it is left out, `None` where it would
/// lie beyond the bytes.
fn field_position(bytes: &[u8], table: usize, vtable: usize, slot: u16) -> (pos: Option<usize>)
    requires
        vtable_of(bytes@, table as int) == Some(vtable as int),
        slot % 2 == 0,
    ensures
        match pos {
            Some(p) => p == field_of(bytes@, table as int, vtable as int, slot as int),
            None => field_of(bytes@, table as int, vtable as int, slot as int) > bytes@.len(),
        },
{
    let len = bytes.len();
    let size: u16 = read_u16(bytes, vtable);
    if slot >= size {
        return Some(0);
    }
    let distance: u16 = read_u16(bytes, vtable + slot as usize);
    if distance == 0 {
        return Some(0);
    }
    if distance as usize > len - table {
        return None;
    }
    Some(table + distance as usize)
}

fn slot_cost(bytes: &[u8], vtable: usize, slot: u16) -> (cost: u128)
    requires
        aligned_inside(bytes@, vtable as int, 2),
    ensures
        cost == slot_size(bytes@, vtable as int, slot as int),
{
    if slot < read_u16(bytes, vtable) {
        2
    } else {
        0
    }
}

fn read_i64_field(bytes: &[u8], table: usize, vtable: usize, slot: u16) -> (value: Option<
    (i64, u128),
>)
    requires
        vtable_of(bytes@, table as int) == Some(vtable as int),
        slot % 2 == 0,
    ensures
        match value {
            Some((v, cost)) => i64_field(bytes@, table as int, vtable as int, slot as int) == Some(
                v as int,
            ) && cost == scalar_size(bytes@, table as int, vtable as int, slot as int, 8),
            None => i64_field(bytes@, table as int, vtable as int, slot as int) is None,
        },
{
    let cost = slot_cost(bytes, vtable, slot);
    match field_position(bytes, table, vtable, slot) {
        None => None,
        Some(pos) => {
            if pos == 0 {
                Some((0, cost))
            } else if fits(bytes, pos, 8) {
                Some((read_i64(bytes, pos), cost + 8))
            } else {
                None
            }
        },
    }
}

fn read_i16_field(bytes: &[u8], table: usize, vtable: usize, slot: u16) -> (value: Option<
    (i16, u128),
>)
    requires
        vtable_of(bytes@, table as int) == Some(vtable as int),
        slot % 2 == 0,
    ensures
        match value {
            Some((v, cost)) => i16_field(bytes@, table as int, vtable as int, slot as int) == Some(
                v as int,
            ) && cost == scalar_size(bytes@, table as int, vtable as int, slot as int, 2),
            None => i16_field(bytes@, table as int, vtable as int, slot as int) is None,
        },
{
    let cost = slot_cost(bytes, vtable, slot);
    match field_position(bytes, table, vtable, slot) {
        None => None,
        Some(pos) => {
            if pos == 0 {
                Some((0, cost))
            } else if fits(bytes, pos, 2) {
                Some((read_i16(bytes, pos), cost + 2))
            } else {
                None
            }
        },
    }
}

fn read_embedded_file(bytes: &[u8], table: usize) -> (file: Option<(EmbeddedFile, u128)>)
    ensures
        match file {
            Some((f, cost)) => embedded_file_at(bytes@, table as int) == Some(f@) && cost
                == embedded_file_size(bytes@, table as int) && cost <= 0x1_0025,
            None => embedded_file_at(bytes@, table as int) is None,
        },
{
    let vtable = match vtable_position(bytes, table) {
        Some(v) => v,
        None => {
            return None;
        },
    };
    let entered: u128 = 6 + read_u16(bytes, vtable) as u128;
    let offset = read_i64_field(bytes, table, vtable, VT_OFFSET);
    let length = read_i64_field(bytes, table, vtable, VT_LENGTH);
    let format = read_i16_field(bytes, table, vtable, VT_FORMAT);
    let kind = read_i16_field(bytes, table, vtable, VT_CONTENT_TYPE);
    match (offset, length, format, kind) {
        (Some((offset, a)), Some((length, b)), Some((format, c)), Some((kind, d))) => Some(
            (
                EmbeddedFile {
                    args: EmbeddedFileArgs {
                        offset,
                        length,
                        format: Format::from_wire(format),
                        content_type: ContentType::from_wire(kind),
                    },
                },
                entered + a + b + c + d,
            ),
        ),
        _ => None,
    }
}

fn read_string(bytes: &[u8], pos: usize, lenient: bool) -> (text: Option<(String, u128)>)
    ensures
        match text {
            Some((t, cost)) => string_at(bytes@, pos as int, lenient) == Some(t@) && cost == 4
                + le_u32_at(bytes@, pos as int) && cost <= 0x1_0000_0003,
            None => string_at(bytes@, pos as int, lenient) is None,
        },
{
    if !fits(bytes, pos, 4) {
        return None;
    }
    let len = bytes.len();
    let size: u32 = read_u32(bytes, pos);
    let start: usize = pos + 4;
    if size as u64 > (len - start) as u64 {
        return None;
    }
    let end: usize = start + size as usize;
    if !lenient {
        if end >= len {
            return None;
        }
        if bytes[end] != 0 {
            return None;
        }
    }
    match from_utf8(slice_subrange(bytes, start, end)) {
        Some(text) => Some((text.to_owned(), 4 + size as u128)),
        None => None,
    }
}

fn read_string_field(bytes: &[u8], table: usize, vtable: usize, slot: u16, lenient: bool) -> (text:
    Option<(Option<String>, u128)>)
    requires
        vtable_of(bytes@, table as int) == Some(vtable as int),
        slot % 2 == 0,
    ensures
        match text {
            Some((found, cost)) => {
                &&& string_field(bytes@, table as int, vtable as int, slot as int, lenient) == Some(
                    match found {
                        Some(t) => Some(t@),
                        None => None::<Seq<char>>,
                    },
                )
                &&& cost == string_size(bytes@, table as int, vtable as int, slot as int)
                &&& cost <= 0x1_0000_0009
            },
            None => string_field(bytes@, table as int, vtable as int, slot as int, lenient)
                is None,
        },
{
    let cost = slot_cost(bytes, vtable, slot);
    match field_position(bytes, table, vtable, slot) {
        None => None,
        Some(pos) => {
            if pos == 0 {
                Some((None, cost))
            } else {
                match follow(bytes, pos) {
                    Some(target) => match read_string(bytes, target, lenient) {
                        Some((text, size)) => Some((Some(text), cost + 4 + size)),
                        None => None,
                    },
                    None => None,
                }
            }
        },
    }
}

fn read_files(bytes: &[u8], pos: usize) -> (files: Option<(Vec<EmbeddedFile>, u128)>)
    ensures
        match files {
            Some((f, cost)) => files_at(bytes@, pos as int) == Some(entries_view(f@)) && cost
                == files_at_size(bytes@, pos as int) && cost <= 0x10_0000_0000_0000,
            None => files_at(bytes@, pos as int) is None,
        },
{
    if !fits(bytes, pos, 4) {
        return None;
    }
    let len = bytes.len();
    let count: u32 = read_u32(bytes, pos);
    let start: usize = pos + 4;
    if 4 * (count as u64) > (len - start) as u64 {
        return None;
    }
    let n: usize = count as usize;
    let mut files: Vec<EmbeddedFile> = Vec::new();
    let mut looked: u128 = 0;
    let mut i: usize = 0;
    while i < n
        invariant
            i <= n,
            n == le_u32_at(bytes@, pos as int),
            n <= 0xFFFF_FFFF,
            start == pos + 4,
            start + 4 * n <= bytes@.len(),
            len == bytes@.len(),
            aligned_inside(bytes@, pos as int, 4),
            files@.len() == i,
            looked == elements_size(bytes@, start as int, i as int),
            looked <= i * 0x1_0029,
            forall|k: int|
                0 <= k < i ==> (#[trigger] element_at(bytes@, pos + 4 + 4 * k)) == Some(files@[k]@),
        decreases n - i,
    {
        let element: usize = start + 4 * i;
        let file = match follow(bytes, element) {
            Some(target) => read_embedded_file(bytes, target),
            None => None,
        };
        match file {
            Some((f, cost)) => {
                files.push(f);
                looked = looked + 4 + cost;
            },
            None => {
                assert(element_at(bytes@, pos + 4 + 4 * i) is None);
                return None;
            },
        }
        i += 1;
    }
    assert(files_at(bytes@, pos as int)->0 =~= entries_view(files@));
    assert(looked <= 0xFFFF_FFFF * 0x1_0029) by (nonlinear_arith)
        requires
            looked <= i * 0x1_0029,
            i <= 0xFFFF_FFFF,
    ;
    Some((files, 4 + 4 * (n as u128) + looked))
}

fn read_files_field(bytes: &[u8], table: usize, vtable: usize, slot: u16) -> (files: Option<
    (Option<Vec<EmbeddedFile>>, u128),
>)
    requires
        vtable_of(bytes@, table as int) == Some(vtable as int),
        slot % 2 == 0,
    ensures
        match files {
            Some((found, cost)) => {
                &&& files_field(bytes@, table as int, vtable as int, slot as int) == Some(
                    match found {
                        Some(f) => Some(entries_view(f@)),
                        None => None::<Seq<EmbeddedFileArgs>>,
                    },
                )
                &&& cost == files_size(bytes@, table as int, vtable as int, slot as int)
                &&& cost <= 0x10_0000_0000_0006
            },
            None => files_field(bytes@, table as int, vtable as int, slot as int) is None,
        },
{
    let cost = slot_cost(bytes, vtable, slot);
    match field_position(bytes, table, vtable, slot) {
        None => None,
        Some(pos) => {
            if pos == 0 {
                Some((None, cost))
            } else {
                match follow(bytes, pos) {
                    Some(target) => match read_files(bytes, target) {
                        Some((files, size)) => Some((Some(files), cost + 4 + size)),
                        None => None,
                    },
                    None => None,
                }
            }
        },
    }
}

/// Reads the footer whose root offset stands at `start`, within the given
/// limits.
fn read_footer(buf: &[u8], start: usize, opts: &VerifierOptions) -> (result: Result<
    Footer,
    Pod5Error,
>)
    ensures
        match result {
            Ok(footer) => parse_footer_from(buf@, start as int, *opts) == Some(footer@),
            Err(e) => e == Pod5Error::MalformedFooter && parse_footer_from(
                buf@,
                start as int,
                *opts,
            ) is None,
        },
{
    reveal(parse_footer_from);
    let lenient = opts.ignore_missing_null_terminator;
    let table = match follow(buf, start) {
        Some(t) => t,
        None => {
            return Err(Pod5Error::MalformedFooter);
        },
    };
    let vtable = match vtable_position(buf, table) {
        Some(v) => v,
        None => {
            return Err(Pod5Error::MalformedFooter);
        },
    };
    let entered: u128 = 10 + read_u16(buf, vtable) as u128;
    let file_identifier = read_string_field(buf, table, vtable, VT_FILE_IDENTIFIER, lenient);
    let software = read_string_field(buf, table, vtable, VT_SOFTWARE, lenient);
    let pod5_version = read_string_field(buf, table, vtable, VT_POD5_VERSION, lenient);
    let contents = read_files_field(buf, table, vtable, VT_CONTENTS);
    match (file_identifier, software, pod5_version, contents) {
        (
            Some((file_identifier, a)),
            Some((software, b)),
            Some((pod5_version, c)),
            Some((contents, d)),
        ) => {
            let entries: usize = match &contents {
                Some(entries) => entries.len(),
                None => 0,
            };
            let size: u128 = entered + a + b + c + d;
            if entries as u128 + 1 > opts.max_tables as u128 || opts.max_depth < 1 || (entries > 0
                && opts.max_depth < 2) || size > opts.max_apparent_size as u128 {
                return Err(Pod5Error::MalformedFooter);
            }
            Ok(Footer { file_identifier, software, pod5_version, contents })
        },
        _ => Err(Pod5Error::MalformedFooter),
    }
}

/// Reads a footer from the bytes that hold it, within the default limits.
/// Every position that the record names is checked before it is read, so any
/// bytes can be given.
///
/// Fails where the bytes are no footer.
pub fn root_as_footer(buf: &[u8]) -> (result: Result<Footer, Pod5Error>)
    ensures
        match result {
            Ok(footer) => parse_footer(buf@) == Some(footer@),
            Err(e) => e == Pod5Error::MalformedFooter && parse_footer(buf@) is None,
        },
{
    read_footer(buf, 0, &VerifierOptions::default())
}

/// Reads a footer from the bytes that hold it, within the given limits.
///
/// Fails where the bytes are no footer, or the footer is beyond the limits.
pub fn root_as_footer_with_opts(opts: &VerifierOptions, buf: &[u8]) -> (result: Result<
    Footer,
    Pod5Error,
>)
    ensures
        match result {
            Ok(footer) => parse_footer_from(buf@, 0, *opts) == Some(footer@),
            Err(e) => e == Pod5Error::MalformedFooter && parse_footer_from(buf@, 0, *opts)
                is None,
        },
{
    read_footer(buf, 0, opts)
}

/// Reads a footer from bytes that begin with four bytes of size, behind
/// which the footer's root offset stands, within the default limits. The
/// size is not looked at.
///
/// Fails where the bytes are no footer.
pub fn size_prefixed_root_as_footer(buf: &[u8]) -> (result: Result<Footer, Pod5Error>)
    ensures
        match result {
            Ok(footer) => parse_footer_from(buf@, 4, default_options()) == Some(footer@),
            Err(e) => e == Pod5Error::MalformedFooter && parse_footer_from(
                buf@,
                4,
                default_options(),
            ) is None,
        },
{
    read_footer(buf, 4, &VerifierOptions::default())
}

/// Reads a footer from bytes that begin with four bytes of size, within the
/// given limits.
///
/// Fails where the bytes are no footer, or the footer is beyond the limits.
pub fn size_prefixed_root_as_footer_with_opts(opts: &VerifierOptions, buf: &[u8]) -> (result:
    Result<Footer, Pod5Error>)
    ensures
        match result {
            Ok(footer) => parse_footer_from(buf@, 4, *opts) == Some(footer@),
            Err(e) => e == Pod5Error::MalformedFooter && parse_footer_from(buf@, 4, *opts)
                is None,
        },
{
    read_footer(buf, 4, opts)
}

/// The offsets of a footer's four fields in the record under construction.
/// A field without an offset is left out of the record.
#[derive(Clone, Copy, Debug)]
pub struct FooterArgs {
    pub file_identifier: Option<u32>,
    pub software: Option<u32>,
    pub pod5_version: Option<u32>,
    pub contents: Option<u32>,
}

impl Default for FooterArgs {
    fn default() -> (args: FooterArgs)
        ensures
            args.file_identifier is None,
            args.software is None,
            args.pod5_version is None,
            args.contents is None,
    {
        FooterArgs { file_identifier: None, software: None, pod5_version: None, contents: None }
    }
}

/// The most bytes that an embedded-file record adds to the footer.
pub const EMBEDDED_FILE_COST: usize = 55;

/// The most bytes that the footer's own record adds to the footer.
pub const FOOTER_TABLE_COST: usize = 47;

/// The calls that write one embedded-file record: a table with the length,
/// the offset, the content kind and the format, each with the default of the
/// schema.
pub open spec fn embedded_file_calls(before: Seq<BuilderCall>, args: EmbeddedFileArgs) -> Seq<
    BuilderCall,
> {
    before.push(BuilderCall::StartTable).push(
        BuilderCall::PushSlotI64 { slot: VT_LENGTH, value: args.length, default: 0 },
    ).push(BuilderCall::PushSlotI64 { slot: VT_OFFSET, value: args.offset, default: 0 }).push(
        BuilderCall::PushSlotI16 {
            slot: VT_CONTENT_TYPE,
            value: args.content_type.spec_wire(),
            default: 0,
        },
    ).push(
        BuilderCall::PushSlotI16 { slot: VT_FORMAT, value: args.format.spec_wire(), default: 0 },
    ).push(BuilderCall::EndTable { start: table_start(before) })
}

/// The offset that the builder returns for an embedded-file record.
pub open spec fn embedded_file_offset(before: Seq<BuilderCall>, args: EmbeddedFileArgs) -> u32 {
    table_end(embedded_file_calls(before, args).drop_last(), table_start(before))
}

/// The calls of the given list, and one field for an offset that is there.
pub open spec fn with_field(calls: Seq<BuilderCall>, slot: u16, target: Option<u32>) -> Seq<
    BuilderCall,
> {
    match target {
        Some(target) => calls.push(BuilderCall::PushSlotOffset { slot, target }),
        None => calls,
    }
}

/// The calls that write the footer's own record: a table with the list of
/// embedded files, the version, the software and the file identifier.
pub open spec fn footer_table_calls(before: Seq<BuilderCall>, args: FooterArgs) -> Seq<
    BuilderCall,
> {
    with_field(
        with_field(
            with_field(
                with_field(before.push(BuilderCall::StartTable), VT_CONTENTS, args.contents),
                VT_POD5_VERSION,
                args.pod5_version,
            ),
            VT_SOFTWARE,
            args.software,
        ),
        VT_FILE_IDENTIFIER,
        args.file_identifier,
    ).push(BuilderCall::EndTable { start: table_start(before) })
}

/// The offset that the builder returns for the footer's own record.
pub open spec fn footer_table_offset(before: Seq<BuilderCall>, args: FooterArgs) -> u32 {
    table_end(footer_table_calls(before, args).drop_last(), table_start(before))
}

/// Whether an offset that is there was returned by the builder.
pub open spec fn issued_if_some(calls: Seq<BuilderCall>, target: Option<u32>) -> bool {
    target matches Some(t) ==> issued(calls, t)
}

/// Writes an embedded-file record field by field. The builder holds the
/// record builder until the record is finished.
pub struct EmbeddedFileBuilder<'b> {
    pub fbb_: &'b mut RecordBuilder,
    pub start_: u32,
}

impl<'b> EmbeddedFileBuilder<'b> {
    /// Whether a field of `cost` bytes can be added: the record is open, and
    /// the footer has room.
    pub open spec fn can_add(&self, cost: int) -> bool {
        &&& table_open(builder_calls(self.fbb_))
        &&& record_bound(builder_calls(self.fbb_)) + cost <= MAX_RECORD
    }

    /// Starts an embedded-file record.
    pub fn new(_fbb: &'b mut RecordBuilder) -> (builder: EmbeddedFileBuilder<'b>)
        requires
            !table_open(builder_calls(old(_fbb))),
            !finished(builder_calls(old(_fbb))),
        ensures
            builder_calls(builder.fbb_) == builder_calls(old(_fbb)).push(BuilderCall::StartTable),
            builder.start_ == table_start(builder_calls(old(_fbb))),
            *final(_fbb) == *final(builder.fbb_),
    {
        let start = start_table(_fbb);
        EmbeddedFileBuilder { fbb_: _fbb, start_: start }
    }

    /// Adds the position of the table. A position of 0 is the default and
    /// takes no room in the record.
    pub fn add_offset(&mut self, offset: i64)
        requires
            old(self).can_add(15),
        ensures
            builder_calls(final(self).fbb_) == builder_calls(old(self).fbb_).push(
                BuilderCall::PushSlotI64 { slot: VT_OFFSET, value: offset, default: 0 },
            ),
            final(self).start_ == old(self).start_,
            *final(final(self).fbb_) == *final(old(self).fbb_),
    {
        push_slot_i64(self.fbb_, VT_OFFSET, offset, 0);
    }

    /// Adds the length of the table. A length of 0 is the default and takes
    /// no room in the record.
    pub fn add_length(&mut self, length: i64)
        requires
            old(self).can_add(15),
        ensures
            builder_calls(final(self).fbb_) == builder_calls(old(self).fbb_).push(
                BuilderCall::PushSlotI64 { slot: VT_LENGTH, value: length, default: 0 },
            ),
            final(self).start_ == old(self).start_,
            *final(final(self).fbb_) == *final(old(self).fbb_),
    {
        push_slot_i64(self.fbb_, VT_LENGTH, length, 0);
    }

    /// Adds the format of the table. `FeatherV2` is the default and takes no
    /// room in the record.
    pub fn add_format(&mut self, format: Format)
        requires
            old(self).can_add(3),
        ensures
            builder_calls(final(self).fbb_) == builder_calls(old(self).fbb_).push(
                BuilderCall::PushSlotI16 { slot: VT_FORMAT, value: format.spec_wire(), default: 0 },
            ),
            final(self).start_ == old(self).start_,
            *final(final(self).fbb_) == *final(old(self).fbb_),
    {
        push_slot_i16(self.fbb_, VT_FORMAT, format.wire(), 0);
    }

    /// Adds the content kind of the table. `ReadsTable` is the default and
    /// takes no room in the record.
    pub fn add_content_type(&mut self, content_type: ContentType)
        requires
            old(self).can_add(3),
        ensures
            builder_calls(final(self).fbb_) == builder_calls(old(self).fbb_).push(
                BuilderCall::PushSlotI16 {
                    slot: VT_CONTENT_TYPE,
                    value: content_type.spec_wire(),
                    default: 0,
                },
            ),
            final(self).start_ == old(self).start_,
            *final(final(self).fbb_) == *final(old(self).fbb_),
    {
        push_slot_i16(self.fbb_, VT_CONTENT_TYPE, content_type.wire(), 0);
    }

    /// Ends the record and returns its offset.
    pub fn finish(self) -> (offset: u32)
        requires
            table_open(builder_calls(self.fbb_)),
            self.start_ == open_start(builder_calls(self.fbb_)),
            open_bound(builder_calls(self.fbb_)) + 7 < 0x1_0000,
            record_bound(builder_calls(self.fbb_)) + 9 + open_width(builder_calls(self.fbb_))
                <= MAX_RECORD,
        ensures
            builder_calls(final(self.fbb_)) == builder_calls(old(self.fbb_)).push(
                BuilderCall::EndTable { start: self.start_ },
            ),
            offset == table_end(builder_calls(old(self.fbb_)), self.start_),
    {
        end_table(self.fbb_, self.start_)
    }
}

/// Writes the footer's own record field by field. The builder holds the
/// record builder until the record is finished.
pub struct FooterBuilder<'b> {
    pub fbb_: &'b mut RecordBuilder,
    pub start_: u32,
}

impl<'b> FooterBuilder<'b> {
    /// Whether a field can be added that points to `target`: the record is
    /// open, the footer has room, and `target` is an offset that the record
    /// builder returned.
    pub open spec fn can_add(&self, target: u32) -> bool {
        &&& table_open(builder_calls(self.fbb_))
        &&& issued(builder_calls(self.fbb_), target)
        &&& record_bound(builder_calls(self.fbb_)) + 7 <= MAX_RECORD
    }

    /// Starts the footer's record.
    pub fn new(_fbb: &'b mut RecordBuilder) -> (builder: FooterBuilder<'b>)
        requires
            !table_open(builder_calls(old(_fbb))),
            !finished(builder_calls(old(_fbb))),
        ensures
            builder_calls(builder.fbb_) == builder_calls(old(_fbb)).push(BuilderCall::StartTable),
            builder.start_ == table_start(builder_calls(old(_fbb))),
            *final(_fbb) == *final(builder.fbb_),
    {
        let start = start_table(_fbb);
        FooterBuilder { fbb_: _fbb, start_: start }
    }

    /// Adds the file identifier, a text written before.
    pub fn add_file_identifier(&mut self, file_identifier: u32)
        requires
            old(self).can_add(file_identifier),
        ensures
            builder_calls(final(self).fbb_) == builder_calls(old(self).fbb_).push(
                BuilderCall::PushSlotOffset { slot: VT_FILE_IDENTIFIER, target: file_identifier },
            ),
            final(self).start_ == old(self).start_,
            *final(final(self).fbb_) == *final(old(self).fbb_),
    {
        push_slot_always(self.fbb_, VT_FILE_IDENTIFIER, file_identifier);
    }

    /// Adds the software tag, a text written before.
    pub fn add_software(&mut self, software: u32)
        requires
            old(self).can_add(software),
        ensures
            builder_calls(final(self).fbb_) == builder_calls(old(self).fbb_).push(
                BuilderCall::PushSlotOffset { slot: VT_SOFTWARE, target: software },
            ),
            final(self).start_ == old(self).start_,
            *final(final(self).fbb_) == *final(old(self).fbb_),
    {
        push_slot_always(self.fbb_, VT_SOFTWARE, software);
    }

    /// Adds the version tag, a text written before.
    pub fn add_pod5_version(&mut self, pod5_version: u32)
        requires
            old(self).can_add(pod5_version),
        ensures
            builder_calls(final(self).fbb_) == builder_calls(old(self).fbb_).push(
                BuilderCall::PushSlotOffset { slot: VT_POD5_VERSION, target: pod5_version },
            ),
            final(self).start_ == old(self).start_,
            *final(final(self).fbb_) == *final(old(self).fbb_),
    {
        push_slot_always(self.fbb_, VT_POD5_VERSION, pod5_version);
    }

    /// Adds the list of embedded files, written before.
    pub fn add_contents(&mut self, contents: u32)
        requires
            old(self).can_add(contents),
        ensures
            builder_calls(final(self).fbb_) == builder_calls(old(self).fbb_).push(
                BuilderCall::PushSlotOffset { slot: VT_CONTENTS, target: contents },
            ),
            final(self).start_ == old(self).start_,
            *final(final(self).fbb_) == *final(old(self).fbb_),
    {
        push_slot_always(self.fbb_, VT_CONTENTS, contents);
    }

    /// Ends the record and returns its offset.
    pub fn finish(self) -> (offset: u32)
        requires
            table_open(builder_calls(self.fbb_)),
            self.start_ == open_start(builder_calls(self.fbb_)),
            open_bound(builder_calls(self.fbb_)) + 7 < 0x1_0000,
            record_bound(builder_calls(self.fbb_)) + 9 + open_width(builder_calls(self.fbb_))
                <= MAX_RECORD,
        ensures
            builder_calls(final(self.fbb_)) == builder_calls(old(self.fbb_)).push(
                BuilderCall::EndTable { start: self.start_ },
            ),
            offset == table_end(builder_calls(old(self.fbb_)), self.start_),
    {
        end_table(self.fbb_, self.start_)
    }
}

impl EmbeddedFile {
    /// Writes an embedded-file record into the footer under construction and
    /// returns its offset.
    pub fn create(_fbb: &mut RecordBuilder, args: &EmbeddedFileArgs) -> (offset: u32)
        requires
            !table_open(builder_calls(old(_fbb))),
            !finished(builder_calls(old(_fbb))),
            record_bound(builder_calls(old(_fbb))) + EMBEDDED_FILE_COST <= MAX_RECORD,
        ensures
            builder_calls(final(_fbb)) == embedded_file_calls(builder_calls(old(_fbb)), *args),
            offset == embedded_file_offset(builder_calls(old(_fbb)), *args),
            issued(builder_calls(final(_fbb)), offset),
            forall|o: u32|
                issued(builder_calls(old(_fbb)), o) ==> issued(builder_calls(final(_fbb)), o),
            !table_open(builder_calls(final(_fbb))),
            !finished(builder_calls(final(_fbb))),
            record_bound(builder_calls(final(_fbb))) <= record_bound(builder_calls(old(_fbb)))
                + EMBEDDED_FILE_COST,
    {
        let ghost c0 = builder_calls(_fbb);
        let ghost c1 = c0.push(BuilderCall::StartTable);
        let ghost c2 = c1.push(
            BuilderCall::PushSlotI64 { slot: VT_LENGTH, value: args.length, default: 0 },
        );
        let ghost c3 = c2.push(
            BuilderCall::PushSlotI64 { slot: VT_OFFSET, value: args.offset, default: 0 },
        );
        let ghost c4 = c3.push(
            BuilderCall::PushSlotI16 {
                slot: VT_CONTENT_TYPE,
                value: args.content_type.spec_wire(),
                default: 0,
            },
        );
        let ghost c5 = c4.push(
            BuilderCall::PushSlotI16 { slot: VT_FORMAT, value: args.format.spec_wire(), default: 0 },
        );
        proof {
            lemma_after_call(c0, c1.last());
            lemma_after_call(c1, c2.last());
            lemma_after_call(c2, c3.last());
            lemma_after_call(c3, c4.last());
            lemma_after_call(c4, c5.last());
            lemma_after_call(c5, BuilderCall::EndTable { start: table_start(c0) });
            assert(embedded_file_calls(c0, *args).drop_last() =~= c5);
        }
        let mut builder = EmbeddedFileBuilder::new(_fbb);
        builder.add_length(args.length);
        builder.add_offset(args.offset);
        builder.add_content_type(args.content_type);
        builder.add_format(args.format);
        builder.finish()
    }
}

impl Footer {
    /// Writes the footer's own record into the footer under construction and
    /// returns its offset. The offsets in `args` are those of the fields,
    /// written before.
    pub fn create(_fbb: &mut RecordBuilder, args: &FooterArgs) -> (offset: u32)
        requires
            !table_open(builder_calls(old(_fbb))),
            !finished(builder_calls(old(_fbb))),
            issued_if_some(builder_calls(old(_fbb)), args.contents),
            issued_if_some(builder_calls(old(_fbb)), args.pod5_version),
            issued_if_some(builder_calls(old(_fbb)), args.software),
            issued_if_some(builder_calls(old(_fbb)), args.file_identifier),
            record_bound(builder_calls(old(_fbb))) + FOOTER_TABLE_COST <= MAX_RECORD,
        ensures
            builder_calls(final(_fbb)) == footer_table_calls(builder_calls(old(_fbb)), *args),
            offset == footer_table_offset(builder_calls(old(_fbb)), *args),
            issued(builder_calls(final(_fbb)), offset),
            !table_open(builder_calls(final(_fbb))),
            !finished(builder_calls(final(_fbb))),
            record_bound(builder_calls(final(_fbb))) <= record_bound(builder_calls(old(_fbb)))
                + FOOTER_TABLE_COST,
    {
        let ghost c0 = builder_calls(_fbb);
        let ghost c1 = c0.push(BuilderCall::StartTable);
        let ghost c2 = with_field(c1, VT_CONTENTS, args.contents);
        let ghost c3 = with_field(c2, VT_POD5_VERSION, args.pod5_version);
        let ghost c4 = with_field(c3, VT_SOFTWARE, args.software);
        let ghost c5 = with_field(c4, VT_FILE_IDENTIFIER, args.file_identifier);
        proof {
            lemma_after_call(c0, BuilderCall::StartTable);
            if let Some(x) = args.contents {
                lemma_after_call(c1, BuilderCall::PushSlotOffset { slot: VT_CONTENTS, target: x });
            }
            if let Some(x) = args.pod5_version {
                lemma_after_call(
                    c2,
                    BuilderCall::PushSlotOffset { slot: VT_POD5_VERSION, target: x },
                );
            }
            if let Some(x) = args.software {
                lemma_after_call(c3, BuilderCall::PushSlotOffset { slot: VT_SOFTWARE, target: x });
            }
            if let Some(x) = args.file_identifier {
                lemma_after_call(
                    c4,
                    BuilderCall::PushSlotOffset { slot: VT_FILE_IDENTIFIER, target: x },
                );
            }
            lemma_after_call(c5, BuilderCall::EndTable { start: table_start(c0) });
            assert(footer_table_calls(c0, *args).drop_last() =~= c5);
        }
        let mut builder = FooterBuilder::new(_fbb);
        if let Some(x) = args.contents {
            builder.add_contents(x);
        }
        if let Some(x) = args.pod5_version {
            builder.add_pod5_version(x);
        }
        if let Some(x) = args.software {
            builder.add_software(x);
        }
        if let Some(x) = args.file_identifier {
            builder.add_file_identifier(x);
        }
        builder.finish()
    }
}

/// Ends the footer under construction with the offset of its root record.
pub fn finish_footer_buffer(fbb: &mut RecordBuilder, root: u32)
    requires
        !table_open(builder_calls(old(fbb))),
        !finished(builder_calls(old(fbb))),
        issued(builder_calls(old(fbb)), root),
        record_bound(builder_calls(old(fbb))) + 11 <= MAX_RECORD,
    ensures
        builder_calls(final(fbb)) == builder_calls(old(fbb)).push(BuilderCall::Finish { root }),
{
    finish(fbb, root);
}

/// Ends the footer under construction with the offset of its root record,
/// and puts the size of the footer in front of it.
pub fn finish_size_prefixed_footer_buffer(fbb: &mut RecordBuilder, root: u32)
    requires
        !table_open(builder_calls(old(fbb))),
        !finished(builder_calls(old(fbb))),
        issued(builder_calls(old(fbb)), root),
        record_bound(builder_calls(old(fbb))) + 15 <= MAX_RECORD,
    ensures
        builder_calls(final(fbb)) == builder_calls(old(fbb)).push(
            BuilderCall::FinishSizePrefixed { root },
        ),
{
    finish_size_prefixed(fbb, root);
}

} // verus!
