//! The footer of a file and the trailer around it: how the writer closes a
//! file, and how a reader finds a table from the end of the file.

use vstd::prelude::*;
use vstd::slice::slice_subrange;
use vstd::utf8::encode_utf8;
use crate::endian::{
    le_bytes_i64, le_i64_at, lemma_le_bytes_i64_len, lemma_le_i64_round_trip, push_i64, read_i64,
    to_unsigned_64, unsigned_64,
};
use crate::error::Pod5Error;
use crate::flat::{
    builder_calls, create_string, create_vector, finished, finished_bytes, finished_data,
    issued, lemma_after_call, new_builder, record_bound, string_offset, table_open, vector_offset,
    BuilderCall, MAX_RECORD,
};
use crate::ident::{hyphenated_text, identifier_text};
use crate::reads_format::{
    embedded_file_calls, embedded_file_offset, finish_footer_buffer, footer_table_calls,
    footer_table_offset, parse_footer, root_as_footer, ContentType, EmbeddedFile, EmbeddedFileArgs, Footer, FooterArgs,
    FooterContent,
};
use crate::section::{append_bytes, append_zeros, lemma_section_aligned, padding_for, section_bytes};
use crate::{POD5_VERSION, SIGNATURE, SOFTWARE};

verus! {

/// The tag that stands before the footer: `FOOTER` and two zero bytes.
pub const FOOTER_MAGIC: [u8; 8] = [0x46, 0x4F, 0x4F, 0x54, 0x45, 0x52, 0x00, 0x00];

/// Where a table lies in a file: the position of its first byte and the
/// number of its bytes.
#[derive(Clone, Copy, PartialEq, Eq, Structural, Debug)]
pub struct FileInfo {
    pub offset: u64,
    pub length: u64,
}

/// The calls that write the first `k` embedded-file records.
pub open spec fn files_calls(before: Seq<BuilderCall>, files: Seq<EmbeddedFileArgs>, k: int) -> Seq<
    BuilderCall,
>
    decreases k,
{
    if k <= 0 {
        before
    } else {
        embedded_file_calls(files_calls(before, files, k - 1), files[k - 1])
    }
}

/// The offsets that the builder returns for the first `k` embedded-file
/// records.
pub open spec fn files_offsets(before: Seq<BuilderCall>, files: Seq<EmbeddedFileArgs>, k: int) -> Seq<
    u32,
>
    decreases k,
{
    if k <= 0 {
        Seq::empty()
    } else {
        files_offsets(before, files, k - 1).push(
            embedded_file_offset(files_calls(before, files, k - 1), files[k - 1]),
        )
    }
}

/// The calls after the three texts of a footer.
pub open spec fn texts_calls(footer: FooterContent) -> Seq<BuilderCall> {
    seq![
        BuilderCall::CreateString { text: footer.file_identifier },
        BuilderCall::CreateString { text: footer.software },
        BuilderCall::CreateString { text: footer.pod5_version },
    ]
}

/// The offsets of the fields of a footer, once its texts and entries are
/// written.
pub open spec fn footer_args(footer: FooterContent) -> FooterArgs {
    let texts = texts_calls(footer);
    let n = footer.contents.len() as int;
    FooterArgs {
        file_identifier: Some(string_offset(texts.take(0), footer.file_identifier)),
        software: Some(string_offset(texts.take(1), footer.software)),
        pod5_version: Some(string_offset(texts.take(2), footer.pod5_version)),
        contents: Some(
            vector_offset(
                files_calls(texts, footer.contents, n),
                files_offsets(texts, footer.contents, n),
            ),
        ),
    }
}

/// The calls on the record builder that write a footer: the three texts,
/// one record for each embedded file, the list of these records, the
/// footer's own record, and the end.
pub open spec fn footer_calls(footer: FooterContent) -> Seq<BuilderCall> {
    let texts = texts_calls(footer);
    let n = footer.contents.len() as int;
    let listed = files_calls(texts, footer.contents, n).push(
        BuilderCall::CreateVector { items: files_offsets(texts, footer.contents, n) },
    );
    footer_table_calls(listed, footer_args(footer)).push(
        BuilderCall::Finish { root: footer_table_offset(listed, footer_args(footer)) },
    )
}

/// The bytes of a footer: what the record builder makes of the footer's
/// calls.
pub open spec fn footer_bytes(footer: FooterContent) -> Seq<u8> {
    finished_bytes(footer_calls(footer))
}

/// The most bytes that a footer takes.
pub open spec fn footer_cost(footer: FooterContent) -> int {
    (encode_utf8(footer.file_identifier).len() + encode_utf8(footer.software).len() + encode_utf8(
        footer.pod5_version,
    ).len() + 59 * footer.contents.len() + 89) as int
}

/// Serializes a footer: the identifier of the file, the software tag, the
/// version tag and the descriptors of the embedded tables, in their order.
///
/// Fails where the footer could outgrow the 2^31 - 1 bytes that the record
/// format allows.
pub fn build_footer(
    file_identifier: &str,
    software: &str,
    pod5_version: &str,
    contents: &Vec<EmbeddedFileArgs>,
) -> (result: Result<Vec<u8>, Pod5Error>)
    ensures
        result is Ok <==> footer_cost(
            FooterContent {
                file_identifier: file_identifier@,
                software: software@,
                pod5_version: pod5_version@,
                contents: contents@,
            },
        ) <= MAX_RECORD,
        result matches Ok(bytes) ==> bytes@ == footer_bytes(
            FooterContent {
                file_identifier: file_identifier@,
                software: software@,
                pod5_version: pod5_version@,
                contents: contents@,
            },
        ),
        result matches Err(e) ==> e == Pod5Error::TooLarge,
{
    let ghost footer = FooterContent {
        file_identifier: file_identifier@,
        software: software@,
        pod5_version: pod5_version@,
        contents: contents@,
    };
    let n: usize = contents.len();
    let cost: u128 = file_identifier.as_bytes().len() as u128 + software.as_bytes().len() as u128
        + pod5_version.as_bytes().len() as u128 + 59 * (n as u128) + 89;
    if cost > MAX_RECORD as u128 {
        return Err(Pod5Error::TooLarge);
    }
    let ghost texts = texts_calls(footer);
    let mut builder = new_builder();
    let ghost c0 = builder_calls(&builder);
    proof {
        assert(record_bound(c0) == 0);
        assert(!table_open(c0) && !finished(c0));
        lemma_after_call(c0, BuilderCall::CreateString { text: footer.file_identifier });
    }
    let id = create_string(&mut builder, file_identifier);
    let ghost c1 = builder_calls(&builder);
    proof {
        lemma_after_call(c1, BuilderCall::CreateString { text: footer.software });
    }
    let sw = create_string(&mut builder, software);
    let ghost c2 = builder_calls(&builder);
    proof {
        lemma_after_call(c2, BuilderCall::CreateString { text: footer.pod5_version });
    }
    let version = create_string(&mut builder, pod5_version);
    proof {
        assert(c0 =~= texts.take(0));
        assert(c1 =~= texts.take(1));
        assert(c2 =~= texts.take(2));
        assert(builder_calls(&builder) =~= texts);
    }
    let mut offsets: Vec<u32> = Vec::new();
    let mut i: usize = 0;
    while i < n
        invariant
            i <= n,
            n == contents@.len(),
            footer.contents == contents@,
            builder_calls(&builder) == files_calls(texts, footer.contents, i as int),
            offsets@ == files_offsets(texts, footer.contents, i as int),
            offsets@.len() == i,
            forall|k: int| 0 <= k < i ==> issued(builder_calls(&builder), #[trigger] offsets@[k]),
            issued(builder_calls(&builder), id),
            issued(builder_calls(&builder), sw),
            issued(builder_calls(&builder), version),
            !table_open(builder_calls(&builder)),
            !finished(builder_calls(&builder)),
            record_bound(builder_calls(&builder)) <= cost - 59 * n - 65 + 55 * i,
            cost <= MAX_RECORD,
        decreases n - i,
    {
        let ghost issued_before = offsets@;
        let offset = EmbeddedFile::create(&mut builder, &contents[i]);
        offsets.push(offset);
        i += 1;
        assert forall|k: int| 0 <= k < i implies issued(
            builder_calls(&builder),
            #[trigger] offsets@[k],
        ) by {
            if k < i - 1 {
                assert(offsets@[k] == issued_before[k]);
            }
        }
    }
    let ghost c4 = builder_calls(&builder);
    proof {
        lemma_after_call(c4, BuilderCall::CreateVector { items: offsets@ });
    }
    let listed = create_vector(&mut builder, &offsets);
    let args = FooterArgs {
        file_identifier: Some(id),
        software: Some(sw),
        pod5_version: Some(version),
        contents: Some(listed),
    };
    assert(args == footer_args(footer));
    let ghost c5 = builder_calls(&builder);
    let root = Footer::create(&mut builder, &args);
    let ghost c6 = builder_calls(&builder);
    proof {
        lemma_after_call(c6, BuilderCall::Finish { root });
    }
    finish_footer_buffer(&mut builder, root);
    assert(builder_calls(&builder) == footer_calls(footer));
    Ok(finished_data(&builder))
}

/// What closing a file adds to it, from a cursor at `start`: the magic tag,
/// the footer as a section of its own, the footer length, the section
/// marker once more, and the signature. The footer length counts the bytes
/// from behind the magic tag up to the length field: the footer, its
/// padding and its marker.
pub open spec fn trailer_bytes(start: int, body: Seq<u8>, marker: Seq<u8>) -> Seq<u8> {
    FOOTER_MAGIC@ + section_bytes(start + 8, body, marker) + le_bytes_i64(
        section_bytes(start + 8, body, marker).len() as i64,
    ) + marker + SIGNATURE@
}

/// Whether the end of a file closed from a cursor at `start` stays within
/// the signed 64-bit positions of the format.
pub open spec fn trailer_fits(start: int, body_len: int) -> bool {
    start + 8 + body_len + padding_for(start + 8 + body_len) + 16 + 32 <= i64::MAX
}

/// The footer's position and length as a reader finds them from the end of
/// a file: the length stands in the eight bytes that begin 32 bytes before
/// the end, and the footer ends where they begin. `None` where the file is
/// shorter than 32 bytes, or the length is negative or greater than what
/// lies before the length field.
pub open spec fn footer_span(file: Seq<u8>) -> Option<(int, int)> {
    if file.len() < 32 {
        None
    } else {
        let length = le_i64_at(file, file.len() - 32);
        if 0 <= length <= file.len() - 32 {
            Some((file.len() - 32 - length, length))
        } else {
            None
        }
    }
}

/// The first entry of the given kind.
pub open spec fn find_kind(contents: Seq<EmbeddedFileArgs>, kind: ContentType) -> Option<
    EmbeddedFileArgs,
>
    decreases contents.len(),
{
    if contents.len() == 0 {
        None
    } else if contents[0].content_type == kind {
        Some(contents[0])
    } else {
        find_kind(contents.drop_first(), kind)
    }
}

/// Where a descriptor says its table lies, its two signed numbers read as
/// unsigned ones.
pub open spec fn file_info_of(entry: EmbeddedFileArgs) -> FileInfo {
    FileInfo {
        offset: unsigned_64(entry.offset as int) as u64,
        length: unsigned_64(entry.length as int) as u64,
    }
}

/// The entries that a footer lists: none where the record leaves the list
/// out.
pub open spec fn listed(contents: Option<Seq<EmbeddedFileArgs>>) -> Seq<EmbeddedFileArgs> {
    match contents {
        Some(entries) => entries,
        None => Seq::empty(),
    }
}

/// What looking for a table in the bytes of a footer gives.
pub open spec fn table_in_footer(footer: Seq<u8>, kind: ContentType) -> Result<
    FileInfo,
    Pod5Error,
> {
    match parse_footer(footer) {
        None => Err(Pod5Error::MalformedFooter),
        Some(parsed) => match find_kind(listed(parsed.contents), kind) {
            None => Err(Pod5Error::KindNotPresent),
            Some(entry) => Ok(file_info_of(entry)),
        },
    }
}

/// What looking for a table in a file gives: the footer is found from the
/// end of the file, read, and searched for the first entry of the kind.
#[verifier::opaque]
pub open spec fn located_table(file: Seq<u8>, kind: ContentType) -> Result<FileInfo, Pod5Error> {
    match footer_span(file) {
        None => Err(Pod5Error::MalformedTrailer),
        Some((start, length)) => table_in_footer(file.subrange(start, start + length), kind),
    }
}

/// `find_kind` gives an entry of the kind that stands in the list, and
/// `None` only where no entry is of the kind.
pub proof fn lemma_find_kind(contents: Seq<EmbeddedFileArgs>, kind: ContentType)
    ensures
        match find_kind(contents, kind) {
            Some(entry) => exists|i: int|
                0 <= i < contents.len() && contents[i] == entry && entry.content_type == kind
                    && forall|k: int| 0 <= k < i ==> contents[k].content_type != kind,
            None => forall|i: int| 0 <= i < contents.len() ==> contents[i].content_type != kind,
        },
    decreases contents.len(),
{
    if contents.len() > 0 && contents[0].content_type != kind {
        let rest = contents.drop_first();
        lemma_find_kind(rest, kind);
        match find_kind(rest, kind) {
            Some(entry) => {
                let i = choose|i: int|
                    0 <= i < rest.len() && rest[i] == entry && entry.content_type == kind
                        && forall|k: int| 0 <= k < i ==> rest[k].content_type != kind;
                assert(contents[i + 1] == entry);
                assert forall|k: int| 0 <= k < i + 1 implies contents[k].content_type != kind by {
                    if k > 0 {
                        assert(rest[k - 1] == contents[k]);
                    }
                }
            },
            None => {
                assert forall|i: int| 0 <= i < contents.len() implies contents[i].content_type
                    != kind by {
                    if i > 0 {
                        assert(rest[i - 1] == contents[i]);
                    }
                }
            },
        }
    } else if contents.len() > 0 {
        assert(contents[0] == find_kind(contents, kind)->0);
    }
}

/// Trailer symmetry: in a file that was closed with `trailer_bytes`, a
/// reader finds the footer where the writer put it. The span that it reads
/// begins behind the magic tag and holds the footer, its padding and its
/// marker.
pub proof fn lemma_trailer_symmetry(before: Seq<u8>, body: Seq<u8>, marker: Seq<u8>)
    requires
        marker.len() == 16,
        trailer_fits(before.len() as int, body.len() as int),
    ensures
        ({
            let start = before.len() as int;
            let file = before + trailer_bytes(start, body, marker);
            let section = section_bytes(start + 8, body, marker);
            &&& file.len() == start + 8 + section.len() + 32
            &&& file.len() % 8 == 0
            &&& footer_span(file) == Some((start + 8, section.len() as int))
            &&& file.subrange(start + 8, start + 8 + section.len()) == section
        }),
{
    let start = before.len() as int;
    let section = section_bytes(start + 8, body, marker);
    let file = before + trailer_bytes(start, body, marker);
    let stored = le_bytes_i64(section.len() as i64);
    lemma_section_aligned(start + 8, body, marker);
    lemma_le_bytes_i64_len(section.len() as i64);
    let field = start + 8 + section.len();
    assert(file.len() == field + 32);
    assert(file.subrange(field, field + 8) =~= stored);
    lemma_le_i64_round_trip(file, field, section.len() as i64);
    assert(file.subrange(start + 8, start + 8 + section.len()) =~= section);
}

/// Closes a file: writes the magic tag, the footer as a section, the footer
/// length, the section marker and the signature.
///
/// Fails, and changes nothing, where the end of the file would not fit the
/// signed 64-bit positions of the format.
pub fn write_trailer(file: &mut Vec<u8>, body: &[u8], section_marker: &[u8; 16]) -> (result:
    Result<(), Pod5Error>)
    ensures
        result is Ok <==> trailer_fits(old(file)@.len() as int, body@.len() as int),
        result is Ok ==> final(file)@ == old(file)@ + trailer_bytes(
            old(file)@.len() as int,
            body@,
            section_marker@,
        ),
        result matches Err(e) ==> e == Pod5Error::TooLarge && final(file)@ == old(file)@,
{
    let start: usize = file.len();
    let size: usize = body.len();
    let limit: u128 = 0x7fff_ffff_ffff_ffff;
    let after_body: u128 = start as u128 + 8 + size as u128;
    let padding: usize = ((8 - after_body % 8) % 8) as usize;
    if after_body + padding as u128 + 16 + 32 > limit {
        return Err(Pod5Error::TooLarge);
    }
    let ghost before = file@;
    let ghost section = section_bytes(start + 8, body@, section_marker@);
    proof {
        lemma_section_aligned(start + 8, body@, section_marker@);
    }
    append_bytes(file, FOOTER_MAGIC.as_slice());
    append_bytes(file, body);
    append_zeros(file, padding);
    append_bytes(file, section_marker.as_slice());
    assert(file@ =~= before + FOOTER_MAGIC@ + section);
    let footer_length: i64 = (size as u64 + padding as u64 + 16) as i64;
    push_i64(file, footer_length);
    append_bytes(file, section_marker.as_slice());
    append_bytes(file, SIGNATURE.as_slice());
    assert(file@ =~= before + trailer_bytes(start as int, body@, section_marker@));
    Ok(())
}

/// Finds the footer from the end of a file: `trailer` holds the last 32
/// bytes of a file of `file_len` bytes. The result is the position of the
/// footer and its length.
///
/// Fails where the file is shorter than 32 bytes, and where the length in
/// the trailer is negative or greater than what lies before the trailer.
pub fn locate_footer(file_len: u64, trailer: &[u8; 32]) -> (result: Result<(u64, u64), Pod5Error>)
    ensures
        match result {
            Ok((start, length)) => {
                &&& 0 <= le_i64_at(trailer@, 0) <= file_len - 32
                &&& length == le_i64_at(trailer@, 0)
                &&& start == file_len - 32 - length
            },
            Err(e) => e == Pod5Error::MalformedTrailer && !(0 <= le_i64_at(trailer@, 0) <= file_len
                - 32),
        },
{
    if file_len < 32 {
        return Err(Pod5Error::MalformedTrailer);
    }
    let length: i64 = read_i64(trailer.as_slice(), 0);
    if length < 0 || length as u64 > file_len - 32 {
        return Err(Pod5Error::MalformedTrailer);
    }
    Ok((file_len - 32 - length as u64, length as u64))
}

/// Looks for the table of a kind in the entries of a footer: the first
/// entry of the kind, in the order of the footer.
pub fn find_table(footer: &Footer, table: ContentType) -> (result: Result<FileInfo, Pod5Error>)
    ensures
        result == match find_kind(listed(footer@.contents), table) {
            None => Err::<FileInfo, Pod5Error>(Pod5Error::KindNotPresent),
            Some(entry) => Ok(file_info_of(entry)),
        },
{
    let entries = match footer.contents() {
        Some(entries) => entries,
        None => {
            return Err(Pod5Error::KindNotPresent);
        },
    };
    let ghost contents = listed(footer@.contents);
    let n = entries.len();
    let mut i: usize = 0;
    assert(contents.subrange(0, contents.len() as int) =~= contents);
    while i < n
        invariant
            i <= n,
            n == entries@.len(),
            contents == listed(footer@.contents),
            contents.len() == n,
            forall|k: int| 0 <= k < n ==> entries@[k]@ == contents[k],
            find_kind(contents, table) == find_kind(
                contents.subrange(i as int, contents.len() as int),
                table,
            ),
        decreases n - i,
    {
        let ghost rest = contents.subrange(i as int, contents.len() as int);
        assert(rest[0] == contents[i as int]);
        assert(rest.drop_first() =~= contents.subrange(i + 1, contents.len() as int));
        if entries[i].content_type() == table {
            return Ok(
                FileInfo {
                    offset: to_unsigned_64(entries[i].offset()),
                    length: to_unsigned_64(entries[i].length()),
                },
            );
        }
        i += 1;
    }
    Err(Pod5Error::KindNotPresent)
}

/// Looks for the table of a kind in the bytes of a footer.
pub fn read_footer_bytes(footer: &[u8], table: ContentType) -> (result: Result<
    FileInfo,
    Pod5Error,
>)
    ensures
        result == table_in_footer(footer@, table),
{
    match root_as_footer(footer) {
        Ok(parsed) => find_table(&parsed, table),
        Err(e) => Err(e),
    }
}

/// The span of the footer in a file image, from its first byte up to the
/// length field.
fn footer_range(file: &[u8]) -> (range: Option<(usize, usize)>)
    ensures
        match range {
            Some((start, end)) => start <= end <= file@.len() && footer_span(file@) == Some(
                (start as int, end - start),
            ),
            None => footer_span(file@) is None,
        },
{
    let len: usize = file.len();
    if len < 32 {
        return None;
    }
    let length: i64 = read_i64(file, len - 32);
    if length < 0 || length as u64 > (len - 32) as u64 {
        return None;
    }
    let end: usize = len - 32;
    Some((end - length as usize, end))
}

/// Finds the table of a kind in a file: reads the footer length 32 bytes
/// before the end, reads the footer that ends there, and takes the first
/// entry of the kind.
///
/// Fails where the file does not end in a trailer (`MalformedTrailer`),
/// where the bytes at the footer's place are no footer (`MalformedFooter`),
/// and where the footer has no entry of the kind (`KindNotPresent`).
pub fn read_pod5_footer(file: &[u8], table: ContentType) -> (result: Result<FileInfo, Pod5Error>)
    ensures
        result == located_table(file@, table),
{
    reveal(located_table);
    match footer_range(file) {
        Some((start, end)) => read_footer_bytes(slice_subrange(file, start, end), table),
        None => Err(Pod5Error::MalformedTrailer),
    }
}

/// The footer that the writer puts into a file: the file's identifier in
/// its canonical text, the writer's name, the version of the format, and the
/// given descriptors.
pub open spec fn written_footer(file_identifier: Seq<u8>, contents: Seq<EmbeddedFileArgs>)
    -> FooterContent {
    FooterContent {
        file_identifier: hyphenated_text(file_identifier),
        software: SOFTWARE@,
        pod5_version: POD5_VERSION@,
        contents,
    }
}

/// Whether a file whose cursor stands at `start` can be closed with the given
/// footer: the footer and the file stay within the sizes of the format, and
/// the footer's bytes, as a reader will find them, read back as the footer.
pub open spec fn footer_closes(
    start: int,
    file_identifier: Seq<u8>,
    contents: Seq<EmbeddedFileArgs>,
    marker: Seq<u8>,
) -> bool {
    let footer = written_footer(file_identifier, contents);
    &&& footer_sized(start, file_identifier, contents)
    &&& parse_footer(section_bytes(start + 8, footer_bytes(footer), marker)) == Some(
        footer.present(),
    )
}

/// Whether the footer and the file that it closes stay within the sizes of
/// the format.
pub open spec fn footer_sized(
    start: int,
    file_identifier: Seq<u8>,
    contents: Seq<EmbeddedFileArgs>,
) -> bool {
    let footer = written_footer(file_identifier, contents);
    footer_cost(footer) <= MAX_RECORD && trailer_fits(start, footer_bytes(footer).len() as int)
}

/// The descriptors that a list of references points to.
pub open spec fn pointed(embedded_args: Seq<&EmbeddedFileArgs>) -> Seq<EmbeddedFileArgs> {
    Seq::new(embedded_args.len(), |i: int| *embedded_args[i])
}

/// What a reader finds for a kind in a footer with the given entries.
pub open spec fn table_among(contents: Seq<EmbeddedFileArgs>, kind: ContentType) -> Result<
    FileInfo,
    Pod5Error,
> {
    match find_kind(contents, kind) {
        None => Err(Pod5Error::KindNotPresent),
        Some(entry) => Ok(file_info_of(entry)),
    }
}

fn copy_descriptors(embedded_args: &Vec<&EmbeddedFileArgs>) -> (contents: Vec<EmbeddedFileArgs>)
    ensures
        contents@ == pointed(embedded_args@),
{
    let mut contents: Vec<EmbeddedFileArgs> = Vec::new();
    let mut i: usize = 0;
    while i < embedded_args.len()
        invariant
            i <= embedded_args@.len(),
            contents@.len() == i,
            forall|k: int| 0 <= k < i ==> contents@[k] == *embedded_args@[k],
        decreases embedded_args@.len() - i,
    {
        contents.push(*embedded_args[i]);
        i += 1;
    }
    assert(contents@ =~= pointed(embedded_args@));
    contents
}

/// Joins a footer, its padding and the marker as they will stand in a file
/// whose cursor is at `start` before the magic tag. `None` where the end of
/// the file would not fit the format's positions.
fn footer_section(start: usize, body: &Vec<u8>, section_marker: &[u8; 16]) -> (section: Option<
    Vec<u8>,
>)
    ensures
        section is Some <==> trailer_fits(start as int, body@.len() as int),
        section matches Some(bytes) ==> bytes@ == section_bytes(
            start + 8,
            body@,
            section_marker@,
        ),
{
    let size: usize = body.len();
    let limit: u128 = 0x7fff_ffff_ffff_ffff;
    let after_body: u128 = start as u128 + 8 + size as u128;
    let padding: usize = ((8 - after_body % 8) % 8) as usize;
    if after_body + padding as u128 + 16 + 32 > limit {
        return None;
    }
    let mut section: Vec<u8> = Vec::new();
    append_bytes(&mut section, body.as_slice());
    append_zeros(&mut section, padding);
    append_bytes(&mut section, section_marker.as_slice());
    assert(section@ =~= section_bytes(start + 8, body@, section_marker@));
    Some(section)
}

/// Writes the footer and closes the file. The footer holds the file's
/// identifier, the writer's name and version, and the given descriptors in
/// their order. Before anything is written, the footer is read back as a
/// reader of the file will read it; the file is closed only if that gives
/// the footer that was meant. In the closed file a reader therefore finds,
/// for every kind, the first descriptor of the kind, and the typed
/// `KindNotPresent` for a kind without descriptor.
///
/// Fails, and changes nothing, where the footer or the file would outgrow
/// the format (`TooLarge`), or where the footer does not read back
/// (`MalformedFooter`).
pub fn write_flatbuffer_footer(
    file_handle: &mut Vec<u8>,
    embedded_args: Vec<&EmbeddedFileArgs>,
    file_identifer: &[u8; 16],
    section_marker: &[u8; 16],
) -> (result: Result<(), Pod5Error>)
    ensures
        ({
            let footer = written_footer(file_identifer@, pointed(embedded_args@));
            let start = old(file_handle)@.len() as int;
            let body = footer_bytes(footer);
            let sized = footer_sized(start, file_identifer@, pointed(embedded_args@));
            &&& result is Ok <==> footer_closes(
                start,
                file_identifer@,
                pointed(embedded_args@),
                section_marker@,
            )
            &&& result is Ok ==> {
                &&& final(file_handle)@ == old(file_handle)@ + trailer_bytes(
                    start,
                    body,
                    section_marker@,
                )
                &&& final(file_handle)@.len() % 8 == 0
                &&& forall|kind: ContentType| #[trigger]
                    located_table(final(file_handle)@, kind) == table_among(
                        footer.contents,
                        kind,
                    )
            }
            &&& result matches Err(e) ==> {
                &&& final(file_handle)@ == old(file_handle)@
                &&& e == Pod5Error::TooLarge <==> !sized
                &&& e == Pod5Error::TooLarge || e == Pod5Error::MalformedFooter
            }
        }),
{
    let contents = copy_descriptors(&embedded_args);
    let text = identifier_text(file_identifer);
    let ghost footer = written_footer(file_identifer@, pointed(embedded_args@));
    let body = match build_footer(text.as_str(), SOFTWARE, POD5_VERSION, &contents) {
        Ok(body) => body,
        Err(e) => {
            return Err(e);
        },
    };
    let start: usize = file_handle.len();
    let section = match footer_section(start, &body, section_marker) {
        Some(section) => section,
        None => {
            return Err(Pod5Error::TooLarge);
        },
    };
    match root_as_footer(section.as_slice()) {
        Ok(parsed) => {
            if !parsed.holds(&text, &SOFTWARE.to_owned(), &POD5_VERSION.to_owned(), &contents) {
                return Err(Pod5Error::MalformedFooter);
            }
        },
        Err(e) => {
            return Err(e);
        },
    }
    proof {
        lemma_trailer_symmetry(file_handle@, body@, section_marker@);
        let file = file_handle@ + trailer_bytes(start as int, body@, section_marker@);
        assert forall|kind: ContentType| #[trigger]
            located_table(file, kind) == table_among(footer.contents, kind) by {
            reveal(located_table);
        }
    }
    write_trailer(file_handle, body.as_slice(), section_marker)
}

} // verus!
