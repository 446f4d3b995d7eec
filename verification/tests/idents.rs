use podders::ident::{_generate_section_marker, identifier_text, parse_identifier};
use podders::reads_format::{ContentType, EmbeddedFileArgs, Format};
use podders::Pod5Error;

#[test]
fn the_canonical_text_is_hyphenated_lower_case_hex() {
    let id = [
        0x56, 0x20, 0x23, 0x82, 0x7c, 0xda, 0x49, 0xe4, 0x94, 0x03, 0x2a, 0x4f, 0x6a, 0xcc, 0x22, 0xab,
    ];
    assert_eq!(identifier_text(&id), "56202382-7cda-49e4-9403-2a4f6acc22ab");
    assert_eq!(identifier_text(&[0u8; 16]), "00000000-0000-0000-0000-000000000000");
    assert_eq!(identifier_text(&[0xffu8; 16]), "ffffffff-ffff-ffff-ffff-ffffffffffff");
    assert_eq!(
        identifier_text(&[0x01, 0x23, 0x45, 0x67, 0x89, 0xab, 0xcd, 0xef, 0x10, 0x32, 0x54, 0x76, 0x98, 0xba, 0xdc, 0xfe]),
        "01234567-89ab-cdef-1032-547698badcfe"
    );
}

#[test]
fn an_identifier_is_read_from_its_text() {
    assert_eq!(
        parse_identifier("9e81bb6a-8610-4907-b4dd-4ed834fc414d"),
        Ok([0x9e, 0x81, 0xbb, 0x6a, 0x86, 0x10, 0x49, 0x07, 0xb4, 0xdd, 0x4e, 0xd8, 0x34, 0xfc, 0x41, 0x4d])
    );
    assert_eq!(
        parse_identifier("9E81BB6A86104907B4DD4ED834FC414D"),
        Ok([0x9e, 0x81, 0xbb, 0x6a, 0x86, 0x10, 0x49, 0x07, 0xb4, 0xdd, 0x4e, 0xd8, 0x34, 0xfc, 0x41, 0x4d])
    );
    let id = [7u8, 1, 2, 3, 4, 5, 6, 7, 8, 9, 10, 11, 12, 13, 14, 15];
    assert_eq!(parse_identifier(&identifier_text(&id)), Ok(id));
}

#[test]
fn a_text_that_is_no_identifier_is_refused() {
    assert_eq!(parse_identifier(""), Err(Pod5Error::InvalidIdentifier));
    assert_eq!(parse_identifier("not an identifier"), Err(Pod5Error::InvalidIdentifier));
    assert_eq!(
        parse_identifier("9e81bb6a-8610-4907-b4dd-4ed834fc414"),
        Err(Pod5Error::InvalidIdentifier)
    );
    assert_eq!(
        parse_identifier("ge81bb6a-8610-4907-b4dd-4ed834fc414d"),
        Err(Pod5Error::InvalidIdentifier)
    );
}

#[test]
fn a_fresh_marker_is_a_random_identifier_of_version_four() {
    let first = _generate_section_marker();
    let second = _generate_section_marker();
    assert_ne!(first, second);
    for marker in [first, second] {
        assert_eq!(marker.len(), 16);
        assert_eq!(marker[6] >> 4, 4);
        assert_eq!(marker[8] >> 6, 2);
    }
}

#[test]
fn kinds_and_formats_have_their_names_and_numbers() {
    assert_eq!(ContentType::ReadsTable.variant_name(), Some("ReadsTable"));
    assert_eq!(ContentType::SignalTable.variant_name(), Some("SignalTable"));
    assert_eq!(ContentType::ReadIdIndex.variant_name(), Some("ReadIdIndex"));
    assert_eq!(ContentType::OtherIndex.variant_name(), Some("OtherIndex"));
    assert_eq!(ContentType::RunInfoTable.variant_name(), Some("RunInfoTable"));
    assert_eq!(Format::FeatherV2.variant_name(), Some("FeatherV2"));
    let kinds = [
        ContentType::ReadsTable,
        ContentType::SignalTable,
        ContentType::ReadIdIndex,
        ContentType::OtherIndex,
        ContentType::RunInfoTable,
    ];
    for (number, kind) in kinds.iter().enumerate() {
        assert_eq!(kind.wire(), number as i16);
        assert_eq!(ContentType::from_wire(number as i16), *kind);
    }
    assert_eq!(ContentType::from_wire(5), ContentType::Unknown(5));
    assert_eq!(ContentType::from_wire(-1), ContentType::Unknown(-1));
    assert_eq!(ContentType::Unknown(5).wire(), 5);
    assert_eq!(ContentType::Unknown(5).variant_name(), None);
    assert_eq!(ContentType::Unknown(2).variant_name(), Some("ReadIdIndex"));
    assert_eq!(Format::Unknown(0).variant_name(), Some("FeatherV2"));
    assert_eq!(Format::FeatherV2.wire(), 0);
    assert_eq!(Format::from_wire(0), Format::FeatherV2);
    assert_eq!(Format::from_wire(1), Format::Unknown(1));
    assert_eq!(Format::Unknown(1).wire(), 1);
    assert_eq!(Format::Unknown(1).variant_name(), None);
    assert_eq!(ContentType::default(), ContentType::ReadsTable);
    assert_eq!(Format::default(), Format::FeatherV2);
    assert_eq!(
        EmbeddedFileArgs::default(),
        EmbeddedFileArgs {
            offset: 0,
            length: 0,
            format: Format::FeatherV2,
            content_type: ContentType::ReadsTable
        }
    );
}

#[test]
fn every_error_has_its_message() {
    let errors = [
        (Pod5Error::MalformedTrailer, "malformed trailer"),
        (Pod5Error::MalformedFooter, "malformed footer"),
        (Pod5Error::KindNotPresent, "content kind not present"),
        (Pod5Error::DictionaryOverflow, "too many distinct categorical values"),
        (Pod5Error::OutOfOrder, "call out of order"),
        (Pod5Error::SchemaMismatch, "columns do not match the schema"),
        (Pod5Error::InvalidIdentifier, "invalid identifier"),
        (Pod5Error::Codec, "the columnar codec refused the table"),
        (Pod5Error::DuplicateKey, "a key stands twice in a tag map"),
        (Pod5Error::TooLarge, "value too large for the format"),
    ];
    for (error, message) in errors {
        assert_eq!(error.message(), message);
    }
}
